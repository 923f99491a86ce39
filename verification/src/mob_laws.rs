//! What holds of every mob, whatever tree drives it.

use vstd::prelude::*;
use crate::agent::{AgentState, AgentView};
use crate::interpreter_laws::{
    kept_by_dispatch, lemma_dispatches_keep, lemma_fails_only_by_dispatch, lemma_ticks_keep, no_dispatch_fails,
};
use crate::interpreter::{after_dispatches, after_ticks, eval, eval_sequence, ActionEffects, Event, Outcome};
use crate::mob::{action_effect, is_run_and_shoot_ai, is_top_ai, BlackBoardData, EnemyNPC};
use crate::node::Node;
use crate::status::Status;

verus! {

/// With an empty budget the probe waits, and a mob that runs or shoots all
/// the same stays as it is: the action counts as done, at no cost.
pub proof fn lemma_empty_budget(agent: AgentView, blackboard: BlackBoardData)
    requires
        agent.action_points == 0,
    ensures
        action_effect(agent, EnemyNPC::HasActionPointsLeft, blackboard).status == Status::Running,
        action_effect(agent, EnemyNPC::HasActionPointsLeft, blackboard).agent == agent,
        action_effect(agent, EnemyNPC::Run, blackboard).status == Status::Success,
        action_effect(agent, EnemyNPC::Run, blackboard).agent == agent,
        action_effect(agent, EnemyNPC::Shoot, blackboard).status == Status::Success,
        action_effect(agent, EnemyNPC::Shoot, blackboard).agent == agent,
{
}

/// No action of a mob fails: what cannot be done yet is waited for, and
/// what cannot be done at all is skipped. So no tree of a mob fails, and a
/// composite of a mob is always `Running`.
pub proof fn lemma_mob_never_fails(
    tree: Node<EnemyNPC>,
    agent: AgentView,
    blackboard: BlackBoardData,
    event: Event,
)
    ensures
        no_dispatch_fails::<EnemyNPC, BlackBoardData, AgentState>(),
        eval::<EnemyNPC, BlackBoardData, AgentState>(tree, agent, blackboard, event).status != Status::Failure,
        tree.is_composite() ==> eval::<EnemyNPC, BlackBoardData, AgentState>(
            tree,
            agent,
            blackboard,
            event,
        ).status == Status::Running,
{
    assert forall|a: AgentView, action: EnemyNPC, b: BlackBoardData, e: Event|
        (#[trigger] AgentState::effect(a, action, b, e)).status != Status::Failure by {}
    lemma_fails_only_by_dispatch::<EnemyNPC, BlackBoardData, AgentState>(tree, agent, blackboard, event);
}

/// No action takes the budget out of its bounds or moves the maximum, none
/// changes the budget by more than one point, and none makes a valid agent
/// invalid.
pub proof fn lemma_action_keeps_budget(agent: AgentView, action: EnemyNPC, blackboard: BlackBoardData)
    requires
        agent.action_points <= agent.max_action_points,
    ensures
        0 <= action_effect(agent, action, blackboard).agent.action_points <= agent.max_action_points,
        action_effect(agent, action, blackboard).agent.max_action_points == agent.max_action_points,
        action_effect(agent, action, blackboard).agent.action_points <= agent.action_points + 1,
        agent.action_points <= action_effect(agent, action, blackboard).agent.action_points + 1,
        agent.wf() ==> action_effect(agent, action, blackboard).agent.wf(),
{
}

/// What the budget laws say of an agent that started out as `start`: its
/// budget is within the bounds of `start`, and it is valid if `start` was.
pub open spec fn budget_kept(start: AgentView) -> spec_fn(AgentView, BlackBoardData) -> bool {
    |agent: AgentView, blackboard: BlackBoardData|
        {
            &&& agent.action_points <= agent.max_action_points
            &&& agent.max_action_points == start.max_action_points
            &&& start.wf() ==> agent.wf()
        }
}

/// Every dispatch keeps the budget within its bounds.
pub proof fn lemma_dispatch_keeps_budget(start: AgentView)
    ensures
        kept_by_dispatch::<EnemyNPC, BlackBoardData, AgentState>(budget_kept(start)),
{
    let inv = budget_kept(start);
    assert forall|agent: AgentView, action: EnemyNPC, blackboard: BlackBoardData, event: Event|
        inv(agent, blackboard) implies inv(
        (#[trigger] AgentState::effect(agent, action, blackboard, event)).agent,
        AgentState::effect(agent, action, blackboard, event).blackboard,
    ) by {
        lemma_action_keeps_budget(agent, action, blackboard);
    }
}

/// Whatever actions are dispatched, in whatever order, the budget stays
/// between zero and its maximum, and the maximum stays what it was.
pub proof fn lemma_budget_stays_in_bounds(
    agent: AgentView,
    blackboard: BlackBoardData,
    actions: Seq<EnemyNPC>,
    event: Event,
)
    requires
        agent.action_points <= agent.max_action_points,
    ensures
        ({
            let end = after_dispatches::<EnemyNPC, BlackBoardData, AgentState>(agent, blackboard, actions, event).0;
            &&& 0 <= end.action_points <= end.max_action_points
            &&& end.max_action_points == agent.max_action_points
            &&& agent.wf() ==> end.wf()
        }),
{
    lemma_dispatch_keeps_budget(agent);
    lemma_dispatches_keep::<EnemyNPC, BlackBoardData, AgentState>(
        agent,
        blackboard,
        actions,
        event,
        budget_kept(agent),
    );
}

/// The same of ticks: whatever the tree, and however many ticks, the budget
/// stays between zero and its maximum.
pub proof fn lemma_ticks_keep_budget_in_bounds(
    tree: Node<EnemyNPC>,
    agent: AgentView,
    blackboard: BlackBoardData,
    events: Seq<Event>,
)
    requires
        agent.action_points <= agent.max_action_points,
    ensures
        ({
            let end = after_ticks::<EnemyNPC, BlackBoardData, AgentState>(tree, agent, blackboard, events).0;
            &&& 0 <= end.action_points <= end.max_action_points
            &&& end.max_action_points == agent.max_action_points
            &&& agent.wf() ==> end.wf()
        }),
{
    lemma_dispatch_keeps_budget(agent);
    lemma_ticks_keep::<EnemyNPC, BlackBoardData, AgentState>(
        tree,
        agent,
        blackboard,
        events,
        budget_kept(agent),
    );
}

/// No action makes the playback idle: while it is busy it stays busy,
/// whatever is dispatched, until the notice of completion comes.
pub proof fn lemma_only_the_notice_frees_the_playback(
    agent: AgentView,
    action: EnemyNPC,
    blackboard: BlackBoardData,
)
    requires
        !agent.animation_ready,
    ensures
        !action_effect(agent, action, blackboard).agent.animation_ready,
        agent.animation_completed().animation_ready,
{
}

/// A rest is asked for once: while one is under way, resting again asks
/// the playback for nothing.
pub proof fn lemma_no_second_rest_request(agent: AgentView, blackboard: BlackBoardData)
    requires
        agent.rest_requested,
    ensures
        action_effect(agent, EnemyNPC::Rest, blackboard).agent.requests == agent.requests,
{
}

/// Death is final: no action revives a dead mob, and neither does the
/// notice of completion.
pub proof fn lemma_no_action_revives(agent: AgentView, action: EnemyNPC, blackboard: BlackBoardData)
    requires
        !agent.alive,
    ensures
        !action_effect(agent, action, blackboard).agent.alive,
        !agent.animation_completed().alive,
{
}

/// Death is final: a mob that is dead stays dead through any number of
/// ticks of any tree.
pub proof fn lemma_dead_stays_dead(
    tree: Node<EnemyNPC>,
    agent: AgentView,
    blackboard: BlackBoardData,
    events: Seq<Event>,
)
    requires
        !agent.alive,
    ensures
        !after_ticks::<EnemyNPC, BlackBoardData, AgentState>(tree, agent, blackboard, events).0.alive,
{
    let dead = |a: AgentView, b: BlackBoardData| !a.alive;
    assert forall|a: AgentView, action: EnemyNPC, b: BlackBoardData, e: Event| dead(a, b) implies dead(
        (#[trigger] AgentState::effect(a, action, b, e)).agent,
        AgentState::effect(a, action, b, e).blackboard,
    ) by {
        lemma_no_action_revives(a, action, b);
    }
    lemma_ticks_keep::<EnemyNPC, BlackBoardData, AgentState>(tree, agent, blackboard, events, dead);
}

/// One tick of the acting part: with an empty budget only the probe is
/// dispatched and nothing changes; otherwise the mob runs and shoots, at
/// the cost of a point each where one is left. Either way the part is
/// `Running`.
pub proof fn lemma_run_and_shoot_tick(
    tree: Node<EnemyNPC>,
    agent: AgentView,
    blackboard: BlackBoardData,
    event: Event,
)
    requires
        is_run_and_shoot_ai(tree),
    ensures
        eval::<EnemyNPC, BlackBoardData, AgentState>(tree, agent, blackboard, event) == if agent.action_points
            == 0 {
            Outcome {
                status: Status::Running,
                agent,
                blackboard,
                trace: seq![EnemyNPC::HasActionPointsLeft],
            }
        } else {
            Outcome {
                status: Status::Running,
                agent: agent.consume().consume(),
                blackboard: blackboard.shot(),
                trace: seq![EnemyNPC::HasActionPointsLeft, EnemyNPC::Run, EnemyNPC::Shoot],
            }
        },
{
    reveal_with_fuel(eval, 2);
    let children = tree.children();
    let whole = eval::<EnemyNPC, BlackBoardData, AgentState>(tree, agent, blackboard, event);
    if agent.action_points > 0 {
        // The pass over the children, taken apart from its end.
        let run = eval::<EnemyNPC, BlackBoardData, AgentState>(children[0], agent, blackboard, event);
        let shoot = eval::<EnemyNPC, BlackBoardData, AgentState>(
            children[1],
            run.agent,
            run.blackboard,
            event,
        );
        let none_left = eval_sequence::<EnemyNPC, BlackBoardData, AgentState>(
            children,
            2,
            shoot.agent,
            shoot.blackboard,
            event,
        );
        let from_shoot = eval_sequence::<EnemyNPC, BlackBoardData, AgentState>(
            children,
            1,
            run.agent,
            run.blackboard,
            event,
        );
        let pass = eval_sequence::<EnemyNPC, BlackBoardData, AgentState>(children, 0, agent, blackboard, event);
        assert(none_left.trace =~= Seq::<EnemyNPC>::empty());
        assert(from_shoot.trace =~= seq![EnemyNPC::Shoot]);
        assert(pass.trace =~= seq![EnemyNPC::Run, EnemyNPC::Shoot]);
        assert(whole.trace =~= seq![EnemyNPC::HasActionPointsLeft, EnemyNPC::Run, EnemyNPC::Shoot]);
    }
}

/// One tick of the whole policy. While the mob is alive the death probe
/// waits, so nothing but the probe is dispatched and nothing changes. Once
/// the mob is dead the acting part is evaluated; as a composite it does not
/// succeed, so the tick ends there, short of rest and death. Either way the
/// policy is `Running`.
pub proof fn lemma_top_ai_tick(
    tree: Node<EnemyNPC>,
    agent: AgentView,
    blackboard: BlackBoardData,
    event: Event,
)
    requires
        is_top_ai(tree),
    ensures
        ({
            let whole = eval::<EnemyNPC, BlackBoardData, AgentState>(tree, agent, blackboard, event);
            let acting = eval::<EnemyNPC, BlackBoardData, AgentState>(
                tree.children()[0],
                agent,
                blackboard,
                event,
            );
            &&& whole.status == Status::Running
            &&& agent.alive ==> whole.agent == agent && whole.blackboard == blackboard && whole.trace
                == seq![EnemyNPC::IsDead]
            &&& !agent.alive ==> whole.agent == acting.agent && whole.blackboard == acting.blackboard
                && whole.trace == seq![EnemyNPC::IsDead] + acting.trace
        }),
{
    reveal_with_fuel(eval, 2);
    if !agent.alive {
        lemma_run_and_shoot_tick(tree.children()[0], agent, blackboard, event);
    }
}

} // verus!
