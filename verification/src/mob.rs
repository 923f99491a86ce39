//! The mob: an agent, the actions it knows, and the tree that picks them.

use vstd::prelude::*;
use crate::agent::{AgentState, AgentView};
use crate::interpreter::{eval, ActionEffects, Effect, Event, Interpreter};
use crate::node::Node;
use crate::status::Status;

verus! {

/// The budget that a mob starts with, and the most it can hold.
pub const MAX_ACTION_POINTS: usize = 3;

/// The actions of a mob. The set is closed: every action has its effect in
/// [`AgentState::dispatch`], and the compiler sees to it that none is missing.
#[derive(Clone, Copy, Debug, PartialEq, Eq, Structural)]
pub enum EnemyNPC {
    /// Run; costs one point.
    Run,
    /// Shoot; costs one point.
    Shoot,
    /// Probe: is there a point left to spend?
    HasActionPointsLeft,
    /// Recover points, one rest at a time.
    Rest,
    /// Die.
    Die,
    /// Probe: has the mob died?
    IsDead,
}

/// What the actions note down for later ticks.
#[derive(Clone, Copy, Debug, PartialEq, Eq, Structural)]
pub struct BlackBoardData {
    /// How often the shoot action was dispatched; stays at the largest
    /// number once it is reached.
    pub times_shot: usize,
}

impl View for BlackBoardData {
    type V = BlackBoardData;

    open spec fn view(&self) -> BlackBoardData {
        *self
    }
}

impl BlackBoardData {
    /// The blackboard after one more shot.
    pub open spec fn shot(self) -> BlackBoardData {
        BlackBoardData {
            times_shot: if self.times_shot < usize::MAX {
                (self.times_shot + 1) as usize
            } else {
                self.times_shot
            },
        }
    }

    /// An empty blackboard.
    pub fn new() -> (blackboard: Self)
        ensures
            blackboard.times_shot == 0,
    {
        BlackBoardData { times_shot: 0 }
    }

    /// Notes one more shot.
    pub fn record_shot(&mut self)
        ensures
            *final(self) == old(self).shot(),
    {
        if self.times_shot < usize::MAX {
            self.times_shot = self.times_shot + 1;
        }
    }
}

/// What each action does.
///
/// The two probes only look: the budget probe waits (`Running`) while the
/// budget is empty, the death probe waits while the mob is alive. Running
/// and shooting cost a point where one is left and succeed either way; a
/// shot is also noted on the blackboard. Resting succeeds once the mob is
/// fully rested and is under way until then. Dying always succeeds.
pub open spec fn action_effect(
    agent: AgentView,
    action: EnemyNPC,
    blackboard: BlackBoardData,
) -> Effect<AgentView, BlackBoardData> {
    match action {
        EnemyNPC::Run => Effect { status: Status::Success, agent: agent.consume(), blackboard },
        EnemyNPC::Shoot => Effect {
            status: Status::Success,
            agent: agent.consume(),
            blackboard: blackboard.shot(),
        },
        EnemyNPC::HasActionPointsLeft => Effect {
            status: if agent.action_points > 0 {
                Status::Success
            } else {
                Status::Running
            },
            agent,
            blackboard,
        },
        EnemyNPC::Rest => if agent.fully_rested() {
            Effect { status: Status::Success, agent, blackboard }
        } else {
            Effect { status: Status::Running, agent: agent.rest(), blackboard }
        },
        EnemyNPC::Die => Effect { status: Status::Success, agent: agent.die(), blackboard },
        EnemyNPC::IsDead => Effect {
            status: if agent.alive {
                Status::Running
            } else {
                Status::Success
            },
            agent,
            blackboard,
        },
    }
}

impl ActionEffects<EnemyNPC, BlackBoardData> for AgentState {
    open spec fn effect(
        agent: AgentView,
        action: EnemyNPC,
        blackboard: BlackBoardData,
        event: Event,
    ) -> Effect<AgentView, BlackBoardData> {
        action_effect(agent, action, blackboard)
    }

    /// Carries out `action`. The elapsed time of the tick is yielded back
    /// unchanged.
    fn dispatch(&mut self, action: &EnemyNPC, blackboard: &mut BlackBoardData, event: &Event) -> (r: (Status, u64))
        ensures
            r.1 == event.dt,
            final(self)@.wf(),
    {
        proof {
            use_type_invariant(&*self);
        }
        let status = match action {
            EnemyNPC::Run => {
                self.perform_action();
                Status::Success
            },
            EnemyNPC::Shoot => {
                self.perform_action();
                blackboard.record_shot();
                Status::Success
            },
            EnemyNPC::HasActionPointsLeft => {
                if self.has_action_points_left() {
                    Status::Success
                } else {
                    Status::Running
                }
            },
            EnemyNPC::Rest => {
                if self.fully_rested() {
                    Status::Success
                } else {
                    self.rest();
                    Status::Running
                }
            },
            EnemyNPC::Die => {
                self.die();
                Status::Success
            },
            EnemyNPC::IsDead => {
                if self.is_alive() {
                    Status::Running
                } else {
                    Status::Success
                }
            },
        };
        (status, event.dt)
    }
}

/// Whether `node` is the leaf for `action`.
pub open spec fn is_leaf(node: Node<EnemyNPC>, action: EnemyNPC) -> bool {
    node == Node::Action(action)
}

/// Whether `node` is the acting part of a mob's policy: run, then shoot,
/// again and again while a point is left.
pub open spec fn is_run_and_shoot_ai(node: Node<EnemyNPC>) -> bool {
    &&& node.is_composite()
    &&& is_leaf(node.condition(), EnemyNPC::HasActionPointsLeft)
    &&& node.children().len() == 2
    &&& is_leaf(node.children()[0], EnemyNPC::Run)
    &&& is_leaf(node.children()[1], EnemyNPC::Shoot)
}

/// Whether `node` is a mob's whole policy: behind the death probe, the acting
/// part, then rest, then die.
pub open spec fn is_top_ai(node: Node<EnemyNPC>) -> bool {
    &&& node.is_composite()
    &&& is_leaf(node.condition(), EnemyNPC::IsDead)
    &&& node.children().len() == 3
    &&& is_run_and_shoot_ai(node.children()[0])
    &&& is_leaf(node.children()[1], EnemyNPC::Rest)
    &&& is_leaf(node.children()[2], EnemyNPC::Die)
}

/// A mob: the agent and the interpreter that drives it.
#[derive(Debug)]
pub struct Mob {
    /// What the actions act upon.
    pub agent: AgentState,
    /// The policy and its blackboard.
    pub bt: Interpreter<EnemyNPC, BlackBoardData>,
}

impl Mob {
    /// The acting part of the policy.
    pub fn run_and_shoot_ai() -> (tree: Node<EnemyNPC>)
        ensures
            is_run_and_shoot_ai(tree),
    {
        Node::GuardedRepeatSequence(
            Box::new(Node::Action(EnemyNPC::HasActionPointsLeft)),
            vec![Node::Action(EnemyNPC::Run), Node::Action(EnemyNPC::Shoot)],
        )
    }

    /// The whole policy.
    pub fn top_ai() -> (tree: Node<EnemyNPC>)
        ensures
            is_top_ai(tree),
    {
        Node::GuardedRepeatSequence(
            Box::new(Node::Action(EnemyNPC::IsDead)),
            vec![Mob::run_and_shoot_ai(), Node::Action(EnemyNPC::Rest), Node::Action(EnemyNPC::Die)],
        )
    }

    /// A new mob: the whole policy, an empty blackboard, and a fresh agent
    /// with a budget of [`MAX_ACTION_POINTS`].
    pub fn init() -> (mob: Mob)
        ensures
            is_top_ai(mob.bt.tree),
            mob.bt.blackboard.times_shot == 0,
            mob.agent@ == AgentView::fresh(MAX_ACTION_POINTS as nat),
    {
        Mob {
            agent: AgentState::new(MAX_ACTION_POINTS),
            bt: Interpreter::new(Mob::top_ai(), BlackBoardData::new()),
        }
    }

    /// Advances the mob by one tick of `dt` microseconds: evaluates the
    /// policy once against the agent and returns the status of its root.
    pub fn game_tick(&mut self, dt: u64) -> (status: Status)
        ensures
            final(self).bt.tree == old(self).bt.tree,
            eval::<EnemyNPC, BlackBoardData, AgentState>(
                old(self).bt.tree,
                old(self).agent@,
                old(self).bt.blackboard,
                (Event { dt }),
            ).yields(status, final(self).agent@, final(self).bt.blackboard),
            final(self).agent@.wf(),
    {
        let event = Event { dt };
        let status = self.bt.tick(&event, &mut self.agent);
        proof {
            use_type_invariant(&self.agent);
        }
        status
    }
}

} // verus!
