//! What holds of every tree, whatever the actions do.

use vstd::prelude::*;
use crate::interpreter::{after_dispatches, after_ticks, eval, eval_sequence, ActionEffects, Event};
use crate::node::{leaves_from, Node};
use crate::status::Status;

verus! {

/// A composite whose condition does not succeed is over with its condition:
/// it yields what the condition yields and dispatches what the condition
/// dispatches. So while the condition is `Running`, no child is reached.
pub proof fn lemma_unmet_guard_skips_children<A, K: View, D: ActionEffects<A, K>>(
    node: Node<A>,
    agent: D::V,
    blackboard: K::V,
    event: Event,
)
    requires
        node.is_composite(),
        eval::<A, K, D>(node.condition(), agent, blackboard, event).status != Status::Success,
    ensures
        eval::<A, K, D>(node, agent, blackboard, event) == eval::<A, K, D>(
            node.condition(),
            agent,
            blackboard,
            event,
        ),
{
}

/// A composite never succeeds: whatever its condition and its children do,
/// it is `Running` or it has failed.
pub proof fn lemma_composite_never_succeeds<A, K: View, D: ActionEffects<A, K>>(
    node: Node<A>,
    agent: D::V,
    blackboard: K::V,
    event: Event,
)
    requires
        node.is_composite(),
    ensures
        eval::<A, K, D>(node, agent, blackboard, event).status != Status::Success,
{
}

/// Whether one tick of the composite `node` is a full pass: its condition
/// succeeds, and then every child does.
pub open spec fn full_pass<A, K: View, D: ActionEffects<A, K>>(
    node: Node<A>,
    agent: D::V,
    blackboard: K::V,
    event: Event,
) -> bool {
    let guard = eval::<A, K, D>(node.condition(), agent, blackboard, event);
    &&& guard.status == Status::Success
    &&& eval_sequence::<A, K, D>(node.children(), 0, guard.agent, guard.blackboard, event).status
        == Status::Success
}

/// A full pass leaves the composite `Running`, with the condition and all
/// the children dispatched in order.
pub proof fn lemma_full_pass_keeps_running<A, K: View, D: ActionEffects<A, K>>(
    node: Node<A>,
    agent: D::V,
    blackboard: K::V,
    event: Event,
)
    requires
        node.is_composite(),
        full_pass::<A, K, D>(node, agent, blackboard, event),
    ensures
        ({
            let guard = eval::<A, K, D>(node.condition(), agent, blackboard, event);
            let pass = eval_sequence::<A, K, D>(node.children(), 0, guard.agent, guard.blackboard, event);
            let whole = eval::<A, K, D>(node, agent, blackboard, event);
            &&& whole.status == Status::Running
            &&& whole.agent == pass.agent
            &&& whole.blackboard == pass.blackboard
            &&& whole.trace == guard.trace + pass.trace
        }),
{
}

/// A composite is never done. However many ticks have gone before, the next
/// one evaluates it afresh and does not succeed; and where that tick is a
/// full pass, the composite is `Running` and has dispatched its condition
/// and all its children once more.
pub proof fn lemma_composite_never_done<A, K: View, D: ActionEffects<A, K>>(
    node: Node<A>,
    agent: D::V,
    blackboard: K::V,
    events: Seq<Event>,
    next: Event,
)
    requires
        node.is_composite(),
    ensures
        ({
            let now = after_ticks::<A, K, D>(node, agent, blackboard, events);
            let whole = eval::<A, K, D>(node, now.0, now.1, next);
            let guard = eval::<A, K, D>(node.condition(), now.0, now.1, next);
            let pass = eval_sequence::<A, K, D>(node.children(), 0, guard.agent, guard.blackboard, next);
            &&& whole.status != Status::Success
            &&& full_pass::<A, K, D>(node, now.0, now.1, next) ==> whole.status == Status::Running
                && whole.trace == guard.trace + pass.trace
        }),
{
}

/// One tick is one pass at most: it dispatches no more actions than the
/// tree has leaves.
pub proof fn lemma_one_pass_per_tick<A, K: View, D: ActionEffects<A, K>>(
    node: Node<A>,
    agent: D::V,
    blackboard: K::V,
    event: Event,
)
    ensures
        eval::<A, K, D>(node, agent, blackboard, event).trace.len() <= node.leaves(),
    decreases node, 0nat,
{
    match node {
        Node::Action(_) => {},
        Node::GuardedRepeatSequence(condition, children) => {
            lemma_one_pass_per_tick::<A, K, D>(*condition, agent, blackboard, event);
            let guard = eval::<A, K, D>(*condition, agent, blackboard, event);
            if guard.status == Status::Success {
                lemma_one_pass_per_sequence::<A, K, D>(children@, 0, guard.agent, guard.blackboard, event);
            }
        },
    }
}

/// The same of a run of children.
pub proof fn lemma_one_pass_per_sequence<A, K: View, D: ActionEffects<A, K>>(
    children: Seq<Node<A>>,
    from: int,
    agent: D::V,
    blackboard: K::V,
    event: Event,
)
    ensures
        eval_sequence::<A, K, D>(children, from, agent, blackboard, event).trace.len() <= leaves_from(
            children,
            from,
        ),
    decreases children, children.len() - from,
{
    if 0 <= from < children.len() {
        lemma_one_pass_per_tick::<A, K, D>(children[from], agent, blackboard, event);
        let first = eval::<A, K, D>(children[from], agent, blackboard, event);
        if first.status == Status::Success {
            lemma_one_pass_per_sequence::<A, K, D>(children, from + 1, first.agent, first.blackboard, event);
        }
    }
}

/// Whether no dispatch ever fails.
pub open spec fn no_dispatch_fails<A, K: View, D: ActionEffects<A, K>>() -> bool {
    forall|agent: D::V, action: A, blackboard: K::V, event: Event|
        (#[trigger] D::effect(agent, action, blackboard, event)).status != Status::Failure
}

/// Failure comes from the actions only: where no dispatch fails, no node
/// does.
pub proof fn lemma_fails_only_by_dispatch<A, K: View, D: ActionEffects<A, K>>(
    node: Node<A>,
    agent: D::V,
    blackboard: K::V,
    event: Event,
)
    requires
        no_dispatch_fails::<A, K, D>(),
    ensures
        eval::<A, K, D>(node, agent, blackboard, event).status != Status::Failure,
    decreases node, 0nat,
{
    match node {
        Node::Action(_) => {},
        Node::GuardedRepeatSequence(condition, children) => {
            lemma_fails_only_by_dispatch::<A, K, D>(*condition, agent, blackboard, event);
            let guard = eval::<A, K, D>(*condition, agent, blackboard, event);
            if guard.status == Status::Success {
                lemma_sequence_fails_only_by_dispatch::<A, K, D>(
                    children@,
                    0,
                    guard.agent,
                    guard.blackboard,
                    event,
                );
            }
        },
    }
}

/// The same of a run of children.
pub proof fn lemma_sequence_fails_only_by_dispatch<A, K: View, D: ActionEffects<A, K>>(
    children: Seq<Node<A>>,
    from: int,
    agent: D::V,
    blackboard: K::V,
    event: Event,
)
    requires
        no_dispatch_fails::<A, K, D>(),
    ensures
        eval_sequence::<A, K, D>(children, from, agent, blackboard, event).status != Status::Failure,
    decreases children, children.len() - from,
{
    if 0 <= from < children.len() {
        lemma_fails_only_by_dispatch::<A, K, D>(children[from], agent, blackboard, event);
        let first = eval::<A, K, D>(children[from], agent, blackboard, event);
        if first.status == Status::Success {
            lemma_sequence_fails_only_by_dispatch::<A, K, D>(
                children,
                from + 1,
                first.agent,
                first.blackboard,
                event,
            );
        }
    }
}

/// Dispatching one run of actions and then another is dispatching the two
/// runs joined.
pub proof fn lemma_dispatches_join<A, K: View, D: ActionEffects<A, K>>(
    agent: D::V,
    blackboard: K::V,
    first: Seq<A>,
    second: Seq<A>,
    event: Event,
)
    ensures
        ({
            let between = after_dispatches::<A, K, D>(agent, blackboard, first, event);
            after_dispatches::<A, K, D>(agent, blackboard, first + second, event) == after_dispatches::<A, K, D>(
                between.0,
                between.1,
                second,
                event,
            )
        }),
    decreases first.len(),
{
    if first.len() > 0 {
        let e = D::effect(agent, first.first(), blackboard, event);
        assert((first + second).drop_first() =~= first.drop_first() + second);
        lemma_dispatches_join::<A, K, D>(e.agent, e.blackboard, first.drop_first(), second, event);
    }
}

/// The interpreter touches the agent and the blackboard through dispatches
/// only: what evaluating a node leaves behind is what dispatching the
/// actions of its trace, in order, leaves behind.
pub proof fn lemma_eval_is_its_trace<A, K: View, D: ActionEffects<A, K>>(
    node: Node<A>,
    agent: D::V,
    blackboard: K::V,
    event: Event,
)
    ensures
        ({
            let outcome = eval::<A, K, D>(node, agent, blackboard, event);
            after_dispatches::<A, K, D>(agent, blackboard, outcome.trace, event) == (
                outcome.agent,
                outcome.blackboard,
            )
        }),
    decreases node, 0nat,
{
    match node {
        Node::Action(action) => {
            // After the one action of the trace nothing is left to dispatch.
            let e = D::effect(agent, action, blackboard, event);
            let trace = seq![action];
            assert(after_dispatches::<A, K, D>(e.agent, e.blackboard, trace.drop_first(), event) == (
                e.agent,
                e.blackboard,
            ));
        },
        Node::GuardedRepeatSequence(condition, children) => {
            lemma_eval_is_its_trace::<A, K, D>(*condition, agent, blackboard, event);
            let guard = eval::<A, K, D>(*condition, agent, blackboard, event);
            if guard.status == Status::Success {
                lemma_sequence_is_its_trace::<A, K, D>(children@, 0, guard.agent, guard.blackboard, event);
                let pass = eval_sequence::<A, K, D>(children@, 0, guard.agent, guard.blackboard, event);
                lemma_dispatches_join::<A, K, D>(agent, blackboard, guard.trace, pass.trace, event);
            }
        },
    }
}

/// The same of a run of children.
pub proof fn lemma_sequence_is_its_trace<A, K: View, D: ActionEffects<A, K>>(
    children: Seq<Node<A>>,
    from: int,
    agent: D::V,
    blackboard: K::V,
    event: Event,
)
    ensures
        ({
            let outcome = eval_sequence::<A, K, D>(children, from, agent, blackboard, event);
            after_dispatches::<A, K, D>(agent, blackboard, outcome.trace, event) == (
                outcome.agent,
                outcome.blackboard,
            )
        }),
    decreases children, children.len() - from,
{
    if 0 <= from < children.len() {
        lemma_eval_is_its_trace::<A, K, D>(children[from], agent, blackboard, event);
        let first = eval::<A, K, D>(children[from], agent, blackboard, event);
        if first.status == Status::Success {
            lemma_sequence_is_its_trace::<A, K, D>(children, from + 1, first.agent, first.blackboard, event);
            let rest = eval_sequence::<A, K, D>(children, from + 1, first.agent, first.blackboard, event);
            lemma_dispatches_join::<A, K, D>(agent, blackboard, first.trace, rest.trace, event);
        }
    }
}

/// Whether every dispatch keeps `inv`.
pub open spec fn kept_by_dispatch<A, K: View, D: ActionEffects<A, K>>(
    inv: spec_fn(D::V, K::V) -> bool,
) -> bool {
    forall|agent: D::V, action: A, blackboard: K::V, event: Event|
        inv(agent, blackboard) ==> inv(
            (#[trigger] D::effect(agent, action, blackboard, event)).agent,
            D::effect(agent, action, blackboard, event).blackboard,
        )
}

/// What every dispatch keeps, a run of dispatches keeps.
pub proof fn lemma_dispatches_keep<A, K: View, D: ActionEffects<A, K>>(
    agent: D::V,
    blackboard: K::V,
    actions: Seq<A>,
    event: Event,
    inv: spec_fn(D::V, K::V) -> bool,
)
    requires
        kept_by_dispatch::<A, K, D>(inv),
        inv(agent, blackboard),
    ensures
        inv(
            after_dispatches::<A, K, D>(agent, blackboard, actions, event).0,
            after_dispatches::<A, K, D>(agent, blackboard, actions, event).1,
        ),
    decreases actions.len(),
{
    if actions.len() > 0 {
        let first = D::effect(agent, actions.first(), blackboard, event);
        lemma_dispatches_keep::<A, K, D>(first.agent, first.blackboard, actions.drop_first(), event, inv);
    }
}

/// What every dispatch keeps, the evaluation of any node keeps.
pub proof fn lemma_eval_keeps<A, K: View, D: ActionEffects<A, K>>(
    node: Node<A>,
    agent: D::V,
    blackboard: K::V,
    event: Event,
    inv: spec_fn(D::V, K::V) -> bool,
)
    requires
        kept_by_dispatch::<A, K, D>(inv),
        inv(agent, blackboard),
    ensures
        inv(
            eval::<A, K, D>(node, agent, blackboard, event).agent,
            eval::<A, K, D>(node, agent, blackboard, event).blackboard,
        ),
{
    let trace = eval::<A, K, D>(node, agent, blackboard, event).trace;
    lemma_eval_is_its_trace::<A, K, D>(node, agent, blackboard, event);
    lemma_dispatches_keep::<A, K, D>(agent, blackboard, trace, event, inv);
}

/// What every dispatch keeps, any number of ticks keeps.
pub proof fn lemma_ticks_keep<A, K: View, D: ActionEffects<A, K>>(
    node: Node<A>,
    agent: D::V,
    blackboard: K::V,
    events: Seq<Event>,
    inv: spec_fn(D::V, K::V) -> bool,
)
    requires
        kept_by_dispatch::<A, K, D>(inv),
        inv(agent, blackboard),
    ensures
        inv(
            after_ticks::<A, K, D>(node, agent, blackboard, events).0,
            after_ticks::<A, K, D>(node, agent, blackboard, events).1,
        ),
    decreases events.len(),
{
    if events.len() > 0 {
        lemma_ticks_keep::<A, K, D>(node, agent, blackboard, events.drop_last(), inv);
        let before = after_ticks::<A, K, D>(node, agent, blackboard, events.drop_last());
        lemma_eval_keeps::<A, K, D>(node, before.0, before.1, events.last(), inv);
    }
}

/// Whether a clone of an action of type `A` is always that action again.
pub open spec fn clones_are_equal<A: Clone>() -> bool {
    forall|a: A, b: A| #[trigger] cloned(a, b) ==> a == b
}

/// A clone of a tree is the same policy: where clones of actions are the
/// actions again, it evaluates as the tree it was made from.
pub proof fn lemma_clone_evaluates_alike<A: Clone, K: View, D: ActionEffects<A, K>>(
    copy: Node<A>,
    source: Node<A>,
    agent: D::V,
    blackboard: K::V,
    event: Event,
)
    requires
        copy.is_clone_of(source),
        clones_are_equal::<A>(),
    ensures
        eval::<A, K, D>(copy, agent, blackboard, event) == eval::<A, K, D>(source, agent, blackboard, event),
    decreases copy, 0nat,
{
    match copy {
        Node::Action(_) => {},
        Node::GuardedRepeatSequence(condition, children) => {
            lemma_clone_evaluates_alike::<A, K, D>(*condition, source.condition(), agent, blackboard, event);
            let guard = eval::<A, K, D>(*condition, agent, blackboard, event);
            if guard.status == Status::Success {
                lemma_cloned_sequence_evaluates_alike::<A, K, D>(
                    children@,
                    source.children(),
                    0,
                    guard.agent,
                    guard.blackboard,
                    event,
                );
            }
        },
    }
}

/// The same of a run of children.
pub proof fn lemma_cloned_sequence_evaluates_alike<A: Clone, K: View, D: ActionEffects<A, K>>(
    copies: Seq<Node<A>>,
    sources: Seq<Node<A>>,
    from: int,
    agent: D::V,
    blackboard: K::V,
    event: Event,
)
    requires
        copies.len() == sources.len(),
        forall|i: int| 0 <= i < copies.len() ==> (#[trigger] copies[i]).is_clone_of(sources[i]),
        clones_are_equal::<A>(),
    ensures
        eval_sequence::<A, K, D>(copies, from, agent, blackboard, event) == eval_sequence::<A, K, D>(
            sources,
            from,
            agent,
            blackboard,
            event,
        ),
    decreases copies, copies.len() - from,
{
    if 0 <= from < copies.len() {
        lemma_clone_evaluates_alike::<A, K, D>(copies[from], sources[from], agent, blackboard, event);
        let first = eval::<A, K, D>(copies[from], agent, blackboard, event);
        if first.status == Status::Success {
            lemma_cloned_sequence_evaluates_alike::<A, K, D>(
                copies,
                sources,
                from + 1,
                first.agent,
                first.blackboard,
                event,
            );
        }
    }
}

} // verus!
