//! The tick engine: evaluates a tree once per tick against a dispatcher.

use vstd::prelude::*;
use crate::node::Node;
use crate::status::Status;

verus! {

/// One external tick, carrying the time that has passed since the last one.
#[derive(Clone, Copy, Debug, PartialEq, Eq, Structural)]
pub struct Event {
    /// Elapsed time in microseconds.
    pub dt: u64,
}

/// What one dispatch of an action does, as a mathematical value.
pub struct Effect<S, B> {
    /// The status that the action reports.
    pub status: Status,
    /// The agent after the action.
    pub agent: S,
    /// The blackboard after the action.
    pub blackboard: B,
}

/// What evaluating a node does, as a mathematical value.
pub struct Outcome<S, B, A> {
    /// The status of the node.
    pub status: Status,
    /// The agent after the evaluation.
    pub agent: S,
    /// The blackboard after the evaluation.
    pub blackboard: B,
    /// The actions that were dispatched on the way, in order.
    pub trace: Seq<A>,
}

impl<S, B, A> Outcome<S, B, A> {
    /// Whether the evaluation yields `status` and leaves `agent` and
    /// `blackboard` behind.
    pub open spec fn yields(self, status: Status, agent: S, blackboard: B) -> bool {
        &&& self.status == status
        &&& self.agent == agent
        &&& self.blackboard == blackboard
    }
}

/// The effects that an agent attaches to the actions of type `A`, with a
/// blackboard of type `K` to keep notes on.
pub trait ActionEffects<A, K: View>: View + Sized {
    /// The effect of `action` on the given agent and blackboard.
    spec fn effect(agent: Self::V, action: A, blackboard: K::V, event: Event) -> Effect<Self::V, K::V>;

    /// Carries out `action` and reports its status together with the time it
    /// yields back. The yielded time is taken as it comes.
    fn dispatch(&mut self, action: &A, blackboard: &mut K, event: &Event) -> (r: (Status, u64))
        ensures
            r.0 == Self::effect(old(self)@, *action, old(blackboard)@, *event).status,
            final(self)@ == Self::effect(old(self)@, *action, old(blackboard)@, *event).agent,
            final(blackboard)@ == Self::effect(old(self)@, *action, old(blackboard)@, *event).blackboard,
    ;
}

/// The model of one evaluation of `node`.
///
/// A leaf is dispatched, and its status is the status of the node.
///
/// A composite evaluates its condition first. If the condition does not
/// succeed, the composite is over for this tick with the status of the
/// condition, `Running` or `Failure`, and no child is evaluated. If it
/// succeeds, the children are evaluated in order up to the first that does
/// not succeed, whose status is then the status of the composite. If all
/// of them succeed, the pass is complete and the composite is `Running`: it
/// starts over with the next tick. So a composite never succeeds.
pub open spec fn eval<A, K: View, D: ActionEffects<A, K>>(
    node: Node<A>,
    agent: D::V,
    blackboard: K::V,
    event: Event,
) -> Outcome<D::V, K::V, A>
    decreases node, 0nat,
{
    match node {
        Node::Action(action) => {
            let e = D::effect(agent, action, blackboard, event);
            Outcome { status: e.status, agent: e.agent, blackboard: e.blackboard, trace: seq![action] }
        },
        Node::GuardedRepeatSequence(condition, children) => {
            let guard = eval::<A, K, D>(*condition, agent, blackboard, event);
            match guard.status {
                Status::Success => {
                    let pass = eval_sequence::<A, K, D>(children@, 0, guard.agent, guard.blackboard, event);
                    Outcome {
                        status: if pass.status == Status::Success { Status::Running } else { pass.status },
                        agent: pass.agent,
                        blackboard: pass.blackboard,
                        trace: guard.trace + pass.trace,
                    }
                },
                _ => guard,
            }
        },
    }
}

/// The model of running `children` in order from index `from` on: it stops at
/// the first child that does not succeed, and succeeds when none is left.
pub open spec fn eval_sequence<A, K: View, D: ActionEffects<A, K>>(
    children: Seq<Node<A>>,
    from: int,
    agent: D::V,
    blackboard: K::V,
    event: Event,
) -> Outcome<D::V, K::V, A>
    decreases children, children.len() - from,
{
    if 0 <= from < children.len() {
        let first = eval::<A, K, D>(children[from], agent, blackboard, event);
        if first.status == Status::Success {
            let rest = eval_sequence::<A, K, D>(children, from + 1, first.agent, first.blackboard, event);
            Outcome {
                status: rest.status,
                agent: rest.agent,
                blackboard: rest.blackboard,
                trace: first.trace + rest.trace,
            }
        } else {
            first
        }
    } else {
        Outcome { status: Status::Success, agent, blackboard, trace: Seq::empty() }
    }
}

/// The agent and the blackboard after one tick of `node` for each of
/// `events`, in order. Nothing else is carried from one tick to the next.
pub open spec fn after_ticks<A, K: View, D: ActionEffects<A, K>>(
    node: Node<A>,
    agent: D::V,
    blackboard: K::V,
    events: Seq<Event>,
) -> (D::V, K::V)
    decreases events.len(),
{
    if events.len() == 0 {
        (agent, blackboard)
    } else {
        let before = after_ticks::<A, K, D>(node, agent, blackboard, events.drop_last());
        let last = eval::<A, K, D>(node, before.0, before.1, events.last());
        (last.agent, last.blackboard)
    }
}

/// The agent and the blackboard after `actions` were dispatched one after
/// the other.
pub open spec fn after_dispatches<A, K: View, D: ActionEffects<A, K>>(
    agent: D::V,
    blackboard: K::V,
    actions: Seq<A>,
    event: Event,
) -> (D::V, K::V)
    decreases actions.len(),
{
    if actions.len() == 0 {
        (agent, blackboard)
    } else {
        let first = D::effect(agent, actions.first(), blackboard, event);
        after_dispatches::<A, K, D>(first.agent, first.blackboard, actions.drop_first(), event)
    }
}

/// Evaluates `node` once: a leaf goes to the dispatcher, a composite combines
/// what its condition and its children yield.
#[verifier::loop_isolation(false)]
pub fn evaluate<A, K: View, D: ActionEffects<A, K>>(
    node: &Node<A>,
    event: &Event,
    agent: &mut D,
    blackboard: &mut K,
) -> (status: Status)
    ensures
        eval::<A, K, D>(*node, old(agent)@, old(blackboard)@, *event).yields(
            status,
            final(agent)@,
            final(blackboard)@,
        ),
    decreases node,
{
    match node {
        Node::Action(action) => {
            let (status, _yielded) = agent.dispatch(action, blackboard, event);
            status
        },
        Node::GuardedRepeatSequence(condition, children) => {
            let guard = evaluate(&**condition, event, agent, blackboard);
            match guard {
                Status::Success => {
                    let ghost pass = eval_sequence::<A, K, D>(children@, 0, agent@, blackboard@, *event);
                    let mut i: usize = 0;
                    while i < children.len()
                        invariant
                            i <= children.len(),
                            eval_sequence::<A, K, D>(children@, i as int, agent@, blackboard@, *event).yields(
                                pass.status,
                                pass.agent,
                                pass.blackboard,
                            ),
                        decreases children.len() - i,
                    {
                        let child = evaluate(&children[i], event, agent, blackboard);
                        match child {
                            Status::Success => {},
                            _ => {
                                return child;
                            },
                        }
                        i = i + 1;
                    }
                    Status::Running
                },
                _ => guard,
            }
        },
    }
}

/// A tree together with the blackboard that lives as long as it does.
///
/// The interpreter keeps nothing else between ticks: a node that reported
/// `Running` is simply reached again when the next tick walks the same path.
#[derive(Debug)]
pub struct Interpreter<A, K> {
    /// The decision policy; no tick changes it.
    pub tree: Node<A>,
    /// Notes that the actions leave for later ticks.
    pub blackboard: K,
}

impl<A: Clone, K: Clone> Clone for Interpreter<A, K> {
    /// An interpreter with a clone of the tree and a clone of the blackboard.
    fn clone(&self) -> (copy: Self)
        ensures
            copy.tree.is_clone_of(self.tree),
            cloned(self.blackboard, copy.blackboard),
    {
        Interpreter { tree: self.tree.clone(), blackboard: self.blackboard.clone() }
    }
}

impl<A, K: View> Interpreter<A, K> {
    /// An interpreter for `tree` that starts with the given blackboard.
    pub fn new(tree: Node<A>, blackboard: K) -> (bt: Self)
        ensures
            bt.tree == tree,
            bt.blackboard == blackboard,
    {
        Interpreter { tree, blackboard }
    }

    /// Evaluates the whole tree once and returns the status of its root.
    /// Every leaf that is reached is handed to `agent`.
    pub fn tick<D: ActionEffects<A, K>>(&mut self, event: &Event, agent: &mut D) -> (status: Status)
        ensures
            final(self).tree == old(self).tree,
            eval::<A, K, D>(old(self).tree, old(agent)@, old(self).blackboard@, *event).yields(
                status,
                final(agent)@,
                final(self).blackboard@,
            ),
    {
        evaluate(&self.tree, event, agent, &mut self.blackboard)
    }
}

} // verus!
