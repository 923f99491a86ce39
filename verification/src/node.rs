//! The decision policy: an immutable tree of composites over leaf actions.

use vstd::prelude::*;

verus! {

/// One node of a behavior tree over action identifiers of type `A`.
///
/// A tree is owned data, so it is finite and holds no cycle: repetition is
/// what the composite does when it is evaluated, not a loop in the structure.
#[derive(Debug)]
pub enum Node<A> {
    /// A leaf: the action that the dispatcher is asked to carry out.
    Action(A),
    /// A composite: a condition and the children that are run in order,
    /// again on every tick, for as long as the condition succeeds.
    GuardedRepeatSequence(Box<Node<A>>, Vec<Node<A>>),
}

impl<A> Node<A> {
    /// Whether the node is a composite.
    pub open spec fn is_composite(self) -> bool {
        self is GuardedRepeatSequence
    }

    /// The condition of a composite.
    pub open spec fn condition(self) -> Node<A>
        recommends
            self.is_composite(),
    {
        *self->GuardedRepeatSequence_0
    }

    /// The children of a composite, in order.
    pub open spec fn children(self) -> Seq<Node<A>>
        recommends
            self.is_composite(),
    {
        self->GuardedRepeatSequence_1@
    }

    /// The number of leaves of the tree.
    pub open spec fn leaves(self) -> nat
        decreases self, 0nat,
    {
        match self {
            Node::Action(_) => 1,
            Node::GuardedRepeatSequence(condition, children) => condition.leaves() + leaves_from(
                children@,
                0,
            ),
        }
    }
}

/// The number of leaves of the trees in `nodes` from index `from` on.
pub open spec fn leaves_from<A>(nodes: Seq<Node<A>>, from: int) -> nat
    decreases nodes, nodes.len() - from,
{
    if 0 <= from < nodes.len() {
        nodes[from].leaves() + leaves_from(nodes, from + 1)
    } else {
        0
    }
}

impl<A: Clone> Node<A> {
    /// Whether `self` has the shape of `source`, with a clone of each of
    /// its actions in the same place.
    pub open spec fn is_clone_of(self, source: Node<A>) -> bool
        decreases self,
    {
        match self {
            Node::Action(action) => source is Action && cloned(source->Action_0, action),
            Node::GuardedRepeatSequence(condition, children) => {
                &&& source.is_composite()
                &&& condition.is_clone_of(source.condition())
                &&& children@.len() == source.children().len()
                &&& forall|i: int|
                    0 <= i < children@.len() ==> (#[trigger] children@[i]).is_clone_of(
                        source.children()[i],
                    )
            },
        }
    }
}

impl<A: Clone> Clone for Node<A> {
    /// A tree of the same shape, built from clones of the actions.
    #[verifier::loop_isolation(false)]
    fn clone(&self) -> (copy: Self)
        ensures
            copy.is_clone_of(*self),
        decreases self,
    {
        match self {
            Node::Action(action) => Node::Action(action.clone()),
            Node::GuardedRepeatSequence(condition, children) => {
                let mut copies: Vec<Node<A>> = Vec::new();
                let mut i: usize = 0;
                while i < children.len()
                    invariant
                        i <= children.len(),
                        copies@.len() == i,
                        forall|k: int| 0 <= k < i ==> (#[trigger] copies@[k]).is_clone_of(children@[k]),
                    decreases children.len() - i,
                {
                    copies.push(children[i].clone());
                    i = i + 1;
                }
                Node::GuardedRepeatSequence(Box::new((**condition).clone()), copies)
            },
        }
    }
}

} // verus!
