//! The agent that the tree drives: a bounded action budget, a liveness flag
//! and the hand-shake with the animation playback.

use vstd::prelude::*;

verus! {

/// A request that the agent leaves for the animation playback.
#[derive(Clone, Copy, Debug, PartialEq, Eq, Structural)]
pub enum AnimationRequest {
    /// Play the resting clip and report back once when it is over.
    Sleep,
    /// Play the dying clip.
    Die,
    /// Put the playback back into its neutral pose.
    Reset,
}

/// How long the resting clip plays, in milliseconds.
pub const REST_CLIP_MILLIS: u64 = 800;

impl AnimationRequest {
    /// The name of the clip that the request is for.
    pub open spec fn clip_name(self) -> Seq<char> {
        match self {
            AnimationRequest::Sleep => "sleep"@,
            AnimationRequest::Die => "die"@,
            AnimationRequest::Reset => "RESET"@,
        }
    }

    /// The name of the clip to play.
    pub fn clip(&self) -> (name: &'static str)
        ensures
            name@ == self.clip_name(),
    {
        match self {
            AnimationRequest::Sleep => "sleep",
            AnimationRequest::Die => "die",
            AnimationRequest::Reset => "RESET",
        }
    }

    /// After how many milliseconds the playback is to report back that the
    /// clip is over, once; `None` where no notice is wanted. Only a rest
    /// waits for its clip.
    pub fn notice_after_millis(&self) -> (delay: Option<u64>)
        ensures
            delay == if *self == AnimationRequest::Sleep {
                Some(REST_CLIP_MILLIS)
            } else {
                None
            },
    {
        match self {
            AnimationRequest::Sleep => Some(REST_CLIP_MILLIS),
            _ => None,
        }
    }
}

/// The agent's state as a mathematical value.
pub struct AgentView {
    /// The points that are left to spend.
    pub action_points: nat,
    /// The most points that the agent can hold.
    pub max_action_points: nat,
    /// Whether the agent has not died yet.
    pub alive: bool,
    /// Whether the playback is idle: no clip that the agent waits for is
    /// still being played.
    pub animation_ready: bool,
    /// Whether a rest was asked for that has not paid off yet.
    pub rest_requested: bool,
    /// What the playback is asked to do and has not been handed yet, oldest
    /// first.
    pub requests: Seq<AnimationRequest>,
}

impl AgentView {
    /// What holds of every agent: the budget never exceeds its maximum, the
    /// playback is only busy on a request of the agent's, and a rest is only
    /// under way while there is something to recover.
    pub open spec fn wf(self) -> bool {
        &&& self.action_points <= self.max_action_points
        &&& !self.animation_ready ==> self.rest_requested
        &&& self.rest_requested ==> self.action_points < self.max_action_points
    }

    /// A newly made agent: full budget, alive, playback idle.
    pub open spec fn fresh(max_action_points: nat) -> AgentView {
        AgentView {
            action_points: max_action_points,
            max_action_points,
            alive: true,
            animation_ready: true,
            rest_requested: false,
            requests: Seq::empty(),
        }
    }

    /// Whether the budget is full and the playback idle.
    pub open spec fn fully_rested(self) -> bool {
        self.action_points == self.max_action_points && self.animation_ready
    }

    /// One point less, or none less where none is left.
    pub open spec fn consume(self) -> AgentView {
        AgentView {
            action_points: if self.action_points > 0 { (self.action_points - 1) as nat } else { 0 },
            ..self
        }
    }

    /// One step of recovery.
    ///
    /// While the playback is busy with the resting clip, nothing changes.
    /// Once the clip that was asked for is over, the rest pays off: one point
    /// more, never above the maximum. Where no rest is under way and the
    /// budget is not full, the clip is asked for, once, and the playback is
    /// busy from then on. A full budget with nothing under way stays as it
    /// is.
    pub open spec fn rest(self) -> AgentView {
        if !self.animation_ready {
            self
        } else if self.rest_requested {
            AgentView {
                action_points: if self.action_points < self.max_action_points {
                    self.action_points + 1
                } else {
                    self.max_action_points
                },
                rest_requested: false,
                ..self
            }
        } else if self.action_points < self.max_action_points {
            AgentView {
                animation_ready: false,
                rest_requested: true,
                requests: self.requests.push(AnimationRequest::Sleep),
                ..self
            }
        } else {
            self
        }
    }

    /// The agent dies. Only the first death asks for the clip.
    pub open spec fn die(self) -> AgentView {
        if self.alive {
            AgentView { alive: false, requests: self.requests.push(AnimationRequest::Die), ..self }
        } else {
            self
        }
    }

    /// The playback reports that it is done.
    pub open spec fn animation_completed(self) -> AgentView {
        AgentView { animation_ready: true, requests: self.requests.push(AnimationRequest::Reset), ..self }
    }
}

/// The state that the actions read and change.
#[derive(Debug)]
pub struct AgentState {
    action_points: usize,
    max_action_points: usize,
    alive: bool,
    animation_ready: bool,
    rest_requested: bool,
    requests: Vec<AnimationRequest>,
}

impl View for AgentState {
    type V = AgentView;

    closed spec fn view(&self) -> AgentView {
        AgentView {
            action_points: self.action_points as nat,
            max_action_points: self.max_action_points as nat,
            alive: self.alive,
            animation_ready: self.animation_ready,
            rest_requested: self.rest_requested,
            requests: self.requests@,
        }
    }
}

impl AgentState {
    /// Every agent is valid, at all times.
    #[verifier::type_invariant]
    pub(crate) open spec fn inv(self) -> bool {
        self@.wf()
    }

    /// A fresh agent with the given budget.
    pub fn new(max_action_points: usize) -> (agent: Self)
        ensures
            agent@ == AgentView::fresh(max_action_points as nat),
            agent@.wf(),
    {
        AgentState {
            action_points: max_action_points,
            max_action_points,
            alive: true,
            animation_ready: true,
            rest_requested: false,
            requests: Vec::new(),
        }
    }

    /// The points that are left; never more than the maximum.
    pub fn action_points(&self) -> (points: usize)
        ensures
            points == self@.action_points,
            points <= self@.max_action_points,
    {
        proof {
            use_type_invariant(self);
        }
        self.action_points
    }

    /// The most points that the agent can hold.
    pub fn max_action_points(&self) -> (points: usize)
        ensures
            points == self@.max_action_points,
    {
        self.max_action_points
    }

    /// Whether the agent has not died yet.
    pub fn is_alive(&self) -> (alive: bool)
        ensures
            alive == self@.alive,
    {
        self.alive
    }

    /// Whether the playback is idle: nothing that the agent asked for is
    /// still being played.
    pub fn animation_ready(&self) -> (ready: bool)
        ensures
            ready == self@.animation_ready,
    {
        self.animation_ready
    }

    /// Whether a rest was asked for that has not paid off yet.
    pub fn rest_requested(&self) -> (requested: bool)
        ensures
            requested == self@.rest_requested,
    {
        self.rest_requested
    }

    /// Whether at least one point is left to spend.
    pub fn has_action_points_left(&self) -> (left: bool)
        ensures
            left == (self@.action_points > 0),
    {
        self.action_points > 0
    }

    /// Whether the budget is full and the playback idle.
    pub fn fully_rested(&self) -> (rested: bool)
        ensures
            rested == self@.fully_rested(),
    {
        self.action_points == self.max_action_points && self.animation_ready
    }

    /// Spends one point; with none left, nothing happens.
    pub fn consume_action_point(&mut self)
        ensures
            final(self)@ == old(self)@.consume(),
            final(self)@.wf(),
    {
        proof {
            use_type_invariant(&*self);
        }
        if self.action_points > 0 {
            self.action_points = self.action_points - 1;
        }
    }

    /// Carries out an action that costs one point, if one is left. Tells
    /// whether the action was carried out; where it was skipped, nothing
    /// has changed.
    pub fn perform_action(&mut self) -> (performed: bool)
        ensures
            performed == (old(self)@.action_points > 0),
            final(self)@ == old(self)@.consume(),
            !performed ==> final(self)@ == old(self)@,
            final(self)@.wf(),
    {
        proof {
            use_type_invariant(&*self);
        }
        if self.action_points > 0 {
            self.consume_action_point();
            true
        } else {
            false
        }
    }

    /// One step of recovery: waits for the playback, cashes in a finished
    /// rest, or asks for the resting clip.
    pub fn rest(&mut self)
        ensures
            final(self)@ == old(self)@.rest(),
            final(self)@.wf(),
    {
        proof {
            use_type_invariant(&*self);
        }
        if self.animation_ready {
            if self.rest_requested {
                self.rest_requested = false;
                if self.action_points < self.max_action_points {
                    self.action_points = self.action_points + 1;
                }
            } else if self.action_points < self.max_action_points {
                self.post(AnimationRequest::Sleep);
                self.rest_requested = true;
                self.animation_ready = false;
            }
        }
    }

    /// The agent dies, for good. Only the first call asks for the clip.
    pub fn die(&mut self)
        ensures
            final(self)@ == old(self)@.die(),
            final(self)@.wf(),
    {
        proof {
            use_type_invariant(&*self);
        }
        if self.alive {
            self.post(AnimationRequest::Die);
            self.alive = false;
        }
    }

    /// Takes the notice that the playback has finished what it was asked
    /// for. This is the only way for the playback to become idle again.
    pub fn animation_completed(&mut self)
        ensures
            final(self)@ == old(self)@.animation_completed(),
            final(self)@.wf(),
    {
        proof {
            use_type_invariant(&*self);
        }
        self.post(AnimationRequest::Reset);
        self.animation_ready = true;
    }

    /// Hands out the requests that have piled up, oldest first, and leaves
    /// none behind.
    pub fn take_requests(&mut self) -> (requests: Vec<AnimationRequest>)
        ensures
            requests@ == old(self)@.requests,
            final(self)@ == (AgentView { requests: Seq::empty(), ..old(self)@ }),
            final(self)@.wf(),
    {
        proof {
            use_type_invariant(&*self);
        }
        let mut queue = Vec::new();
        std::mem::swap(&mut queue, &mut self.requests);
        queue
    }

    /// Appends `request` to what the playback is asked to do.
    fn post(&mut self, request: AnimationRequest)
        ensures
            final(self)@ == (AgentView { requests: old(self)@.requests.push(request), ..old(self)@ }),
    {
        proof {
            use_type_invariant(&*self);
        }
        let mut queue = Vec::new();
        std::mem::swap(&mut queue, &mut self.requests);
        queue.push(request);
        self.requests = queue;
    }
}

} // verus!
