//! A tick-driven behavior tree for a single autonomous agent that acts
//! under a bounded action budget.
//!
//! Once per tick the [`interpreter`] walks a [`node`] tree and hands every
//! leaf it reaches to the agent, which carries the action out and reports a
//! [`status`]. The interpreter holds no state of its own besides the tree
//! and a blackboard: a node that is still running is reached again when the
//! next tick walks the same path.
//!
//! The [`agent`] keeps the budget, the liveness flag and the hand-shake with
//! the animation playback. It plays nothing itself: it leaves requests, and
//! the host hands them to the playback and reports back when a clip is over.
//! The [`mob`] puts the two together.
//!
//! What the interpreter does is stated once, as a function on mathematical
//! values, and the executable code is proved to compute it. What follows
//! from it for every tree is proved in [`interpreter_laws`], what follows
//! for every mob in [`mob_laws`].

pub mod status;
pub mod node;
pub mod interpreter;
pub mod interpreter_laws;
pub mod agent;
pub mod mob;
pub mod mob_laws;

pub use agent::{AgentState, AnimationRequest};
pub use interpreter::{ActionEffects, Event, Interpreter};
pub use mob::{BlackBoardData, EnemyNPC, Mob};
pub use node::Node;
pub use status::Status;
