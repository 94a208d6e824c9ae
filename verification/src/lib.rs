//! Verified core of a multi-agent stigmergic ("slime mould") simulation.
//!
//! Thousands of agents move over a two-dimensional, multi-layer scent field,
//! steer toward or away from configured layers, and deposit scent back into
//! the field, which diffuses and decays every frame. This crate holds the
//! simulation engine itself: the agent and field data layout, the per-frame
//! passes (diffusion/decay, brush painting, agent update, display
//! compositing), the double-buffer role bookkeeping, and the
//! pipeline-readiness state machine. Window creation, input polling, shader
//! compilation and presentation belong to the host around the library.
//!
//! Every scalar that is conceptually a real number — rates, weights,
//! colours, positions — is held in fixed point: see [`rates::RATE_ONE`].

pub mod agents;
pub mod brush;
pub mod composite;
pub mod config;
pub mod diffuse;
pub mod field;
pub mod kernel;
pub mod machine;
pub mod rates;
pub mod sim;
pub mod species;
pub mod trig;
