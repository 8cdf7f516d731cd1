//! Orchestration core for dispatching GPU compute work inside a frame-based
//! render pipeline.
//!
//! Two compute programs, `init` and `update`, write a render target that a
//! later draw of the same frame samples. The crate holds what has to be
//! decided for that, as verified code:
//!
//! - [`layout`]: the binding layout that both programs are compiled against;
//! - [`pipeline`]: the registry that queues the two compiles and polls them;
//! - [`readiness`]: the state machine that follows the compiles;
//! - [`bind_group`]: the assembly of a frame's resources into a bound set;
//! - [`node`]: the scheduler node with its update step and its run step;
//! - [`grid`]: the size of a dispatch;
//! - [`target`]: the render target and its extraction into the render state;
//! - [`uniform`]: the buffer behind the time uniform;
//! - [`plugin`]: the wiring of the node into the render graph;
//! - [`engine`]: what is taken on trust from the engine.
//!
//! The engine performs the GPU work. It is handed plain values, a layout to
//! create, a set to bind, a dispatch to record, and reports plain values
//! back. No step waits: whatever is not ready yet costs the frame its
//! dispatch and nothing else.

pub mod bind_group;
pub mod engine;
pub mod grid;
pub mod layout;
pub mod node;
pub mod pipeline;
pub mod plugin;
pub mod readiness;
pub mod target;
pub mod uniform;

pub use node::MyComputeShaderNode;
pub use pipeline::MyComputeShaderPipeline;
pub use plugin::MyComputeShaderPlugin;
pub use target::MyComputeShaderRenderTarget;
