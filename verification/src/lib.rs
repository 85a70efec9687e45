//! Resumable, bidirectional generators.
//!
//! A flow is a suspended computation that is pushed an input, produces a
//! sequence of outputs and finally completes with a result. It is advanced
//! one step at a time by whoever owns it, and every step is described by a
//! relation between the flow before and after, the input slot before and
//! after, and the report.
//!
//! - [`flow`] holds the protocol, [`task`] its counterpart for computations
//!   that only complete.
//! - [`state`], [`sender`] and [`generator`] hold the handoff cell and the
//!   adapter that drives a routine as a flow.
//! - [`ops`] holds the operators, [`flow_impls`], [`emit`] and [`convert`] the
//!   flows at the ends of a pipeline.
//! - [`my_try`] holds the algebra of success and failure that the
//!   short-circuiting operators are written over.

pub mod async_fn;
pub mod convert;
pub mod custom_fn;
pub mod emit;
pub mod flow;
pub mod flow_impls;
pub mod generator;
pub mod macro_utils;
pub mod my_try;
pub mod ops;
pub mod self_ref;
pub mod sender;
pub mod sink;
pub mod state;
pub mod task;
pub mod utils;

pub use convert::FromFlow;
pub use convert::IntoFlow;
pub use emit::flow_of;
pub use flow::Flow;
pub use flow_impls::identity;
pub use flow_impls::on_each_sync;
pub use flow_impls::repeat;
pub use flow_impls::repeat_with;
pub use generator::flow_from_fn;
pub use sender::Routine;
pub use sender::Sender;
pub use task::Task;
