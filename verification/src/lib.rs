//! A task-execution core: one unit of work, a shared key/value context and a
//! chain of lifecycle hooks, runnable unchanged under an event-loop host, an
//! HTTP-triggered function host, or a local command line.
//!
//! The executor runs the hooks and the task in a fixed order and says in its
//! contracts what each step hands to the next. Hosting (serving requests,
//! reading the command line, sharing one executor between requests in
//! flight) is left to the program around this library.
pub mod cloud_providers;
pub mod codec;
pub mod context;
pub mod executor;
pub mod hooks;
pub mod payload;
pub mod runtime;
pub mod task;

pub use cloud_providers::{
    decode_request, envelope, handle_fc_request, handle_lambda_event, FC_PORT, INVOKE_ROUTE,
};
pub use codec::parse_json;
pub use context::Context;
pub use executor::{local_report, Execution, Executor, KEY_TASK_NAME, NO_TASK_REGISTERED};
pub use hooks::TaskResult;
pub use payload::Payload;
pub use runtime::{get_runtime, Runtime, FC_SIGNAL, KEY_RUNTIME, LAMBDA_SIGNAL};
pub use task::Task;
