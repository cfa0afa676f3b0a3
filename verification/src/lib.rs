//! Sandboxed orchestration of host tools from small scripts.
//!
//! A host registers named tool handlers, then submits a script that may call
//! any of them. Execution is bounded on several axes at once (operation
//! count, tool-call count, wall-clock time, collection sizes), every tool
//! invocation is recorded in an ordered audit log, and the script's final
//! value comes back as plain text together with that log.

pub mod engine;
pub mod host;
pub mod sandbox;
pub mod session;
pub mod text;
pub mod types;
pub mod value;

pub use engine::ToolOrchestrator;
pub use engine::dynamic_to_json;
pub use sandbox::ExecutionLimits;
pub use types::ExecuteScriptParams;
pub use types::ExecuteScriptResult;
pub use types::OrchestratorError;
pub use types::OrchestratorResult;
pub use types::ToolCall;
pub use value::JsonValue;
pub use value::ScriptValue;
