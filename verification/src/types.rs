//! Results, audit records and the error taxonomy.
//!
//! One `execute` call produces either an [`OrchestratorResult`] — output
//! text, the ordered audit log of tool calls, timing — or an
//! [`OrchestratorError`] naming exactly one failure mode. A host that
//! forwards executions across a boundary serializes the thin projection
//! [`ExecuteScriptResult`].

use vstd::prelude::*;

use crate::sandbox::ExecutionLimits;
use crate::text::append_dec_u64;
use crate::text::dec_digits;
use crate::value::JsonValue;

verus! {

/// Record of a single tool invocation, created once and never mutated.
#[derive(Debug, Clone)]
pub struct ToolCall {
    /// Name under which the tool was registered.
    pub tool_name: String,
    /// The JSON input handed to the handler.
    pub input: JsonValue,
    /// The handler's output text, or its error text.
    pub output: String,
    /// Whether the handler returned successfully.
    pub success: bool,
    /// How long the call took, in milliseconds.
    pub duration_ms: u64,
}

impl ToolCall {
    /// A fresh audit record with exactly the given fields.
    pub fn new(
        tool_name: String,
        input: JsonValue,
        output: String,
        success: bool,
        duration_ms: u64,
    ) -> (r: Self)
        ensures
            r.tool_name == tool_name,
            r.input == input,
            r.output == output,
            r.success == success,
            r.duration_ms == duration_ms,
    {
        ToolCall { tool_name, input, output, success, duration_ms }
    }
}

/// The outcome of one completed `execute` call.
#[derive(Debug, Clone)]
pub struct OrchestratorResult {
    /// Whether the script ran to completion.
    pub success: bool,
    /// The script's final value as text; empty on failure.
    pub output: String,
    /// Every tool call made, in invocation order.
    pub tool_calls: Vec<ToolCall>,
    /// Wall-clock time of the whole execution, in milliseconds.
    pub execution_time_ms: u64,
    /// The error text when the execution failed.
    pub error: Option<String>,
}

impl OrchestratorResult {
    /// A successful outcome: `success` is true and no error is carried.
    pub fn success(output: String, tool_calls: Vec<ToolCall>, execution_time_ms: u64) -> (r: Self)
        ensures
            r.success == true,
            r.output == output,
            r.tool_calls == tool_calls,
            r.execution_time_ms == execution_time_ms,
            r.error is None,
    {
        OrchestratorResult { success: true, output, tool_calls, execution_time_ms, error: None }
    }

    /// A failed outcome: `success` is false, the output empty, and the
    /// error text carried.
    pub fn error(error: String, tool_calls: Vec<ToolCall>, execution_time_ms: u64) -> (r: Self)
        ensures
            r.success == false,
            r.output@ == Seq::<char>::empty(),
            r.tool_calls == tool_calls,
            r.execution_time_ms == execution_time_ms,
            r.error == Some(error),
    {
        OrchestratorResult {
            success: false,
            output: String::new(),
            tool_calls,
            execution_time_ms,
            error: Some(error),
        }
    }
}

/// A request to run one script, with optional overrides over a host's
/// default limits.
#[derive(Debug, Clone)]
pub struct ExecuteScriptParams {
    /// The script source to execute.
    pub script: String,
    /// Overrides the operation cap when present.
    pub max_operations: Option<u64>,
    /// Overrides the tool-call cap when present.
    pub max_tool_calls: Option<usize>,
    /// Overrides the wall-clock timeout when present.
    pub timeout_ms: Option<u64>,
}

impl ExecuteScriptParams {
    /// The base limits with each present override applied; absent
    /// overrides leave the base value untouched.
    pub fn override_limits(&self, base: ExecutionLimits) -> (r: ExecutionLimits)
        ensures
            r.max_operations == if self.max_operations is Some {
                self.max_operations->0
            } else {
                base.max_operations
            },
            r.max_tool_calls == if self.max_tool_calls is Some {
                self.max_tool_calls->0
            } else {
                base.max_tool_calls
            },
            r.timeout_ms == if self.timeout_ms is Some {
                self.timeout_ms->0
            } else {
                base.timeout_ms
            },
            r.max_string_size == base.max_string_size,
            r.max_array_size == base.max_array_size,
            r.max_map_size == base.max_map_size,
    {
        let mut limits = base;
        if let Some(v) = self.max_operations {
            limits.max_operations = v;
        }
        if let Some(v) = self.max_tool_calls {
            limits.max_tool_calls = v;
        }
        if let Some(v) = self.timeout_ms {
            limits.timeout_ms = v;
        }
        limits
    }
}

/// The thin projection of an [`OrchestratorResult`] that crosses a remote
/// boundary: the log is reduced to its length.
#[derive(Debug, Clone)]
pub struct ExecuteScriptResult {
    /// Whether the script ran to completion.
    pub success: bool,
    /// The script's final value as text.
    pub output: String,
    /// How many tool calls were recorded.
    pub tool_calls_count: usize,
    /// Wall-clock time of the whole execution, in milliseconds.
    pub execution_time_ms: u64,
    /// The error text when the execution failed.
    pub error: Option<String>,
}

impl From<OrchestratorResult> for ExecuteScriptResult {
    /// The projection: all scalar fields pass through, the audit log is
    /// replaced by its length.
    fn from(r: OrchestratorResult) -> (res: Self) {
        ExecuteScriptResult {
            success: r.success,
            output: r.output,
            tool_calls_count: r.tool_calls.len(),
            execution_time_ms: r.execution_time_ms,
            error: r.error,
        }
    }
}

impl vstd::std_specs::convert::FromSpecImpl<OrchestratorResult> for ExecuteScriptResult {
    open spec fn obeys_from_spec() -> bool {
        true
    }

    open spec fn from_spec(r: OrchestratorResult) -> Self {
        ExecuteScriptResult {
            success: r.success,
            output: r.output,
            tool_calls_count: r.tool_calls@.len() as usize,
            execution_time_ms: r.execution_time_ms,
            error: r.error,
        }
    }
}

/// Why an `execute` call failed, as exactly one typed variant: a malformed
/// script (compilation), a buggy script (execution), a runaway script
/// (operations or timeout), or host misuse (an unknown or failing tool
/// reached outside the script path).
#[derive(Debug)]
pub enum OrchestratorError {
    /// The script failed to compile.
    CompilationError(String),
    /// The script failed at runtime.
    ExecutionError(String),
    /// The script exceeded the operation cap; carries that cap.
    MaxOperationsExceeded(u64),
    /// The script exceeded the wall-clock timeout; carries it in
    /// milliseconds.
    Timeout(u64),
    /// A tool name was resolved dynamically and is not registered.
    ToolNotFound(String),
    /// A tool failed in a context where the failure cannot be handed back
    /// to a running script.
    ToolError(String),
}

/// The human-readable text of each error variant.
pub open spec fn spec_error_message(e: OrchestratorError) -> Seq<char> {
    match e {
        OrchestratorError::CompilationError(m) => "Script compilation failed: "@ + m@,
        OrchestratorError::ExecutionError(m) => "Script execution failed: "@ + m@,
        OrchestratorError::MaxOperationsExceeded(n) => "Script exceeded maximum operations ("@
            + dec_digits(n as nat) + ")"@,
        OrchestratorError::Timeout(ms) => "Script execution timed out after "@ + dec_digits(
            ms as nat,
        ) + "ms"@,
        OrchestratorError::ToolNotFound(name) => "Tool not found: "@ + name@,
        OrchestratorError::ToolError(m) => "Tool execution failed: "@ + m@,
    }
}

impl OrchestratorError {
    /// Renders the error as its human-readable message.
    pub fn message(&self) -> (r: String)
        ensures
            r@ == spec_error_message(*self),
    {
        match self {
            OrchestratorError::CompilationError(m) => {
                let mut s = String::from_str("Script compilation failed: ");
                s.append(m.as_str());
                proof {
                    assert(s@ =~= spec_error_message(*self));
                }
                s
            },
            OrchestratorError::ExecutionError(m) => {
                let mut s = String::from_str("Script execution failed: ");
                s.append(m.as_str());
                proof {
                    assert(s@ =~= spec_error_message(*self));
                }
                s
            },
            OrchestratorError::MaxOperationsExceeded(n) => {
                let mut s = String::from_str("Script exceeded maximum operations (");
                append_dec_u64(&mut s, *n);
                s.append(")");
                proof {
                    assert(s@ =~= spec_error_message(*self));
                }
                s
            },
            OrchestratorError::Timeout(ms) => {
                let mut s = String::from_str("Script execution timed out after ");
                append_dec_u64(&mut s, *ms);
                s.append("ms");
                proof {
                    assert(s@ =~= spec_error_message(*self));
                }
                s
            },
            OrchestratorError::ToolNotFound(name) => {
                let mut s = String::from_str("Tool not found: ");
                s.append(name.as_str());
                proof {
                    assert(s@ =~= spec_error_message(*self));
                }
                s
            },
            OrchestratorError::ToolError(m) => {
                let mut s = String::from_str("Tool execution failed: ");
                s.append(m.as_str());
                proof {
                    assert(s@ =~= spec_error_message(*self));
                }
                s
            },
        }
    }
}

} // verus!
