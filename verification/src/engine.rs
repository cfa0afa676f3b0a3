//! The orchestrator: registered tools, bounded script execution, and the
//! audit trail.
//!
//! A [`ToolOrchestrator`] owns the tool registry. Each [`execute`] call
//! builds a fresh, isolated engine configured from the given
//! [`ExecutionLimits`], binds every registered tool into it, compiles and
//! evaluates the script, and assembles the result together with the audit
//! log. Engine failures map to the typed [`OrchestratorError`] taxonomy;
//! a failing tool handler is absorbed in-band and never aborts the
//! script.
//!
//! [`execute`]: ToolOrchestrator::execute

use vstd::prelude::*;

use crate::host::ToolExecutor;
use crate::host::ToolRegistry;
use crate::host::classify_dynamic;
use crate::host::engine_bind_tool;
use crate::host::engine_compile;
use crate::host::engine_eval;
use crate::host::engine_install_timeout;
use crate::host::engine_new;
use crate::host::engine_set_expr_depths;
use crate::host::engine_set_max_array_size;
use crate::host::engine_set_max_map_size;
use crate::host::engine_set_max_operations;
use crate::host::engine_set_max_string_size;
use crate::host::executor_invoke;
use crate::host::executor_new;
use crate::host::registry_insert;
use crate::host::registry_items;
use crate::host::registry_names;
use crate::host::registry_new;
use crate::host::registry_names_vec;
use crate::host::registry_remove;
use crate::host::stopwatch_elapsed_ms;
use crate::host::stopwatch_start;
use crate::host::to_serde_value;
use crate::sandbox::ExecutionLimits;
use crate::session::SharedCounter;
use crate::session::SharedVec;
use crate::session::clone_shared;
use crate::session::increment_counter;
use crate::session::lock_vec;
use crate::session::new_shared_counter;
use crate::session::new_shared_vec;
use crate::session::push_to_vec;
use crate::text::dec_digits;
use crate::types::OrchestratorError;
use crate::types::OrchestratorResult;
use crate::types::ToolCall;
use crate::value::render_output;
use crate::value::script_to_json;

verus! {

/// Maximum expression nesting depth, a fixed internal bound against stack
/// overflow from deeply nested expressions.
pub const MAX_EXPR_DEPTH: usize = 64;

/// Maximum call nesting depth, a fixed internal bound against stack
/// overflow from deep recursion.
pub const MAX_CALL_DEPTH: usize = 64;

/// How an evaluation failed, as classified at the engine boundary.
pub enum EvalFailure {
    /// The engine's operation counter passed the installed cap.
    TooManyOperations,
    /// The progress hook requested termination: the wall-clock timeout.
    Terminated,
    /// Any other runtime failure, as its text.
    Other(String),
}

/// The typed error each evaluation failure maps to: the operation-cap
/// failure carries the configured cap, the hook termination carries the
/// configured timeout, and anything else is a runtime error with its
/// text.
pub open spec fn spec_eval_error(failure: EvalFailure, limits: ExecutionLimits) -> OrchestratorError {
    match failure {
        EvalFailure::TooManyOperations => OrchestratorError::MaxOperationsExceeded(
            limits.max_operations,
        ),
        EvalFailure::Terminated => OrchestratorError::Timeout(limits.timeout_ms),
        EvalFailure::Other(m) => OrchestratorError::ExecutionError(m),
    }
}

/// Maps a classified evaluation failure to its typed error, exactly as
/// [`spec_eval_error`] says.
pub fn map_eval_failure(failure: EvalFailure, limits: &ExecutionLimits) -> (e: OrchestratorError)
    ensures
        e == spec_eval_error(failure, *limits),
{
    match failure {
        EvalFailure::TooManyOperations => OrchestratorError::MaxOperationsExceeded(
            limits.max_operations,
        ),
        EvalFailure::Terminated => OrchestratorError::Timeout(limits.timeout_ms),
        EvalFailure::Other(m) => OrchestratorError::ExecutionError(m),
    }
}

/// The sentinel text a script sees in place of a tool's answer once the
/// call cap is spent.
pub open spec fn sentinel_text(max: nat) -> Seq<char> {
    "ERROR: Maximum tool calls ("@ + dec_digits(max) + ") exceeded"@
}

/// Builds the call-cap sentinel, exactly [`sentinel_text`].
pub fn limit_sentinel(max: usize) -> (r: String)
    ensures
        r@ == sentinel_text(max as nat),
{
    let mut s = String::from_str("ERROR: Maximum tool calls (");
    crate::text::append_dec_u64(&mut s, max as u64);
    s.append(") exceeded");
    proof {
        assert(s@ =~= sentinel_text(max as nat));
    }
    s
}

/// What the script is given back for a completed handler call, and
/// whether the audit record counts it a success: a successful handler's
/// text passes through unchanged; a failing handler's text is prefixed
/// `Tool error: ` and marked failed.
pub fn call_outcome(result: Result<String, String>) -> (r: (String, bool))
    ensures
        (result matches Ok(s) ==> r.1 == true && r.0 == s),
        (result matches Err(e) ==> r.1 == false && r.0@ == "Tool error: "@ + e@),
{
    match result {
        Ok(s) => (s, true),
        Err(e) => {
            let mut t = String::from_str("Tool error: ");
            t.append(e.as_str());
            proof {
                assert(t@ =~= "Tool error: "@ + e@);
            }
            (t, false)
        },
    }
}

/// One tool call as the engine's bound closure runs it: admit the call
/// against the cap (or hand the script the sentinel without touching the
/// audit log), bridge the argument to JSON, invoke the handler, append
/// the audit record whatever the handler said, and give the script the
/// outcome text.
pub(crate) fn run_tool_call(
    name: &String,
    exec: &ToolExecutor,
    calls: &SharedVec<ToolCall>,
    count: &SharedCounter,
    max_calls: usize,
    input: rhai::Dynamic,
) -> String {
    let watch = stopwatch_start();
    if increment_counter(count, max_calls).is_err() {
        return limit_sentinel(max_calls);
    }
    let value = classify_dynamic(&input);
    let json = script_to_json(&value);
    let result = executor_invoke(exec, to_serde_value(&json));
    let (output, success) = call_outcome(result);
    let record = ToolCall::new(
        name.clone(),
        json,
        output.clone(),
        success,
        stopwatch_elapsed_ms(&watch),
    );
    push_to_vec(calls, record);
    output
}

/// Executes scripts against registered tools, with per-call resource
/// bounds and a full audit trail.
pub struct ToolOrchestrator {
    registry: ToolRegistry,
}

impl ToolOrchestrator {
    /// The set of names under which tools are currently registered.
    pub closed spec fn registered(self) -> Set<Seq<char>> {
        registry_names(self.registry)
    }

    /// A fresh orchestrator with no tools registered.
    pub fn new() -> (r: Self)
        ensures
            r.registered() == Set::<Seq<char>>::empty(),
    {
        ToolOrchestrator { registry: registry_new() }
    }

    /// Registers a handler under a name: an upsert, so a handler already
    /// registered under the same name is replaced, last write wins.
    /// Executions already in flight are unaffected.
    pub fn register_executor<F>(&mut self, name: &str, executor: F) where
        F: Fn(serde_json::Value) -> Result<String, String> + Send + Sync + 'static,

        ensures
            final(self).registered() == old(self).registered().insert(name@),
    {
        let exec = executor_new(executor);
        registry_insert(&mut self.registry, name, exec);
    }

    /// Removes the handler registered under a name, reporting whether one
    /// was there.
    pub fn unregister(&mut self, name: &str) -> (removed: bool)
        ensures
            removed == old(self).registered().contains(name@),
            final(self).registered() == old(self).registered().remove(name@),
    {
        registry_remove(&mut self.registry, name)
    }

    /// Every registered tool name, each exactly once, in no promised
    /// order.
    pub fn registered_tools(&self) -> (names: Vec<String>)
        ensures
            names@.map_values(|s: String| s@).to_set() == self.registered(),
            names@.map_values(|s: String| s@).no_duplicates(),
    {
        registry_names_vec(&self.registry)
    }

    /// Runs one script under the given limits, with every registered tool
    /// callable by name.
    ///
    /// A result is assembled exactly once: on success it carries the
    /// script's final value as text, the ordered audit log and the
    /// elapsed time, with `success` true and no error. A failure is one
    /// typed error: a compile failure is `CompilationError`, the
    /// operation cap comes back as `MaxOperationsExceeded` carrying
    /// exactly `limits.max_operations`, the wall-clock timeout as
    /// `Timeout` carrying exactly `limits.timeout_ms`, and any other
    /// runtime failure as `ExecutionError`. `ToolNotFound` and
    /// `ToolError` are never produced here: an unknown name fails inside
    /// the engine as a runtime error, and a failing handler is absorbed
    /// in-band.
    pub fn execute(&self, script: &str, limits: ExecutionLimits) -> (r: Result<
        OrchestratorResult,
        OrchestratorError,
    >)
        ensures
            (r matches Ok(res) ==> res.success == true && res.error is None),
            (r matches Err(e) ==> (e matches OrchestratorError::MaxOperationsExceeded(n) ==> n
                == limits.max_operations)),
            (r matches Err(e) ==> (e matches OrchestratorError::Timeout(t) ==> t
                == limits.timeout_ms)),
            (r matches Err(e) ==> !(e is ToolNotFound) && !(e is ToolError)),
    {
        let watch = stopwatch_start();
        let calls: SharedVec<ToolCall> = new_shared_vec();
        let count: SharedCounter = new_shared_counter();

        let mut engine = engine_new();
        engine_set_max_operations(&mut engine, limits.max_operations);
        engine_set_max_string_size(&mut engine, limits.max_string_size);
        engine_set_max_array_size(&mut engine, limits.max_array_size);
        engine_set_max_map_size(&mut engine, limits.max_map_size);
        engine_set_expr_depths(&mut engine, MAX_EXPR_DEPTH, MAX_CALL_DEPTH);
        engine_install_timeout(&mut engine, limits.timeout_ms);

        let tools = registry_items(&self.registry);
        let mut i: usize = 0;
        while i < tools.len()
            decreases tools.len() - i,
        {
            let entry = &tools[i];
            engine_bind_tool(
                &mut engine,
                entry.0.clone(),
                clone_shared(&entry.1),
                clone_shared(&calls),
                clone_shared(&count),
                limits.max_tool_calls,
            );
            i += 1;
        }

        let ast = match engine_compile(&engine, script) {
            Ok(a) => a,
            Err(msg) => {
                return Err(OrchestratorError::CompilationError(msg));
            },
        };

        match engine_eval(&engine, &ast) {
            Err(failure) => Err(map_eval_failure(failure, &limits)),
            Ok(value) => {
                let script_value = classify_dynamic(&value);
                let output = render_output(&script_value);
                let log = lock_vec(&calls);
                let elapsed = stopwatch_elapsed_ms(&watch);
                Ok(OrchestratorResult::success(output, log, elapsed))
            },
        }
    }
}

impl Default for ToolOrchestrator {
    /// The same empty orchestrator [`ToolOrchestrator::new`] builds.
    fn default() -> (r: Self)
        ensures
            r.registered() == Set::<Seq<char>>::empty(),
    {
        ToolOrchestrator::new()
    }
}

/// The full bridge from an engine value to the JSON library's model:
/// classification at the boundary, the verified conversion
/// [`script_to_json`], then the JSON library's constructors.
pub fn dynamic_to_json(value: &rhai::Dynamic) -> serde_json::Value {
    let script_value = classify_dynamic(value);
    let json = script_to_json(&script_value);
    to_serde_value(&json)
}

} // verus!
