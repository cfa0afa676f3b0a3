//! The trusted boundary to the script engine, the JSON library and the
//! clock.
//!
//! Everything in this module is believed, not proved: each item either
//! declares an outside type or wraps one outside call, converting between
//! outside values and the library's own types. The orchestration logic
//! itself lives in the verified modules and reaches the outside world
//! only through these items.

use std::collections::HashMap;
use std::sync::Arc;

use vstd::prelude::*;

use crate::engine::EvalFailure;
use crate::session::SharedCounter;
use crate::session::SharedVec;
use crate::types::ToolCall;
use crate::value::JsonValue;
use crate::value::ScriptValue;

verus! {

#[verifier::external_type_specification]
#[verifier::external_body]
pub struct ExEngine(rhai::Engine);

#[verifier::external_type_specification]
#[verifier::external_body]
pub struct ExAst(rhai::AST);

#[verifier::external_type_specification]
#[verifier::external_body]
pub struct ExDynamic(rhai::Dynamic);

#[verifier::external_type_specification]
#[verifier::external_body]
pub struct ExValue(serde_json::Value);

/// The shape of a host tool handler: a thread-safe callable from JSON
/// input to success or error text.
pub trait Handler: Send + Sync {
    /// Processes one tool call.
    fn call(&self, input: serde_json::Value) -> Result<String, String>;
}

/// Adapts a host closure to [`Handler`].
pub struct ClosureHandler<F>(F);

impl<F> Handler for ClosureHandler<F> where
    F: Fn(serde_json::Value) -> Result<String, String> + Send + Sync,
 {
    fn call(&self, input: serde_json::Value) -> Result<String, String> {
        closure_call(&self.0, input)
    }
}

/// Relies on the host closure itself: invokes it on the input. What
/// comes back is the handler's own business; nothing is claimed.
#[verifier::external_body]
fn closure_call<F>(f: &F, input: serde_json::Value) -> Result<String, String> where
    F: Fn(serde_json::Value) -> Result<String, String>,
 {
    f(input)
}

/// A host-provided tool handler: a shared, thread-safe callable from JSON
/// input to success or error text.
///
/// Relies on `std::sync::Arc`: the handle is opaque, and nothing is
/// claimed about what an invocation returns.
#[verifier::external_body]
pub struct ToolExecutor(Arc<Box<dyn Handler>>);

impl Clone for ToolExecutor {
    /// Relies on `Arc::clone`: a new handle to the same handler.
    #[verifier::external_body]
    fn clone(&self) -> Self {
        ToolExecutor(Arc::clone(&self.0))
    }
}

/// Relies on `Arc::new`: wraps a host closure as a shared handler.
#[verifier::external_body]
pub(crate) fn executor_new<F>(f: F) -> ToolExecutor where
    F: Fn(serde_json::Value) -> Result<String, String> + Send + Sync + 'static,
 {
    let handler: Box<dyn Handler> = Box::new(ClosureHandler(f));
    ToolExecutor(Arc::new(handler))
}

/// Relies on `std::sync::Arc`'s deref: invokes the shared handler on the
/// given input. Nothing is claimed about the handler's answer.
#[verifier::external_body]
pub(crate) fn executor_invoke(exec: &ToolExecutor, input: serde_json::Value) -> Result<
    String,
    String,
> {
    exec.0.call(input)
}

/// The name-to-handler registry, held behind a trusted cell because its
/// values are undeclarable callables.
///
/// Relies on `std::collections::HashMap`: keys are unique, and the
/// contracts below speak of the key set through [`registry_names`].
#[verifier::external_body]
pub struct ToolRegistry(HashMap<String, ToolExecutor>);

/// The set of tool names the registry currently holds.
pub uninterp spec fn registry_names(r: ToolRegistry) -> Set<Seq<char>>;

/// Relies on `HashMap::new`: a fresh registry holding no names.
#[verifier::external_body]
pub(crate) fn registry_new() -> (r: ToolRegistry)
    ensures
        registry_names(r) == Set::<Seq<char>>::empty(),
{
    ToolRegistry(HashMap::new())
}

/// Relies on `HashMap::insert`: an upsert, so the name joins the key set
/// and an existing handler under the same name is replaced.
#[verifier::external_body]
pub(crate) fn registry_insert(r: &mut ToolRegistry, name: &str, exec: ToolExecutor)
    ensures
        registry_names(*final(r)) == registry_names(*old(r)).insert(name@),
{
    r.0.insert(name.to_string(), exec);
}

/// Relies on `HashMap::remove`: takes the name out of the key set and
/// reports whether it was present.
#[verifier::external_body]
pub(crate) fn registry_remove(r: &mut ToolRegistry, name: &str) -> (removed: bool)
    ensures
        removed == registry_names(*old(r)).contains(name@),
        registry_names(*final(r)) == registry_names(*old(r)).remove(name@),
{
    r.0.remove(name).is_some()
}

/// Relies on `HashMap::keys`: every registered name exactly once, in no
/// promised order.
#[verifier::external_body]
pub(crate) fn registry_names_vec(r: &ToolRegistry) -> (names: Vec<String>)
    ensures
        names@.map_values(|s: String| s@).to_set() == registry_names(*r),
        names@.map_values(|s: String| s@).no_duplicates(),
{
    r.0.keys().cloned().collect()
}

/// Relies on `HashMap::iter`: every entry exactly once — each registered
/// name paired with its handler — in no promised order.
#[verifier::external_body]
pub(crate) fn registry_items(r: &ToolRegistry) -> (items: Vec<(String, ToolExecutor)>)
    ensures
        items@.map_values(|p: (String, ToolExecutor)| p.0@).to_set() == registry_names(*r),
        items@.map_values(|p: (String, ToolExecutor)| p.0@).no_duplicates(),
{
    r.0.iter().map(|(k, v)| (k.clone(), v.clone())).collect()
}

/// A running wall-clock timer.
///
/// Relies on `std::time::Instant`: opaque, and nothing is claimed about
/// the times it yields.
#[verifier::external_body]
pub struct Stopwatch(std::time::Instant);

/// Relies on `std::time::Instant::now`: starts a timer.
#[verifier::external_body]
pub(crate) fn stopwatch_start() -> Stopwatch {
    Stopwatch(std::time::Instant::now())
}

/// Relies on `std::time::Instant::elapsed`: milliseconds since the timer
/// started. Time is not a function of anything the verifier sees, so
/// nothing is claimed.
#[verifier::external_body]
pub(crate) fn stopwatch_elapsed_ms(watch: &Stopwatch) -> u64 {
    watch.0.elapsed().as_millis() as u64
}

/// Relies on `rhai::Engine::new`: a fresh engine with nothing registered.
#[verifier::external_body]
pub(crate) fn engine_new() -> rhai::Engine {
    rhai::Engine::new()
}

/// Relies on `rhai::Engine::set_max_operations`: installs the operation
/// cap the engine enforces during evaluation.
#[verifier::external_body]
pub(crate) fn engine_set_max_operations(engine: &mut rhai::Engine, operations: u64) {
    engine.set_max_operations(operations);
}

/// Relies on `rhai::Engine::set_max_string_size`: installs the string
/// size cap.
#[verifier::external_body]
pub(crate) fn engine_set_max_string_size(engine: &mut rhai::Engine, max_len: usize) {
    engine.set_max_string_size(max_len);
}

/// Relies on `rhai::Engine::set_max_array_size`: installs the array size
/// cap.
#[verifier::external_body]
pub(crate) fn engine_set_max_array_size(engine: &mut rhai::Engine, max_size: usize) {
    engine.set_max_array_size(max_size);
}

/// Relies on `rhai::Engine::set_max_map_size`: installs the map size cap.
#[verifier::external_body]
pub(crate) fn engine_set_max_map_size(engine: &mut rhai::Engine, max_size: usize) {
    engine.set_max_map_size(max_size);
}

/// Relies on `rhai::Engine::set_max_expr_depths`: installs the expression
/// and call nesting caps.
#[verifier::external_body]
pub(crate) fn engine_set_expr_depths(engine: &mut rhai::Engine, expr_depth: usize, call_depth: usize) {
    engine.set_max_expr_depths(expr_depth, call_depth);
}

/// Relies on `std::time::Instant::now` and `rhai::Engine::on_progress`:
/// installs a hook the engine polls at fine evaluation granularity; the
/// hook aborts evaluation once the verified [`crate::sandbox::timed_out`]
/// says the wall-clock budget is spent.
#[verifier::external_body]
pub(crate) fn engine_install_timeout(engine: &mut rhai::Engine, timeout_ms: u64) {
    let start = std::time::Instant::now();
    engine.on_progress(move |_ops| {
        let elapsed = start.elapsed().as_millis() as u64;
        if crate::sandbox::timed_out(elapsed, timeout_ms) {
            Some(rhai::Dynamic::from("timeout"))
        } else {
            None
        }
    });
}

/// Relies on `rhai::Engine::register_fn`: binds the handler into the
/// engine's function namespace under its tool name. The installed closure
/// only forwards to the verified [`crate::engine::run_tool_call`].
#[verifier::external_body]
pub(crate) fn engine_bind_tool(
    engine: &mut rhai::Engine,
    name: String,
    exec: ToolExecutor,
    calls: SharedVec<ToolCall>,
    count: SharedCounter,
    max_calls: usize,
) {
    let fn_name = name.clone();
    engine.register_fn(fn_name.as_str(), move |input: rhai::Dynamic| -> String {
        crate::engine::run_tool_call(&name, &exec, &calls, &count, max_calls, input)
    });
}

/// Relies on `rhai::Engine::compile`: parses the script, handing back the
/// compiled program or the parse error's text.
#[verifier::external_body]
pub(crate) fn engine_compile(engine: &rhai::Engine, script: &str) -> Result<rhai::AST, String> {
    engine.compile(script).map_err(|e| e.to_string())
}

/// Relies on `rhai::Scope::new` and `rhai::Engine::eval_ast_with_scope`:
/// evaluates the compiled program in a fresh scope. A failure is handed
/// back classified, one arm per relevant engine error variant: the
/// operation-cap error, the hook-termination error, and everything else
/// as its text.
#[verifier::external_body]
pub(crate) fn engine_eval(engine: &rhai::Engine, ast: &rhai::AST) -> Result<
    rhai::Dynamic,
    EvalFailure,
> {
    let mut scope = rhai::Scope::new();
    match engine.eval_ast_with_scope::<rhai::Dynamic>(&mut scope, ast) {
        Ok(value) => Ok(value),
        Err(e) => Err(match *e {
            rhai::EvalAltResult::ErrorTooManyOperations(_) => EvalFailure::TooManyOperations,
            rhai::EvalAltResult::ErrorTerminated(_, _) => EvalFailure::Terminated,
            other => EvalFailure::Other(other.to_string()),
        }),
    }
}

/// Relies on `rhai::Dynamic`'s type probes (`is_string`, `is_int`, ...):
/// classifies an engine value into the library's tagged model, arm by
/// arm in the bridge's precedence order. Floats are captured as their
/// round-trip decimal text, and any value outside the model as its debug
/// text.
#[verifier::external_body]
pub(crate) fn classify_dynamic(value: &rhai::Dynamic) -> ScriptValue {
    if value.is_string() { ScriptValue::Str(value.clone().into_string().unwrap_or_default()) }
    else if value.is_int() { ScriptValue::Int(value.as_int().unwrap_or(0)) }
    else if value.is_float() { ScriptValue::Float(format!("{:?}", value.as_float().unwrap_or_default())) }
    else if value.is_bool() { ScriptValue::Bool(value.as_bool().unwrap_or(false)) }
    else if value.is_array() { classify_array(value) }
    else if value.is_map() { classify_map(value) }
    else if value.is_unit() { ScriptValue::Unit }
    else { ScriptValue::Other(format!("{:?}", value)) }
}

/// Relies on `rhai::Dynamic::into_array`: classifies each element in the
/// script's order.
#[verifier::external_body]
fn classify_array(value: &rhai::Dynamic) -> ScriptValue {
    let elems = value.clone().into_array().unwrap_or_default();
    ScriptValue::Array(elems.iter().map(classify_dynamic).collect())
}

/// Relies on `rhai::Dynamic::cast` to a script map: classifies each
/// entry, stringifying its key.
#[verifier::external_body]
fn classify_map(value: &rhai::Dynamic) -> ScriptValue {
    let entries = value.clone().cast::<rhai::Map>();
    ScriptValue::Object(entries.iter().map(|(k, v)| (k.to_string(), classify_dynamic(v))).collect())
}

/// Relies on `serde_json::Value`'s constructors: rebuilds the library's
/// JSON value in the JSON library's own model, variant by variant. Float
/// text is re-read through `serde_json::from_str`, which restores the
/// number the text came from.
#[verifier::external_body]
pub(crate) fn to_serde_value(j: &JsonValue) -> serde_json::Value {
    match j {
        JsonValue::Null => serde_json::Value::Null,
        JsonValue::Bool(b) => serde_json::Value::Bool(*b),
        JsonValue::Int(i) => serde_json::Value::Number(serde_json::Number::from(*i)),
        JsonValue::Float(t) => serde_json::from_str(t).unwrap_or(serde_json::Value::Null),
        JsonValue::Str(s) => serde_json::Value::String(s.clone()),
        JsonValue::Array(a) => serde_json::Value::Array(a.iter().map(to_serde_value).collect()),
        JsonValue::Object(m) => serde_json::Value::Object(m.iter().map(|(k, v)| (k.clone(), to_serde_value(v))).collect()),
    }
}

} // verus!
