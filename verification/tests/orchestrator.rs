//! End-to-end orchestrator behavior: scripts, tools, limits, errors.

use tool_orchestrator::ExecutionLimits;
use tool_orchestrator::OrchestratorError;
use tool_orchestrator::ToolOrchestrator;

#[test]
fn test_orchestrator_creation() {
    let orchestrator = ToolOrchestrator::new();
    assert!(orchestrator.registered_tools().is_empty());
}

#[test]
fn test_register_executor() {
    let mut orchestrator = ToolOrchestrator::new();
    orchestrator.register_executor("test_tool", |_| Ok("success".to_string()));
    assert!(orchestrator.registered_tools().iter().any(|t| t == "test_tool"));
}

#[test]
fn test_simple_script() {
    let orchestrator = ToolOrchestrator::new();
    let result = orchestrator
        .execute("let x = 1 + 2; x", ExecutionLimits::default())
        .unwrap();
    assert!(result.success);
    assert_eq!(result.output, "3");
}

#[test]
fn test_string_interpolation() {
    let orchestrator = ToolOrchestrator::new();
    let result = orchestrator
        .execute(
            r#"let name = "world"; `Hello, ${name}!`"#,
            ExecutionLimits::default(),
        )
        .unwrap();
    assert!(result.success);
    assert_eq!(result.output, "Hello, world!");
}

#[test]
fn test_tool_execution() {
    let mut orchestrator = ToolOrchestrator::new();
    orchestrator.register_executor("greet", |input: serde_json::Value| {
        let name = input.as_str().unwrap_or("stranger").to_string();
        Ok(format!("Hello, {}!", name))
    });

    let result = orchestrator
        .execute(r#"greet("Ada")"#, ExecutionLimits::default())
        .unwrap();

    assert!(result.success);
    assert_eq!(result.output, "Hello, Ada!");
    assert_eq!(result.tool_calls.len(), 1);
    assert_eq!(result.tool_calls[0].tool_name, "greet");
}

#[test]
fn test_max_operations_limit() {
    let orchestrator = ToolOrchestrator::new();
    let limits = ExecutionLimits::default().with_max_operations(10);

    let result = orchestrator.execute("let sum = 0; for i in 0..1000 { sum += i; } sum", limits);

    assert!(matches!(
        result,
        Err(OrchestratorError::MaxOperationsExceeded(_))
    ));
}

#[test]
fn test_compilation_error() {
    let orchestrator = ToolOrchestrator::new();
    let result = orchestrator.execute(
        "this is not valid rhai syntax {{{{",
        ExecutionLimits::default(),
    );

    assert!(matches!(result, Err(OrchestratorError::CompilationError(_))));
}

#[test]
fn test_multiple_tool_calls() {
    let mut orchestrator = ToolOrchestrator::new();

    orchestrator.register_executor("add", |input: serde_json::Value| {
        if let Some(arr) = input.as_array() {
            let sum: i64 = arr.iter().filter_map(|v| v.as_i64()).sum();
            Ok(sum.to_string())
        } else {
            Err("Expected array".to_string())
        }
    });

    let script = r#"
        let a = add([1, 2, 3]);
        let b = add([4, 5, 6]);
        `Sum1: ${a}, Sum2: ${b}`
    "#;

    let result = orchestrator
        .execute(script, ExecutionLimits::default())
        .unwrap();

    assert!(result.success);
    assert_eq!(result.tool_calls.len(), 2);
    assert!(result.output.contains("Sum1: 6"));
    assert!(result.output.contains("Sum2: 15"));
}

#[test]
fn test_tool_error_handling() {
    let mut orchestrator = ToolOrchestrator::new();
    orchestrator.register_executor("fail_tool", |_| Err("Intentional failure".to_string()));

    let result = orchestrator
        .execute(r#"fail_tool("test")"#, ExecutionLimits::default())
        .unwrap();

    assert!(result.success);
    assert!(result.output.contains("Tool error"));
    assert_eq!(result.tool_calls.len(), 1);
    assert!(!result.tool_calls[0].success);
}

#[test]
fn test_max_tool_calls_limit() {
    let mut orchestrator = ToolOrchestrator::new();
    orchestrator.register_executor("count", |_| Ok("1".to_string()));

    let limits = ExecutionLimits::default().with_max_tool_calls(3);
    let script = r#"
        let a = count("1");
        let b = count("2");
        let c = count("3");
        count("4")
    "#;

    let result = orchestrator.execute(script, limits).unwrap();

    assert!(
        result.output.contains("Maximum tool calls"),
        "Expected error message about max tool calls, got: {}",
        result.output
    );
    assert_eq!(result.tool_calls.len(), 3);
}

#[test]
fn test_tool_with_map_input() {
    let mut orchestrator = ToolOrchestrator::new();
    orchestrator.register_executor("get_value", |input: serde_json::Value| {
        if let Some(obj) = input.as_object() {
            if let Some(key) = obj.get("key").and_then(|v| v.as_str()) {
                Ok(format!("Got key: {}", key))
            } else {
                Err("Missing key field".to_string())
            }
        } else {
            Err("Expected object".to_string())
        }
    });

    let result = orchestrator
        .execute(
            r#"get_value(#{ key: "test_key" })"#,
            ExecutionLimits::default(),
        )
        .unwrap();

    assert!(result.success);
    assert_eq!(result.output, "Got key: test_key");
}

#[test]
fn test_loop_with_tool_calls() {
    let mut orchestrator = ToolOrchestrator::new();
    orchestrator.register_executor("double", |input: serde_json::Value| {
        let n = input.as_i64().unwrap_or(0);
        Ok((n * 2).to_string())
    });

    let script = r#"
        let results = [];
        for i in 1..4 {
            results.push(double(i));
        }
        results
    "#;

    let result = orchestrator
        .execute(script, ExecutionLimits::default())
        .unwrap();

    assert!(result.success);
    assert_eq!(result.tool_calls.len(), 3);
}

#[test]
fn test_conditional_tool_calls() {
    let mut orchestrator = ToolOrchestrator::new();
    orchestrator.register_executor("check", |input: serde_json::Value| {
        let n = input.as_i64().unwrap_or(0);
        Ok(if n > 5 { "big" } else { "small" }.to_string())
    });

    let script = r#"
        let x = 10;
        if x > 5 {
            check(x)
        } else {
            "skipped"
        }
    "#;

    let result = orchestrator
        .execute(script, ExecutionLimits::default())
        .unwrap();

    assert!(result.success);
    assert_eq!(result.output, "big");
    assert_eq!(result.tool_calls.len(), 1);
}

#[test]
fn test_empty_script() {
    let orchestrator = ToolOrchestrator::new();
    let result = orchestrator.execute("", ExecutionLimits::default()).unwrap();

    assert!(result.success);
    assert!(result.output.is_empty());
}

#[test]
fn test_unit_return() {
    let orchestrator = ToolOrchestrator::new();
    let result = orchestrator
        .execute("let x = 5;", ExecutionLimits::default())
        .unwrap();

    assert!(result.success);
    assert!(result.output.is_empty());
}

#[test]
fn test_execution_time_recorded() {
    let orchestrator = ToolOrchestrator::new();
    let result = orchestrator
        .execute(
            "let sum = 0; for i in 0..100 { sum += i; } sum",
            ExecutionLimits::default(),
        )
        .unwrap();

    assert!(result.success);
    assert!(result.execution_time_ms < 10000);
}

#[test]
fn test_default_impl() {
    let orchestrator = ToolOrchestrator::default();
    assert!(orchestrator.registered_tools().is_empty());

    let result = orchestrator
        .execute("1 + 1", ExecutionLimits::default())
        .unwrap();
    assert!(result.success);
    assert_eq!(result.output, "2");
}

#[test]
fn test_timeout_error() {
    let orchestrator = ToolOrchestrator::new();

    let limits = ExecutionLimits::default()
        .with_timeout_ms(1)
        .with_max_operations(1_000_000);

    let result = orchestrator.execute(
        r#"
        let sum = 0;
        for i in 0..1000000 {
            sum += i;
        }
        sum
        "#,
        limits,
    );

    assert!(result.is_err());
    match result {
        Err(OrchestratorError::Timeout(ms)) => assert_eq!(ms, 1),
        _ => panic!("Expected Timeout error, got: {:?}", result),
    }
}

#[test]
fn test_runtime_error() {
    let orchestrator = ToolOrchestrator::new();

    let result = orchestrator.execute("undefined_variable", ExecutionLimits::default());

    assert!(result.is_err());
    match result {
        Err(OrchestratorError::ExecutionError(msg)) => {
            assert!(msg.contains("undefined_variable") || msg.contains("not found"));
        }
        _ => panic!("Expected ExecutionError"),
    }
}

#[test]
fn test_registered_tools() {
    let mut orchestrator = ToolOrchestrator::new();
    assert!(orchestrator.registered_tools().is_empty());

    orchestrator.register_executor("tool_a", |_| Ok("a".to_string()));
    orchestrator.register_executor("tool_b", |_| Ok("b".to_string()));

    let tools = orchestrator.registered_tools();
    assert_eq!(tools.len(), 2);
    assert!(tools.iter().any(|t| t == "tool_a"));
    assert!(tools.iter().any(|t| t == "tool_b"));
}

#[test]
fn test_non_string_result() {
    let orchestrator = ToolOrchestrator::new();

    let result = orchestrator.execute("42", ExecutionLimits::default()).unwrap();

    assert!(result.success);
    assert_eq!(result.output, "42");
}

#[test]
fn test_array_result() {
    let orchestrator = ToolOrchestrator::new();

    let result = orchestrator
        .execute("[1, 2, 3]", ExecutionLimits::default())
        .unwrap();

    assert!(result.success);
    assert!(result.output.contains("1"));
    assert!(result.output.contains("2"));
    assert!(result.output.contains("3"));
}

#[test]
fn test_max_tool_calls_sentinel_literal() {
    let mut orchestrator = ToolOrchestrator::new();
    orchestrator.register_executor("count", |_| Ok("ok".to_string()));

    let limits = ExecutionLimits::default().with_max_tool_calls(3);
    let script = r#"
        let a = count("1");
        let b = count("2");
        let c = count("3");
        count("4")
    "#;

    let result = orchestrator.execute(script, limits).unwrap();

    assert!(result.success);
    assert_eq!(result.output, "ERROR: Maximum tool calls (3) exceeded");
    assert_eq!(result.tool_calls.len(), 3);
}

#[test]
fn test_blocked_call_skips_handler_and_log() {
    let mut orchestrator = ToolOrchestrator::new();
    orchestrator.register_executor("echo", |input: serde_json::Value| {
        Ok(input.as_str().unwrap_or("?").to_string())
    });

    let limits = ExecutionLimits::default().with_max_tool_calls(1);
    let script = r#"
        let a = echo("first");
        let b = echo("second");
        `${a}|${b}`
    "#;

    let result = orchestrator.execute(script, limits).unwrap();

    assert!(result.success);
    assert_eq!(result.output, "first|ERROR: Maximum tool calls (1) exceeded");
    assert_eq!(result.tool_calls.len(), 1);
    assert_eq!(result.tool_calls[0].output, "first");
}

#[test]
fn test_tool_error_recorded_in_band() {
    let mut orchestrator = ToolOrchestrator::new();
    orchestrator.register_executor("boom", |_| Err("boom".to_string()));

    let result = orchestrator
        .execute(r#"boom("x")"#, ExecutionLimits::default())
        .unwrap();

    assert!(result.success);
    assert_eq!(result.output, "Tool error: boom");
    assert_eq!(result.tool_calls.len(), 1);
    assert!(!result.tool_calls[0].success);
    assert_eq!(result.tool_calls[0].output, "Tool error: boom");
}

#[test]
fn test_unregister() {
    let mut orchestrator = ToolOrchestrator::new();
    orchestrator.register_executor("gone", |_| Ok("x".to_string()));
    assert!(orchestrator.unregister("gone"));
    assert!(!orchestrator.unregister("gone"));
    assert!(orchestrator.registered_tools().is_empty());
}

#[test]
fn test_register_replaces_existing_name() {
    let mut orchestrator = ToolOrchestrator::new();
    orchestrator.register_executor("tool", |_| Ok("old".to_string()));
    orchestrator.register_executor("tool", |_| Ok("new".to_string()));

    assert_eq!(orchestrator.registered_tools().len(), 1);
    let result = orchestrator
        .execute(r#"tool("x")"#, ExecutionLimits::default())
        .unwrap();
    assert_eq!(result.output, "new");
}

#[test]
fn test_audit_log_order_matches_call_order() {
    let mut orchestrator = ToolOrchestrator::new();
    orchestrator.register_executor("echo", |input: serde_json::Value| {
        Ok(input.as_str().unwrap_or("?").to_string())
    });

    let script = r#"
        echo("a");
        echo("b");
        echo("c")
    "#;

    let result = orchestrator
        .execute(script, ExecutionLimits::default())
        .unwrap();

    assert_eq!(result.tool_calls.len(), 3);
    assert_eq!(result.tool_calls[0].output, "a");
    assert_eq!(result.tool_calls[1].output, "b");
    assert_eq!(result.tool_calls[2].output, "c");
}
