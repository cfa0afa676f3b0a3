//! Resource bounds for one script execution.
//!
//! [`ExecutionLimits`] is an immutable configuration value: an operation
//! cap, a tool-call cap, a wall-clock timeout and three collection-size
//! caps. Values are built from one of three presets (`quick`, `default`,
//! `extended`) and adjusted field by field with the `with_*` methods.
//! The limits are not validated against zero: choosing sensible bounds is
//! the caller's responsibility.

use vstd::prelude::*;

verus! {

/// Default preset: maximum engine operations.
pub const DEFAULT_MAX_OPERATIONS: u64 = 100_000;

/// Default preset: maximum tool calls per execution.
pub const DEFAULT_MAX_TOOL_CALLS: usize = 50;

/// Default preset: timeout in milliseconds.
pub const DEFAULT_TIMEOUT_MS: u64 = 30_000;

/// Default preset: maximum string size in bytes.
pub const DEFAULT_MAX_STRING_SIZE: usize = 10_000_000;

/// Default preset: maximum array length.
pub const DEFAULT_MAX_ARRAY_SIZE: usize = 10_000;

/// Default preset: maximum map entry count.
pub const DEFAULT_MAX_MAP_SIZE: usize = 1_000;

/// Quick preset: maximum engine operations.
pub const QUICK_MAX_OPERATIONS: u64 = 10_000;

/// Quick preset: maximum tool calls per execution.
pub const QUICK_MAX_TOOL_CALLS: usize = 10;

/// Quick preset: timeout in milliseconds.
pub const QUICK_TIMEOUT_MS: u64 = 5_000;

/// Extended preset: maximum engine operations.
pub const EXTENDED_MAX_OPERATIONS: u64 = 500_000;

/// Extended preset: maximum tool calls per execution.
pub const EXTENDED_MAX_TOOL_CALLS: usize = 100;

/// Extended preset: timeout in milliseconds.
pub const EXTENDED_TIMEOUT_MS: u64 = 120_000;

/// Bounds applied to one script execution.
///
/// Cloned per execution and never mutated afterwards; the `with_*` methods
/// consume the value and return an adjusted copy.
#[derive(Debug, Clone, PartialEq, Eq, Structural)]
pub struct ExecutionLimits {
    /// Maximum number of engine operations before the run is aborted.
    pub max_operations: u64,
    /// Maximum number of tool calls answered during one execution.
    pub max_tool_calls: usize,
    /// Wall-clock timeout in milliseconds.
    pub timeout_ms: u64,
    /// Maximum string size in bytes inside the script.
    pub max_string_size: usize,
    /// Maximum array length inside the script.
    pub max_array_size: usize,
    /// Maximum map entry count inside the script.
    pub max_map_size: usize,
}

/// The default preset as a single value.
pub open spec fn spec_default_limits() -> ExecutionLimits {
    ExecutionLimits {
        max_operations: DEFAULT_MAX_OPERATIONS,
        max_tool_calls: DEFAULT_MAX_TOOL_CALLS,
        timeout_ms: DEFAULT_TIMEOUT_MS,
        max_string_size: DEFAULT_MAX_STRING_SIZE,
        max_array_size: DEFAULT_MAX_ARRAY_SIZE,
        max_map_size: DEFAULT_MAX_MAP_SIZE,
    }
}

impl Default for ExecutionLimits {
    /// The default preset.
    fn default() -> (r: Self)
        ensures
            r == spec_default_limits(),
    {
        ExecutionLimits {
            max_operations: DEFAULT_MAX_OPERATIONS,
            max_tool_calls: DEFAULT_MAX_TOOL_CALLS,
            timeout_ms: DEFAULT_TIMEOUT_MS,
            max_string_size: DEFAULT_MAX_STRING_SIZE,
            max_array_size: DEFAULT_MAX_ARRAY_SIZE,
            max_map_size: DEFAULT_MAX_MAP_SIZE,
        }
    }
}

impl ExecutionLimits {
    /// New limits, identical to the default preset.
    pub fn new() -> (r: Self)
        ensures
            r == spec_default_limits(),
    {
        Self::default()
    }

    /// Tight bounds for short, simple scripts.
    pub fn quick() -> (r: Self)
        ensures
            r == (ExecutionLimits {
                max_operations: QUICK_MAX_OPERATIONS,
                max_tool_calls: QUICK_MAX_TOOL_CALLS,
                timeout_ms: QUICK_TIMEOUT_MS,
                ..spec_default_limits()
            }),
    {
        ExecutionLimits {
            max_operations: QUICK_MAX_OPERATIONS,
            max_tool_calls: QUICK_MAX_TOOL_CALLS,
            timeout_ms: QUICK_TIMEOUT_MS,
            ..Self::default()
        }
    }

    /// Generous bounds for long, multi-tool orchestrations.
    pub fn extended() -> (r: Self)
        ensures
            r == (ExecutionLimits {
                max_operations: EXTENDED_MAX_OPERATIONS,
                max_tool_calls: EXTENDED_MAX_TOOL_CALLS,
                timeout_ms: EXTENDED_TIMEOUT_MS,
                ..spec_default_limits()
            }),
    {
        ExecutionLimits {
            max_operations: EXTENDED_MAX_OPERATIONS,
            max_tool_calls: EXTENDED_MAX_TOOL_CALLS,
            timeout_ms: EXTENDED_TIMEOUT_MS,
            ..Self::default()
        }
    }

    /// The same limits with a different operation cap.
    pub fn with_max_operations(self, max: u64) -> (r: Self)
        ensures
            r == (ExecutionLimits { max_operations: max, ..self }),
    {
        ExecutionLimits { max_operations: max, ..self }
    }

    /// The same limits with a different tool-call cap.
    pub fn with_max_tool_calls(self, max: usize) -> (r: Self)
        ensures
            r == (ExecutionLimits { max_tool_calls: max, ..self }),
    {
        ExecutionLimits { max_tool_calls: max, ..self }
    }

    /// The same limits with a different wall-clock timeout.
    pub fn with_timeout_ms(self, timeout: u64) -> (r: Self)
        ensures
            r == (ExecutionLimits { timeout_ms: timeout, ..self }),
    {
        ExecutionLimits { timeout_ms: timeout, ..self }
    }

    /// The same limits with a different string-size cap.
    pub fn with_max_string_size(self, size: usize) -> (r: Self)
        ensures
            r == (ExecutionLimits { max_string_size: size, ..self }),
    {
        ExecutionLimits { max_string_size: size, ..self }
    }

    /// The same limits with a different array-size cap.
    pub fn with_max_array_size(self, size: usize) -> (r: Self)
        ensures
            r == (ExecutionLimits { max_array_size: size, ..self }),
    {
        ExecutionLimits { max_array_size: size, ..self }
    }

    /// The same limits with a different map-size cap.
    pub fn with_max_map_size(self, size: usize) -> (r: Self)
        ensures
            r == (ExecutionLimits { max_map_size: size, ..self }),
    {
        ExecutionLimits { max_map_size: size, ..self }
    }
}

/// The abort decision the engine's progress hook polls: true exactly when
/// the elapsed wall-clock time has passed the timeout.
pub fn timed_out(elapsed_ms: u64, timeout_ms: u64) -> (r: bool)
    ensures
        r == (elapsed_ms > timeout_ms),
{
    elapsed_ms > timeout_ms
}

} // verus!
