use vstd::prelude::*;

verus! {

/// Heap, in bytes, handed to the allocator at startup.
pub const HEAP_BYTES: usize = 61440;

/// How much the diagnostic log stream says.
#[derive(Clone, Copy, Debug, PartialEq, Eq, Structural)]
pub enum LogLevel {
    Error,
    Warn,
    Info,
    Debug,
    Trace,
}

/// The startup options shared by every firmware entry point.
#[derive(Clone, Copy, Debug, PartialEq, Eq, Structural)]
pub struct RuntimeConfig {
    pub heap_bytes: usize,
    pub log_level: LogLevel,
}

impl RuntimeConfig {
    /// The options the firmware runs with: the standard heap and
    /// informational logging.
    pub fn standard() -> (r: RuntimeConfig)
        ensures
            r.heap_bytes == HEAP_BYTES,
            r.log_level == LogLevel::Info,
    {
        RuntimeConfig { heap_bytes: HEAP_BYTES, log_level: LogLevel::Info }
    }
}

} // verus!
