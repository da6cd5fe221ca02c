//! The shell's configuration: how the runtime is sized.

use vstd::prelude::*;

verus! {

/// Everything the shell reads from its configuration file.
#[derive(Clone, Debug)]
pub struct Config {
    /// How the runtime is sized.
    pub runtime_config: RuntimeConfig,
}

impl Default for Config {
    /// Every part at its own default.
    fn default() -> (r: Self)
        ensures
            r.runtime_config.tokio_threads is None,
    {
        Config { runtime_config: RuntimeConfig { tokio_threads: None } }
    }
}

/// How the shell's worker runtime is sized.
#[derive(Clone, Copy, Debug, PartialEq, Eq, Structural)]
pub struct RuntimeConfig {
    /// The number of threads for the worker pool, when not left to the
    /// runtime; never zero.
    pub tokio_threads: Option<usize>,
}

impl RuntimeConfig {
    /// Whether the sizing may be used: a stated thread count is not
    /// zero.
    pub open spec fn spec_valid(&self) -> bool {
        self.tokio_threads matches Some(n) ==> n > 0
    }

    /// Checks the sizing.
    pub fn validate(&self) -> (r: bool)
        ensures
            r == self.spec_valid(),
    {
        match self.tokio_threads {
            Some(n) => n > 0,
            None => true,
        }
    }
}

impl Default for RuntimeConfig {
    /// Leave the sizing to the runtime.
    fn default() -> (r: Self)
        ensures
            r.tokio_threads is None,
    {
        RuntimeConfig { tokio_threads: None }
    }
}

} // verus!
