//! Per-fiber spawn options.

use vstd::prelude::*;

verus! {

/// Default fiber stack size in bytes: the smallest stack the platform
/// allows a thread, which suffices for fibers that mostly park on I/O.
pub const DEFAULT_STACK_SIZE: usize = 0x4000;

/// Options for spawning a fiber: how large a stack it gets and an optional
/// name for diagnostics.
pub struct Options {
    pub stack_size: usize,
    pub name: Option<String>,
}

impl Options {
    pub fn new() -> (r: Options)
        ensures
            r.stack_size == DEFAULT_STACK_SIZE,
            r.name is None,
    {
        Options { stack_size: DEFAULT_STACK_SIZE, name: None }
    }

    pub fn stack_size(self, size: usize) -> (r: Options)
        ensures
            r.stack_size == size,
            r.name == self.name,
    {
        Options { stack_size: size, name: self.name }
    }

    pub fn name(self, name: Option<String>) -> (r: Options)
        ensures
            r.stack_size == self.stack_size,
            r.name == name,
    {
        Options { stack_size: self.stack_size, name }
    }
}

} // verus!
