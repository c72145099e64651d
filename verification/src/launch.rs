//! The launch configuration of the probe: everything the process-creation
//! call needs, computed and validated before any process exists.
//!
//! The launcher reads exactly one CLI argument; a rejected argument means the
//! probe aborts with the error returned here, before the clone call is ever
//! attempted.

use crate::args::ArgError;
use crate::args::parse_outcome;
use crate::args::parse_stack_size;
use crate::flags::clone_flags;
use crate::flags::namespace_flags_spec;
use crate::stack::make_zeroed;
use vstd::prelude::*;

verus! {

/// What the clone call is given: the size of the child's stack buffer and
/// the namespace-isolation flag word.
#[derive(Clone, Copy, Debug, PartialEq, Eq, Structural)]
pub struct ProbeConfig {
    /// Size in bytes of the buffer that will serve as the child's stack.
    pub stack_size: usize,
    /// The fixed flag word: all seven namespace-isolation flags plus
    /// child-termination-signal delivery.
    pub flags: u64,
}

impl ProbeConfig {
    /// A well-formed configuration has a stack that can hold at least one
    /// byte and carries exactly the fixed flag word.
    pub open spec fn wf(self) -> bool {
        self.stack_size > 0 && self.flags == namespace_flags_spec()
    }

    /// Builds the launch configuration from the raw bytes of the CLI
    /// argument. Succeeds exactly when the argument is a non-empty decimal
    /// numeral whose positive value fits in `usize`; the stack size is that
    /// value and the flag word is the fixed one.
    pub fn from_arg(arg: &Vec<u8>) -> (r: Result<ProbeConfig, ArgError>)
        ensures
            match r {
                Ok(c) => c.wf() && parse_outcome(arg@, Ok(c.stack_size)),
                Err(e) => parse_outcome(arg@, Err(e)),
            },
    {
        match parse_stack_size(arg) {
            Ok(n) => Ok(ProbeConfig { stack_size: n, flags: clone_flags() }),
            Err(e) => Err(e),
        }
    }

    /// Allocates the zero-initialized buffer that this configuration hands
    /// to the clone call as the child's stack.
    pub fn child_stack(&self) -> (buf: Vec<u8>)
        ensures
            buf@.len() == self.stack_size,
            forall|i: int| 0 <= i < buf@.len() ==> buf@[i] == 0u8,
    {
        make_zeroed(self.stack_size)
    }
}

} // verus!
