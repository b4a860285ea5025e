//! The actor abstraction: a stateful object that processes typed messages
//! one at a time.

use vstd::prelude::*;

verus! {

/// Main actor trait.
///
/// Type parameters `I`, `O` and `E` are the handler's input, output and
/// error, respectively.  An actor exposes a read-only handler, invoked for
/// `Message::Task`, and a mutating handler, invoked for `Message::TaskMut`.
/// Each handler is described by a specification function that its
/// executable counterpart must match, so that the runtime's dispatch
/// contract can speak about handler results exactly.  An implementation
/// written outside the verifier supplies the specification functions as
/// ordinary methods; they are never called at run time.
pub trait Actor<I, O, E>: Sized {
    /// What the read-only handler returns for a given input.
    spec fn handler_spec(&self, input: I) -> Result<O, E>;

    /// The actor state the mutating handler leaves behind.
    spec fn handler_mut_state_spec(&self, input: I) -> Self;

    /// What the mutating handler returns for a given input.
    /// `Ok(None)` signals success without a value.
    spec fn handler_mut_result_spec(&self, input: I) -> Result<Option<O>, E>;

    /// This actor's read-only message handler.
    fn handler(&self, input: I) -> (r: Result<O, E>)
        ensures
            r == self.handler_spec(input),
    ;

    /// This actor's message handler with requested mutation.
    fn handler_mut(&mut self, input: I) -> (r: Result<Option<O>, E>)
        ensures
            *final(self) == old(self).handler_mut_state_spec(input),
            r == old(self).handler_mut_result_spec(input),
    ;
}

/// Example actor multiplying its input by a configurable factor, wrapping
/// on overflow.  Used by the tests and the documentation.
#[derive(Debug, Clone, PartialEq, Eq, Structural)]
pub struct Mult {
    /// The factor applied to every `Task` input.
    pub a: u32,
}

/// Error type of the example actor.  It is never actually produced.
#[derive(Debug, Clone, PartialEq, Eq, Structural)]
pub struct SomeError;

impl Actor<u32, u32, SomeError> for Mult {
    open spec fn handler_spec(&self, input: u32) -> Result<u32, SomeError> {
        Ok(((self.a as int * input as int) % 0x1_0000_0000) as u32)
    }

    open spec fn handler_mut_state_spec(&self, input: u32) -> Mult {
        Mult { a: input }
    }

    open spec fn handler_mut_result_spec(&self, input: u32) -> Result<Option<u32>, SomeError> {
        Ok(None)
    }

    fn handler(&self, input: u32) -> (r: Result<u32, SomeError>) {
        assert((self.a as u64) * (input as u64) <= 0xffff_ffffu64 * 0xffff_ffffu64)
            by (nonlinear_arith)
            requires
                self.a <= 0xffff_ffffu64,
                input <= 0xffff_ffffu64,
        ;
        let prod: u64 = (self.a as u64) * (input as u64);
        Ok((prod % 0x1_0000_0000u64) as u32)
    }

    fn handler_mut(&mut self, input: u32) -> (r: Result<Option<u32>, SomeError>) {
        self.a = input;
        Ok(None)
    }
}

} // verus!
