//! The error probe: interpreting codes drained from the native error queue.
//!
//! The driver's error queue is drained by repeated native calls; each raw
//! code the shell drains is interpreted here. A diagnostic aid, never
//! consulted implicitly by any other component.

use vstd::prelude::*;
use crate::types::GLenum;

verus! {

pub const NO_ERROR: GLenum = 0;

pub const INVALID_ENUM: GLenum = 0x0500;

pub const INVALID_VALUE: GLenum = 0x0501;

pub const INVALID_OPERATION: GLenum = 0x0502;

pub const STACK_OVERFLOW: GLenum = 0x0503;

pub const STACK_UNDERFLOW: GLenum = 0x0504;

pub const OUT_OF_MEMORY: GLenum = 0x0505;

pub const INVALID_FRAMEBUFFER_OPERATION: GLenum = 0x0506;

/// The error conditions the native error queue reports.
#[derive(Clone, Copy, PartialEq, Eq, Structural, Debug)]
pub enum Error {
    InvalidEnum,
    InvalidValue,
    InvalidOperation,
    InvalidFramebufferOperation,
    OutOfMemory,
    StackOverflow,
    StackUnderflow,
}

impl Error {
    /// The native constant of this error condition.
    pub open spec fn spec_value(self) -> GLenum {
        match self {
            Error::InvalidEnum => INVALID_ENUM,
            Error::InvalidValue => INVALID_VALUE,
            Error::InvalidOperation => INVALID_OPERATION,
            Error::InvalidFramebufferOperation => INVALID_FRAMEBUFFER_OPERATION,
            Error::OutOfMemory => OUT_OF_MEMORY,
            Error::StackOverflow => STACK_OVERFLOW,
            Error::StackUnderflow => STACK_UNDERFLOW,
        }
    }

    /// What one drained code means: the error it names, or `None` for the
    /// no-error code and for codes the queue never reports.
    pub open spec fn spec_from_raw(raw: GLenum) -> Option<Error> {
        if raw == INVALID_ENUM {
            Some(Error::InvalidEnum)
        } else if raw == INVALID_VALUE {
            Some(Error::InvalidValue)
        } else if raw == INVALID_OPERATION {
            Some(Error::InvalidOperation)
        } else if raw == INVALID_FRAMEBUFFER_OPERATION {
            Some(Error::InvalidFramebufferOperation)
        } else if raw == OUT_OF_MEMORY {
            Some(Error::OutOfMemory)
        } else if raw == STACK_OVERFLOW {
            Some(Error::StackOverflow)
        } else if raw == STACK_UNDERFLOW {
            Some(Error::StackUnderflow)
        } else {
            None
        }
    }

    /// The errors a drained code sequence yields: one per code, stopping at
    /// the first code that names no error (the queue is empty from there).
    pub open spec fn spec_drain(raws: Seq<GLenum>) -> Seq<Error>
        decreases raws.len(),
    {
        if raws.len() == 0 {
            Seq::empty()
        } else {
            match Error::spec_from_raw(raws[0]) {
                Some(e) => seq![e] + Error::spec_drain(raws.drop_first()),
                None => Seq::empty(),
            }
        }
    }

    pub fn value(self) -> (v: GLenum)
        ensures
            v == self.spec_value(),
    {
        match self {
            Error::InvalidEnum => INVALID_ENUM,
            Error::InvalidValue => INVALID_VALUE,
            Error::InvalidOperation => INVALID_OPERATION,
            Error::InvalidFramebufferOperation => INVALID_FRAMEBUFFER_OPERATION,
            Error::OutOfMemory => OUT_OF_MEMORY,
            Error::StackOverflow => STACK_OVERFLOW,
            Error::StackUnderflow => STACK_UNDERFLOW,
        }
    }

    /// Interprets one drained code. `None` exactly for the no-error code
    /// and for codes the queue never reports; otherwise the named error,
    /// whose native constant is the code itself.
    pub fn from_raw(raw: GLenum) -> (r: Option<Error>)
        ensures
            r == Error::spec_from_raw(raw),
            raw == NO_ERROR ==> r is None,
            r matches Some(e) ==> e.spec_value() == raw,
    {
        if raw == INVALID_ENUM {
            Some(Error::InvalidEnum)
        } else if raw == INVALID_VALUE {
            Some(Error::InvalidValue)
        } else if raw == INVALID_OPERATION {
            Some(Error::InvalidOperation)
        } else if raw == INVALID_FRAMEBUFFER_OPERATION {
            Some(Error::InvalidFramebufferOperation)
        } else if raw == OUT_OF_MEMORY {
            Some(Error::OutOfMemory)
        } else if raw == STACK_OVERFLOW {
            Some(Error::StackOverflow)
        } else if raw == STACK_UNDERFLOW {
            Some(Error::StackUnderflow)
        } else {
            None
        }
    }

    /// Appends to `buff` the errors named by the drained codes, in order,
    /// stopping at the first code that names none.
    pub fn get_all(buff: &mut Vec<Error>, drained: &Vec<GLenum>)
        ensures
            final(buff)@ == old(buff)@ + Error::spec_drain(drained@),
    {
        let mut i: usize = 0;
        proof {
            assert(drained@.skip(0) =~= drained@);
        }
        while i < drained.len()
            invariant
                i <= drained@.len(),
                old(buff)@ + Error::spec_drain(drained@) == buff@ + Error::spec_drain(
                    drained@.skip(i as int),
                ),
            decreases drained@.len() - i,
        {
            proof {
                assert(drained@.skip(i as int)[0] == drained@[i as int]);
                assert(drained@.skip(i as int).drop_first() =~= drained@.skip(i as int + 1));
            }
            match Error::from_raw(drained[i]) {
                Some(e) => {
                    let ghost pre = buff@;
                    buff.push(e);
                    proof {
                        assert(buff@ =~= pre + seq![e]);
                        assert(pre + (seq![e] + Error::spec_drain(drained@.skip(i as int + 1)))
                            =~= (pre + seq![e]) + Error::spec_drain(drained@.skip(i as int + 1)));
                    }
                },
                None => {
                    proof {
                        assert(buff@ + Error::spec_drain(drained@.skip(i as int)) =~= buff@);
                    }
                    return ;
                },
            }
            i = i + 1;
        }
        proof {
            assert(drained@.skip(drained@.len() as int) =~= Seq::<GLenum>::empty());
            assert(buff@ + Error::spec_drain(Seq::<GLenum>::empty()) =~= buff@);
        }
    }
}

} // verus!
