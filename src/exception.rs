//! Exit codes that stand for a machine fault rather than an OS error.
use vstd::prelude::*;

verus! {

/// A structured exception raised inside the target process.
#[derive(Clone, Copy, Debug, PartialEq, Eq)]
pub enum ExceptionCode {
    AccessViolation,
    ArrayBoundsExceeded,
    Breakpoint,
    DatatypeMisalignment,
    FltDenormalOperand,
    FltDivideByZero,
    FltInexactResult,
    FltInvalidOperation,
    FltOverflow,
    FltStackCheck,
    FltUnderflow,
    GuardPage,
    IllegalInstruction,
    InPageError,
    IntDivideByZero,
    IntOverflow,
    InvalidDisposition,
    InvalidHandle,
    NoncontinuableException,
    PrivInstruction,
    SingleStep,
    StackOverflow,
}

/// The exit code under which each exception is reported.
pub open spec fn exception_code_value(e: ExceptionCode) -> u32 {
    match e {
        ExceptionCode::AccessViolation => 0xC000_0005,
        ExceptionCode::ArrayBoundsExceeded => 0xC000_008C,
        ExceptionCode::Breakpoint => 0x8000_0003,
        ExceptionCode::DatatypeMisalignment => 0x8000_0002,
        ExceptionCode::FltDenormalOperand => 0xC000_008D,
        ExceptionCode::FltDivideByZero => 0xC000_008E,
        ExceptionCode::FltInexactResult => 0xC000_008F,
        ExceptionCode::FltInvalidOperation => 0xC000_0090,
        ExceptionCode::FltOverflow => 0xC000_0091,
        ExceptionCode::FltStackCheck => 0xC000_0092,
        ExceptionCode::FltUnderflow => 0xC000_0093,
        ExceptionCode::GuardPage => 0x8000_0001,
        ExceptionCode::IllegalInstruction => 0xC000_001D,
        ExceptionCode::InPageError => 0xC000_0006,
        ExceptionCode::IntDivideByZero => 0xC000_0094,
        ExceptionCode::IntOverflow => 0xC000_0095,
        ExceptionCode::InvalidDisposition => 0xC000_0026,
        ExceptionCode::InvalidHandle => 0xC000_0008,
        ExceptionCode::NoncontinuableException => 0xC000_0025,
        ExceptionCode::PrivInstruction => 0xC000_0096,
        ExceptionCode::SingleStep => 0x8000_0004,
        ExceptionCode::StackOverflow => 0xC000_00FD,
    }
}

/// The exception that an exit code stands for, if it stands for one.
pub open spec fn exception_of(code: u32) -> Option<ExceptionCode> {
    if exists|e: ExceptionCode| exception_code_value(e) == code {
        Some(choose|e: ExceptionCode| exception_code_value(e) == code)
    } else {
        None
    }
}

/// No two exceptions share an exit code, and none is reported as zero.
pub proof fn lemma_exception_code_injective(a: ExceptionCode, b: ExceptionCode)
    ensures
        exception_code_value(a) == exception_code_value(b) ==> a == b,
        exception_code_value(a) != 0,
{
}

impl ExceptionCode {
    /// The exit code under which this exception is reported.
    pub fn code(&self) -> (r: u32)
        ensures
            r == exception_code_value(*self),
    {
        match self {
            ExceptionCode::AccessViolation => 0xC000_0005,
            ExceptionCode::ArrayBoundsExceeded => 0xC000_008C,
            ExceptionCode::Breakpoint => 0x8000_0003,
            ExceptionCode::DatatypeMisalignment => 0x8000_0002,
            ExceptionCode::FltDenormalOperand => 0xC000_008D,
            ExceptionCode::FltDivideByZero => 0xC000_008E,
            ExceptionCode::FltInexactResult => 0xC000_008F,
            ExceptionCode::FltInvalidOperation => 0xC000_0090,
            ExceptionCode::FltOverflow => 0xC000_0091,
            ExceptionCode::FltStackCheck => 0xC000_0092,
            ExceptionCode::FltUnderflow => 0xC000_0093,
            ExceptionCode::GuardPage => 0x8000_0001,
            ExceptionCode::IllegalInstruction => 0xC000_001D,
            ExceptionCode::InPageError => 0xC000_0006,
            ExceptionCode::IntDivideByZero => 0xC000_0094,
            ExceptionCode::IntOverflow => 0xC000_0095,
            ExceptionCode::InvalidDisposition => 0xC000_0026,
            ExceptionCode::InvalidHandle => 0xC000_0008,
            ExceptionCode::NoncontinuableException => 0xC000_0025,
            ExceptionCode::PrivInstruction => 0xC000_0096,
            ExceptionCode::SingleStep => 0x8000_0004,
            ExceptionCode::StackOverflow => 0xC000_00FD,
        }
    }

    /// The exception reported under `code`, or `None` for an ordinary code.
    pub fn try_from_code(code: u32) -> (r: Option<ExceptionCode>)
        ensures
            r == exception_of(code),
    {
        let r = match code {
            0xC000_0005 => Some(ExceptionCode::AccessViolation),
            0xC000_008C => Some(ExceptionCode::ArrayBoundsExceeded),
            0x8000_0003 => Some(ExceptionCode::Breakpoint),
            0x8000_0002 => Some(ExceptionCode::DatatypeMisalignment),
            0xC000_008D => Some(ExceptionCode::FltDenormalOperand),
            0xC000_008E => Some(ExceptionCode::FltDivideByZero),
            0xC000_008F => Some(ExceptionCode::FltInexactResult),
            0xC000_0090 => Some(ExceptionCode::FltInvalidOperation),
            0xC000_0091 => Some(ExceptionCode::FltOverflow),
            0xC000_0092 => Some(ExceptionCode::FltStackCheck),
            0xC000_0093 => Some(ExceptionCode::FltUnderflow),
            0x8000_0001 => Some(ExceptionCode::GuardPage),
            0xC000_001D => Some(ExceptionCode::IllegalInstruction),
            0xC000_0006 => Some(ExceptionCode::InPageError),
            0xC000_0094 => Some(ExceptionCode::IntDivideByZero),
            0xC000_0095 => Some(ExceptionCode::IntOverflow),
            0xC000_0026 => Some(ExceptionCode::InvalidDisposition),
            0xC000_0008 => Some(ExceptionCode::InvalidHandle),
            0xC000_0025 => Some(ExceptionCode::NoncontinuableException),
            0xC000_0096 => Some(ExceptionCode::PrivInstruction),
            0x8000_0004 => Some(ExceptionCode::SingleStep),
            0xC000_00FD => Some(ExceptionCode::StackOverflow),
            _ => None,
        };
        proof {
            match r {
                Some(e) => {
                    assert(exception_code_value(e) == code);
                    let c = choose|x: ExceptionCode| exception_code_value(x) == code;
                    lemma_exception_code_injective(c, e);
                },
                None => {
                    assert forall|e: ExceptionCode| exception_code_value(e) != code by {
                        match e {
                            _ => {},
                        }
                    }
                },
            }
        }
        r
    }
}

} // verus!
