use vstd::prelude::*;
use vstd::string::StringExecFns;

verus! {

/// Failures reported by the audio service, one variant per defined negative code.
#[derive(Debug, Clone, Copy, PartialEq, Eq, Structural)]
pub enum Error {
    /// A code that names none of the variants below, kept as it came.
    Unknown(i32),
    /// The device went away; the stream can only be stopped and closed.
    Disconnected,
    /// A parameter was rejected.
    IllegalArgument,
    /// The operation does not fit the stream's current state.
    InvalidState,
    /// The service rejected the stream's handle.
    InvalidHandle,
    /// The operation is not available for this stream.
    Unimplemented,
    /// A resource or a piece of information is not available right now.
    Unavailable,
    /// No handle could be allocated.
    NoFreeHandles,
    /// Memory could not be allocated.
    NoMemory,
    /// A null pointer was passed or detected.
    Null,
    /// An operation took longer than expected.
    Timeout,
    /// A blocking operation was invoked where no blocking was expected.
    WouldBlock,
    /// The requested data format is not supported.
    InvalidFormat,
    /// A requested value was out of range.
    OutOfRange,
    /// The audio service is not available.
    NoService,
    /// The requested sample rate is not supported.
    InvalidRate,
}

/// The codes that name a variant other than `Unknown`.
pub open spec fn is_defined_code(code: int) -> bool {
    code == -899 || code == -898 || code == -895 || code == -892 || (-890 <= code <= -880)
}

/// The error that a service code stands for.
pub open spec fn error_of(code: int) -> Error {
    if code == -899 {
        Error::Disconnected
    } else if code == -898 {
        Error::IllegalArgument
    } else if code == -895 {
        Error::InvalidState
    } else if code == -892 {
        Error::InvalidHandle
    } else if code == -890 {
        Error::Unimplemented
    } else if code == -889 {
        Error::Unavailable
    } else if code == -888 {
        Error::NoFreeHandles
    } else if code == -887 {
        Error::NoMemory
    } else if code == -886 {
        Error::Null
    } else if code == -885 {
        Error::Timeout
    } else if code == -884 {
        Error::WouldBlock
    } else if code == -883 {
        Error::InvalidFormat
    } else if code == -882 {
        Error::OutOfRange
    } else if code == -881 {
        Error::NoService
    } else if code == -880 {
        Error::InvalidRate
    } else {
        Error::Unknown(code as i32)
    }
}

/// The service code of an error.
pub open spec fn code_of(e: Error) -> int {
    match e {
        Error::Unknown(code) => code as int,
        Error::Disconnected => -899,
        Error::IllegalArgument => -898,
        Error::InvalidState => -895,
        Error::InvalidHandle => -892,
        Error::Unimplemented => -890,
        Error::Unavailable => -889,
        Error::NoFreeHandles => -888,
        Error::NoMemory => -887,
        Error::Null => -886,
        Error::Timeout => -885,
        Error::WouldBlock => -884,
        Error::InvalidFormat => -883,
        Error::OutOfRange => -882,
        Error::NoService => -881,
        Error::InvalidRate => -880,
    }
}

/// The character of a decimal digit.
pub open spec fn digit_char(d: nat) -> char {
    if d == 0 {
        '0'
    } else if d == 1 {
        '1'
    } else if d == 2 {
        '2'
    } else if d == 3 {
        '3'
    } else if d == 4 {
        '4'
    } else if d == 5 {
        '5'
    } else if d == 6 {
        '6'
    } else if d == 7 {
        '7'
    } else if d == 8 {
        '8'
    } else {
        '9'
    }
}

/// The decimal digits of a natural number, most significant first.
pub open spec fn digits_of(n: nat) -> Seq<char>
    decreases n,
{
    if n < 10 {
        seq![digit_char(n)]
    } else {
        digits_of(n / 10).push(digit_char(n % 10))
    }
}

/// The decimal form of an integer, with a leading minus sign when negative.
pub open spec fn decimal_of(n: int) -> Seq<char> {
    if n < 0 {
        seq!['-'] + digits_of((-n) as nat)
    } else {
        digits_of(n as nat)
    }
}

/// The text that describes an error.
pub open spec fn message_of(e: Error) -> Seq<char> {
    match e {
        Error::Unknown(code) => "Error code "@ + decimal_of(code as int),
        Error::Disconnected => "The audio device was disconnected"@,
        Error::IllegalArgument => "An invalid parameter was passed to AAudio."@,
        Error::InvalidState => "The requested operation is not appropriate for the current state of AAudio."@,
        Error::InvalidHandle => "The server rejected the handle used to identify the stream."@,
        Error::Unimplemented => "The function is not implemented for this stream."@,
        Error::Unavailable => "A resource or information is unavailable."@,
        Error::NoFreeHandles => "Memory could not be allocated."@,
        Error::NoMemory => "Memory could not be allocated"@,
        Error::Null => "A NULL pointer was passed to AAudio."@,
        Error::Timeout => "An operation took longer than expected."@,
        Error::WouldBlock => "A blocking operation was invoked where no blocking was expected."@,
        Error::InvalidFormat => "The requested data format is not supported."@,
        Error::OutOfRange => "A requested was out of range."@,
        Error::NoService => "The audio service was not available."@,
        Error::InvalidRate => "The requested sample rate was not supported."@,
    }
}

/// The text of one decimal digit.
fn digit_text(d: u32) -> (r: &'static str)
    requires
        d < 10,
    ensures
        r@ == seq![digit_char(d as nat)],
{
    proof {
        reveal_strlit("0");
        reveal_strlit("1");
        reveal_strlit("2");
        reveal_strlit("3");
        reveal_strlit("4");
        reveal_strlit("5");
        reveal_strlit("6");
        reveal_strlit("7");
        reveal_strlit("8");
        reveal_strlit("9");
    }
    match d {
        0 => "0",
        1 => "1",
        2 => "2",
        3 => "3",
        4 => "4",
        5 => "5",
        6 => "6",
        7 => "7",
        8 => "8",
        _ => "9",
    }
}

/// Appends the decimal digits of `n` to `s`.
fn append_digits(s: &mut String, n: u32)
    ensures
        final(s)@ == old(s)@ + digits_of(n as nat),
    decreases n,
{
    if n >= 10 {
        append_digits(s, n / 10);
    }
    s.append(digit_text(n % 10));
    proof {
        if n >= 10 {
            assert(digits_of(n as nat) == digits_of((n / 10) as nat).push(digit_char((n % 10) as nat)));
        }
        assert(s@ =~= old(s)@ + digits_of(n as nat));
    }
}

/// Appends the decimal form of `n` to `s`.
fn append_decimal(s: &mut String, n: i32)
    ensures
        final(s)@ == old(s)@ + decimal_of(n as int),
{
    proof {
        reveal_strlit("-");
    }
    if n < 0 {
        s.append("-");
        let magnitude: u32 = (-(n as i64)) as u32;
        append_digits(s, magnitude);
        assert(s@ =~= old(s)@ + decimal_of(n as int));
    } else {
        append_digits(s, n as u32);
    }
}

impl Error {
    /// The error for a service code; a code that names no variant is kept in `Unknown`.
    pub fn from_code(code: i32) -> (r: Error)
        ensures
            r == error_of(code as int),
    {
        match code {
            -899 => Error::Disconnected,
            -898 => Error::IllegalArgument,
            -895 => Error::InvalidState,
            -892 => Error::InvalidHandle,
            -890 => Error::Unimplemented,
            -889 => Error::Unavailable,
            -888 => Error::NoFreeHandles,
            -887 => Error::NoMemory,
            -886 => Error::Null,
            -885 => Error::Timeout,
            -884 => Error::WouldBlock,
            -883 => Error::InvalidFormat,
            -882 => Error::OutOfRange,
            -881 => Error::NoService,
            -880 => Error::InvalidRate,
            _ => Error::Unknown(code),
        }
    }

    /// The service code that this error stands for.
    pub fn code(&self) -> (r: i32)
        ensures
            r as int == code_of(*self),
    {
        match self {
            Error::Unknown(code) => *code,
            Error::Disconnected => -899,
            Error::IllegalArgument => -898,
            Error::InvalidState => -895,
            Error::InvalidHandle => -892,
            Error::Unimplemented => -890,
            Error::Unavailable => -889,
            Error::NoFreeHandles => -888,
            Error::NoMemory => -887,
            Error::Null => -886,
            Error::Timeout => -885,
            Error::WouldBlock => -884,
            Error::InvalidFormat => -883,
            Error::OutOfRange => -882,
            Error::NoService => -881,
            Error::InvalidRate => -880,
        }
    }

    /// A sentence that describes the error.
    pub fn message(&self) -> (r: String)
        ensures
            r@ == message_of(*self),
    {
        match self {
            Error::Unknown(code) => {
                let mut s = String::from_str("Error code ");
                append_decimal(&mut s, *code);
                s
            },
            Error::Disconnected => String::from_str("The audio device was disconnected"),
            Error::IllegalArgument => String::from_str("An invalid parameter was passed to AAudio."),
            Error::InvalidState => String::from_str(
                "The requested operation is not appropriate for the current state of AAudio.",
            ),
            Error::InvalidHandle => String::from_str(
                "The server rejected the handle used to identify the stream.",
            ),
            Error::Unimplemented => String::from_str("The function is not implemented for this stream."),
            Error::Unavailable => String::from_str("A resource or information is unavailable."),
            Error::NoFreeHandles => String::from_str("Memory could not be allocated."),
            Error::NoMemory => String::from_str("Memory could not be allocated"),
            Error::Null => String::from_str("A NULL pointer was passed to AAudio."),
            Error::Timeout => String::from_str("An operation took longer than expected."),
            Error::WouldBlock => String::from_str(
                "A blocking operation was invoked where no blocking was expected.",
            ),
            Error::InvalidFormat => String::from_str("The requested data format is not supported."),
            Error::OutOfRange => String::from_str("A requested was out of range."),
            Error::NoService => String::from_str("The audio service was not available."),
            Error::InvalidRate => String::from_str("The requested sample rate was not supported."),
        }
    }
}

/// Turns a service result into `Ok` when it is not negative, and into the error
/// that it names otherwise.
pub fn wrap_result(result: i32) -> (r: Result<(), Error>)
    ensures
        result >= 0 ==> r == Ok::<(), Error>(()),
        result < 0 ==> r == Err::<(), Error>(error_of(result as int)),
{
    if result < 0 {
        Err(Error::from_code(result))
    } else {
        Ok(())
    }
}

/// Every named error has a negative code, and that code maps back to the same
/// error.
pub proof fn lemma_named_error_round_trip(e: Error)
    requires
        !(e is Unknown),
    ensures
        code_of(e) < 0,
        is_defined_code(code_of(e)),
        error_of(code_of(e)) == e,
{
}

/// Every defined code maps to a named error whose code is the same one.
pub proof fn lemma_defined_code_round_trip(code: int)
    requires
        is_defined_code(code),
    ensures
        !(error_of(code) is Unknown),
        code_of(error_of(code)) == code,
{
}

/// A negative code that names no error maps to `Unknown`, carrying that code.
pub proof fn lemma_unknown_code_kept(code: i32)
    requires
        code < 0,
        !is_defined_code(code as int),
    ensures
        error_of(code as int) == Error::Unknown(code),
        code_of(error_of(code as int)) == code as int,
{
}

} // verus!
