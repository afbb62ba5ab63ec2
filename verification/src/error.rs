//! Errors of the library, and the reading of a call's status code.

use crate::status::Status;
use vstd::prelude::*;
use vstd::string::StringExecFns;

verus! {

/// What can go wrong while coordinating device commands.
#[derive(Clone, Debug, PartialEq, Eq)]
pub enum Error {
    /// A handle that was handed in is null: it denotes no device object.
    InvalidHandle,
    /// The device API answered a call with a status code other than success.
    DeviceApi { code: i32, description: String },
    /// A wake callback fired with a status other than complete, or without
    /// its wake token. The bridge itself is broken: callers treat this as
    /// fatal.
    CallbackMisuse,
    /// A value read back from the device differs from the expected one; the
    /// index is that of the first such value.
    ResultMismatch { index: usize },
    /// A resource that the operation needs has been handed out already.
    ResourceExhausted,
    /// A program failed to build; the text is the compiler's full log.
    BuildFailure(String),
    /// An argument or an answer that the library cannot work with.
    Message(String),
}

/// An [`Error`] with its texts as sequences of characters.
pub enum ErrorView {
    InvalidHandle,
    DeviceApi { code: i32, description: Seq<char> },
    CallbackMisuse,
    ResultMismatch { index: usize },
    ResourceExhausted,
    BuildFailure(Seq<char>),
    Message(Seq<char>),
}

impl View for Error {
    type V = ErrorView;

    open spec fn view(&self) -> ErrorView {
        match self {
            Error::InvalidHandle => ErrorView::InvalidHandle,
            Error::DeviceApi { code, description } => ErrorView::DeviceApi {
                code: *code,
                description: description@,
            },
            Error::CallbackMisuse => ErrorView::CallbackMisuse,
            Error::ResultMismatch { index } => ErrorView::ResultMismatch { index: *index },
            Error::ResourceExhausted => ErrorView::ResourceExhausted,
            Error::BuildFailure(log) => ErrorView::BuildFailure(log@),
            Error::Message(text) => ErrorView::Message(text@),
        }
    }
}

impl Error {
    /// An error that carries `text` and nothing else.
    pub fn message(text: &str) -> (e: Error)
        ensures
            e@ == ErrorView::Message(text@),
    {
        Error::Message(String::from_str(text))
    }

    /// The status code, for an error that the device API reported.
    pub fn api_code(&self) -> (r: Option<i32>)
        ensures
            r == match self@ {
                ErrorView::DeviceApi { code, .. } => Some(code),
                _ => None,
            },
    {
        match self {
            Error::DeviceApi { code, .. } => Some(*code),
            _ => None,
        }
    }

    /// Whether nothing but stopping is left to the caller.
    pub fn is_fatal(&self) -> (r: bool)
        ensures
            r == (self@ is CallbackMisuse),
    {
        match self {
            Error::CallbackMisuse => true,
            _ => false,
        }
    }

    /// The text of the error as a sequence of characters.
    pub open spec fn spec_description(self) -> Seq<char> {
        match self@ {
            ErrorView::InvalidHandle => "invalid handle"@,
            ErrorView::DeviceApi { description, .. } => description,
            ErrorView::CallbackMisuse => "Wake up user data is null or event is not complete."@,
            ErrorView::ResultMismatch { index } => "Result value mismatch @ ["@ + decimal(
                index as int,
            ) + "]"@,
            ErrorView::ResourceExhausted => "resource exhausted"@,
            ErrorView::BuildFailure(log) => log,
            ErrorView::Message(text) => text,
        }
    }

    /// The text of the error.
    pub fn description(&self) -> (r: String)
        ensures
            r@ == self.spec_description(),
    {
        match self {
            Error::InvalidHandle => String::from_str("invalid handle"),
            Error::DeviceApi { description, .. } => description.clone(),
            Error::CallbackMisuse => String::from_str(
                "Wake up user data is null or event is not complete.",
            ),
            Error::ResultMismatch { index } => {
                let mut s = String::from_str("Result value mismatch @ [");
                append_decimal_nat(&mut s, *index as u64);
                s.append("]");
                s
            },
            Error::ResourceExhausted => String::from_str("resource exhausted"),
            Error::BuildFailure(log) => log.clone(),
            Error::Message(text) => text.clone(),
        }
    }
}

/// The character of one decimal digit.
pub open spec fn digit_char(d: int) -> char {
    if d == 0 {
        '0'
    } else if d == 1 {
        '1'
    } else if d == 2 {
        '2'
    } else if d == 3 {
        '3'
    } else if d == 4 {
        '4'
    } else if d == 5 {
        '5'
    } else if d == 6 {
        '6'
    } else if d == 7 {
        '7'
    } else if d == 8 {
        '8'
    } else {
        '9'
    }
}

/// The decimal digits of a natural number, most significant first, without
/// leading zeros.
pub open spec fn decimal_nat(n: nat) -> Seq<char>
    decreases n,
{
    if n < 10 {
        seq![digit_char(n as int)]
    } else {
        decimal_nat(n / 10) + seq![digit_char((n % 10) as int)]
    }
}

/// The decimal writing of an integer, with a minus sign in front of a
/// negative one.
pub open spec fn decimal(n: int) -> Seq<char> {
    if n < 0 {
        seq!['-'] + decimal_nat((-n) as nat)
    } else {
        decimal_nat(n as nat)
    }
}

fn digit_str(d: u64) -> (r: &'static str)
    requires
        d < 10,
    ensures
        r@ == seq![digit_char(d as int)],
{
    proof {
        reveal_strlit("0");
        reveal_strlit("1");
        reveal_strlit("2");
        reveal_strlit("3");
        reveal_strlit("4");
        reveal_strlit("5");
        reveal_strlit("6");
        reveal_strlit("7");
        reveal_strlit("8");
        reveal_strlit("9");
    }
    let r = if d == 0 {
        "0"
    } else if d == 1 {
        "1"
    } else if d == 2 {
        "2"
    } else if d == 3 {
        "3"
    } else if d == 4 {
        "4"
    } else if d == 5 {
        "5"
    } else if d == 6 {
        "6"
    } else if d == 7 {
        "7"
    } else if d == 8 {
        "8"
    } else {
        "9"
    };
    assert(r@ =~= seq![digit_char(d as int)]);
    r
}

/// Appends the decimal digits of `n` to `s`.
pub fn append_decimal_nat(s: &mut String, n: u64)
    ensures
        final(s)@ == old(s)@ + decimal_nat(n as nat),
    decreases n,
{
    if n >= 10 {
        append_decimal_nat(s, n / 10);
    }
    s.append(digit_str(n % 10));
    assert(s@ =~= old(s)@ + decimal_nat(n as nat));
}

/// Appends the decimal writing of `n` to `s`.
pub fn append_decimal(s: &mut String, n: i64)
    ensures
        final(s)@ == old(s)@ + decimal(n as int),
{
    if n < 0 {
        proof {
            reveal_strlit("-");
        }
        s.append("-");
        let m: u64 = (-(n + 1)) as u64 + 1;
        append_decimal_nat(s, m);
        assert(s@ =~= old(s)@ + decimal(n as int));
    } else {
        append_decimal_nat(s, n as u64);
    }
}

/// The name of a status code: the constant's name where the code has one,
/// and a bracketed note with the number where it has none.
pub open spec fn spec_errcode_string(errcode: int) -> Seq<char> {
    match Status::spec_from_i32(errcode) {
        Some(status) => status.spec_name(),
        None => "[Unknown Error Code: "@ + decimal(errcode) + "]"@,
    }
}

/// The text of the error for a call, described by `message`, that answered
/// with `errcode`.
pub open spec fn spec_errcode_message(message: Seq<char>, errcode: int) -> Seq<char> {
    " { OPENCL ERROR: \""@ + message + " failed with code ["@ + decimal(errcode) + "]: "@
        + spec_errcode_string(errcode) + "\" } "@
}

/// The error for a call, described by `message`, that answered with
/// `errcode`.
pub open spec fn spec_api_error(message: Seq<char>, errcode: int) -> ErrorView {
    ErrorView::DeviceApi {
        code: errcode as i32,
        description: spec_errcode_message(message, errcode),
    }
}

/// What a call that answered with `errcode` amounts to: success for zero, a
/// device API error with the code and its text for anything else.
pub open spec fn spec_errcode_try(message: Seq<char>, errcode: int) -> Result<(), ErrorView> {
    if errcode == 0 {
        Ok(())
    } else {
        Err(spec_api_error(message, errcode))
    }
}

/// A result with its error, if any, taken by its view.
pub open spec fn result_view<T>(r: Result<T, Error>) -> Result<T, ErrorView> {
    match r {
        Ok(v) => Ok(v),
        Err(e) => Err(e@),
    }
}

/// Converts a status code into the name of its constant.
pub fn errcode_string(errcode: i32) -> (r: String)
    ensures
        r@ == spec_errcode_string(errcode as int),
{
    match Status::from_i32(errcode) {
        Some(status) => String::from_str(status.name()),
        None => {
            let mut s = String::from_str("[Unknown Error Code: ");
            append_decimal(&mut s, errcode as i64);
            s.append("]");
            s
        },
    }
}

/// The error that names a call, the code it answered with and the code's
/// constant.
pub fn api_error(message: &str, errcode: i32) -> (e: Error)
    ensures
        e@ == spec_api_error(message@, errcode as int),
{
    let mut s = String::from_str(" { OPENCL ERROR: \"");
    s.append(message);
    s.append(" failed with code [");
    append_decimal(&mut s, errcode as i64);
    s.append("]: ");
    let name = errcode_string(errcode);
    s.append(name.as_str());
    s.append("\" } ");
    Error::DeviceApi { code: errcode, description: s }
}

/// Reads the status code that a call answered with: `Ok` for zero, else the
/// error that names the call, the code and the code's constant.
pub fn errcode_try(message: &str, errcode: i32) -> (r: Result<(), Error>)
    ensures
        result_view(r) == spec_errcode_try(message@, errcode as int),
{
    if errcode == 0 {
        Ok(())
    } else {
        Err(api_error(message, errcode))
    }
}

} // verus!
