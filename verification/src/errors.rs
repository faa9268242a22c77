//! The closed set of failures that the layer reports.

use vstd::prelude::*;
use vstd::string::*;
use vstd::utf8::{decode_utf8, valid_utf8};

verus! {

/// A failure of the transport layer, one kind per category of operation.
#[derive(Debug, PartialEq, Eq)]
pub enum SrtError {
    /// A failure that the engine reported outside the categories below.
    SrtError(String),
    /// The socket is disconnected.
    Disconnected,
    /// A connection or I/O failure.
    ConnectionError(String),
    /// Binding to the port that is carried failed.
    BindError(u16),
    /// Listening failed.
    ListenError(String),
    /// Accepting a peer failed.
    AcceptError(String),
    /// Setting an option failed, in the engine or before it was reached.
    SetSocketOptionError(String),
    /// Reading an option failed, in the engine or when its bytes were decoded.
    GetSocketOptionError(String),
    /// Sending failed.
    SendError(String),
    /// Receiving failed.
    ReceiveError(String),
}

/// An [`SrtError`] with each message as a sequence of characters.
pub ghost enum SrtErrorView {
    SrtError(Seq<char>),
    Disconnected,
    ConnectionError(Seq<char>),
    BindError(u16),
    ListenError(Seq<char>),
    AcceptError(Seq<char>),
    SetSocketOptionError(Seq<char>),
    GetSocketOptionError(Seq<char>),
    SendError(Seq<char>),
    ReceiveError(Seq<char>),
}

impl View for SrtError {
    type V = SrtErrorView;

    open spec fn view(&self) -> SrtErrorView {
        match self {
            SrtError::SrtError(m) => SrtErrorView::SrtError(m@),
            SrtError::Disconnected => SrtErrorView::Disconnected,
            SrtError::ConnectionError(m) => SrtErrorView::ConnectionError(m@),
            SrtError::BindError(port) => SrtErrorView::BindError(*port),
            SrtError::ListenError(m) => SrtErrorView::ListenError(m@),
            SrtError::AcceptError(m) => SrtErrorView::AcceptError(m@),
            SrtError::SetSocketOptionError(m) => SrtErrorView::SetSocketOptionError(m@),
            SrtError::GetSocketOptionError(m) => SrtErrorView::GetSocketOptionError(m@),
            SrtError::SendError(m) => SrtErrorView::SendError(m@),
            SrtError::ReceiveError(m) => SrtErrorView::ReceiveError(m@),
        }
    }
}

/// A result with its value and its error each taken by its view.
pub open spec fn result_view<T: View, E: View>(r: Result<T, E>) -> Result<T::V, E::V> {
    match r {
        Ok(value) => Ok(value@),
        Err(error) => Err(error@),
    }
}

/// The message that stands for a diagnostic the engine did not give.
pub open spec fn missing_diagnostic() -> Seq<char> {
    "Unknown SRT error (null error)"@
}

/// The message that stands for a diagnostic that is not UTF-8.
pub open spec fn unreadable_diagnostic() -> Seq<char> {
    "Invalid UTF-8 in SRT error message"@
}

/// The message for the engine's last-error string: `raw` holds its bytes
/// without the terminator, or nothing where the engine gave no string.
pub open spec fn diagnostic_text(raw: Option<Vec<u8>>) -> Seq<char> {
    match raw {
        None => missing_diagnostic(),
        Some(bytes) => if valid_utf8(bytes@) {
            decode_utf8(bytes@)
        } else {
            unreadable_diagnostic()
        },
    }
}

/// Calls `String::from_utf8`, which the standard library documents to fail
/// exactly when the bytes are not UTF-8 and otherwise to give the string that
/// those bytes encode. The failure's detail is dropped.
#[verifier::external_body]
pub(crate) fn string_from_utf8(bytes: Vec<u8>) -> (text: Option<String>)
    ensures
        text is Some <==> valid_utf8(bytes@),
        text matches Some(s) ==> s@ == decode_utf8(bytes@),
{
    String::from_utf8(bytes).ok()
}

/// Turns the engine's last-error string into a message that can always be
/// shown: a missing or undecodable string is replaced by a fixed message, so
/// that reading a diagnostic never fails itself.
pub fn get_last_srt_error(raw: Option<Vec<u8>>) -> (message: String)
    ensures
        message@ == diagnostic_text(raw),
{
    match raw {
        None => String::from_str("Unknown SRT error (null error)"),
        Some(bytes) => match string_from_utf8(bytes) {
            Some(text) => text,
            None => String::from_str("Invalid UTF-8 in SRT error message"),
        },
    }
}

/// `context` followed by the message for `raw`.
pub(crate) fn diagnostic_with_context(context: &str, raw: Option<Vec<u8>>) -> (message: String)
    ensures
        message@ == context@ + diagnostic_text(raw),
{
    let detail = get_last_srt_error(raw);
    String::from_str(context).concat(detail.as_str())
}

/// The character for the digit `d`.
pub open spec fn digit_char(d: nat) -> char {
    if d == 0 {
        '0'
    } else if d == 1 {
        '1'
    } else if d == 2 {
        '2'
    } else if d == 3 {
        '3'
    } else if d == 4 {
        '4'
    } else if d == 5 {
        '5'
    } else if d == 6 {
        '6'
    } else if d == 7 {
        '7'
    } else if d == 8 {
        '8'
    } else {
        '9'
    }
}

/// The decimal numeral of `n`, without leading zeros.
pub open spec fn decimal(n: nat) -> Seq<char>
    decreases n,
{
    if n < 10 {
        seq![digit_char(n)]
    } else {
        decimal(n / 10) + seq![digit_char(n % 10)]
    }
}

/// The text by which an error is shown.
pub open spec fn message_text(error: SrtErrorView) -> Seq<char> {
    match error {
        SrtErrorView::SrtError(m) => "SRT error: "@ + m,
        SrtErrorView::Disconnected => "SRT socket is disconnected"@,
        SrtErrorView::ConnectionError(m) => "SRT had an IO error: "@ + m,
        SrtErrorView::BindError(port) => "SRT failed to bind to port: "@ + decimal(port as nat),
        SrtErrorView::ListenError(m) => "SRT failed to listen on socket: "@ + m,
        SrtErrorView::AcceptError(m) => "SRT failed to accept connection on socket: "@ + m,
        SrtErrorView::SetSocketOptionError(m) => "SRT failed to set socket option: "@ + m,
        SrtErrorView::GetSocketOptionError(m) => "SRT failed to get socket option: "@ + m,
        SrtErrorView::SendError(m) => "SRT failed to send data: "@ + m,
        SrtErrorView::ReceiveError(m) => "SRT failed to receive data: "@ + m,
    }
}

/// The decimal numeral of `n`, with a minus sign before it where `n` is
/// negative.
pub open spec fn signed_decimal(n: int) -> Seq<char> {
    if n < 0 {
        seq!['-'] + decimal((-n) as nat)
    } else {
        decimal(n as nat)
    }
}

/// The one-character text for the digit `d`.
fn digit_text(d: u32) -> (text: &'static str)
    requires
        d < 10,
    ensures
        text@ == seq![digit_char(d as nat)],
{
    proof {
        reveal_strlit("0");
        reveal_strlit("1");
        reveal_strlit("2");
        reveal_strlit("3");
        reveal_strlit("4");
        reveal_strlit("5");
        reveal_strlit("6");
        reveal_strlit("7");
        reveal_strlit("8");
        reveal_strlit("9");
    }
    let text = if d == 0 {
        "0"
    } else if d == 1 {
        "1"
    } else if d == 2 {
        "2"
    } else if d == 3 {
        "3"
    } else if d == 4 {
        "4"
    } else if d == 5 {
        "5"
    } else if d == 6 {
        "6"
    } else if d == 7 {
        "7"
    } else if d == 8 {
        "8"
    } else {
        "9"
    };
    assert(text@ =~= seq![digit_char(d as nat)]);
    text
}

/// The decimal numeral of `n`.
pub fn decimal_string(n: u32) -> (text: String)
    ensures
        text@ == decimal(n as nat),
    decreases n,
{
    if n < 10 {
        String::from_str(digit_text(n))
    } else {
        decimal_string(n / 10).concat(digit_text(n % 10))
    }
}

/// The decimal numeral of `n`, with its sign where it is negative.
pub fn signed_decimal_string(n: i32) -> (text: String)
    ensures
        text@ == signed_decimal(n as int),
{
    if n < 0 {
        let magnitude: u32 = (-(n as i64)) as u32;
        proof {
            reveal_strlit("-");
            assert("-"@ =~= seq!['-']);
        }
        String::from_str("-").concat(decimal_string(magnitude).as_str())
    } else {
        decimal_string(n as u32)
    }
}

impl SrtError {
    /// The text by which this error is shown: what failed, then the
    /// diagnostic or the port that the error carries.
    pub fn message(&self) -> (text: String)
        ensures
            text@ == message_text(self@),
    {
        match self {
            SrtError::SrtError(m) => String::from_str("SRT error: ").concat(m.as_str()),
            SrtError::Disconnected => String::from_str("SRT socket is disconnected"),
            SrtError::ConnectionError(m) => String::from_str("SRT had an IO error: ").concat(
                m.as_str(),
            ),
            SrtError::BindError(port) => String::from_str("SRT failed to bind to port: ").concat(
                decimal_string(*port as u32).as_str(),
            ),
            SrtError::ListenError(m) => String::from_str("SRT failed to listen on socket: ").concat(
                m.as_str(),
            ),
            SrtError::AcceptError(m) => String::from_str(
                "SRT failed to accept connection on socket: ",
            ).concat(m.as_str()),
            SrtError::SetSocketOptionError(m) => String::from_str(
                "SRT failed to set socket option: ",
            ).concat(m.as_str()),
            SrtError::GetSocketOptionError(m) => String::from_str(
                "SRT failed to get socket option: ",
            ).concat(m.as_str()),
            SrtError::SendError(m) => String::from_str("SRT failed to send data: ").concat(
                m.as_str(),
            ),
            SrtError::ReceiveError(m) => String::from_str("SRT failed to receive data: ").concat(
                m.as_str(),
            ),
        }
    }
}

} // verus!
