//! The socket handle and the meaning of the engine's answers.
//!
//! The embedding program makes each engine call and hands the answer to the
//! function named after the operation, which turns it into a typed result.
//! Where an answer is a failure, the program reads the engine's last-error
//! string at once and hands it over with the answer.

use crate::byte_order::ByteOrder;
use crate::errors::{
    diagnostic_text, diagnostic_with_context, get_last_srt_error, result_view, signed_decimal,
    signed_decimal_string, SrtError, SrtErrorView,
};
use crate::options::{
    decode_option, decoded_option, lemma_option_round_trip, option_bytes, reported_span,
    SrtOptionValue, SrtOptionValueView, SrtSocketOptions,
};
use crate::status::SrtSocketStatus;
use vstd::prelude::*;
use vstd::string::*;
use vstd::utf8::encode_utf8;

verus! {

/// The engine's identifier of a socket.
pub type SRTSOCKET = i32;

/// What an engine call returns where it failed.
pub const SRT_ERROR: i32 = -1;

/// The identifier that stands for no socket.
pub const SRT_INVALID_SOCK: SRTSOCKET = -1;

/// The flags that sending and receiving hand to the engine: none.
pub const TRANSFER_FLAGS: i32 = 0;

/// What an engine call with the return value `ret` comes to: `error` where
/// `ret` is the failure value, else `value`.
pub open spec fn native_outcome<T>(ret: i32, value: T, error: SrtErrorView) -> Result<
    T,
    SrtErrorView,
> {
    if ret == SRT_ERROR {
        Err(error)
    } else {
        Ok(value)
    }
}

/// The context that precedes the diagnostic where starting the engine failed.
pub open spec fn startup_context() -> Seq<char> {
    "Failed to start SRT: "@
}

/// The context that precedes the diagnostic where the engine's cleanup failed.
pub open spec fn cleanup_context() -> Seq<char> {
    "Failed to cleanup SRT: "@
}

/// The context that precedes the diagnostic where creating a socket failed.
pub open spec fn create_context() -> Seq<char> {
    "Failed to create SRT socket: "@
}

/// The context that precedes the diagnostic where closing a socket failed.
pub open spec fn close_context() -> Seq<char> {
    "Failed to close SRT socket: "@
}

/// Whether `ret` is the value by which an engine call reports failure. After
/// such a value, and only then, the engine's last-error string is to be read.
pub fn is_failure(ret: i32) -> (failed: bool)
    ensures
        failed == (ret == SRT_ERROR),
{
    ret == SRT_ERROR
}

/// The message of the error for a buffer whose length the engine's signed
/// 32-bit count cannot hold.
pub open spec fn too_long_text() -> Seq<char> {
    "Length exceeds what one engine call can take"@
}

/// The length of the data to send, as the engine takes it. Data is sent whole
/// in one call or not at all: a length beyond the engine's signed 32-bit count
/// is a send error, and no call is to be made.
pub fn send_length(len: usize) -> (r: Result<i32, SrtError>)
    ensures
        len <= i32::MAX ==> (r matches Ok(n) && n == len),
        len > i32::MAX ==> (r matches Err(e) && e@ == SrtErrorView::SendError(too_long_text())),
{
    if len > 0x7fff_ffff {
        return Err(
            SrtError::SendError(String::from_str("Length exceeds what one engine call can take")),
        );
    }
    Ok(len as i32)
}

/// The length of an option's bytes, as the engine takes it. A length beyond
/// the engine's signed 32-bit count is a set-option error, and no call is to
/// be made.
pub fn option_length(len: usize) -> (r: Result<i32, SrtError>)
    ensures
        len <= i32::MAX ==> (r matches Ok(n) && n == len),
        len > i32::MAX ==> (r matches Err(e) && e@ == SrtErrorView::SetSocketOptionError(
            too_long_text(),
        )),
{
    if len > 0x7fff_ffff {
        return Err(
            SrtError::SetSocketOptionError(
                String::from_str("Length exceeds what one engine call can take"),
            ),
        );
    }
    Ok(len as i32)
}

/// The result of starting the engine, from what the call returned.
pub fn startup_srt(ret: i32, diagnostic: Option<Vec<u8>>) -> (r: Result<(), SrtError>)
    ensures
        result_view(r) == native_outcome(
            ret,
            (),
            SrtErrorView::SrtError(startup_context() + diagnostic_text(diagnostic)),
        ),
{
    if ret == SRT_ERROR {
        return Err(SrtError::SrtError(diagnostic_with_context("Failed to start SRT: ", diagnostic)));
    }
    Ok(())
}

/// The result of the engine's cleanup, from what the call returned.
pub fn cleanup_srt(ret: i32, diagnostic: Option<Vec<u8>>) -> (r: Result<(), SrtError>)
    ensures
        result_view(r) == native_outcome(
            ret,
            (),
            SrtErrorView::SrtError(cleanup_context() + diagnostic_text(diagnostic)),
        ),
{
    if ret == SRT_ERROR {
        return Err(
            SrtError::SrtError(diagnostic_with_context("Failed to cleanup SRT: ", diagnostic)),
        );
    }
    Ok(())
}

/// The owner of one socket identifier of the engine.
///
/// A handle holds its identifier until it is released, and holds none from
/// then on: the identifier it then shows is [`SRT_INVALID_SOCK`], on which
/// every engine call fails.
#[derive(Debug)]
pub struct SrtSocketConnection {
    sock: SRTSOCKET,
}

impl View for SrtSocketConnection {
    type V = Option<SRTSOCKET>;

    /// The identifier that the handle owns, if it still owns one.
    closed spec fn view(&self) -> Option<SRTSOCKET> {
        if self.sock == SRT_INVALID_SOCK {
            None
        } else {
            Some(self.sock)
        }
    }
}

/// The identifier that releasing a handle in `state` hands out for closing.
pub open spec fn release_action(state: Option<SRTSOCKET>) -> Option<SRTSOCKET> {
    state
}

/// The state of a handle after it was released.
pub open spec fn after_release(state: Option<SRTSOCKET>) -> Option<SRTSOCKET> {
    None
}

/// The identifier that a handle in `state` shows to the engine.
pub open spec fn shown_id(state: Option<SRTSOCKET>) -> SRTSOCKET {
    match state {
        Some(id) => id,
        None => SRT_INVALID_SOCK,
    }
}

/// The text by which a handle in `state` is shown.
pub open spec fn description_text(state: Option<SRTSOCKET>) -> Seq<char> {
    "SRTSOCKET: "@ + signed_decimal(shown_id(state) as int)
}

/// What creating or accepting a socket comes to, from the identifier that the
/// engine returned.
pub open spec fn handle_outcome(sock: SRTSOCKET, error: SrtErrorView) -> Result<
    Option<SRTSOCKET>,
    SrtErrorView,
> {
    native_outcome(sock, Some(sock), error)
}

/// What closing comes to: nothing to report where no call was made, else
/// what the call returned.
pub open spec fn close_outcome(ret: Option<i32>, diagnostic: Option<Vec<u8>>) -> Result<
    (),
    SrtErrorView,
> {
    match ret {
        None => Ok(()),
        Some(code) => native_outcome(
            code,
            (),
            SrtErrorView::SrtError(close_context() + diagnostic_text(diagnostic)),
        ),
    }
}

/// What reading an option comes to: the engine's failure, or what its bytes
/// decode to.
pub open spec fn get_flag_outcome(
    opt_name: SrtSocketOptions,
    order: ByteOrder,
    ret: i32,
    buffer: Seq<u8>,
    reported: i32,
    diagnostic: Option<Vec<u8>>,
) -> Result<SrtOptionValueView, SrtErrorView> {
    if ret == SRT_ERROR {
        Err(SrtErrorView::GetSocketOptionError(diagnostic_text(diagnostic)))
    } else {
        decoded_option(opt_name, buffer, reported, order)
    }
}

impl SrtSocketConnection {
    /// The handle for a socket that the engine created, from the identifier
    /// that the call returned.
    pub fn new(sock: SRTSOCKET, diagnostic: Option<Vec<u8>>) -> (r: Result<Self, SrtError>)
        ensures
            result_view(r) == handle_outcome(
                sock,
                SrtErrorView::SrtError(create_context() + diagnostic_text(diagnostic)),
            ),
    {
        if sock == SRT_ERROR {
            return Err(
                SrtError::SrtError(
                    diagnostic_with_context("Failed to create SRT socket: ", diagnostic),
                ),
            );
        }
        Ok(Self { sock })
    }

    /// A handle that owns no socket.
    pub fn invalid() -> (handle: Self)
        ensures
            handle@ is None,
    {
        Self { sock: SRT_INVALID_SOCK }
    }

    /// The identifier to hand to the engine.
    pub fn sock(&self) -> (id: SRTSOCKET)
        ensures
            id == shown_id(self@),
            self@ is Some ==> id != SRT_INVALID_SOCK,
    {
        self.sock
    }

    /// The text by which the handle is shown: its identifier as the engine
    /// sees it.
    pub fn description(&self) -> (text: String)
        ensures
            text@ == description_text(self@),
    {
        String::from_str("SRTSOCKET: ").concat(signed_decimal_string(self.sock).as_str())
    }

    /// Whether the handle owns no socket any more.
    pub fn is_released(&self) -> (released: bool)
        ensures
            released == (self@ is None),
    {
        self.sock == SRT_INVALID_SOCK
    }

    /// Gives up the socket. The identifier comes out once, for the one close
    /// call that is owed to the engine; a handle that was released gives none.
    pub fn release(&mut self) -> (id: Option<SRTSOCKET>)
        ensures
            id == release_action(old(self)@),
            final(self)@ == after_release(old(self)@),
    {
        if self.sock == SRT_INVALID_SOCK {
            None
        } else {
            let id = self.sock;
            self.sock = SRT_INVALID_SOCK;
            Some(id)
        }
    }

    /// The result of binding to `port`, from what the call returned. The
    /// error carries the port.
    pub fn bind(&self, port: u16, ret: i32) -> (r: Result<(), SrtError>)
        ensures
            result_view(r) == native_outcome(ret, (), SrtErrorView::BindError(port)),
    {
        if ret == SRT_ERROR {
            return Err(SrtError::BindError(port));
        }
        Ok(())
    }

    /// The result of listening, from what the call returned.
    pub fn listen(&self, ret: i32, diagnostic: Option<Vec<u8>>) -> (r: Result<(), SrtError>)
        ensures
            result_view(r) == native_outcome(
                ret,
                (),
                SrtErrorView::ListenError(diagnostic_text(diagnostic)),
            ),
    {
        if ret == SRT_ERROR {
            return Err(SrtError::ListenError(get_last_srt_error(diagnostic)));
        }
        Ok(())
    }

    /// The handle for an accepted peer, from the identifier that the call
    /// returned. This handle stays as it is.
    pub fn accept(&self, sock: SRTSOCKET, diagnostic: Option<Vec<u8>>) -> (r: Result<
        Self,
        SrtError,
    >)
        ensures
            result_view(r) == handle_outcome(
                sock,
                SrtErrorView::AcceptError(diagnostic_text(diagnostic)),
            ),
    {
        if sock == SRT_ERROR {
            return Err(SrtError::AcceptError(get_last_srt_error(diagnostic)));
        }
        Ok(Self { sock })
    }

    /// The result of closing: `ret` is what the close call returned for the
    /// identifier that [`release`](Self::release) gave, or nothing where it
    /// gave none and no call was made.
    pub fn close(&self, ret: Option<i32>, diagnostic: Option<Vec<u8>>) -> (r: Result<
        (),
        SrtError,
    >)
        ensures
            result_view(r) == close_outcome(ret, diagnostic),
    {
        match ret {
            None => Ok(()),
            Some(code) => {
                if code == SRT_ERROR {
                    return Err(
                        SrtError::SrtError(
                            diagnostic_with_context("Failed to close SRT socket: ", diagnostic),
                        ),
                    );
                }
                Ok(())
            },
        }
    }

    /// The result of setting an option, from what the call returned.
    pub fn set_sock_opt(&self, ret: i32, diagnostic: Option<Vec<u8>>) -> (r: Result<
        (),
        SrtError,
    >)
        ensures
            result_view(r) == native_outcome(
                ret,
                (),
                SrtErrorView::SetSocketOptionError(diagnostic_text(diagnostic)),
            ),
    {
        if ret == SRT_ERROR {
            return Err(SrtError::SetSocketOptionError(get_last_srt_error(diagnostic)));
        }
        Ok(())
    }

    /// The value of the option `opt_name`, from what the call returned:
    /// `buffer` is the scratch buffer after the call and `reported` the count
    /// of bytes that the engine says it wrote. A failed call is reported
    /// before anything is decoded.
    pub fn get_sock_flag(
        &self,
        opt_name: SrtSocketOptions,
        order: ByteOrder,
        ret: i32,
        buffer: Vec<u8>,
        reported: i32,
        diagnostic: Option<Vec<u8>>,
    ) -> (r: Result<SrtOptionValue, SrtError>)
        ensures
            result_view(r) == get_flag_outcome(
                opt_name,
                order,
                ret,
                buffer@,
                reported,
                diagnostic,
            ),
    {
        if ret == SRT_ERROR {
            return Err(SrtError::GetSocketOptionError(get_last_srt_error(diagnostic)));
        }
        decode_option(opt_name, buffer, reported, order)
    }

    /// The result of sending, from what the call returned.
    pub fn send(&self, ret: i32, diagnostic: Option<Vec<u8>>) -> (r: Result<(), SrtError>)
        ensures
            result_view(r) == native_outcome(
                ret,
                (),
                SrtErrorView::SendError(diagnostic_text(diagnostic)),
            ),
    {
        if ret == SRT_ERROR {
            return Err(SrtError::SendError(get_last_srt_error(diagnostic)));
        }
        Ok(())
    }

    /// A zeroed buffer of `len` bytes for the engine to receive into.
    pub fn recv_buffer(len: i32) -> (buffer: Vec<u8>)
        requires
            len >= 0,
        ensures
            buffer@ == Seq::new(len as nat, |i: int| 0u8),
    {
        let buffer = vec![0u8; len as usize];
        assert(buffer@ =~= Seq::new(len as nat, |i: int| 0u8));
        buffer
    }

    /// The bytes received, from what the call returned: `buffer` cut to the
    /// count in `ret`, which may be less than was asked for.
    pub fn recv(&self, ret: i32, buffer: Vec<u8>, diagnostic: Option<Vec<u8>>) -> (r: Result<
        Vec<u8>,
        SrtError,
    >)
        ensures
            result_view(r) == native_outcome(
                ret,
                reported_span(buffer@, ret),
                SrtErrorView::ReceiveError(diagnostic_text(diagnostic)),
            ),
    {
        if ret == SRT_ERROR {
            return Err(SrtError::ReceiveError(get_last_srt_error(diagnostic)));
        }
        let mut received = buffer;
        if 0 <= ret && ret as usize <= received.len() {
            received.truncate(ret as usize);
        }
        Ok(received)
    }

    /// The state that the engine reported by `code`; none for a number that
    /// stands for no state.
    pub fn get_socket_state(&self, code: i32) -> (status: Option<SrtSocketStatus>)
        ensures
            status == SrtSocketStatus::spec_from_code(code),
    {
        SrtSocketStatus::from_code(code)
    }
}

/// A socket is handed out for closing at most once: a handle that was
/// released gives no identifier when released again, stays released, and shows
/// the engine the identifier that stands for no socket.
pub proof fn lemma_release_once(state: Option<SRTSOCKET>)
    ensures
        release_action(after_release(state)) is None,
        after_release(after_release(state)) == after_release(state),
        shown_id(after_release(state)) == SRT_INVALID_SOCK,
{
}

/// Getting an option gives back what was set: where the engine's call
/// succeeds and its buffer starts with the bytes that a value of the option's
/// shape was encoded to, in the count it reports, the value read is that
/// value. Text must hold no zero character, since text read back ends at the
/// first zero byte.
pub proof fn lemma_get_gives_what_was_set(
    opt_name: SrtSocketOptions,
    value: SrtOptionValueView,
    order: ByteOrder,
    ret: i32,
    buffer: Seq<u8>,
    reported: i32,
    diagnostic: Option<Vec<u8>>,
)
    requires
        value.shape() == opt_name.spec_shape(),
        ret != SRT_ERROR,
        0 <= reported <= buffer.len(),
        buffer.subrange(0, reported as int) == option_bytes(value, order),
        value matches SrtOptionValueView::String(s) ==> !encode_utf8(s).contains(0u8),
    ensures
        get_flag_outcome(opt_name, order, ret, buffer, reported, diagnostic) == Ok::<
            SrtOptionValueView,
            SrtErrorView,
        >(value),
{
    lemma_option_round_trip(opt_name, value, order, buffer, reported);
}

/// Whatever the handle and the data, an engine call that failed makes sending
/// a send error and receiving a receive error, each with the diagnostic.
pub proof fn lemma_failed_transfer(buffer: Seq<u8>, diagnostic: Option<Vec<u8>>)
    ensures
        native_outcome(SRT_ERROR, (), SrtErrorView::SendError(diagnostic_text(diagnostic)))
            == Err::<(), SrtErrorView>(SrtErrorView::SendError(diagnostic_text(diagnostic))),
        native_outcome(
            SRT_ERROR,
            reported_span(buffer, SRT_ERROR),
            SrtErrorView::ReceiveError(diagnostic_text(diagnostic)),
        ) == Err::<Seq<u8>, SrtErrorView>(
            SrtErrorView::ReceiveError(diagnostic_text(diagnostic)),
        ),
{
}

} // verus!
