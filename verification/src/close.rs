//! Why the server closes a web socket, and the close frame that says so.

use picoserve::response::ws::{ReadFrameError, ReadMessageError};
use vstd::prelude::*;

verus! {

/// Why a web socket frame could not be read.
#[derive(Clone, Copy, PartialEq, Eq, Structural, Debug)]
pub enum FrameError {
    /// The stream ended inside the frame.
    UnexpectedEof,
    /// The announced length does not fit in a `usize`.
    MessageIsTooLong(u64),
    /// The frame is larger than the receive buffer.
    OutOfSpace,
}

/// Why a web socket message could not be read.
#[derive(Clone, Copy, PartialEq, Eq, Structural, Debug)]
pub enum MessageError {
    /// One of its frames could not be read.
    ReadFrameError(FrameError),
    /// A frame carries a reserved opcode.
    ReservedOpcode(u8),
    /// The first frame is a continuation.
    MessageStartsWithContinuation,
    /// A new message starts before the last one is complete.
    UnexpectedMessageStart,
    /// A text message is not UTF-8.
    TextIsNotUtf8,
}

/// Why the server closes a web socket of its own accord.
#[derive(Clone, Copy, PartialEq, Eq, Structural, Debug)]
pub enum CloseReason {
    /// All places are taken.
    AtCapacity,
    /// Neither a ping nor a pong came for too long.
    IdleTimeout,
    /// Too little heap is left to go on.
    ServerOverload,
    /// A pong could not be sent.
    PongSendFailed,
    /// The client broke the web socket protocol.
    WebsocketError(MessageError),
}

/// The status code of a close frame that answers a malformed message: 1002 for
/// a protocol error, 1003 for an opcode that is not supported, 1007 for text
/// that is not UTF-8.
pub open spec fn message_error_code(error: MessageError) -> u16 {
    match error {
        MessageError::ReservedOpcode(_) => 1003,
        MessageError::TextIsNotUtf8 => 1007,
        _ => 1002,
    }
}

/// `picoserve::response::ws::ReadMessageError::code`: the status code that goes
/// with a malformed message, which depends on the kind of error alone.
#[verifier::external_body]
fn read_message_error_code(error: MessageError) -> (code: u16)
    ensures
        code == message_error_code(error),
{
    let error = match error {
        MessageError::ReadFrameError(FrameError::UnexpectedEof) => ReadMessageError::ReadFrameError(ReadFrameError::UnexpectedEof),
        MessageError::ReadFrameError(FrameError::MessageIsTooLong(n)) => ReadMessageError::ReadFrameError(ReadFrameError::MessageIsTooLong(n)),
        MessageError::ReadFrameError(FrameError::OutOfSpace) => ReadMessageError::ReadFrameError(ReadFrameError::OutOfSpace),
        MessageError::ReservedOpcode(opcode) => ReadMessageError::ReservedOpcode(opcode),
        MessageError::MessageStartsWithContinuation => ReadMessageError::MessageStartsWithContinuation,
        MessageError::UnexpectedMessageStart => ReadMessageError::UnexpectedMessageStart,
        MessageError::TextIsNotUtf8 => ReadMessageError::TextIsNotUtf8,
    };
    error.code()
}

impl CloseReason {
    /// The status code of the close frame.
    pub open spec fn code_spec(self) -> u16 {
        match self {
            CloseReason::AtCapacity => 1008,
            CloseReason::IdleTimeout => 1000,
            CloseReason::ServerOverload => 1011,
            CloseReason::PongSendFailed => 1011,
            CloseReason::WebsocketError(error) => message_error_code(error),
        }
    }

    /// The text of the close frame.
    pub open spec fn text_spec(self) -> Seq<char> {
        match self {
            CloseReason::AtCapacity => "server at capacity"@,
            CloseReason::IdleTimeout => "idle timeout"@,
            CloseReason::ServerOverload => "server overload"@,
            CloseReason::PongSendFailed => "pong send failed"@,
            CloseReason::WebsocketError(_) => "websocket error"@,
        }
    }

    /// The status code of the close frame.
    pub fn code(self) -> (code: u16)
        ensures
            code == self.code_spec(),
    {
        match self {
            CloseReason::AtCapacity => 1008,
            CloseReason::IdleTimeout => 1000,
            CloseReason::ServerOverload => 1011,
            CloseReason::PongSendFailed => 1011,
            CloseReason::WebsocketError(error) => read_message_error_code(error),
        }
    }

    /// The text of the close frame.
    pub fn text(self) -> (text: &'static str)
        ensures
            text@ == self.text_spec(),
    {
        match self {
            CloseReason::AtCapacity => "server at capacity",
            CloseReason::IdleTimeout => "idle timeout",
            CloseReason::ServerOverload => "server overload",
            CloseReason::PongSendFailed => "pong send failed",
            CloseReason::WebsocketError(_) => "websocket error",
        }
    }
}

/// The status code tells what went wrong: 1000 is for idle clients alone, 1008
/// for a server at capacity alone, 1011 for what fails on the server's side, and
/// a malformed message has 1003 for a reserved opcode, 1007 for text that is not
/// UTF-8 and 1002 for all else, whatever the details.
pub proof fn law_the_code_tells_what_went_wrong(reason: CloseReason)
    ensures
        reason.code_spec() == 1000 <==> reason is IdleTimeout,
        reason.code_spec() == 1008 <==> reason is AtCapacity,
        reason.code_spec() == 1011 <==> reason is ServerOverload || reason is PongSendFailed,
        reason.code_spec() == 1003 <==> (reason matches CloseReason::WebsocketError(error) && error
            is ReservedOpcode),
        reason.code_spec() == 1007 <==> (reason matches CloseReason::WebsocketError(error) && error
            is TextIsNotUtf8),
        reason.code_spec() == 1002 <==> (reason matches CloseReason::WebsocketError(error) && !(
        error is ReservedOpcode) && !(error is TextIsNotUtf8)),
{
}

/// Each kind of reason has a text of its own, which tells no details.
pub proof fn law_each_kind_of_reason_has_its_text(reason: CloseReason)
    ensures
        reason.text_spec() == "server at capacity"@ <==> reason is AtCapacity,
        reason.text_spec() == "idle timeout"@ <==> reason is IdleTimeout,
        reason.text_spec() == "server overload"@ <==> reason is ServerOverload,
        reason.text_spec() == "pong send failed"@ <==> reason is PongSendFailed,
        reason.text_spec() == "websocket error"@ <==> reason is WebsocketError,
{
    reveal_strlit("server at capacity");
    reveal_strlit("idle timeout");
    reveal_strlit("server overload");
    reveal_strlit("pong send failed");
    reveal_strlit("websocket error");
    assert("server at capacity"@.len() == 18);
    assert("idle timeout"@.len() == 12);
    assert("server overload"@[0] == 's');
    assert("server overload"@.len() == 15);
    assert("pong send failed"@.len() == 16);
    assert("websocket error"@[0] == 'w');
}

} // verus!
