//! Reading the Prior gate's websocket: what each incoming frame means for a
//! reader that waits for one envelope (a request's next answer, or the
//! server's hello), and for the live pump that forwards every envelope.
use vstd::prelude::*;
use vstd::string::*;

use crate::net::gate::{hello_reply, ServerBody, ServerHello};
use crate::net::live::LiveServerMessage;
use crate::text::{concat2, concat3};

verus! {

/// One frame read from the Prior gate's socket. A binary frame arrives
/// decoded: the envelope's body, or the decoder's error.
#[derive(Debug)]
pub enum GateFrame {
    Binary(Result<Option<ServerBody>, String>),
    Ping(Vec<u8>),
    Pong,
    Text,
    Close,
    /// The stream ended.
    End,
    /// Reading the socket failed with this error.
    ReadError(String),
}

/// What a reader waiting for one envelope does with a frame.
#[derive(Debug)]
pub enum ReadStep {
    /// Answer with a pong carrying this payload, then read on.
    SendPong(Vec<u8>),
    /// Read on.
    Continue,
    /// The envelope arrived; this is its body.
    Envelope(Option<ServerBody>),
    /// The read failed with this message.
    Fail(String),
}

/// What a reader that waits for one envelope does with a frame; `context`
/// names the read in its errors (`read envelope payload`, `gate hello read`).
/// A ping is answered with a pong of the same payload; a close or the end
/// of the stream fails with `<context>: websocket closed`.
pub fn read_step(frame: GateFrame, context: &str) -> (r: ReadStep)
    ensures
        match frame {
            GateFrame::Binary(Ok(body)) => r == ReadStep::Envelope(body),
            GateFrame::Binary(Err(e)) => (r matches ReadStep::Fail(m) && m@ == "decode envelope: "@ + e@),
            GateFrame::Ping(p) => r == ReadStep::SendPong(p),
            GateFrame::Pong | GateFrame::Text => r is Continue,
            GateFrame::Close | GateFrame::End => (r matches ReadStep::Fail(m) && m@ == context@
                + ": websocket closed"@),
            GateFrame::ReadError(e) => (r matches ReadStep::Fail(m) && m@ == context@ + ": "@ + e@),
        },
{
    match frame {
        GateFrame::Binary(Ok(body)) => ReadStep::Envelope(body),
        GateFrame::Binary(Err(e)) => ReadStep::Fail(concat2("decode envelope: ", e.as_str())),
        GateFrame::Ping(p) => ReadStep::SendPong(p),
        GateFrame::Pong | GateFrame::Text => ReadStep::Continue,
        GateFrame::Close | GateFrame::End => ReadStep::Fail(concat2(context, ": websocket closed")),
        GateFrame::ReadError(e) => ReadStep::Fail(concat3(context, ": ", e.as_str())),
    }
}

/// What the client does with a frame while it waits for the server's hello.
#[derive(Debug)]
pub enum HelloStep {
    SendPong(Vec<u8>),
    Continue,
    /// The wait is over: the server's hello, or why there is none.
    Done(Result<ServerHello, String>),
}

/// A frame read while waiting for the server's hello: pings are answered,
/// the first envelope must be a hello (else `expected server hello`), and a
/// close or the end of the stream fails with `gate hello read: websocket
/// closed`.
pub fn hello_step(frame: GateFrame) -> (r: HelloStep)
    ensures
        match frame {
            GateFrame::Binary(Ok(Some(ServerBody::Hello(h)))) => r == HelloStep::Done(
                Ok::<ServerHello, String>(h),
            ),
            GateFrame::Binary(Ok(_)) => (r matches HelloStep::Done(Err(m)) && m@ == "expected server hello"@),
            GateFrame::Binary(Err(e)) => (r matches HelloStep::Done(Err(m)) && m@ == "decode envelope: "@
                + e@),
            GateFrame::Ping(p) => r == HelloStep::SendPong(p),
            GateFrame::Pong | GateFrame::Text => r is Continue,
            GateFrame::Close | GateFrame::End => (r matches HelloStep::Done(Err(m)) && m@
                == "gate hello read: websocket closed"@),
            GateFrame::ReadError(e) => (r matches HelloStep::Done(Err(m)) && m@ == "gate hello read: "@
                + e@),
        },
{
    proof {
        reveal_strlit("gate hello read");
        reveal_strlit(": websocket closed");
        reveal_strlit("gate hello read: websocket closed");
        reveal_strlit(": ");
        reveal_strlit("gate hello read: ");
    }
    match read_step(frame, "gate hello read") {
        ReadStep::SendPong(p) => HelloStep::SendPong(p),
        ReadStep::Continue => HelloStep::Continue,
        ReadStep::Envelope(body) => HelloStep::Done(hello_reply(body)),
        ReadStep::Fail(m) => HelloStep::Done(Err(m)),
    }
}

/// What the live pump does with a frame from the Prior gate.
#[derive(Debug)]
pub enum PumpStep {
    SendPong(Vec<u8>),
    /// Hand this envelope body to the request table and read on.
    Envelope(Option<ServerBody>),
    Continue,
    /// Stop the pump, telling the browser this first if there is anything.
    Stop(Option<LiveServerMessage>),
}

/// A frame read by the live pump: pings are answered, envelopes forwarded;
/// a read error stops it with `gate websocket read failed`, an undecodable
/// frame with `failed to decode gate envelope`, and a close or the end of the
/// stream stops it silently.
pub fn pump_step(frame: GateFrame) -> (r: PumpStep)
    ensures
        match frame {
            GateFrame::Binary(Ok(body)) => r == PumpStep::Envelope(body),
            GateFrame::Binary(Err(_)) => (r matches PumpStep::Stop(Some(LiveServerMessage::Error { message }))
                && message@ == "failed to decode gate envelope"@),
            GateFrame::Ping(p) => r == PumpStep::SendPong(p),
            GateFrame::Pong | GateFrame::Text => r is Continue,
            GateFrame::Close | GateFrame::End => (r matches PumpStep::Stop(None)),
            GateFrame::ReadError(_) => (r matches PumpStep::Stop(Some(LiveServerMessage::Error { message }))
                && message@ == "gate websocket read failed"@),
        },
{
    match frame {
        GateFrame::Binary(Ok(body)) => PumpStep::Envelope(body),
        GateFrame::Binary(Err(_)) => PumpStep::Stop(
            Some(LiveServerMessage::Error { message: String::from_str("failed to decode gate envelope") }),
        ),
        GateFrame::Ping(p) => PumpStep::SendPong(p),
        GateFrame::Pong | GateFrame::Text => PumpStep::Continue,
        GateFrame::Close | GateFrame::End => PumpStep::Stop(None),
        GateFrame::ReadError(_) => PumpStep::Stop(
            Some(LiveServerMessage::Error { message: String::from_str("gate websocket read failed") }),
        ),
    }
}

} // verus!
