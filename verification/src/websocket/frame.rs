//! Inbound frames, and how they are read.

use vstd::prelude::*;
use vstd::string::*;
use vstd::utf8::{decode_utf8, encode_utf8, valid_utf8};
use crate::json::json_parsed;
use crate::text::{decode_utf8_bytes, first_chars, leading, utf8_error_text};
use crate::websocket::model::frame_size;
use crate::websocket::protocol::{
    ConnectionInput, ConnectionInputView, FrameFault, FrameFaultView, QUOTED_CHARS,
};
use crate::websocket::wire::{WebSocketEvent, WebSocketEventView};

verus! {

/// A frame as it comes off a connection.
#[derive(Debug, PartialEq)]
pub enum Frame {
    Text(String),
    Binary(Vec<u8>),
    Ping(Vec<u8>),
    Pong(Vec<u8>),
    Close,
    /// A raw frame, of which only the length matters.
    Raw(u64),
}

pub enum FrameView {
    Text(Seq<char>),
    Binary(Seq<u8>),
    Ping(Seq<u8>),
    Pong(Seq<u8>),
    Close,
    Raw(u64),
}

impl View for Frame {
    type V = FrameView;

    open spec fn view(&self) -> FrameView {
        match self {
            Frame::Text(text) => FrameView::Text(text@),
            Frame::Binary(bytes) => FrameView::Binary(bytes@),
            Frame::Ping(data) => FrameView::Ping(data@),
            Frame::Pong(data) => FrameView::Pong(data@),
            Frame::Close => FrameView::Close,
            Frame::Raw(size) => FrameView::Raw(*size),
        }
    }
}

/// What is wrong with a text that holds no message, as far as it is known: of a
/// text that is JSON, which field is at fault.
pub open spec fn explains(problem: Seq<char>, text: Seq<char>) -> bool {
    json_parsed(text) matches Some(doc) ==> problem == WebSocketEventView::misfit_message(doc)
}

/// Whether `input` is what the text of a frame reads as. A text that is a
/// message is a request. Any other is malformed; a text frame quotes how it
/// starts, a binary frame tells its length.
pub open spec fn text_reads_as(text: Seq<char>, binary: bool, size: u64, input: ConnectionInputView) -> bool {
    if WebSocketEvent::decodes(text) {
        input == (ConnectionInputView::Request { message: WebSocketEvent::decoded(text), binary, size })
    } else if binary {
        input matches ConnectionInputView::Malformed {
            fault: FrameFaultView::Binary { length, problem },
            size: s,
        } && s == size && length == size && explains(problem, text)
    } else {
        input matches ConnectionInputView::Malformed { fault: FrameFaultView::Text { raw, problem }, size: s }
            && s == size && raw == leading(text, QUOTED_CHARS as nat) && explains(problem, text)
    }
}

/// Whether `input` is what a frame reads as. Binary frames are decoded as UTF-8
/// and then read as text frames are; what is no UTF-8 is malformed.
pub open spec fn reads_as(frame: FrameView, input: ConnectionInputView) -> bool {
    match frame {
        FrameView::Text(text) => text_reads_as(text, false, frame_size(encode_utf8(text).len()), input),
        FrameView::Binary(bytes) => if valid_utf8(bytes) {
            text_reads_as(decode_utf8(bytes), true, frame_size(bytes.len()), input)
        } else {
            input matches ConnectionInputView::Malformed { fault: FrameFaultView::Utf8 { problem }, size }
                && size == frame_size(bytes.len())
        },
        FrameView::Ping(data) => input == (ConnectionInputView::Ping { data }),
        FrameView::Pong(data) => input == (ConnectionInputView::Pong { size: frame_size(data.len()) }),
        FrameView::Close => input == ConnectionInputView::Close,
        FrameView::Raw(size) => input == (ConnectionInputView::Raw { size }),
    }
}

fn read_text(text: &str, binary: bool, size: u64) -> (input: ConnectionInput)
    ensures
        text_reads_as(text@, binary, size, input@),
{
    match WebSocketEvent::decode(text) {
        Ok(message) => ConnectionInput::Request { message, binary, size },
        Err(problem) => {
            if binary {
                ConnectionInput::Malformed { fault: FrameFault::Binary { length: size, problem }, size }
            } else {
                let raw = first_chars(text, QUOTED_CHARS);
                ConnectionInput::Malformed { fault: FrameFault::Text { raw, problem }, size }
            }
        },
    }
}

/// Reads a frame: what it is to the handler of its connection.
pub fn read_frame(frame: Frame) -> (input: ConnectionInput)
    ensures
        reads_as(frame@, input@),
{
    match frame {
        Frame::Text(text) => {
            let size = text.as_str().as_bytes().len() as u64;
            read_text(text.as_str(), false, size)
        },
        Frame::Binary(bytes) => {
            let size = bytes.len() as u64;
            match decode_utf8_bytes(bytes) {
                Ok(text) => read_text(text.as_str(), true, size),
                Err(error) => ConnectionInput::Malformed {
                    fault: FrameFault::Utf8 { problem: utf8_error_text(&error) },
                    size,
                },
            }
        },
        Frame::Ping(data) => ConnectionInput::Ping { data },
        Frame::Pong(data) => ConnectionInput::Pong { size: data.len() as u64 },
        Frame::Close => ConnectionInput::Close,
        Frame::Raw(size) => ConnectionInput::Raw { size },
    }
}

/// A text that is no JSON at all is read as malformed, and so is JSON that
/// lacks a field of a message: the handler answers both with an error.
pub proof fn lemma_bad_text_is_malformed(text: Seq<char>, input: ConnectionInputView)
    requires
        reads_as(FrameView::Text(text), input),
        json_parsed(text) is None || !WebSocketEventView::fits(json_parsed(text).unwrap()),
    ensures
        input is Malformed,
{
}

} // verus!
