//! Messages as they travel between neighbouring cells: a short header and a
//! bounded body.

use crate::bounded::{buffer_bytes, bytes_clone, bytes_len};
use vstd::prelude::*;

verus! {

/// Number of slots in a message queue; a queue holds one message less.
pub const QUEUE_LENGTH: usize = 16;

/// Largest body of a message, in bytes.
pub const MESSAGE_SIZE: usize = 256;

/// The body of a message.
pub type MessageBuffer = heapless::Vec<u8, MESSAGE_SIZE>;

/// A bounded queue of messages.
pub type MessageQueue = heapless::spsc::Queue<Message, QUEUE_LENGTH>;

/// What precedes the body on the wire.
#[derive(Copy, Clone, Debug, PartialEq, Eq, Structural)]
pub struct MessageHeader {
    /// The port the message leaves or has arrived through.
    pub port: u8,
    /// The status code.
    pub status: u8,
    /// Number of bytes in the body.
    pub length: u16,
}

impl Default for MessageHeader {
    fn default() -> (header: MessageHeader)
        ensures
            header == (MessageHeader { port: 0, status: 0, length: 0 }),
    {
        MessageHeader { port: 0, status: 0, length: 0 }
    }
}

/// A message: header and body.
pub struct Message {
    pub header: MessageHeader,
    pub body: MessageBuffer,
}

/// A message as plain values.
pub struct MessageView {
    pub port: u8,
    pub status: u8,
    pub length: u16,
    pub body: Seq<u8>,
}

impl View for Message {
    type V = MessageView;

    open spec fn view(&self) -> MessageView {
        MessageView {
            port: self.header.port,
            status: self.header.status,
            length: self.header.length,
            body: buffer_bytes(self.body),
        }
    }
}

impl Clone for Message {
    fn clone(&self) -> (copy: Message)
        ensures
            copy@ == self@,
    {
        Message { header: self.header, body: bytes_clone(&self.body) }
    }
}

impl Message {
    /// The header states the length of the body, which fits a message.
    pub open spec fn wf(&self) -> bool {
        &&& self@.length == self@.body.len()
        &&& self@.body.len() <= MESSAGE_SIZE
    }

    /// A message through `port` with the given status and a copy of `data` as
    /// its body.
    pub fn new(port: u8, status: u8, data: &MessageBuffer) -> (message: Message)
        ensures
            message@ == (MessageView {
                port,
                status,
                length: buffer_bytes(*data).len() as u16,
                body: buffer_bytes(*data),
            }),
            message.wf(),
    {
        let length: usize = bytes_len(data);
        Message {
            header: MessageHeader { port: port, status: status, length: length as u16 },
            body: bytes_clone(data),
        }
    }
}

} // verus!
