use vstd::prelude::*;

use crate::context::{initial, Context};
use crate::id::{spec_type, stream_type, Id, Type};
use crate::message::{inbound_legal, received_view, Error, ErrorView, Message, MessageView};

verus! {

/// The state of a stream handle.
pub struct StreamModel {
    pub id: Id,
    /// The stream ended with a reset.
    pub reset: bool,
}

/// What one poll of a stream hands to its reader.
pub enum Next {
    Item(Seq<u8>),
    End,
    Failed(ErrorView),
}

/// What the reader gets for the next message from the context, or for `None`
/// once the context is gone.
pub open spec fn next_of(m: Option<MessageView>) -> Next {
    match m {
        Some(MessageView::RecvData(d)) => Next::Item(d),
        Some(MessageView::Error(e)) => Next::Failed(e),
        _ => Next::End,
    }
}

pub open spec fn next_view(r: Result<Option<Vec<u8>>, Error>) -> Next {
    match r {
        Ok(Some(d)) => Next::Item(d@),
        Ok(None) => Next::End,
        Err(e) => Next::Failed(e@),
    }
}

/// A reset is remembered for good.
pub open spec fn stream_after(s: StreamModel, m: Option<MessageView>) -> StreamModel {
    match m {
        Some(MessageView::Reset) => StreamModel { reset: true, ..s },
        _ => s,
    }
}

/// The message that a written chunk becomes.
pub open spec fn sink_message(d: Seq<u8>) -> MessageView {
    MessageView::SendData(d)
}

/// The consumer-facing half of a stream.
pub struct Stream {
    id: Id,
    stream_reset: bool,
}

impl View for Stream {
    type V = StreamModel;

    closed spec fn view(&self) -> StreamModel {
        StreamModel { id: self.id, reset: self.stream_reset }
    }
}

impl Stream {
    /// The two halves of stream `id` of a connection, which was opened locally
    /// where `is_client_con` holds.
    pub fn new(id: Id, is_client_con: bool) -> (r: (Stream, Context))
        ensures
            r.0@ == (StreamModel { id, reset: false }),
            r.1@ == initial(id, is_client_con),
    {
        (Stream { id, stream_reset: false }, Context::new(id, is_client_con))
    }

    pub fn id(&self) -> (r: Id)
        ensures
            r == self@.id,
    {
        self.id
    }

    pub fn get_type(&self) -> (r: Type)
        ensures
            r == spec_type(self@.id),
    {
        stream_type(self.id)
    }

    /// The stream ended with a reset rather than gracefully.
    pub fn is_reset(&self) -> (r: bool)
        ensures
            r == self@.reset,
    {
        self.stream_reset
    }

    /// Turns the next message from the context (`None`: the context is gone)
    /// into what the reader gets: a chunk, the end, or an error.
    pub fn poll(&mut self, msg: Option<Message>) -> (r: Result<Option<Vec<u8>>, Error>)
        requires
            msg matches Some(m) ==> inbound_legal(m@),
        ensures
            next_view(r) == next_of(received_view(msg)),
            final(self)@ == stream_after(old(self)@, received_view(msg)),
            old(self)@.reset ==> final(self)@.reset,
            received_view(msg) == Some(MessageView::Close) ==> (r matches Ok(None))
                && final(self)@.reset == old(self)@.reset,
            received_view(msg) == Some(MessageView::Reset) ==> (r matches Ok(None))
                && final(self)@.reset,
    {
        match msg {
            Some(Message::RecvData(d)) => Ok(Some(d)),
            Some(Message::Error(e)) => Err(e),
            Some(Message::Reset) => {
                self.stream_reset = true;
                Ok(None)
            },
            _ => Ok(None),
        }
    }

    /// The message that carries a written chunk to the context.
    pub fn start_send(&self, item: Vec<u8>) -> (r: Message)
        ensures
            r@ == sink_message(item@),
    {
        Message::SendData(item)
    }

    /// The error for a written chunk that the context could not take: the chunk
    /// is handed back.
    pub fn send_error(msg: Message) -> (r: Error)
        requires
            msg@ is SendData,
        ensures
            r@ == ErrorView::SendError(msg@->SendData_0),
    {
        match msg {
            Message::SendData(d) => Error::SendError(d),
            _ => Error::Unknown,
        }
    }

    /// The message that resets the stream.
    pub fn reset(&self) -> (r: Message)
        ensures
            r@ == MessageView::Reset,
    {
        Message::Reset
    }

    /// The message that a dropped stream leaves for its context.
    pub fn close(&self) -> (r: Message)
        ensures
            r@ == MessageView::Close,
    {
        Message::Close
    }
}

} // verus!
