use vstd::prelude::*;

verus! {

/// What can go wrong on a stream.
#[derive(Clone, Debug)]
pub enum Error {
    /// The other half of the stream is gone.
    Unknown,
    /// A chunk could not be queued for sending; it is handed back.
    SendError(Vec<u8>),
    /// The connection that owns the stream failed, for the given cause.
    ConnectionError(String),
}

pub enum ErrorView {
    Unknown,
    SendError(Seq<u8>),
    ConnectionError(Seq<char>),
}

impl View for Error {
    type V = ErrorView;

    open spec fn view(&self) -> ErrorView {
        match self {
            Error::Unknown => ErrorView::Unknown,
            Error::SendError(d) => ErrorView::SendError(d@),
            Error::ConnectionError(s) => ErrorView::ConnectionError(s@),
        }
    }
}

/// What travels between a `Stream` and its `Context`, in either direction.
///
/// `SendData` only goes from the stream to the context, `RecvData` only the
/// other way.
#[derive(Debug)]
pub enum Message {
    /// Graceful end.
    Close,
    /// A chunk that arrived from the peer.
    RecvData(Vec<u8>),
    /// A chunk to be sent to the peer.
    SendData(Vec<u8>),
    /// A failure, passed on.
    Error(Error),
    /// Abrupt end.
    Reset,
}

pub enum MessageView {
    Close,
    RecvData(Seq<u8>),
    SendData(Seq<u8>),
    Error(ErrorView),
    Reset,
}

impl View for Message {
    type V = MessageView;

    open spec fn view(&self) -> MessageView {
        match self {
            Message::Close => MessageView::Close,
            Message::RecvData(d) => MessageView::RecvData(d@),
            Message::SendData(d) => MessageView::SendData(d@),
            Message::Error(e) => MessageView::Error(e@),
            Message::Reset => MessageView::Reset,
        }
    }
}

pub open spec fn message_views(s: Seq<Message>) -> Seq<MessageView> {
    s.map_values(|m: Message| m@)
}

pub open spec fn received_view(m: Option<Message>) -> Option<MessageView> {
    match m {
        Some(x) => Some(x@),
        None => None,
    }
}

/// A message that may travel from the stream to its context.
pub open spec fn outbound_legal(m: MessageView) -> bool {
    !(m is RecvData)
}

/// A message that may travel from the context to its stream.
pub open spec fn inbound_legal(m: MessageView) -> bool {
    !(m is SendData)
}

impl Message {
    pub fn is_outbound_legal(&self) -> (r: bool)
        ensures
            r == outbound_legal(self@),
    {
        !matches!(self, Message::RecvData(_))
    }

    pub fn is_inbound_legal(&self) -> (r: bool)
        ensures
            r == inbound_legal(self@),
    {
        !matches!(self, Message::SendData(_))
    }
}

} // verus!
