use std::collections::VecDeque;
use vstd::prelude::*;

use crate::id::{
    is_client_initiated, is_unidirectional, spec_client_initiated, spec_send_allowed,
    spec_unidirectional, Id,
};
use crate::message::{
    message_views, outbound_legal, Error, Message, MessageView,
};

verus! {

/// What the engine reports together with the bytes of a stream callback.
#[derive(Clone, Copy, Debug, PartialEq, Eq, Structural)]
pub enum Event {
    Data,
    StreamFin,
    StreamReset,
    StopSending,
}

/// A call that the context asks the engine to make on its stream.
/// Resets and stop-sending signals carry application error code zero.
#[derive(Debug)]
pub enum EngineCall {
    AddBytes { data: Vec<u8>, set_fin: bool },
    ResetStream,
    StopSending,
}

pub enum Call {
    AddBytes { data: Seq<u8>, set_fin: bool },
    ResetStream,
    StopSending,
}

impl View for EngineCall {
    type V = Call;

    open spec fn view(&self) -> Call {
        match self {
            EngineCall::AddBytes { data, set_fin } => Call::AddBytes { data: data@, set_fin: *set_fin },
            EngineCall::ResetStream => Call::ResetStream,
            EngineCall::StopSending => Call::StopSending,
        }
    }
}

pub open spec fn call_views(s: Seq<EngineCall>) -> Seq<Call> {
    s.map_values(|c: EngineCall| c@)
}

/// The zero-length write that marks the end of what was sent.
pub open spec fn fin_write() -> Call {
    Call::AddBytes { data: Seq::empty(), set_fin: true }
}

/// The state of a context.
pub struct ContextModel {
    pub id: Id,
    /// The connection was opened locally.
    pub is_client_con: bool,
    /// The stream is finished: bytes that still come in are dropped.
    pub finished: bool,
    /// Nothing more is to be received.
    pub stop_sending: bool,
    /// The local send side ended, by a close or a reset from the stream.
    pub send_closed: bool,
    /// Some chunk was handed to the engine.
    pub data_sent: bool,
}

pub open spec fn initial(id: Id, is_client_con: bool) -> ContextModel {
    ContextModel {
        id,
        is_client_con,
        finished: false,
        stop_sending: false,
        send_closed: false,
        data_sent: false,
    }
}

/// Both directions are closed: the context's task is over.
pub open spec fn terminal(c: ContextModel) -> bool {
    c.finished && c.stop_sending
}

/// A chunk from the stream is handed to the engine: the local send side is
/// open, and this side may write to the stream.
pub open spec fn may_send(c: ContextModel) -> bool {
    &&& !c.send_closed
    &&& (spec_unidirectional(c.id) ==> spec_send_allowed(c.id, c.is_client_con))
}

/// The engine calls that close a context: a stop-sending signal where data may
/// still come in, then a final empty write marked as the end if data was sent,
/// or a reset if none was, unless the local send side already ended. A context
/// whose two directions are closed makes no call at all.
pub open spec fn close_calls(c: ContextModel) -> Seq<Call> {
    let stop = if !terminal(c) && (!spec_unidirectional(c.id) || !spec_send_allowed(
        c.id,
        c.is_client_con,
    )) {
        seq![Call::StopSending]
    } else {
        Seq::empty()
    };
    let last = if terminal(c) || c.send_closed {
        Seq::empty()
    } else if c.data_sent {
        seq![fin_write()]
    } else {
        seq![Call::ResetStream]
    };
    stop + last
}

pub open spec fn closed(c: ContextModel) -> ContextModel {
    ContextModel { finished: true, stop_sending: true, send_closed: true, ..c }
}

/// One message from the stream: the new state, the engine calls, and whether
/// the task is over.
pub open spec fn step(c: ContextModel, m: MessageView) -> (ContextModel, Seq<Call>, bool) {
    match m {
        MessageView::Close => (closed(c), close_calls(c), true),
        MessageView::SendData(d) => if may_send(c) {
            (
                ContextModel { data_sent: true, ..c },
                seq![Call::AddBytes { data: d, set_fin: false }],
                false,
            )
        } else {
            (c, Seq::empty(), false)
        },
        MessageView::Reset => if !c.send_closed {
            (
                ContextModel { finished: true, send_closed: true, ..c },
                seq![Call::ResetStream],
                false,
            )
        } else {
            (c, Seq::empty(), false)
        },
        _ => (c, Seq::empty(), false),
    }
}

/// One poll over the messages that are ready; `exhausted` says that the stream
/// side is gone once they are taken. Stops at the first message that ends the
/// task, and at once if both directions are closed.
pub open spec fn drain(c: ContextModel, msgs: Seq<MessageView>, exhausted: bool) -> (
    ContextModel,
    Seq<Call>,
    bool,
)
    decreases msgs.len(),
{
    if terminal(c) {
        (c, Seq::empty(), true)
    } else if msgs.len() == 0 {
        if exhausted {
            (closed(c), close_calls(c), true)
        } else {
            (c, Seq::empty(), false)
        }
    } else {
        let (c1, k1, d1) = step(c, msgs[0]);
        if d1 {
            (c1, k1, true)
        } else {
            let r = drain(c1, msgs.drop_first(), exhausted);
            (r.0, k1 + r.1, r.2)
        }
    }
}

/// The state a context keeps only grows: its stream and connection stay, and
/// a flag once set stays set, over any poll.
pub proof fn lemma_drain_keeps_flags(c: ContextModel, msgs: Seq<MessageView>, exhausted: bool)
    ensures
        ({
            let n = drain(c, msgs, exhausted).0;
            &&& n.id == c.id
            &&& n.is_client_con == c.is_client_con
            &&& c.finished ==> n.finished
            &&& c.stop_sending ==> n.stop_sending
            &&& c.data_sent ==> n.data_sent
            &&& c.send_closed ==> n.send_closed
        }),
    decreases msgs.len(),
{
    if !terminal(c) && msgs.len() > 0 {
        let (c1, k1, d1) = step(c, msgs[0]);
        if !d1 {
            lemma_drain_keeps_flags(c1, msgs.drop_first(), exhausted);
        }
    }
}

/// A chunk from the stream that is not handed to the engine.
pub open spec fn refuses(c: ContextModel, m: MessageView) -> bool {
    m is SendData && !may_send(c)
}

/// Some chunk is refused during the poll that `drain` describes.
pub open spec fn drain_refused(c: ContextModel, msgs: Seq<MessageView>) -> bool
    decreases msgs.len(),
{
    if terminal(c) || msgs.len() == 0 {
        false
    } else {
        let (c1, k1, d1) = step(c, msgs[0]);
        refuses(c, msgs[0]) || (!d1 && drain_refused(c1, msgs.drop_first()))
    }
}

/// An engine callback: the new state, the messages for the stream, whether to
/// close the channel from the stream, and whether bytes were dropped because
/// they came after the end.
pub open spec fn deliver(c: ContextModel, data: Seq<u8>, event: Event) -> (
    ContextModel,
    Seq<MessageView>,
    bool,
    bool,
) {
    let data_msgs = if data.len() > 0 && !c.finished {
        seq![MessageView::RecvData(data)]
    } else {
        Seq::empty()
    };
    let dropped = data.len() > 0 && c.finished;
    match event {
        Event::Data => (c, data_msgs, false, dropped),
        Event::StreamReset => (
            ContextModel { finished: true, ..c },
            data_msgs.push(MessageView::Reset),
            false,
            dropped,
        ),
        Event::StopSending => (ContextModel { stop_sending: true, ..c }, data_msgs, true, dropped),
        Event::StreamFin => (
            ContextModel { finished: true, ..c },
            data_msgs.push(MessageView::Close),
            false,
            dropped,
        ),
    }
}

/// The outcome of a poll.
pub struct Step {
    /// Engine calls to make, in order.
    pub calls: Vec<EngineCall>,
    /// The task is over.
    pub done: bool,
    /// Some chunk from the stream was not handed to the engine.
    pub refused: bool,
}

/// The outcome of an engine callback.
pub struct Delivery {
    /// Messages for the stream, in order.
    pub messages: Vec<Message>,
    /// The channel from the stream is to be closed.
    pub close_outbound: bool,
    /// Bytes came after the end and were dropped.
    pub dropped: bool,
}

/// The engine-facing half of a stream.
pub struct Context {
    id: Id,
    is_client_con: bool,
    finished: bool,
    stop_sending: bool,
    send_closed: bool,
    data_sent: bool,
}

impl View for Context {
    type V = ContextModel;

    closed spec fn view(&self) -> ContextModel {
        ContextModel {
            id: self.id,
            is_client_con: self.is_client_con,
            finished: self.finished,
            stop_sending: self.stop_sending,
            send_closed: self.send_closed,
            data_sent: self.data_sent,
        }
    }
}

impl Context {
    pub fn new(id: Id, is_client_con: bool) -> (r: Context)
        ensures
            r@ == initial(id, is_client_con),
    {
        Context {
            id,
            is_client_con,
            finished: false,
            stop_sending: false,
            send_closed: false,
            data_sent: false,
        }
    }

    pub fn id(&self) -> (r: Id)
        ensures
            r == self@.id,
    {
        self.id
    }

    /// Both directions are closed.
    pub fn is_terminal(&self) -> (r: bool)
        ensures
            r == terminal(self@),
    {
        self.finished && self.stop_sending
    }

    /// Whether this side may send, were the stream unidirectional.
    pub fn is_unidirectional_send_allowed(&self) -> (r: bool)
        ensures
            r == spec_send_allowed(self@.id, self@.is_client_con),
            r == ((self@.id & 1 == 0) == self@.is_client_con),
    {
        if self.is_client_initiated() {
            self.is_client_con
        } else {
            !self.is_client_con
        }
    }

    /// The stream was opened by the client.
    pub fn is_client_initiated(&self) -> (r: bool)
        ensures
            r == spec_client_initiated(self@.id),
    {
        is_client_initiated(self.id)
    }

    /// An engine callback for this stream.
    pub fn recv_data(&mut self, data: &[u8], event: Event) -> (r: Delivery)
        ensures
            deliver(old(self)@, data@, event) == (
                final(self)@,
                message_views(r.messages@),
                r.close_outbound,
                r.dropped,
            ),
    {
        let mut messages: Vec<Message> = Vec::new();
        let dropped = data.len() > 0 && self.finished;
        if data.len() > 0 && !self.finished {
            messages.push(Message::RecvData(vstd::slice::slice_to_vec(data)));
        }
        let mut close_outbound = false;
        match event {
            Event::Data => {},
            Event::StreamReset => {
                self.finished = true;
                messages.push(Message::Reset);
            },
            Event::StopSending => {
                self.stop_sending = true;
                close_outbound = true;
            },
            Event::StreamFin => {
                messages.push(Message::Close);
                self.finished = true;
            },
        }
        let ghost d = deliver(old(self)@, data@, event);
        assert(message_views(messages@) =~= d.1);
        Delivery { messages, close_outbound, dropped }
    }

    /// The connection failed: the error is passed on to the stream.
    pub fn handle_connection_error(&mut self, err: Error) -> (r: Message)
        ensures
            r@ == MessageView::Error(err@),
            final(self)@ == old(self)@,
    {
        Message::Error(err)
    }

    /// The connection was closed: the stream ends.
    pub fn handle_connection_close(&mut self) -> (r: Message)
        ensures
            r@ == MessageView::Close,
            final(self)@ == old(self)@,
    {
        Message::Close
    }

    /// Ends the send side with a reset.
    fn reset(&mut self, calls: &mut Vec<EngineCall>)
        ensures
            final(self)@ == (ContextModel { finished: true, send_closed: true, ..old(self)@ }),
            call_views(final(calls)@) == call_views(old(calls)@).push(Call::ResetStream),
    {
        self.finished = true;
        self.send_closed = true;
        calls.push(EngineCall::ResetStream);
        assert(call_views(calls@) =~= call_views(old(calls)@).push(Call::ResetStream));
    }

    /// Closes both directions.
    fn close(&mut self, calls: &mut Vec<EngineCall>)
        ensures
            final(self)@ == closed(old(self)@),
            call_views(final(calls)@) == call_views(old(calls)@) + close_calls(old(self)@),
    {
        let ghost c0 = self@;
        let ghost k0 = call_views(calls@);
        if !(self.finished && self.stop_sending) && (!is_unidirectional(self.id)
            || !self.is_unidirectional_send_allowed()) {
            calls.push(EngineCall::StopSending);
        }
        if !(self.finished && self.stop_sending) && !self.send_closed {
            if self.data_sent {
                calls.push(EngineCall::AddBytes { data: Vec::new(), set_fin: true });
            } else {
                calls.push(EngineCall::ResetStream);
            }
        }
        self.finished = true;
        self.stop_sending = true;
        self.send_closed = true;
        assert(call_views(calls@) =~= k0 + close_calls(c0));
    }

    /// Whether a chunk from the stream would be handed to the engine now.
    pub fn may_send(&self) -> (r: bool)
        ensures
            r == may_send(self@),
    {
        !self.send_closed && (!is_unidirectional(self.id) || self.is_unidirectional_send_allowed())
    }

    /// Hands a chunk to the engine, as a write not marked as the end, where
    /// the send side is open and this side may write to the stream; otherwise
    /// the chunk is refused and nothing changes.
    pub fn send_data(&mut self, data: Vec<u8>, calls: &mut Vec<EngineCall>)
        ensures
            step(old(self)@, MessageView::SendData(data@)).0 == final(self)@,
            call_views(final(calls)@) == call_views(old(calls)@) + step(
                old(self)@,
                MessageView::SendData(data@),
            ).1,
            may_send(old(self)@) ==> final(self)@ == (ContextModel { data_sent: true, ..old(self)@ })
                && call_views(final(calls)@) == call_views(old(calls)@).push(
                Call::AddBytes { data: data@, set_fin: false },
            ),
            !may_send(old(self)@) ==> final(self)@ == old(self)@ && call_views(final(calls)@)
                == call_views(old(calls)@),
    {
        let ghost k0 = call_views(calls@);
        let ghost d = data@;
        if self.may_send() {
            calls.push(EngineCall::AddBytes { data, set_fin: false });
            self.data_sent = true;
        }
        assert(call_views(calls@) =~= k0 + step(old(self)@, MessageView::SendData(d)).1);
        assert(k0 + Seq::<Call>::empty() =~= k0);
        assert(k0 + seq![Call::AddBytes { data: d, set_fin: false }] =~= k0.push(
            Call::AddBytes { data: d, set_fin: false },
        ));
    }

    /// Handles one message from the stream; returns whether the task is over.
    pub fn on_message(&mut self, msg: Message, calls: &mut Vec<EngineCall>) -> (done: bool)
        requires
            outbound_legal(msg@),
        ensures
            final(self)@ == step(old(self)@, msg@).0,
            call_views(final(calls)@) == call_views(old(calls)@) + step(old(self)@, msg@).1,
            done == step(old(self)@, msg@).2,
    {
        let ghost k0 = call_views(calls@);
        match msg {
            Message::Close => {
                self.close(calls);
                true
            },
            Message::SendData(data) => {
                self.send_data(data, calls);
                false
            },
            Message::Reset => {
                if !self.send_closed {
                    self.reset(calls);
                } else {
                    assert(call_views(calls@) =~= k0 + Seq::empty());
                }
                false
            },
            _ => {
                assert(call_views(calls@) =~= k0 + Seq::empty());
                false
            },
        }
    }

    /// Handles the messages that are ready, in order, as long as the task goes
    /// on; `exhausted` says that the stream side is gone once they are taken.
    pub fn poll(&mut self, batch: VecDeque<Message>, exhausted: bool) -> (r: Step)
        requires
            forall|i: int| 0 <= i < batch@.len() ==> outbound_legal(#[trigger] batch@[i]@),
        ensures
            drain(old(self)@, message_views(batch@), exhausted) == (
                final(self)@,
                call_views(r.calls@),
                r.done,
            ),
            r.refused == drain_refused(old(self)@, message_views(batch@)),
            final(self)@.id == old(self)@.id,
            old(self)@.finished ==> final(self)@.finished,
    {
        proof {
            lemma_drain_keeps_flags(self@, message_views(batch@), exhausted);
        }
        let mut ready = batch;
        let mut calls: Vec<EngineCall> = Vec::new();
        let mut refused = false;
        let ghost c0 = self@;
        let ghost all = message_views(ready@);
        assert(call_views(calls@) =~= Seq::empty());
        loop
            invariant
                c0 == old(self)@,
                all == message_views(batch@),
                drain(c0, all, exhausted).0.id == c0.id,
                c0.finished ==> drain(c0, all, exhausted).0.finished,
                drain_refused(c0, all) == (refused || drain_refused(self@, message_views(ready@))),
                forall|i: int| 0 <= i < ready@.len() ==> outbound_legal(#[trigger] ready@[i]@),
                ({
                    let r = drain(self@, message_views(ready@), exhausted);
                    drain(c0, all, exhausted) == (r.0, call_views(calls@) + r.1, r.2)
                }),
            decreases ready@.len(),
        {
            let ghost k = call_views(calls@);
            let ghost rest = message_views(ready@);
            let ghost c = self@;
            let ghost q = ready@;
            if self.is_terminal() {
                assert(k + Seq::<Call>::empty() =~= k);
                return Step { calls, done: true, refused };
            }
            match ready.pop_front() {
                None => {
                    if exhausted {
                        self.close(&mut calls);
                        return Step { calls, done: true, refused };
                    } else {
                        assert(k + Seq::<Call>::empty() =~= k);
                        return Step { calls, done: false, refused };
                    }
                },
                Some(msg) => {
                    assert(msg@ == rest[0]);
                    assert(outbound_legal(q[0]@));
                    if matches!(msg, Message::SendData(_)) && !self.may_send() {
                        refused = true;
                    }
                    let done = self.on_message(msg, &mut calls);
                    let ghost k1 = step(c, rest[0]).1;
                    if done {
                        return Step { calls, done: true, refused };
                    }
                    assert(message_views(ready@) =~= rest.drop_first());
                    let ghost r = drain(self@, message_views(ready@), exhausted);
                    assert(k + (k1 + r.1) =~= (k + k1) + r.1);
                },
            }
        }
    }
}

} // verus!
