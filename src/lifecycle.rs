use vstd::prelude::*;

use crate::context::{
    close_calls, closed, deliver, drain, fin_write, may_send, step, terminal, Call, ContextModel,
    Event,
};
use crate::message::MessageView;
use crate::stream::{next_of, sink_message, stream_after, Next, StreamModel};

verus! {

/// The messages that chunks written to a stream become, in order.
pub open spec fn sends(chunks: Seq<Seq<u8>>) -> Seq<MessageView> {
    chunks.map_values(|d: Seq<u8>| sink_message(d))
}

/// Writes of the given chunks, none marked as the end.
pub open spec fn writes(chunks: Seq<Seq<u8>>) -> Seq<Call> {
    chunks.map_values(|d: Seq<u8>| Call::AddBytes { data: d, set_fin: false })
}

/// What a reader gets from polling a stream once per message, and the stream
/// after it.
pub open spec fn read(s: StreamModel, msgs: Seq<MessageView>) -> (StreamModel, Seq<Next>)
    decreases msgs.len(),
{
    if msgs.len() == 0 {
        (s, Seq::empty())
    } else {
        let r = read(stream_after(s, Some(msgs[0])), msgs.drop_first());
        (r.0, seq![next_of(Some(msgs[0]))] + r.1)
    }
}

pub open spec fn after_sends(c: ContextModel, chunks: Seq<Seq<u8>>) -> ContextModel {
    ContextModel { data_sent: c.data_sent || chunks.len() > 0, ..c }
}

proof fn lemma_sends_then(
    c: ContextModel,
    chunks: Seq<Seq<u8>>,
    rest: Seq<MessageView>,
    exhausted: bool,
)
    requires
        may_send(c),
        !terminal(c),
    ensures
        ({
            let r = drain(after_sends(c, chunks), rest, exhausted);
            drain(c, sends(chunks) + rest, exhausted) == (r.0, writes(chunks) + r.1, r.2)
        }),
    decreases chunks.len(),
{
    let r = drain(after_sends(c, chunks), rest, exhausted);
    if chunks.len() == 0 {
        assert(sends(chunks) + rest =~= rest);
        assert(writes(chunks) + r.1 =~= r.1);
        assert(after_sends(c, chunks) == c);
    } else {
        let msgs = sends(chunks) + rest;
        let tail = chunks.drop_first();
        let c1 = ContextModel { data_sent: true, ..c };
        assert(msgs[0] == MessageView::SendData(chunks[0]));
        assert(msgs.drop_first() =~= sends(tail) + rest);
        lemma_sends_then(c1, tail, rest, exhausted);
        assert(after_sends(c1, tail) == after_sends(c, chunks));
        let k1 = seq![Call::AddBytes { data: chunks[0], set_fin: false }];
        assert(writes(chunks) =~= k1 + writes(tail));
        assert(k1 + (writes(tail) + r.1) =~= (k1 + writes(tail)) + r.1);
    }
}

/// Chunks written to a stream whose context may send, and whose two
/// directions are not both closed, reach the engine in the order written,
/// each as a write not marked as the end.
pub proof fn lemma_sends_forwarded_in_order(c: ContextModel, chunks: Seq<Seq<u8>>)
    requires
        may_send(c),
        !terminal(c),
    ensures
        drain(c, sends(chunks), false) == (after_sends(c, chunks), writes(chunks), false),
{
    lemma_sends_then(c, chunks, Seq::empty(), false);
    assert(sends(chunks) + Seq::empty() =~= sends(chunks));
    assert(writes(chunks) + Seq::<Call>::empty() =~= writes(chunks));
}

/// A stream dropped after writing data is closed with an empty write marked as
/// the end, and never reset.
pub proof fn lemma_drop_after_data_ends_with_fin(
    c: ContextModel,
    chunks: Seq<Seq<u8>>,
    exhausted: bool,
)
    requires
        may_send(c),
        !terminal(c),
        chunks.len() > 0,
    ensures
        ({
            let r = drain(c, sends(chunks).push(MessageView::Close), exhausted);
            &&& r.2
            &&& r.1.last() == fin_write()
            &&& forall|i: int| 0 <= i < r.1.len() ==> r.1[i] != Call::ResetStream
        }),
{
    let rest = seq![MessageView::Close];
    assert(sends(chunks).push(MessageView::Close) =~= sends(chunks) + rest);
    lemma_sends_then(c, chunks, rest, exhausted);
    let c1 = after_sends(c, chunks);
    assert(rest.drop_first() =~= Seq::<MessageView>::empty());
    let r = drain(c, sends(chunks).push(MessageView::Close), exhausted);
    assert(drain(c1, rest, exhausted) == (closed(c1), close_calls(c1), true));
    let w = writes(chunks);
    let k = close_calls(c1);
    assert(r.1 == w + k);
    assert forall|i: int| 0 <= i < r.1.len() implies r.1[i] != Call::ResetStream by {
        if i < w.len() {
            assert(r.1[i] == w[i]);
        } else {
            assert(r.1[i] == k[i - w.len()]);
        }
    }
}

/// A stream dropped before writing anything is closed with a reset, and with
/// no write at all.
pub proof fn lemma_drop_without_data_resets(c: ContextModel, exhausted: bool)
    requires
        !c.send_closed,
        !terminal(c),
        !c.data_sent,
    ensures
        ({
            let r = drain(c, seq![MessageView::Close], exhausted);
            &&& r.2
            &&& r.1.last() == Call::ResetStream
            &&& forall|i: int| 0 <= i < r.1.len() ==> !(r.1[i] is AddBytes)
        }),
{
    let msgs = seq![MessageView::Close];
    assert(msgs.drop_first() =~= Seq::<MessageView>::empty());
    assert(drain(c, msgs, exhausted) == (closed(c), close_calls(c), true));
}

/// A peer's end of stream lets the reader have the last bytes and then the
/// end, without error and without the reset mark; a peer's reset does the same
/// but sets the mark.
pub proof fn lemma_fin_and_reset_end_stream(c: ContextModel, data: Seq<u8>, s: StreamModel)
    ensures
        ({
            let items = if data.len() > 0 && !c.finished {
                seq![Next::Item(data)]
            } else {
                Seq::empty()
            };
            &&& read(s, deliver(c, data, Event::StreamFin).1) == (s, items.push(Next::End))
            &&& read(s, deliver(c, data, Event::StreamReset).1) == (
                StreamModel { reset: true, ..s },
                items.push(Next::End),
            )
        }),
{
    let fin = deliver(c, data, Event::StreamFin).1;
    let rst = deliver(c, data, Event::StreamReset).1;
    let s1 = StreamModel { reset: true, ..s };
    let one_fin = seq![MessageView::Close];
    let one_rst = seq![MessageView::Reset];
    assert(one_fin.drop_first() =~= Seq::<MessageView>::empty());
    assert(one_rst.drop_first() =~= Seq::<MessageView>::empty());
    assert(seq![Next::End] + Seq::<Next>::empty() =~= seq![Next::End]);
    assert(read(s, Seq::empty()) == (s, Seq::<Next>::empty()));
    assert(read(s1, Seq::empty()) == (s1, Seq::<Next>::empty()));
    assert(read(s, one_fin) == (s, seq![Next::End]));
    assert(read(s, one_rst) == (s1, seq![Next::End]));
    if data.len() > 0 && !c.finished {
        assert(fin.drop_first() =~= one_fin);
        assert(rst.drop_first() =~= one_rst);
        assert(read(s, fin).1 =~= seq![Next::Item(data)] + seq![Next::End]);
        assert(read(s, rst).1 =~= seq![Next::Item(data)] + seq![Next::End]);
    } else {
        assert(fin =~= one_fin);
        assert(rst =~= one_rst);
    }
}

/// The message that a context leaves when its connection is closed makes the
/// stream's poll of it end the sequence, and leaves the reset mark alone.
pub proof fn lemma_connection_close_ends_stream(s: StreamModel)
    ensures
        next_of(Some(MessageView::Close)) == Next::End,
        stream_after(s, Some(MessageView::Close)) == s,
        read(s, seq![MessageView::Close]) == (s, seq![Next::End]),
{
    let one = seq![MessageView::Close];
    assert(one.drop_first() =~= Seq::<MessageView>::empty());
    assert(seq![Next::End] + Seq::<Next>::empty() =~= seq![Next::End]);
    assert(read(s, Seq::empty()) == (s, Seq::<Next>::empty()));
}

/// Closing a context whose two directions are already closed makes no engine
/// call and ends its task at once; so does any poll of it.
pub proof fn lemma_close_when_terminal_is_quiet(
    c: ContextModel,
    msgs: Seq<MessageView>,
    exhausted: bool,
)
    requires
        terminal(c),
    ensures
        step(c, MessageView::Close).1 == Seq::<Call>::empty(),
        step(c, MessageView::Close).2,
        drain(c, msgs, exhausted) == (c, Seq::<Call>::empty(), true),
{
    assert(close_calls(c) =~= Seq::<Call>::empty());
}

} // verus!
