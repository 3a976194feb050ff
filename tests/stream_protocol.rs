use std::collections::VecDeque;

use picoquic::{
    is_client_initiated, is_unidirectional, is_unidirectional_send_allowed, Context, EngineCall,
    Error, Event, Message, Stream, Type,
};

fn batch(msgs: Vec<Message>) -> VecDeque<Message> {
    msgs.into_iter().collect()
}

fn is_write(c: &EngineCall, bytes: &[u8], fin: bool) -> bool {
    matches!(c, EngineCall::AddBytes { data, set_fin } if data.as_slice() == bytes && *set_fin == fin)
}

#[test]
fn type_follows_bit_one() {
    for id in [0u64, 1, 4, 5, 8, 101] {
        assert!(!is_unidirectional(id));
        assert_eq!(Stream::new(id, true).0.get_type(), Type::Bidirectional);
    }
    for id in [2u64, 3, 6, 7, 10, u64::MAX] {
        assert!(is_unidirectional(id));
        assert_eq!(Stream::new(id, false).0.get_type(), Type::Unidirectional);
    }
}

#[test]
fn send_permission_follows_initiator() {
    assert!(is_client_initiated(2));
    assert!(!is_client_initiated(3));
    assert!(is_unidirectional_send_allowed(2, true));
    assert!(!is_unidirectional_send_allowed(2, false));
    assert!(is_unidirectional_send_allowed(3, false));
    assert!(!is_unidirectional_send_allowed(3, true));
    let ctx = Context::new(7, false);
    assert!(ctx.is_unidirectional_send_allowed());
    assert!(!ctx.is_client_initiated());
}

#[test]
fn chunks_forwarded_in_order() {
    let (stream, mut ctx) = Stream::new(0, true);
    let msgs = vec![
        stream.start_send(vec![1, 2]),
        stream.start_send(vec![3]),
        stream.start_send(vec![4, 5, 6]),
    ];
    let step = ctx.poll(batch(msgs), false);
    assert!(!step.done);
    assert!(!step.refused);
    assert_eq!(step.calls.len(), 3);
    assert!(is_write(&step.calls[0], &[1, 2], false));
    assert!(is_write(&step.calls[1], &[3], false));
    assert!(is_write(&step.calls[2], &[4, 5, 6], false));
}

#[test]
fn drop_after_data_writes_fin() {
    let (stream, mut ctx) = Stream::new(2, true);
    let step = ctx.poll(batch(vec![stream.start_send(vec![9]), stream.close()]), false);
    assert!(step.done);
    assert_eq!(step.calls.len(), 2);
    assert!(is_write(&step.calls[0], &[9], false));
    assert!(is_write(&step.calls[1], &[], true));
    assert!(ctx.is_terminal());
}

#[test]
fn drop_after_data_on_bidirectional_stops_sending_then_fin() {
    let (stream, mut ctx) = Stream::new(4, true);
    let step = ctx.poll(batch(vec![stream.start_send(vec![1]), stream.close()]), false);
    assert!(step.done);
    assert_eq!(step.calls.len(), 3);
    assert!(matches!(step.calls[1], EngineCall::StopSending));
    assert!(is_write(&step.calls[2], &[], true));
}

#[test]
fn drop_without_data_resets() {
    let (stream, mut ctx) = Stream::new(2, true);
    let step = ctx.poll(batch(vec![stream.close()]), false);
    assert!(step.done);
    assert_eq!(step.calls.len(), 1);
    assert!(matches!(step.calls[0], EngineCall::ResetStream));
}

#[test]
fn exhausted_channel_closes() {
    let (_stream, mut ctx) = Stream::new(0, false);
    let step = ctx.poll(VecDeque::new(), true);
    assert!(step.done);
    assert_eq!(step.calls.len(), 2);
    assert!(matches!(step.calls[0], EngineCall::StopSending));
    assert!(matches!(step.calls[1], EngineCall::ResetStream));
}

#[test]
fn idle_poll_is_pending() {
    let (_stream, mut ctx) = Stream::new(0, false);
    let step = ctx.poll(VecDeque::new(), false);
    assert!(!step.done);
    assert!(step.calls.is_empty());
}

#[test]
fn receive_only_stream_refuses_data() {
    // stream 3 was opened by the server; a client may not write to it
    let (stream, mut ctx) = Stream::new(3, true);
    let step = ctx.poll(batch(vec![stream.start_send(vec![1, 2, 3])]), false);
    assert!(!step.done);
    assert!(step.refused);
    assert!(step.calls.is_empty());
}

#[test]
fn reset_message_resets_once() {
    let (stream, mut ctx) = Stream::new(0, true);
    let step = ctx.poll(batch(vec![stream.reset(), stream.reset(), stream.start_send(vec![1])]), false);
    assert!(!step.done);
    assert!(step.refused);
    assert_eq!(step.calls.len(), 1);
    assert!(matches!(step.calls[0], EngineCall::ResetStream));
}

#[test]
fn close_of_terminal_context_is_quiet() {
    let (stream, mut ctx) = Stream::new(0, true);
    let first = ctx.poll(batch(vec![stream.close()]), false);
    assert!(first.done);
    assert!(ctx.is_terminal());
    let again = ctx.poll(batch(vec![stream.close()]), true);
    assert!(again.done);
    assert!(again.calls.is_empty());
}

#[test]
fn stop_sending_then_reset_ends_task() {
    let (stream, mut ctx) = Stream::new(0, true);
    let d = ctx.recv_data(&[], Event::StopSending);
    assert!(d.close_outbound);
    assert!(d.messages.is_empty());
    let step = ctx.poll(batch(vec![stream.reset(), stream.start_send(vec![1])]), false);
    assert!(step.done);
    assert_eq!(step.calls.len(), 1);
    assert!(matches!(step.calls[0], EngineCall::ResetStream));
}

#[test]
fn data_then_fin_reads_cleanly() {
    let (mut stream, mut ctx) = Stream::new(1, false);
    let d = ctx.recv_data(&[7, 8], Event::StreamFin);
    assert!(!d.dropped);
    assert_eq!(d.messages.len(), 2);
    let mut msgs = d.messages.into_iter();
    match stream.poll(msgs.next()) {
        Ok(Some(v)) => assert_eq!(v, vec![7, 8]),
        other => panic!("unexpected {:?}", other),
    }
    assert!(matches!(stream.poll(msgs.next()), Ok(None)));
    assert!(!stream.is_reset());
}

#[test]
fn peer_reset_marks_stream() {
    let (mut stream, mut ctx) = Stream::new(1, false);
    let d = ctx.recv_data(&[], Event::StreamReset);
    assert_eq!(d.messages.len(), 1);
    let m = d.messages.into_iter().next();
    assert!(matches!(stream.poll(m), Ok(None)));
    assert!(stream.is_reset());
    assert!(matches!(stream.poll(None), Ok(None)));
    assert!(stream.is_reset());
}

#[test]
fn data_after_finish_is_dropped() {
    let (_stream, mut ctx) = Stream::new(1, false);
    let _ = ctx.recv_data(&[], Event::StreamFin);
    let d = ctx.recv_data(&[1, 2, 3], Event::Data);
    assert!(d.dropped);
    assert!(d.messages.is_empty());
}

#[test]
fn empty_data_forwards_nothing() {
    let (_stream, mut ctx) = Stream::new(1, false);
    let d = ctx.recv_data(&[], Event::Data);
    assert!(!d.dropped);
    assert!(d.messages.is_empty());
    assert!(!d.close_outbound);
}

#[test]
fn connection_close_ends_stream() {
    let (mut stream, mut ctx) = Stream::new(0, true);
    let m = ctx.handle_connection_close();
    assert!(matches!(stream.poll(Some(m)), Ok(None)));
    assert!(!stream.is_reset());
}

#[test]
fn connection_error_reaches_reader() {
    let (mut stream, mut ctx) = Stream::new(0, true);
    let m = ctx.handle_connection_error(Error::ConnectionError("timeout".to_string()));
    match stream.poll(Some(m)) {
        Err(Error::ConnectionError(s)) => assert_eq!(s, "timeout"),
        other => panic!("unexpected {:?}", other),
    }
}

#[test]
fn rejected_send_hands_chunk_back() {
    let (stream, _ctx) = Stream::new(0, true);
    let m = stream.start_send(vec![4, 2]);
    match Stream::send_error(m) {
        Error::SendError(d) => assert_eq!(d, vec![4, 2]),
        other => panic!("unexpected {:?}", other),
    }
}

#[test]
fn message_direction_checks() {
    assert!(!Message::RecvData(vec![1]).is_outbound_legal());
    assert!(Message::RecvData(vec![1]).is_inbound_legal());
    assert!(!Message::SendData(vec![1]).is_inbound_legal());
    assert!(Message::Reset.is_outbound_legal());
}

#[test]
fn peer_stop_sending_then_close_still_stops_sending() {
    let (stream, mut ctx) = Stream::new(0, true);
    let d = ctx.recv_data(&[], Event::StopSending);
    assert!(d.close_outbound);
    let step = ctx.poll(batch(vec![stream.close()]), false);
    assert!(step.done);
    assert_eq!(step.calls.len(), 2);
    assert!(matches!(step.calls[0], EngineCall::StopSending));
    assert!(matches!(step.calls[1], EngineCall::ResetStream));
}

#[test]
fn chunks_queued_before_peer_stop_sending_are_sent() {
    let (stream, mut ctx) = Stream::new(0, true);
    let queued = batch(vec![stream.start_send(vec![5])]);
    let _ = ctx.recv_data(&[], Event::StopSending);
    let step = ctx.poll(queued, true);
    assert!(step.done);
    assert!(!step.refused);
    assert_eq!(step.calls.len(), 3);
    assert!(is_write(&step.calls[0], &[5], false));
    assert!(matches!(step.calls[1], EngineCall::StopSending));
    assert!(is_write(&step.calls[2], &[], true));
}

#[test]
fn send_data_forwards_or_refuses() {
    let mut calls = Vec::new();
    let mut ctx = Context::new(2, true);
    assert!(ctx.may_send());
    ctx.send_data(vec![1, 2], &mut calls);
    assert_eq!(calls.len(), 1);
    assert!(is_write(&calls[0], &[1, 2], false));
    let mut receiving = Context::new(2, false);
    assert!(!receiving.may_send());
    receiving.send_data(vec![3], &mut calls);
    assert_eq!(calls.len(), 1);
}

#[test]
fn peer_fin_leaves_local_send_side_open() {
    let (stream, mut ctx) = Stream::new(0, true);
    let d = ctx.recv_data(&[], Event::StreamFin);
    assert!(!d.close_outbound);
    assert!(ctx.may_send());
    let step = ctx.poll(batch(vec![stream.start_send(vec![1]), stream.close()]), false);
    assert!(step.done);
    assert!(!step.refused);
    assert_eq!(step.calls.len(), 3);
    assert!(is_write(&step.calls[0], &[1], false));
    assert!(matches!(step.calls[1], EngineCall::StopSending));
    assert!(is_write(&step.calls[2], &[], true));
}

#[test]
fn local_reset_after_peer_fin_resets() {
    let (stream, mut ctx) = Stream::new(0, true);
    let _ = ctx.recv_data(&[], Event::StreamFin);
    let step = ctx.poll(batch(vec![stream.reset()]), false);
    assert!(!step.done);
    assert_eq!(step.calls.len(), 1);
    assert!(matches!(step.calls[0], EngineCall::ResetStream));
}

#[test]
fn send_data_after_peer_fin_is_written() {
    let mut calls = Vec::new();
    let mut ctx = Context::new(0, true);
    let _ = ctx.recv_data(&[], Event::StreamFin);
    ctx.send_data(vec![7], &mut calls);
    assert_eq!(calls.len(), 1);
    assert!(is_write(&calls[0], &[7], false));
}
