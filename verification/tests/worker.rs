use reqreply::envelope::{handle_envelope, Envelope, Reply};
use reqreply::worker::{
    step, RequestReplyWorker, ServiceError, WorkerAction, WorkerEvent, WorkerState,
};

#[test]
fn identity_reply_for_one_envelope() {
    let env = Envelope { id: 7, payload: 42 };
    let reply = handle_envelope(&env);
    assert_eq!(reply, Reply { id: 7, value: 42 });
}

#[test]
fn fifo_serial_calls_echo_in_order() {
    let mut worker = RequestReplyWorker::new();
    for x in 0..10 {
        let reply = worker.post_message_and_reply(x);
        assert_eq!(reply, Ok(x));
    }
}

#[test]
fn batch_is_served_in_arrival_order() {
    let mut worker = RequestReplyWorker::new();
    let payloads: [i64; 5] = [3, -1, 0, 99, 7];
    for (i, p) in payloads.iter().enumerate() {
        let posted = worker.post_message(Envelope { id: i as u64, payload: *p });
        assert_eq!(posted, Ok(()));
    }
    let replies = worker.serve_all();
    assert_eq!(replies.len(), 5);
    for (i, p) in payloads.iter().enumerate() {
        assert_eq!(replies[i], Reply { id: i as u64, value: *p });
    }
}

#[test]
fn interleaved_producers_each_answered_once() {
    // Two producers' envelopes, serialized by the channel into one
    // interleaving; unique ids show each call is answered exactly once.
    let mut worker = RequestReplyWorker::new();
    let interleaved = [
        Envelope { id: 100, payload: 10 },
        Envelope { id: 200, payload: -20 },
        Envelope { id: 101, payload: 11 },
        Envelope { id: 201, payload: -21 },
        Envelope { id: 102, payload: 12 },
    ];
    for env in interleaved.iter() {
        assert_eq!(worker.post_message(*env), Ok(()));
    }
    let replies = worker.serve_all();
    assert_eq!(replies.len(), interleaved.len());
    for (i, env) in interleaved.iter().enumerate() {
        assert_eq!(replies[i].id, env.id);
        assert_eq!(replies[i].value, env.payload);
    }
    let mut ids: Vec<u64> = replies.iter().map(|r| r.id).collect();
    ids.sort();
    assert_eq!(ids, vec![100, 101, 102, 200, 201]);
}

#[test]
fn serve_next_pops_oldest_first() {
    let mut worker = RequestReplyWorker::new();
    assert_eq!(worker.post_message(Envelope { id: 1, payload: 5 }), Ok(()));
    assert_eq!(worker.post_message(Envelope { id: 2, payload: 6 }), Ok(()));
    assert_eq!(worker.serve_next(), Some(Reply { id: 1, value: 5 }));
    assert_eq!(worker.serve_next(), Some(Reply { id: 2, value: 6 }));
    assert_eq!(worker.serve_next(), None);
}

#[test]
fn post_after_close_is_channel_closed() {
    let mut worker = RequestReplyWorker::new();
    worker.close();
    let posted = worker.post_message(Envelope { id: 0, payload: 1 });
    assert_eq!(posted, Err(ServiceError::ChannelClosed));
    let called = worker.post_message_and_reply(1);
    assert_eq!(called, Err(ServiceError::ChannelClosed));
}

#[test]
fn close_serves_what_is_still_buffered() {
    let mut worker = RequestReplyWorker::new();
    assert_eq!(worker.post_message(Envelope { id: 4, payload: 8 }), Ok(()));
    worker.close();
    // Nothing is left pending and nothing is accepted any more.
    assert_eq!(worker.serve_next(), None);
    assert_eq!(
        worker.post_message(Envelope { id: 5, payload: 9 }),
        Err(ServiceError::ChannelClosed)
    );
}

#[test]
fn lifecycle_reaches_stopped_on_shutdown() {
    let (s, a) = step(WorkerState::Starting, WorkerEvent::Spawned);
    assert_eq!((s, a), (WorkerState::Running, WorkerAction::Continue));
    let (s, a) = step(s, WorkerEvent::Request(Envelope { id: 1, payload: 2 }));
    assert_eq!(s, WorkerState::Running);
    assert_eq!(a, WorkerAction::SendReply(Reply { id: 1, value: 2 }));
    let (s, a) = step(s, WorkerEvent::ChannelClosed);
    assert_eq!((s, a), (WorkerState::Draining, WorkerAction::Exit));
    let (s, a) = step(s, WorkerEvent::Exited);
    assert_eq!((s, a), (WorkerState::Stopped, WorkerAction::Continue));
}

#[test]
fn abandoned_reply_keeps_worker_running() {
    // A failed reply delivery is local to its request: the loop goes on
    // and the next request is still served.
    let (s, a) = step(WorkerState::Running, WorkerEvent::ReplyAbandoned);
    assert_eq!((s, a), (WorkerState::Running, WorkerAction::Continue));
    let (s, a) = step(s, WorkerEvent::Request(Envelope { id: 9, payload: 3 }));
    assert_eq!(s, WorkerState::Running);
    assert_eq!(a, WorkerAction::SendReply(Reply { id: 9, value: 3 }));
}

#[test]
fn empty_batch_serves_nothing() {
    let mut worker = RequestReplyWorker::new();
    let replies = worker.serve_all();
    assert_eq!(replies.len(), 0);
}
