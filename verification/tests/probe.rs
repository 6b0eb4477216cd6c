use netgap::ack::{decode, encode, AckStatus, ACK_FAILURE, ACK_SUCCESS};
use netgap::channel::{make_message, AckOutcome, ChannelWorker};
use netgap::config::{ClientOpts, ServerOpts};
use netgap::handler::{ConnectionHandler, HandlerStatus, ReadEvent};
use netgap::metrics::{aggregate, Metrics};

#[test]
fn ack_encode_values() {
    assert_eq!(encode(true), 0xFF);
    assert_eq!(encode(false), 0x00);
    assert_eq!(ACK_SUCCESS, 0xFF);
    assert_eq!(ACK_FAILURE, 0x00);
}

#[test]
fn ack_round_trip() {
    assert_eq!(decode(encode(true)), AckStatus::Success);
    assert_eq!(decode(encode(false)), AckStatus::Failure);
}

#[test]
fn ack_decode_unknown_bytes() {
    assert_eq!(decode(0x01), AckStatus::Unknown);
    assert_eq!(decode(0x7F), AckStatus::Unknown);
    assert_eq!(decode(0xFE), AckStatus::Unknown);
}

#[test]
fn aggregate_of_no_workers_is_zero() {
    let parts: Vec<Metrics> = Vec::new();
    let agg = aggregate(&parts);
    assert_eq!(
        agg,
        Metrics {
            total: 0,
            success: 0,
            failed: 0,
            bytes: 0
        }
    );
}

#[test]
fn aggregate_is_field_wise_sum() {
    let parts = vec![
        Metrics {
            total: 3,
            success: 2,
            failed: 1,
            bytes: 300,
        },
        Metrics {
            total: 5,
            success: 4,
            failed: 0,
            bytes: 500,
        },
        Metrics {
            total: 0,
            success: 0,
            failed: 0,
            bytes: 0,
        },
    ];
    let agg = aggregate(&parts);
    assert_eq!(
        agg,
        Metrics {
            total: 8,
            success: 6,
            failed: 1,
            bytes: 800
        }
    );
}

#[test]
fn handler_acks_each_received_message() {
    let opts = ServerOpts::new();
    assert!(opts.ack);
    let mut h = ConnectionHandler::new(&opts);
    assert!(h.is_running());
    let reply = h.on_read(ReadEvent::Received(996));
    assert_eq!(reply, Some(ACK_SUCCESS));
    assert!(h.is_running());
}

#[test]
fn handler_echo_single_message() {
    let opts = ServerOpts { port: 19000, ack: true };
    let mut h = ConnectionHandler::new(&opts);
    let len: usize = 100;
    let reply = h.on_read(ReadEvent::Received(len));
    assert_eq!(reply, Some(ACK_SUCCESS));
    assert_eq!(decode(reply.unwrap()), AckStatus::Success);
    assert!(h.is_running());
}

#[test]
fn handler_no_ack_mode_never_replies() {
    let opts = ServerOpts { port: 8899, ack: false };
    let mut h = ConnectionHandler::new(&opts);
    for n in 1..50usize {
        let reply = h.on_read(ReadEvent::Received(n));
        assert_eq!(reply, None);
        assert!(h.is_running());
    }
    let reply = h.on_read(ReadEvent::Closed);
    assert_eq!(reply, None);
}

#[test]
fn handler_zero_length_close_is_orderly() {
    let opts = ServerOpts::new();
    let mut h = ConnectionHandler::new(&opts);
    let reply = h.on_read(ReadEvent::Closed);
    assert_eq!(reply, None);
    assert_eq!(h.status, HandlerStatus::PeerClosed);
    assert!(!h.is_running());
}

#[test]
fn handler_read_error_sends_failure_and_closes() {
    let opts = ServerOpts::new();
    let mut h = ConnectionHandler::new(&opts);
    let reply = h.on_read(ReadEvent::Failed);
    assert_eq!(reply, Some(ACK_FAILURE));
    assert_eq!(h.status, HandlerStatus::Errored);
    assert!(!h.is_running());
}

#[test]
fn message_is_zero_filled() {
    let msg = make_message(996);
    assert_eq!(msg.len(), 996);
    assert!(msg.iter().all(|b| *b == 0));
    let empty = make_message(0);
    assert_eq!(empty.len(), 0);
}

#[test]
fn worker_counts_sends_and_acks() {
    let mut w = ChannelWorker::new(3, 10);
    assert!(w.has_next());
    w.record_send();
    w.record_ack(AckOutcome::Byte(0xFF));
    w.record_send();
    w.record_ack(AckOutcome::Byte(0x00));
    w.record_send();
    w.record_ack(AckOutcome::Byte(0xFF));
    assert!(!w.has_next());
    assert_eq!(
        w.metrics,
        Metrics {
            total: 3,
            success: 2,
            failed: 1,
            bytes: 30
        }
    );
}

#[test]
fn worker_unknown_ack_leaves_counters() {
    let mut w = ChannelWorker::new(2, 5);
    w.record_send();
    w.record_ack(AckOutcome::Byte(0x42));
    assert_eq!(
        w.metrics,
        Metrics {
            total: 1,
            success: 0,
            failed: 0,
            bytes: 5
        }
    );
}

#[test]
fn worker_read_failure_leaves_counters() {
    let mut w = ChannelWorker::new(2, 5);
    w.record_send();
    w.record_ack(AckOutcome::ReadFailed);
    assert_eq!(
        w.metrics,
        Metrics {
            total: 1,
            success: 0,
            failed: 0,
            bytes: 5
        }
    );
    assert_ne!(w.metrics.total, w.metrics.success + w.metrics.failed);
}

#[test]
fn worker_zero_share_sends_nothing() {
    let w = ChannelWorker::new(0, 996);
    assert!(!w.has_next());
    assert_eq!(
        w.metrics,
        Metrics {
            total: 0,
            success: 0,
            failed: 0,
            bytes: 0
        }
    );
}

#[test]
fn share_per_channel_drops_remainder() {
    let mut opts = ClientOpts::new(String::from("127.0.0.1"));
    opts.msg_total = 20;
    opts.channels = 2;
    assert_eq!(opts.share_per_channel(), 10);
    opts.msg_total = 10;
    opts.channels = 3;
    assert_eq!(opts.share_per_channel(), 3);
}

#[test]
fn default_options() {
    let s = ServerOpts::new();
    assert_eq!(s.port, 8899);
    assert!(s.ack);
    let c = ClientOpts::new(String::from("example.org"));
    assert_eq!(c.host, "example.org");
    assert_eq!(c.port, 8899);
    assert_eq!(c.channels, 1);
    assert_eq!(c.msg_total, 10);
    assert_eq!(c.msg_length, 996);
    assert_eq!(c.msg_interval_ms, 1000);
    assert_eq!(c.read_timeout, 1000);
}

// Both channels of a two-channel run succeed on every message: the
// aggregate reports every attempt acknowledged and every byte counted.
#[test]
fn two_channel_run_all_success() {
    let mut opts = ClientOpts::new(String::from("127.0.0.1"));
    opts.port = 19000;
    opts.channels = 2;
    opts.msg_total = 20;
    opts.msg_length = 100;
    opts.msg_interval_ms = 0;
    opts.read_timeout = 500;

    let share = opts.share_per_channel();
    assert_eq!(share, 10);

    let server = ServerOpts { port: 19000, ack: true };
    let mut parts: Vec<Metrics> = Vec::new();
    for _ in 0..opts.channels {
        let mut w = ChannelWorker::new(share, opts.msg_length);
        let mut h = ConnectionHandler::new(&server);
        while w.has_next() {
            w.record_send();
            let reply = h.on_read(ReadEvent::Received(opts.msg_length));
            match reply {
                Some(byte) => w.record_ack(AckOutcome::Byte(byte)),
                None => w.record_ack(AckOutcome::ReadFailed),
            }
        }
        parts.push(w.metrics);
    }
    let agg = aggregate(&parts);
    assert_eq!(
        agg,
        Metrics {
            total: 20,
            success: 20,
            failed: 0,
            bytes: 2000
        }
    );
}

// No server is listening: every channel's connection attempt fails, each
// contributes zero-valued metrics, and the aggregate is all zeros.
#[test]
fn failed_connections_aggregate_to_zero() {
    let channels: usize = 2;
    let mut parts: Vec<Metrics> = Vec::new();
    for _ in 0..channels {
        parts.push(Metrics::new());
    }
    let agg = aggregate(&parts);
    assert_eq!(
        agg,
        Metrics {
            total: 0,
            success: 0,
            failed: 0,
            bytes: 0
        }
    );
}
