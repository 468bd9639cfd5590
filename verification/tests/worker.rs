use packet_sniffer::capture::{Worker, WorkerAction, WorkerEvent};
use packet_sniffer::data::packet::PacketInfo;

fn frame(data: Vec<u8>, secs: u64, nanos: u32) -> WorkerEvent {
    WorkerEvent::Frame { data, elapsed_secs: secs, elapsed_nanos: nanos }
}

fn sent(action: WorkerAction) -> PacketInfo {
    match action {
        WorkerAction::Send(record) => record,
        other => panic!("expected a record, got {:?}", other),
    }
}

#[test]
fn worker_checks_the_signal_before_it_reads() {
    let mut worker = Worker::new();
    assert_eq!(worker.next_sequence_id, 1);
    assert!(matches!(worker.step(WorkerEvent::Started), WorkerAction::CheckCancellation));
    assert!(matches!(worker.step(WorkerEvent::Checked { cancelled: false }), WorkerAction::ReadFrame));
    assert!(matches!(worker.step(WorkerEvent::TimedOut), WorkerAction::CheckCancellation));
    assert_eq!(worker.next_sequence_id, 1);
}

#[test]
fn worker_ends_when_cancelled() {
    let mut worker = Worker::new();
    assert!(matches!(worker.step(WorkerEvent::Checked { cancelled: true }), WorkerAction::Exit));
}

#[test]
fn worker_ends_when_nobody_listens() {
    let mut worker = Worker::new();
    assert!(matches!(worker.step(WorkerEvent::Sent { delivered: false }), WorkerAction::Exit));
    assert!(matches!(worker.step(WorkerEvent::Sent { delivered: true }), WorkerAction::CheckCancellation));
}

#[test]
fn worker_numbers_frames_from_one() {
    let mut worker = Worker::new();
    let first = sent(worker.step(frame(vec![1, 2, 3], 0, 1_000)));
    let second = sent(worker.step(frame(vec![4, 5], 1, 250_000_000)));
    let third = sent(worker.step(frame(vec![], 2, 0)));
    assert_eq!(first.id, 1);
    assert_eq!(second.id, 2);
    assert_eq!(third.id, 3);
    assert_eq!(worker.next_sequence_id, 4);
    assert_eq!(first.timestamp, "0.000001");
    assert_eq!(second.timestamp, "1.250000");
    assert_eq!(third.timestamp, "2.000000");
    assert_eq!(first.data, vec![1, 2, 3]);
    assert_eq!(first.length, 3);
    assert_eq!(first.protocol, "Unknown");
    assert_eq!(second.data, vec![4, 5]);
    assert_eq!(third.length, 0);
}

#[test]
fn worker_without_numbers_left_ends() {
    let mut worker = Worker { next_sequence_id: usize::MAX };
    assert!(matches!(worker.step(frame(vec![1], 0, 0)), WorkerAction::Exit));
    assert_eq!(worker.next_sequence_id, usize::MAX);
    let mut last = Worker { next_sequence_id: usize::MAX - 1 };
    assert_eq!(sent(last.step(frame(vec![1], 0, 0))).id, usize::MAX - 1);
    assert_eq!(last.next_sequence_id, usize::MAX);
}

#[test]
fn cancelled_worker_makes_no_further_sends() {
    let mut worker = Worker::new();
    let mut sends = 0;
    let mut cancelled = false;
    let mut pending = vec![vec![1u8], vec![2u8], vec![3u8], vec![4u8]];
    pending.reverse();
    let mut action = worker.step(WorkerEvent::Started);
    loop {
        action = match action {
            WorkerAction::Exit => break,
            WorkerAction::CheckCancellation => worker.step(WorkerEvent::Checked { cancelled }),
            WorkerAction::ReadFrame => match pending.pop() {
                Some(data) => worker.step(frame(data, 0, 0)),
                None => panic!("the worker read after the last frame"),
            },
            WorkerAction::Send(_) => {
                sends += 1;
                if sends == 2 {
                    cancelled = true;
                }
                worker.step(WorkerEvent::Sent { delivered: true })
            },
        };
    }
    assert_eq!(sends, 2);
    assert_eq!(pending.len(), 2);
    assert_eq!(worker.next_sequence_id, 3);
}
