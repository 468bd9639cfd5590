//! The capture session as seen from the interactive loop, and the worker
//! that feeds it: what each has to do next after each thing that happened.
//!
//! Neither opens a device nor reads a frame. The driver does that, hands in
//! what happened as an event, and is told what to do next.

use crate::data::packet::{ethernet_layers, parse_packet, record_of, PacketInfo, PacketView};
use crate::text::{decimal_padded, decimal_text, push_decimal_padded};
use vstd::prelude::*;

verus! {

/// Whether the device is opened in promiscuous mode.
pub const PROMISCUOUS: bool = true;

/// The most bytes that are captured of one frame.
pub const SNAPLEN: i32 = 5000;

/// How long a read waits for a frame, in milliseconds. A worker looks at the
/// cancellation signal between reads, so stopping a capture may take this long.
pub const READ_TIMEOUT_MS: i32 = 1000;

/// Where a capture session stands. It is `Capturing` while a worker runs;
/// `Listing`, `Opening` and `Filtering` are the steps of starting one.
#[derive(Debug, Clone, Copy, PartialEq, Eq, Structural)]
pub enum Phase {
    Idle,
    Listing,
    Opening,
    Filtering,
    Capturing,
}

/// Why a capture did not start.
#[derive(Debug, Clone, Copy, PartialEq, Eq, Structural)]
pub enum CaptureError {
    /// No device of the chosen name is among those listed.
    DeviceNotFound,
    /// The devices could not be listed, or the chosen one could not be opened.
    CaptureOpenError,
}

/// What the driver reports back while a capture starts.
#[derive(Debug)]
pub enum CaptureEvent {
    /// The names of the devices, in the order in which they were listed.
    DevicesListed(Vec<String>),
    /// The devices could not be listed; the text says why.
    ListFailed(String),
    /// The device is open.
    Opened,
    /// The device could not be opened; the text says why.
    OpenFailed(String),
    /// The filter is in place.
    FilterInstalled,
    /// The filter did not compile; the text says why.
    FilterRejected(String),
}

/// What the driver has to do next.
#[derive(Debug, Clone, Copy, PartialEq, Eq, Structural)]
pub enum Command {
    /// Nothing.
    Nothing,
    /// List the capture devices and report `DevicesListed` or `ListFailed`.
    ListDevices,
    /// Open the listed device at `index` and report `Opened` or `OpenFailed`.
    OpenDevice { index: usize, promiscuous: bool, snaplen: i32, timeout_ms: i32 },
    /// Install the session's current filter on the open device and report
    /// `FilterInstalled` or `FilterRejected`.
    InstallFilter,
    /// Start the worker on the open device, with a fresh channel.
    SpawnWorker,
    /// Raise the cancellation signal, wait until the worker has ended, and drop
    /// the receiving end of the channel.
    StopWorker,
    /// Take every record that waits in the channel and hand them to the page.
    DrainPackets,
    /// List the devices for the device page.
    LoadDevices,
}

/// The capture offset of a frame as text: the seconds since the session
/// began, with six decimals, rounded to the nearest microsecond.
pub open spec fn offset_text(secs: u64, nanos: u32) -> Seq<char> {
    let micros = secs as int * 1_000_000 + (nanos as int + 500) / 1000;
    decimal_text((micros / 1_000_000) as nat) + seq!['.'] + decimal_padded(
        (micros % 1_000_000) as nat,
        6,
    )
}

/// Writes a capture offset.
pub fn format_offset(secs: u64, nanos: u32) -> (text: String)
    ensures
        text@ == offset_text(secs, nanos),
{
    let rounded: u128 = (nanos as u128 + 500) / 1000;
    let micros: u128 = secs as u128 * 1_000_000 + rounded;
    let mut text = String::new();
    push_decimal_padded(&mut text, micros / 1_000_000, 1);
    text.push('.');
    push_decimal_padded(&mut text, micros % 1_000_000, 6);
    text
}

/// The worker's state: the sequence number that the next frame gets.
#[derive(Debug)]
pub struct Worker {
    pub next_sequence_id: usize,
}

/// What happened to the worker.
#[derive(Debug)]
pub enum WorkerEvent {
    /// The worker has been started.
    Started,
    /// The cancellation signal has been read.
    Checked { cancelled: bool },
    /// The read ended without a frame.
    TimedOut,
    /// A frame arrived, `elapsed_secs` and `elapsed_nanos` after the session began.
    Frame { data: Vec<u8>, elapsed_secs: u64, elapsed_nanos: u32 },
    /// A record went into the channel, or did not because nobody listens.
    Sent { delivered: bool },
}

/// What the worker has to do next.
#[derive(Debug)]
pub enum WorkerAction {
    /// Read the cancellation signal.
    CheckCancellation,
    /// Wait for the next frame, no longer than the read timeout.
    ReadFrame,
    /// Put this record into the channel.
    Send(PacketInfo),
    /// End.
    Exit,
}

/// The mathematical content of a [`WorkerAction`].
pub enum WorkerActionView {
    CheckCancellation,
    ReadFrame,
    Send(PacketView),
    Exit,
}

impl View for WorkerAction {
    type V = WorkerActionView;

    open spec fn view(&self) -> WorkerActionView {
        match self {
            WorkerAction::CheckCancellation => WorkerActionView::CheckCancellation,
            WorkerAction::ReadFrame => WorkerActionView::ReadFrame,
            WorkerAction::Send(record) => WorkerActionView::Send(record@),
            WorkerAction::Exit => WorkerActionView::Exit,
        }
    }
}

/// The record that a worker makes of a frame to which it gives number `id`.
pub open spec fn frame_record(id: usize, data: Seq<u8>, secs: u64, nanos: u32) -> PacketView {
    record_of(id, offset_text(secs, nanos), data, ethernet_layers(data))
}

/// What a worker whose next number is `next` does after `event`. It looks
/// at the cancellation signal before every read and ends when it is raised;
/// it numbers each frame and sends its record; it ends when nobody listens,
/// and when it has no number left to give.
pub open spec fn worker_action(next: usize, event: WorkerEvent) -> WorkerActionView {
    match event {
        WorkerEvent::Started => WorkerActionView::CheckCancellation,
        WorkerEvent::Checked { cancelled } => if cancelled {
            WorkerActionView::Exit
        } else {
            WorkerActionView::ReadFrame
        },
        WorkerEvent::TimedOut => WorkerActionView::CheckCancellation,
        WorkerEvent::Frame { data, elapsed_secs, elapsed_nanos } => if next < usize::MAX {
            WorkerActionView::Send(frame_record(next, data@, elapsed_secs, elapsed_nanos))
        } else {
            WorkerActionView::Exit
        },
        WorkerEvent::Sent { delivered } => if delivered {
            WorkerActionView::CheckCancellation
        } else {
            WorkerActionView::Exit
        },
    }
}

/// The number that the worker gives next, after `event`.
pub open spec fn worker_next(next: usize, event: WorkerEvent) -> int {
    if event is Frame && next < usize::MAX {
        next + 1
    } else {
        next as int
    }
}

impl Worker {
    /// A worker at the start of a session: its first frame gets number 1.
    pub fn new() -> (worker: Self)
        ensures
            worker.next_sequence_id == 1,
    {
        Worker { next_sequence_id: 1 }
    }

    /// Takes in what happened and says what to do next.
    pub fn step(&mut self, event: WorkerEvent) -> (action: WorkerAction)
        ensures
            action@ == worker_action(old(self).next_sequence_id, event),
            final(self).next_sequence_id == worker_next(old(self).next_sequence_id, event),
    {
        match event {
            WorkerEvent::Started => WorkerAction::CheckCancellation,
            WorkerEvent::Checked { cancelled } => {
                if cancelled {
                    WorkerAction::Exit
                } else {
                    WorkerAction::ReadFrame
                }
            },
            WorkerEvent::TimedOut => WorkerAction::CheckCancellation,
            WorkerEvent::Frame { data, elapsed_secs, elapsed_nanos } => {
                if self.next_sequence_id < usize::MAX {
                    let id = self.next_sequence_id;
                    self.next_sequence_id = id + 1;
                    let timestamp = format_offset(elapsed_secs, elapsed_nanos);
                    WorkerAction::Send(parse_packet(id, timestamp, data))
                } else {
                    WorkerAction::Exit
                }
            },
            WorkerEvent::Sent { delivered } => {
                if delivered {
                    WorkerAction::CheckCancellation
                } else {
                    WorkerAction::Exit
                }
            },
        }
    }
}

/// A frame as the worker receives it: its bytes and when it arrived.
pub struct Arrival {
    pub data: Seq<u8>,
    pub elapsed_secs: u64,
    pub elapsed_nanos: u32,
}

/// The records that a worker sends for `frames`, in their order, when the
/// first of them gets number `first`.
pub open spec fn worker_records(first: int, frames: Seq<Arrival>) -> Seq<PacketView>
    decreases frames.len(),
{
    if frames.len() == 0 {
        Seq::empty()
    } else {
        worker_records(first, frames.drop_last()).push(
            frame_record(
                (first + frames.len() - 1) as usize,
                frames.last().data,
                frames.last().elapsed_secs,
                frames.last().elapsed_nanos,
            ),
        )
    }
}

/// A worker that starts a session numbers its records 1, 2, 3 and so on,
/// one record per frame, in the order in which the frames arrive.
pub proof fn lemma_sequence_ids_count_from_one(frames: Seq<Arrival>, i: int)
    requires
        0 <= i < frames.len() < usize::MAX,
    ensures
        worker_records(1, frames).len() == frames.len(),
        worker_records(1, frames)[i].id == i + 1,
        worker_records(1, frames)[i].data == frames[i].data,
    decreases frames.len(),
{
    lemma_worker_records_len(1, frames);
    if i < frames.len() - 1 {
        lemma_worker_records_len(1, frames.drop_last());
        lemma_sequence_ids_count_from_one(frames.drop_last(), i);
    }
}

/// The records of frames are those of the first frames followed by those of
/// the rest, numbered on from where the first left off: to take the records
/// over in several batches changes neither their order nor their numbers.
pub proof fn lemma_worker_records_split(first: int, head: Seq<Arrival>, tail: Seq<Arrival>)
    ensures
        worker_records(first, head + tail) == worker_records(first, head) + worker_records(
            first + head.len(),
            tail,
        ),
    decreases tail.len(),
{
    if tail.len() == 0 {
        assert(head + tail =~= head);
        assert(worker_records(first, head) + Seq::<PacketView>::empty() =~= worker_records(
            first,
            head,
        ));
    } else {
        let all = head + tail;
        assert(all.drop_last() =~= head + tail.drop_last());
        assert(all.last() == tail.last());
        lemma_worker_records_split(first, head, tail.drop_last());
        assert(worker_records(first, all) =~= worker_records(first, head) + worker_records(
            first + head.len(),
            tail,
        ));
    }
}

/// Whether record `i` of the list has number `i + 1`, for every `i`.
pub open spec fn numbered_from_one(packets: Seq<PacketView>) -> bool {
    forall|i: int| 0 <= i < packets.len() ==> (#[trigger] packets[i]).id == i + 1
}

/// In a list that is numbered from one the numbers rise strictly.
pub proof fn lemma_numbers_rise(packets: Seq<PacketView>, i: int, j: int)
    requires
        numbered_from_one(packets),
        0 <= i < j < packets.len(),
    ensures
        packets[i].id < packets[j].id,
{
}

/// A list that is numbered from one stays so when the records of the
/// worker's next frames are added to it. The list of a session that starts is
/// empty, so as long as nothing but the worker's records reaches it, record
/// `i` has number `i + 1`.
pub proof fn lemma_received_records_stay_numbered(packets: Seq<PacketView>, frames: Seq<Arrival>)
    requires
        numbered_from_one(packets),
        packets.len() + frames.len() < usize::MAX,
    ensures
        numbered_from_one(packets + worker_records(packets.len() as int + 1, frames)),
    decreases frames.len(),
{
    lemma_worker_records_len(packets.len() as int + 1, frames);
    if frames.len() > 0 {
        lemma_worker_records_len(packets.len() as int + 1, frames.drop_last());
        lemma_received_records_stay_numbered(packets, frames.drop_last());
        let before = packets + worker_records(packets.len() as int + 1, frames.drop_last());
        let after = packets + worker_records(packets.len() as int + 1, frames);
        assert forall|i: int| 0 <= i < after.len() implies (#[trigger] after[i]).id == i + 1 by {
            if i < after.len() - 1 {
                assert(after[i] == before[i]);
            }
        }
    } else {
        assert(packets + worker_records(packets.len() as int + 1, frames) =~= packets);
    }
}

/// One record comes of each frame.
pub proof fn lemma_worker_records_len(first: int, frames: Seq<Arrival>)
    ensures
        worker_records(first, frames).len() == frames.len(),
    decreases frames.len(),
{
    if frames.len() > 0 {
        lemma_worker_records_len(first, frames.drop_last());
    }
}

/// Once the cancellation signal is seen raised, the worker ends: it reads no
/// frame and sends no record.
pub proof fn lemma_cancelled_worker_exits(next: usize)
    ensures
        worker_action(next, WorkerEvent::Checked { cancelled: true }) == WorkerActionView::Exit,
{
}

} // verus!
