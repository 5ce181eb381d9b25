//! The telemetry store: structured log entries and raw frames, each kept in
//! a bounded ring with its own sequence counter.

use vstd::prelude::*;
use crate::clock::now_millis;
use crate::ring::{RingBuffer, RingView};

verus! {

/// Most log entries that are kept.
pub const LOG_CAPACITY: usize = 1000;

/// Most raw frames that are kept.
pub const FRAME_CAPACITY: usize = 500;

/// Direction or origin of a log entry.
#[derive(Debug, Clone, Copy, PartialEq, Eq, Structural)]
pub enum LogDirection {
    Tx,
    Rx,
    System,
    Error,
}

/// Direction of a captured frame.
#[derive(Debug, Clone, Copy, PartialEq, Eq, Structural)]
pub enum FrameDirection {
    Tx,
    Rx,
}

impl LogDirection {
    /// The direction as it is shown to the operator.
    pub open spec fn label_text(self) -> Seq<char> {
        match self {
            LogDirection::Tx => "TX"@,
            LogDirection::Rx => "RX"@,
            LogDirection::System => "System"@,
            LogDirection::Error => "Error"@,
        }
    }

    /// The direction as it is shown to the operator.
    pub fn label(self) -> (text: &'static str)
        ensures
            text@ == self.label_text(),
    {
        match self {
            LogDirection::Tx => "TX",
            LogDirection::Rx => "RX",
            LogDirection::System => "System",
            LogDirection::Error => "Error",
        }
    }
}

impl FrameDirection {
    /// The direction as it is shown to the operator.
    pub open spec fn label_text(self) -> Seq<char> {
        match self {
            FrameDirection::Tx => "TX"@,
            FrameDirection::Rx => "RX"@,
        }
    }

    /// The direction as it is shown to the operator.
    pub fn label(self) -> (text: &'static str)
        ensures
            text@ == self.label_text(),
    {
        match self {
            FrameDirection::Tx => "TX",
            FrameDirection::Rx => "RX",
        }
    }
}

/// One line of the protocol log. `timestamp` is in milliseconds since the
/// Unix epoch.
#[derive(Debug)]
pub struct ProtocolLogEntry {
    pub id: u64,
    pub timestamp: i64,
    pub direction: LogDirection,
    pub message: String,
    pub transaction_id: u32,
}

/// Mathematical model of a [`ProtocolLogEntry`].
pub struct ProtocolLogEntryView {
    pub id: u64,
    pub timestamp: i64,
    pub direction: LogDirection,
    pub message: Seq<char>,
    pub transaction_id: u32,
}

impl View for ProtocolLogEntry {
    type V = ProtocolLogEntryView;

    open spec fn view(&self) -> ProtocolLogEntryView {
        ProtocolLogEntryView {
            id: self.id,
            timestamp: self.timestamp,
            direction: self.direction,
            message: self.message@,
            transaction_id: self.transaction_id,
        }
    }
}

impl Clone for ProtocolLogEntry {
    fn clone(&self) -> (copy: Self)
        ensures
            copy@ == self@,
    {
        ProtocolLogEntry {
            id: self.id,
            timestamp: self.timestamp,
            direction: self.direction,
            message: self.message.clone(),
            transaction_id: self.transaction_id,
        }
    }
}

/// One captured link-layer frame. `timestamp` is in milliseconds since the
/// Unix epoch.
#[derive(Debug)]
pub struct RawFrame {
    pub id: u64,
    pub timestamp: i64,
    pub direction: FrameDirection,
    pub data: Vec<u8>,
}

/// Mathematical model of a [`RawFrame`].
pub struct RawFrameView {
    pub id: u64,
    pub timestamp: i64,
    pub direction: FrameDirection,
    pub data: Seq<u8>,
}

impl View for RawFrame {
    type V = RawFrameView;

    open spec fn view(&self) -> RawFrameView {
        RawFrameView {
            id: self.id,
            timestamp: self.timestamp,
            direction: self.direction,
            data: self.data@,
        }
    }
}

impl Clone for RawFrame {
    fn clone(&self) -> (copy: Self)
        ensures
            copy@ == self@,
    {
        let data = self.data.clone();
        assert(data@ =~= self.data@);
        RawFrame { id: self.id, timestamp: self.timestamp, direction: self.direction, data }
    }
}

/// The model of a ring of log entries.
pub open spec fn log_ring_view(ring: RingView<ProtocolLogEntry>) -> RingView<ProtocolLogEntryView> {
    RingView {
        entries: ring.entries.map_values(|e: ProtocolLogEntry| e@),
        capacity: ring.capacity,
        next_id: ring.next_id,
    }
}

/// The model of a ring of frames.
pub open spec fn frame_ring_view(ring: RingView<RawFrame>) -> RingView<RawFrameView> {
    RingView {
        entries: ring.entries.map_values(|e: RawFrame| e@),
        capacity: ring.capacity,
        next_id: ring.next_id,
    }
}

/// Mathematical model of a [`LogStore`].
pub struct LogStoreView {
    pub logs: RingView<ProtocolLogEntryView>,
    pub frames: RingView<RawFrameView>,
}

impl LogStoreView {
    /// The store of a process that has recorded nothing yet.
    pub open spec fn empty() -> LogStoreView {
        LogStoreView {
            logs: RingView { entries: Seq::empty(), capacity: LOG_CAPACITY as nat, next_id: 0 },
            frames: RingView { entries: Seq::empty(), capacity: FRAME_CAPACITY as nat, next_id: 0 },
        }
    }

    /// Both rings are within their capacity.
    pub open spec fn wf(self) -> bool {
        self.logs.wf() && self.frames.wf()
    }

    /// The store after a log line was recorded: the line takes the next log
    /// identifier and becomes the newest entry.
    pub open spec fn with_log(
        self,
        direction: LogDirection,
        message: Seq<char>,
        transaction_id: u32,
        now: i64,
    ) -> LogStoreView {
        LogStoreView {
            logs: self.logs.reserve().insert(
                ProtocolLogEntryView {
                    id: self.logs.next_id,
                    timestamp: now,
                    direction,
                    message,
                    transaction_id,
                },
            ),
            ..self
        }
    }

    /// The store after a log line was lost to a busy writer: its identifier
    /// is spent, nothing is stored.
    pub open spec fn with_lost_log(self) -> LogStoreView {
        LogStoreView { logs: self.logs.reserve(), ..self }
    }

    /// The store after a frame was recorded: the frame takes the next frame
    /// identifier and becomes the newest entry.
    pub open spec fn with_frame(
        self,
        direction: FrameDirection,
        data: Seq<u8>,
        now: i64,
    ) -> LogStoreView {
        LogStoreView {
            frames: self.frames.reserve().insert(
                RawFrameView { id: self.frames.next_id, timestamp: now, direction, data },
            ),
            ..self
        }
    }

    /// The store after a frame was lost to a busy writer: its identifier is
    /// spent, nothing is stored.
    pub open spec fn with_lost_frame(self) -> LogStoreView {
        LogStoreView { frames: self.frames.reserve(), ..self }
    }
}

/// Whether the identifiers of the log lines held increase from the oldest to
/// the newest, all below the counter.
pub open spec fn log_ids_increase(ring: RingView<ProtocolLogEntryView>) -> bool {
    &&& forall|i: int, j: int|
        0 <= i < j < ring.entries.len() ==> (#[trigger] ring.entries[i]).id < (
        #[trigger] ring.entries[j]).id
    &&& forall|i: int|
        0 <= i < ring.entries.len() ==> (#[trigger] ring.entries[i]).id < ring.next_id
}

/// Whether the identifiers of the frames held increase from the oldest to the
/// newest, all below the counter.
pub open spec fn frame_ids_increase(ring: RingView<RawFrameView>) -> bool {
    &&& forall|i: int, j: int|
        0 <= i < j < ring.entries.len() ==> (#[trigger] ring.entries[i]).id < (
        #[trigger] ring.entries[j]).id
    &&& forall|i: int|
        0 <= i < ring.entries.len() ==> (#[trigger] ring.entries[i]).id < ring.next_id
}

/// Short of a wrap of the counter, the log lines held carry increasing
/// identifiers, whether a line is stored or lost: no identifier is held
/// twice.
pub proof fn lemma_log_ids_stay_increasing(
    store: LogStoreView,
    direction: LogDirection,
    message: Seq<char>,
    transaction_id: u32,
    now: i64,
)
    requires
        log_ids_increase(store.logs),
        store.logs.next_id < u64::MAX,
    ensures
        log_ids_increase(store.with_log(direction, message, transaction_id, now).logs),
        log_ids_increase(store.with_lost_log().logs),
        store.with_log(direction, message, transaction_id, now).logs.entries.last().id
            == store.logs.next_id,
{
}

/// Short of a wrap of the counter, the frames held carry increasing
/// identifiers, whether a frame is stored or lost: no identifier is held
/// twice.
pub proof fn lemma_frame_ids_stay_increasing(
    store: LogStoreView,
    direction: FrameDirection,
    data: Seq<u8>,
    now: i64,
)
    requires
        frame_ids_increase(store.frames),
        store.frames.next_id < u64::MAX,
    ensures
        frame_ids_increase(store.with_frame(direction, data, now).frames),
        frame_ids_increase(store.with_lost_frame().frames),
        store.with_frame(direction, data, now).frames.entries.last().id == store.frames.next_id,
{
}

/// Process-wide telemetry, shared by every session.
pub struct LogStore {
    pub logs: RingBuffer<ProtocolLogEntry>,
    pub raw_frames: RingBuffer<RawFrame>,
}

impl View for LogStore {
    type V = LogStoreView;

    open spec fn view(&self) -> LogStoreView {
        LogStoreView { logs: log_ring_view(self.logs@), frames: frame_ring_view(self.raw_frames@) }
    }
}

impl LogStore {
    /// An empty store: room for a thousand log lines and five hundred frames.
    pub fn new() -> (store: Self)
        ensures
            store@ == LogStoreView::empty(),
            store@.wf(),
    {
        let store = LogStore {
            logs: RingBuffer::new(LOG_CAPACITY),
            raw_frames: RingBuffer::new(FRAME_CAPACITY),
        };
        assert(store@.logs.entries =~= Seq::empty());
        assert(store@.frames.entries =~= Seq::empty());
        store
    }

    /// Records a log line at time `now` and returns its identifier.
    pub fn add_log_at(
        &mut self,
        direction: LogDirection,
        message: &str,
        transaction_id: u32,
        now: i64,
    ) -> (id: u64)
        ensures
            id == old(self)@.logs.next_id,
            final(self)@ == old(self)@.with_log(direction, message@, transaction_id, now),
            old(self)@.wf() ==> final(self)@.wf(),
    {
        let id = self.logs.reserve_id();
        let entry = ProtocolLogEntry {
            id,
            timestamp: now,
            direction,
            message: message.to_owned(),
            transaction_id,
        };
        self.logs.insert(entry);
        assert(self@.logs.entries =~= old(self)@.with_log(
            direction,
            message@,
            transaction_id,
            now,
        ).logs.entries);
        id
    }

    /// Records a log line at the current time and returns its identifier.
    pub fn add_log(&mut self, direction: LogDirection, message: &str, transaction_id: u32) -> (id: u64)
        ensures
            id == old(self)@.logs.next_id,
            exists|now: i64|
                final(self)@ == old(self)@.with_log(direction, message@, transaction_id, now),
            old(self)@.wf() ==> final(self)@.wf(),
    {
        let now = now_millis();
        self.add_log_at(direction, message, transaction_id, now)
    }

    /// Spends a log identifier for a line that could not be written.
    pub fn lose_log(&mut self) -> (id: u64)
        ensures
            id == old(self)@.logs.next_id,
            final(self)@ == old(self)@.with_lost_log(),
            old(self)@.wf() ==> final(self)@.wf(),
    {
        self.logs.reserve_id()
    }

    /// Records a frame at time `now` and returns its identifier.
    pub fn capture_raw_frame_at(&mut self, direction: FrameDirection, data: Vec<u8>, now: i64) -> (id:
        u64)
        ensures
            id == old(self)@.frames.next_id,
            final(self)@ == old(self)@.with_frame(direction, data@, now),
            old(self)@.wf() ==> final(self)@.wf(),
    {
        let id = self.raw_frames.reserve_id();
        let ghost bytes = data@;
        let frame = RawFrame { id, timestamp: now, direction, data };
        self.raw_frames.insert(frame);
        assert(self@.frames.entries =~= old(self)@.with_frame(direction, bytes, now).frames.entries);
        id
    }

    /// Records a frame at the current time and returns its identifier.
    pub fn capture_raw_frame(&mut self, direction: FrameDirection, data: Vec<u8>) -> (id: u64)
        ensures
            id == old(self)@.frames.next_id,
            exists|now: i64| final(self)@ == old(self)@.with_frame(direction, data@, now),
            old(self)@.wf() ==> final(self)@.wf(),
    {
        let now = now_millis();
        self.capture_raw_frame_at(direction, data, now)
    }

    /// Spends a frame identifier for a frame that could not be written.
    pub fn lose_frame(&mut self) -> (id: u64)
        ensures
            id == old(self)@.frames.next_id,
            final(self)@ == old(self)@.with_lost_frame(),
            old(self)@.wf() ==> final(self)@.wf(),
    {
        self.raw_frames.reserve_id()
    }

    /// A copy of every log line held, oldest first.
    pub fn get_logs(&self) -> (lines: Vec<ProtocolLogEntry>)
        ensures
            lines@.map_values(|e: ProtocolLogEntry| e@) == self@.logs.entries,
    {
        let mut lines: Vec<ProtocolLogEntry> = Vec::new();
        let n = self.logs.len();
        let mut i: usize = 0;
        while i < n
            invariant
                i <= n,
                n == self.logs@.entries.len(),
                lines@.len() == i,
                forall|k: int| 0 <= k < i ==> (#[trigger] lines@[k])@ == self.logs@.entries[k]@,
            decreases n - i,
        {
            lines.push(self.logs.get(i).clone());
            i += 1;
        }
        assert(lines@.map_values(|e: ProtocolLogEntry| e@) =~= self@.logs.entries);
        lines
    }

    /// A copy of every frame held, oldest first.
    pub fn get_frames(&self) -> (frames: Vec<RawFrame>)
        ensures
            frames@.map_values(|e: RawFrame| e@) == self@.frames.entries,
    {
        let mut frames: Vec<RawFrame> = Vec::new();
        let n = self.raw_frames.len();
        let mut i: usize = 0;
        while i < n
            invariant
                i <= n,
                n == self.raw_frames@.entries.len(),
                frames@.len() == i,
                forall|k: int| 0 <= k < i ==> (#[trigger] frames@[k])@ == self.raw_frames@.entries[k]@,
            decreases n - i,
        {
            frames.push(self.raw_frames.get(i).clone());
            i += 1;
        }
        assert(frames@.map_values(|e: RawFrame| e@) =~= self@.frames.entries);
        frames
    }
}

} // verus!
