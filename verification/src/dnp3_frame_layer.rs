//! Recovery of link-layer frames from diagnostic text.
//!
//! The protocol engine reports the bytes it sends and receives only as text:
//! prose interleaved with hexadecimal dumps. A frame is recovered by splitting
//! the text into words, keeping the words that read as one byte, and cutting
//! the result at the first start-of-frame marker.

use vstd::prelude::*;
use crate::telemetry::{FrameDirection, LogDirection, LogStore, LogStoreView};
use crate::text::{
    char_hex_digit, char_is_whitespace, chars_contain, chars_occur_at, chars_of, chars_replace,
    contains, hex_digit, is_whitespace, replace_all, starts_with, string_of,
};

verus! {

/// First byte of the start-of-frame marker.
pub const START_1: u8 = 0x05;

/// Second byte of the start-of-frame marker.
pub const START_2: u8 = 0x64;

/// Length of a link-layer header, the least a frame can hold.
pub const MIN_FRAME_LEN: usize = 10;

/// The words of `s`: its maximal runs of characters that are not whitespace,
/// in order.
pub open spec fn words(s: Seq<char>) -> Seq<Seq<char>>
    decreases s.len(),
{
    if s.len() == 0 {
        Seq::empty()
    } else {
        let before = words(s.drop_last());
        let c = s.last();
        if is_whitespace(c) {
            before
        } else if s.len() >= 2 && !is_whitespace(s[s.len() - 2]) {
            before.drop_last().push(before.last().push(c))
        } else {
            before.push(seq![c])
        }
    }
}

/// Punctuation that is removed from both ends of a word.
pub open spec fn is_stripped(c: char) -> bool {
    c == ',' || c == ':' || c == '[' || c == ']'
}

/// Number of stripped characters at the start of `t`.
pub open spec fn leading_stripped(t: Seq<char>) -> nat
    decreases t.len(),
{
    if t.len() > 0 && is_stripped(t[0]) {
        1 + leading_stripped(t.drop_first())
    } else {
        0
    }
}

/// Number of stripped characters at the end of `t`.
pub open spec fn trailing_stripped(t: Seq<char>) -> nat
    decreases t.len(),
{
    if t.len() > 0 && is_stripped(t.last()) {
        1 + trailing_stripped(t.drop_last())
    } else {
        0
    }
}

/// `t` without the stripped characters at its two ends.
pub open spec fn strip_word(t: Seq<char>) -> Seq<char> {
    let lead = leading_stripped(t);
    if lead >= t.len() {
        Seq::empty()
    } else {
        t.subrange(lead as int, t.len() - trailing_stripped(t))
    }
}

/// The byte that a stripped word denotes: two hexadecimal digits, or a plus
/// sign and one hexadecimal digit. Any other word denotes nothing.
pub open spec fn word_byte(t: Seq<char>) -> Option<u8> {
    if t.len() != 2 {
        None
    } else {
        match (hex_digit(t[0]), hex_digit(t[1])) {
            (Some(high), Some(low)) => Some((16 * high + low) as u8),
            (None, Some(low)) => if t[0] == '+' {
                Some(low)
            } else {
                None
            },
            _ => None,
        }
    }
}

/// The bytes denoted by `ws`, in order; words that denote nothing are skipped.
pub open spec fn word_bytes(ws: Seq<Seq<char>>) -> Seq<u8>
    decreases ws.len(),
{
    if ws.len() == 0 {
        Seq::empty()
    } else {
        let before = word_bytes(ws.drop_last());
        match word_byte(strip_word(ws.last())) {
            Some(b) => before.push(b),
            None => before,
        }
    }
}

/// All bytes that can be read out of the message `s`.
pub open spec fn candidate_bytes(s: Seq<char>) -> Seq<u8> {
    word_bytes(words(s))
}

/// Whether the start-of-frame marker stands at position `i` of `bytes`.
pub open spec fn marker_at(bytes: Seq<u8>, i: int) -> bool {
    0 <= i && i + 1 < bytes.len() && bytes[i] == START_1 && bytes[i + 1] == START_2
}

/// Position of the first start-of-frame marker at or after `from`.
pub open spec fn first_marker(bytes: Seq<u8>, from: int) -> Option<int>
    decreases bytes.len() - from,
{
    if from < 0 || from + 1 >= bytes.len() {
        None
    } else if marker_at(bytes, from) {
        Some(from)
    } else {
        first_marker(bytes, from + 1)
    }
}

/// The frame held by `bytes`: everything from the first marker on, provided
/// that this is at least a header long.
pub open spec fn frame_in(bytes: Seq<u8>) -> Option<Seq<u8>> {
    match first_marker(bytes, 0) {
        Some(start) => if bytes.len() - start >= MIN_FRAME_LEN {
            Some(bytes.skip(start))
        } else {
            None
        },
        None => None,
    }
}

/// The frame that the message `s` carries, if any.
pub open spec fn frame_of(s: Seq<char>) -> Option<Seq<u8>> {
    frame_in(candidate_bytes(s))
}

proof fn lemma_leading_stripped(t: Seq<char>, k: int)
    requires
        0 <= k <= t.len(),
        forall|i: int| 0 <= i < k ==> is_stripped(#[trigger] t[i]),
        k == t.len() || !is_stripped(t[k]),
    ensures
        leading_stripped(t) == k,
    decreases k,
{
    if k > 0 {
        let rest = t.drop_first();
        assert forall|i: int| 0 <= i < k - 1 implies is_stripped(#[trigger] rest[i]) by {
            assert(rest[i] == t[i + 1]);
        }
        if k < t.len() {
            assert(rest[k - 1] == t[k]);
        }
        lemma_leading_stripped(rest, k - 1);
    }
}

proof fn lemma_trailing_stripped(t: Seq<char>, k: int)
    requires
        0 <= k <= t.len(),
        forall|i: int| t.len() - k <= i < t.len() ==> is_stripped(#[trigger] t[i]),
        k == t.len() || !is_stripped(t[t.len() - k - 1]),
    ensures
        trailing_stripped(t) == k,
    decreases k,
{
    if k > 0 {
        let rest = t.drop_last();
        assert forall|i: int| rest.len() - (k - 1) <= i < rest.len() implies is_stripped(
            #[trigger] rest[i],
        ) by {
            assert(rest[i] == t[i]);
        }
        if k < t.len() {
            assert(rest[rest.len() - (k - 1) - 1] == t[t.len() - k - 1]);
        }
        lemma_trailing_stripped(rest, k - 1);
    }
}

/// Decides [`is_stripped`].
fn char_is_stripped(c: char) -> (yes: bool)
    ensures
        yes == is_stripped(c),
{
    c == ',' || c == ':' || c == '[' || c == ']'
}

/// Strips one word and reads it as a byte.
fn parse_word(word: &Vec<char>) -> (byte: Option<u8>)
    ensures
        byte == word_byte(strip_word(word@)),
{
    let n = word.len();
    let mut lead: usize = 0;
    while lead < n && char_is_stripped(word[lead])
        invariant
            lead <= n,
            n == word.len(),
            forall|i: int| 0 <= i < lead ==> is_stripped(#[trigger] word@[i]),
        decreases n - lead,
    {
        lead += 1;
    }
    proof {
        lemma_leading_stripped(word@, lead as int);
    }
    if lead == n {
        return None;
    }
    let mut end: usize = n;
    while end > lead + 1 && char_is_stripped(word[end - 1])
        invariant
            lead < end <= n,
            n == word.len(),
            forall|i: int| end <= i < n ==> is_stripped(#[trigger] word@[i]),
        decreases end,
    {
        end -= 1;
    }
    proof {
        lemma_trailing_stripped(word@, n - end);
        assert(strip_word(word@) == word@.subrange(lead as int, end as int));
    }
    if end - lead != 2 {
        return None;
    }
    let first = word[lead];
    let second = word[lead + 1];
    let ghost stripped = strip_word(word@);
    assert(stripped[0] == first && stripped[1] == second);
    match (char_hex_digit(first), char_hex_digit(second)) {
        (Some(high), Some(low)) => Some(16 * high + low),
        (None, Some(low)) => if first == '+' {
            Some(low)
        } else {
            None
        },
        _ => None,
    }
}

/// What a left-to-right scan holds after reading `prefix`: the bytes of the
/// words that have ended, and the word that is still open.
spec fn scanned(prefix: Seq<char>, bytes: Seq<u8>, word: Seq<char>) -> bool {
    let ws = words(prefix);
    if prefix.len() > 0 && !is_whitespace(prefix.last()) {
        &&& ws.len() > 0
        &&& word.len() > 0
        &&& word == ws.last()
        &&& bytes == word_bytes(ws.drop_last())
    } else {
        &&& word.len() == 0
        &&& bytes == word_bytes(ws)
    }
}

/// Reads every byte out of a message.
fn scan_bytes(chars: &Vec<char>) -> (bytes: Vec<u8>)
    ensures
        bytes@ == candidate_bytes(chars@),
{
    let mut bytes: Vec<u8> = Vec::new();
    let mut word: Vec<char> = Vec::new();
    let mut i: usize = 0;
    while i < chars.len()
        invariant
            i <= chars.len(),
            scanned(chars@.take(i as int), bytes@, word@),
        decreases chars.len() - i,
    {
        let c = chars[i];
        let ghost prefix = chars@.take(i as int);
        let ghost next = chars@.take(i + 1);
        proof {
            assert(next.drop_last() == prefix);
            assert(next.last() == c);
            if i > 0 {
                assert(next[next.len() - 2] == prefix.last());
            }
        }
        if char_is_whitespace(c) {
            if word.len() > 0 {
                match parse_word(&word) {
                    Some(b) => bytes.push(b),
                    None => {},
                }
                word = Vec::new();
            }
        } else {
            proof {
                let ws = words(prefix);
                if prefix.len() > 0 && !is_whitespace(prefix.last()) {
                    assert(words(next).drop_last() == ws.drop_last());
                } else {
                    assert(word@.push(c) == seq![c]);
                    assert(words(next).drop_last() == ws);
                }
            }
            word.push(c);
        }
        i += 1;
    }
    proof {
        assert(chars@.take(i as int) == chars@);
    }
    if word.len() > 0 {
        match parse_word(&word) {
            Some(b) => bytes.push(b),
            None => {},
        }
    }
    bytes
}

/// Cuts the frame out of the bytes read from a message.
fn cut_frame(bytes: Vec<u8>) -> (frame: Option<Vec<u8>>)
    ensures
        frame matches Some(v) ==> frame_in(bytes@) == Some(v@),
        frame is None ==> frame_in(bytes@) is None,
{
    let mut rest = bytes;
    let ghost all = rest@;
    let n = rest.len();
    let mut i: usize = 0;
    while n - i >= 2
        invariant
            i <= n,
            n == all.len(),
            rest@ == all,
            all == bytes@,
            first_marker(all, 0) == first_marker(all, i as int),
        decreases n - i,
    {
        if rest[i] == START_1 && rest[i + 1] == START_2 {
            assert(marker_at(all, i as int));
            if n - i >= MIN_FRAME_LEN {
                let tail = rest.split_off(i);
                assert(tail@ == all.skip(i as int));
                return Some(tail);
            } else {
                return None;
            }
        }
        assert(!marker_at(all, i as int));
        i += 1;
    }
    None
}

/// Recovers the raw frame from a diagnostic message: the message is split on
/// whitespace, each word loses the characters `, : [ ]` at its ends, the words
/// that then read as one hexadecimal byte are collected, and the result is cut
/// at the first `05 64`. Nothing is returned when there is no marker or fewer
/// than ten bytes follow from it.
pub fn extract_hex_bytes(msg: &str) -> (frame: Option<Vec<u8>>)
    ensures
        frame matches Some(v) ==> frame_of(msg@) == Some(v@),
        frame is None ==> frame_of(msg@) is None,
{
    let chars = chars_of(msg);
    extract_from_chars(&chars)
}

/// [`extract_hex_bytes`] on a message given by its characters.
fn extract_from_chars(chars: &Vec<char>) -> (frame: Option<Vec<u8>>)
    ensures
        frame matches Some(v) ==> frame_of(chars@) == Some(v@),
        frame is None ==> frame_of(chars@) is None,
{
    let bytes = scan_bytes(chars);
    cut_frame(bytes)
}

/// Every word is a run of characters that are not whitespace, and holds at
/// least one.
pub proof fn lemma_words_are_runs(s: Seq<char>)
    ensures
        forall|k: int|
            0 <= k < words(s).len() ==> {
                let word = #[trigger] words(s)[k];
                &&& word.len() > 0
                &&& forall|i: int| 0 <= i < word.len() ==> !is_whitespace(#[trigger] word[i])
            },
        s.len() > 0 && !is_whitespace(s.last()) ==> words(s).len() > 0 && words(s).last().last()
            == s.last(),
    decreases s.len(),
{
    if s.len() > 0 {
        let before = s.drop_last();
        lemma_words_are_runs(before);
        let c = s.last();
        if !is_whitespace(c) {
            if s.len() >= 2 && !is_whitespace(s[s.len() - 2]) {
                assert(before.last() == s[s.len() - 2]);
                let grown = words(before).last().push(c);
                assert forall|k: int| 0 <= k < words(s).len() implies {
                    let word = #[trigger] words(s)[k];
                    &&& word.len() > 0
                    &&& forall|i: int| 0 <= i < word.len() ==> !is_whitespace(#[trigger] word[i])
                } by {
                    if k < words(s).len() - 1 {
                        assert(words(s)[k] == words(before)[k]);
                    } else {
                        assert(words(s)[k] == grown);
                    }
                }
            } else {
                assert forall|k: int| 0 <= k < words(s).len() implies {
                    let word = #[trigger] words(s)[k];
                    &&& word.len() > 0
                    &&& forall|i: int| 0 <= i < word.len() ==> !is_whitespace(#[trigger] word[i])
                } by {
                    if k < words(s).len() - 1 {
                        assert(words(s)[k] == words(before)[k]);
                    } else {
                        assert(words(s)[k] == seq![c]);
                    }
                }
            }
        }
    }
}

/// A frame that was recovered from a message starts with the marker, is at
/// least a header long, and is the end of what can be read from the message,
/// with no marker before it.
pub proof fn lemma_frame_shape(s: Seq<char>)
    requires
        frame_of(s) is Some,
    ensures
        ({
            let frame = frame_of(s)->0;
            let bytes = candidate_bytes(s);
            let start = bytes.len() - frame.len();
            &&& frame.len() >= MIN_FRAME_LEN
            &&& frame[0] == START_1
            &&& frame[1] == START_2
            &&& 0 <= start
            &&& frame == bytes.skip(start)
            &&& forall|i: int| 0 <= i < start ==> !marker_at(bytes, i)
        }),
{
    let bytes = candidate_bytes(s);
    lemma_first_marker(bytes, 0);
}

/// A message in which no marker can be read carries no frame.
pub proof fn lemma_no_marker_no_frame(s: Seq<char>)
    requires
        forall|i: int| !marker_at(candidate_bytes(s), i),
    ensures
        frame_of(s) is None,
{
    lemma_first_marker(candidate_bytes(s), 0);
}

/// What [`first_marker`] finds is a marker, and the first one from `from` on;
/// it finds none only where there is none.
proof fn lemma_first_marker(bytes: Seq<u8>, from: int)
    requires
        0 <= from,
    ensures
        match first_marker(bytes, from) {
            Some(at) => {
                &&& from <= at
                &&& marker_at(bytes, at)
                &&& forall|i: int| from <= i < at ==> !marker_at(bytes, i)
            },
            None => forall|i: int| from <= i ==> !marker_at(bytes, i),
        },
    decreases bytes.len() - from,
{
    if from + 1 < bytes.len() && !marker_at(bytes, from) {
        lemma_first_marker(bytes, from + 1);
    }
}

/// Severity of a diagnostic event, most severe first.
#[derive(Debug, Clone, Copy, PartialEq, Eq, Structural)]
pub enum Severity {
    Error,
    Warn,
    Info,
    Debug,
    Trace,
}

/// What the tap makes of one diagnostic event.
pub enum EventClass {
    /// The event comes from neither the engine nor the host: not looked at.
    Foreign,
    /// The event carries a frame.
    Frame { data: Seq<u8>, direction: FrameDirection },
    /// The event carries no frame and is worth a log line.
    Important { origin: LogDirection },
    /// The event carries no frame and is not worth a log line.
    Noise,
}

/// What became of one diagnostic event. Each identifier is the one that the
/// event took from the sequence counter of its ring.
#[derive(Debug, Clone, Copy, PartialEq, Eq, Structural)]
pub enum TapOutcome {
    Ignored,
    FrameStored(u64),
    FrameLost(u64),
    LogStored(u64),
    LogLost(u64),
    Discarded,
}

/// Whether an event with this source tag is looked at: the tag names the
/// protocol engine or the host application.
pub open spec fn accepted_source(target: Seq<char>) -> bool {
    starts_with(target, "dnp3"@) || contains(target, "dnp3_tester"@)
}

/// The message with its escaped line feeds, carriage returns and tabs turned
/// into spaces, and its escaped quotes into quotes, in this order.
pub open spec fn unescape(raw: Seq<char>) -> Seq<char> {
    replace_all(
        replace_all(replace_all(replace_all(raw, "\\n"@, " "@), "\\r"@, " "@), "\\t"@, " "@),
        "\\\""@,
        "\""@,
    )
}

/// Whether a cleaned message without a frame is worth a log line: its
/// severity is a warning or worse, or it speaks of the connection.
pub open spec fn is_important(message: Seq<char>, severity: Severity) -> bool {
    ||| severity == Severity::Error
    ||| severity == Severity::Warn
    ||| contains(message, "connected"@)
    ||| contains(message, "refused"@)
    ||| contains(message, "waiting"@)
}

/// The class of an event with the given source tag, raw message and severity.
pub open spec fn classify(target: Seq<char>, raw: Seq<char>, severity: Severity) -> EventClass {
    if !accepted_source(target) {
        EventClass::Foreign
    } else {
        let message = unescape(raw);
        match frame_of(message) {
            Some(data) if data.len() >= 2 => EventClass::Frame {
                data,
                direction: if contains(message, "TX"@) {
                    FrameDirection::Tx
                } else {
                    FrameDirection::Rx
                },
            },
            _ => if is_important(message, severity) {
                EventClass::Important {
                    origin: if severity == Severity::Error {
                        LogDirection::Error
                    } else {
                        LogDirection::System
                    },
                }
            } else {
                EventClass::Noise
            },
        }
    }
}

/// The telemetry store after the tap has seen one event at time `now`.
/// `frames_free` and `logs_free` say whether the writer's slot of each ring
/// could be had without waiting; an event whose ring is busy is lost, and
/// still takes its identifier.
pub open spec fn tap_effect(
    store: LogStoreView,
    target: Seq<char>,
    raw: Seq<char>,
    severity: Severity,
    frames_free: bool,
    logs_free: bool,
    now: i64,
) -> LogStoreView {
    match classify(target, raw, severity) {
        EventClass::Foreign => store,
        EventClass::Noise => store,
        EventClass::Frame { data, direction } => if frames_free {
            store.with_frame(direction, data, now)
        } else {
            store.with_lost_frame()
        },
        EventClass::Important { origin } => if logs_free {
            store.with_log(origin, unescape(raw), 0, now)
        } else {
            store.with_lost_log()
        },
    }
}

/// One event reaches at most one ring: an event that carries a frame is
/// never also logged, and a ring that was left alone has handed out no
/// identifier.
pub proof fn lemma_tap_touches_one_ring(
    store: LogStoreView,
    target: Seq<char>,
    raw: Seq<char>,
    severity: Severity,
    frames_free: bool,
    logs_free: bool,
    now: i64,
)
    ensures
        ({
            let after = tap_effect(store, target, raw, severity, frames_free, logs_free, now);
            &&& after.logs == store.logs || after.frames == store.frames
            &&& classify(target, raw, severity) is Frame ==> after.logs == store.logs
            &&& classify(target, raw, severity) is Important ==> after.frames == store.frames
            &&& (classify(target, raw, severity) is Foreign || classify(target, raw, severity)
                is Noise) ==> after == store
        }),
{
}

/// What the tap reports for one event.
pub open spec fn tap_outcome(
    store: LogStoreView,
    target: Seq<char>,
    raw: Seq<char>,
    severity: Severity,
    frames_free: bool,
    logs_free: bool,
) -> TapOutcome {
    match classify(target, raw, severity) {
        EventClass::Foreign => TapOutcome::Ignored,
        EventClass::Noise => TapOutcome::Discarded,
        EventClass::Frame { .. } => if frames_free {
            TapOutcome::FrameStored(store.frames.next_id)
        } else {
            TapOutcome::FrameLost(store.frames.next_id)
        },
        EventClass::Important { .. } => if logs_free {
            TapOutcome::LogStored(store.logs.next_id)
        } else {
            TapOutcome::LogLost(store.logs.next_id)
        },
    }
}

/// Computes [`unescape`].
fn unescape_chars(raw: &Vec<char>) -> (out: Vec<char>)
    ensures
        out@ == unescape(raw@),
{
    let space = chars_of(" ");
    let first = chars_replace(raw, &chars_of("\\n"), &space);
    let second = chars_replace(&first, &chars_of("\\r"), &space);
    let third = chars_replace(&second, &chars_of("\\t"), &space);
    chars_replace(&third, &chars_of("\\\""), &chars_of("\""))
}

/// Decides [`accepted_source`].
fn source_accepted(target: &str) -> (yes: bool)
    ensures
        yes == accepted_source(target@),
{
    let tag = chars_of(target);
    chars_occur_at(&tag, &chars_of("dnp3"), 0) || chars_contain(&tag, &chars_of("dnp3_tester"))
}

/// Decides [`is_important`].
fn message_important(message: &Vec<char>, severity: Severity) -> (yes: bool)
    ensures
        yes == is_important(message@, severity),
{
    match severity {
        Severity::Error => true,
        Severity::Warn => true,
        _ => chars_contain(message, &chars_of("connected")) || chars_contain(
            message,
            &chars_of("refused"),
        ) || chars_contain(message, &chars_of("waiting")),
    }
}

/// The diagnostic tap: sorts the events of the engine and of the host into
/// frames, log lines and noise, and records the first two.
#[derive(Debug)]
pub struct Dnp3FrameLayer {}

impl Dnp3FrameLayer {
    /// A tap.
    pub fn new() -> (layer: Self) {
        Dnp3FrameLayer {  }
    }

    /// Handles one event at time `now`: an event that carries a frame becomes
    /// a raw frame and nothing else; any other event becomes a log line if it
    /// is important, and is dropped if not.
    pub fn on_event_at(
        &self,
        store: &mut LogStore,
        target: &str,
        message: &str,
        severity: Severity,
        frames_free: bool,
        logs_free: bool,
        now: i64,
    ) -> (outcome: TapOutcome)
        ensures
            final(store)@ == tap_effect(
                old(store)@,
                target@,
                message@,
                severity,
                frames_free,
                logs_free,
                now,
            ),
            outcome == tap_outcome(old(store)@, target@, message@, severity, frames_free, logs_free),
            old(store)@.wf() ==> final(store)@.wf(),
    {
        if !source_accepted(target) {
            return TapOutcome::Ignored;
        }
        let raw = chars_of(message);
        let clean = unescape_chars(&raw);
        match extract_from_chars(&clean) {
            Some(data) => {
                if data.len() >= 2 {
                    let direction = if chars_contain(&clean, &chars_of("TX")) {
                        FrameDirection::Tx
                    } else {
                        FrameDirection::Rx
                    };
                    if frames_free {
                        return TapOutcome::FrameStored(
                            store.capture_raw_frame_at(direction, data, now),
                        );
                    } else {
                        return TapOutcome::FrameLost(store.lose_frame());
                    }
                }
            },
            None => {},
        }
        if !message_important(&clean, severity) {
            return TapOutcome::Discarded;
        }
        let direction = match severity {
            Severity::Error => LogDirection::Error,
            _ => LogDirection::System,
        };
        if logs_free {
            let text = string_of(&clean);
            TapOutcome::LogStored(store.add_log_at(direction, text.as_str(), 0, now))
        } else {
            TapOutcome::LogLost(store.lose_log())
        }
    }

    /// Handles one event at the current time.
    pub fn on_event(
        &self,
        store: &mut LogStore,
        target: &str,
        message: &str,
        severity: Severity,
        frames_free: bool,
        logs_free: bool,
    ) -> (outcome: TapOutcome)
        ensures
            exists|now: i64|
                final(store)@ == tap_effect(
                    old(store)@,
                    target@,
                    message@,
                    severity,
                    frames_free,
                    logs_free,
                    now,
                ),
            outcome == tap_outcome(old(store)@, target@, message@, severity, frames_free, logs_free),
    {
        let now = crate::clock::now_millis();
        self.on_event_at(store, target, message, severity, frames_free, logs_free, now)
    }
}

} // verus!
