//! Incremental tailing of the append-only chat log.
//!
//! A single byte cursor marks how much of the file has been consumed.
//! On every modification the observed file size decides whether the
//! cursor resets (truncation), stays (nothing new), or a read is due;
//! freshly read bytes are split into lines, decoded lossily, and
//! classified into events.

use crate::parse::{
    parse_trade_message, parse_trade_spec, parse_whisper, parse_whisper_spec, TradeFields,
    TradeMessageEvent, WhisperEvent, WhisperFields,
};
use vstd::prelude::*;
use vstd::string::*;

verus! {

/// One record pushed to the event bus by the tailer.
#[derive(Clone, Debug)]
pub enum ChatEvent {
    Trade(TradeMessageEvent),
    Whisper(WhisperEvent),
}

/// Mathematical image of a `ChatEvent`.
pub enum ChatEventFields {
    Trade(TradeFields),
    Whisper(WhisperFields),
}

impl View for ChatEvent {
    type V = ChatEventFields;

    open spec fn view(&self) -> ChatEventFields {
        match self {
            ChatEvent::Trade(t) => ChatEventFields::Trade(t@),
            ChatEvent::Whisper(w) => ChatEventFields::Whisper(w@),
        }
    }
}

/// What `String::from_utf8_lossy` returns on the given bytes.
pub uninterp spec fn lossy_utf8(b: Seq<u8>) -> Seq<char>;

/// Relies on `String::from_utf8_lossy`: the decoding is a function of
/// the bytes alone, and ASCII bytes decode to themselves.
#[verifier::external_body]
fn utf8_lossy(b: &Vec<u8>) -> (r: String)
    ensures
        r@ == lossy_utf8(b@),
        (forall|i: int| 0 <= i < b@.len() ==> b@[i] < 128) ==> r@ == Seq::new(
            b@.len(),
            |i: int| b@[i] as char,
        ),
{
    String::from_utf8_lossy(b).into_owned()
}

/// Length of the first line of `b`, its terminating newline included;
/// all of `b` when no newline occurs.
pub open spec fn line_break(b: Seq<u8>) -> int
    decreases b.len(),
{
    if b.len() == 0 {
        0
    } else if b[0] == 10 {
        1
    } else {
        1 + line_break(b.drop_first())
    }
}

proof fn lemma_line_break_bounds(b: Seq<u8>)
    ensures
        0 <= line_break(b) <= b.len(),
        b.len() > 0 ==> 1 <= line_break(b),
    decreases b.len(),
{
    if b.len() > 0 && b[0] != 10 {
        lemma_line_break_bounds(b.drop_first());
    }
}

proof fn lemma_line_break_newline(b: Seq<u8>, j: int)
    requires
        0 <= j < b.len(),
        forall|k: int| 0 <= k < j ==> b[k] != 10,
        b[j] == 10,
    ensures
        line_break(b) == j + 1,
    decreases j,
{
    if j > 0 {
        lemma_line_break_newline(b.drop_first(), j - 1);
    }
}

proof fn lemma_line_break_none(b: Seq<u8>)
    requires
        b.len() > 0,
        forall|k: int| 0 <= k < b.len() ==> b[k] != 10,
    ensures
        line_break(b) == b.len(),
    decreases b.len(),
{
    if b.len() > 1 {
        lemma_line_break_none(b.drop_first());
    } else {
        assert(line_break(b.drop_first()) == 0);
    }
}

/// The events one decoded line yields: a trade message first when the
/// line is a trade whisper, then a whisper or join event.
pub open spec fn line_events_spec(line: Seq<char>) -> Seq<ChatEventFields> {
    let t: Seq<ChatEventFields> = match parse_trade_spec(line) {
        Some(tf) => seq![ChatEventFields::Trade(tf)],
        None => Seq::empty(),
    };
    let w: Seq<ChatEventFields> = match parse_whisper_spec(line) {
        Some(wf) => seq![ChatEventFields::Whisper(wf)],
        None => Seq::empty(),
    };
    t + w
}

/// The events a chunk of freshly read bytes yields, line by line.
pub open spec fn chunk_events_spec(b: Seq<u8>) -> Seq<ChatEventFields>
    decreases b.len(),
    via chunk_events_dec
{
    if b.len() == 0 {
        Seq::empty()
    } else {
        line_events_spec(lossy_utf8(b.subrange(0, line_break(b)))) + chunk_events_spec(
            b.skip(line_break(b)),
        )
    }
}

#[via_fn]
proof fn chunk_events_dec(b: Seq<u8>) {
    if b.len() > 0 {
        lemma_line_break_bounds(b);
    }
}

/// View of a sequence of events.
pub open spec fn events_view(s: Seq<ChatEvent>) -> Seq<ChatEventFields> {
    s.map(|i: int, e: ChatEvent| e@)
}

/// Splits freshly read bytes into lines (newline kept), decodes each
/// line lossily, classifies it, and returns the events in order:
/// for each line its trade message, if any, then its whisper or join
/// event, if any.
pub fn process_chunk(data: &Vec<u8>) -> (events: Vec<ChatEvent>)
    ensures
        events_view(events@) == chunk_events_spec(data@),
{
    let n = data.len();
    let mut pos: usize = 0;
    let mut events: Vec<ChatEvent> = Vec::new();
    proof {
        assert(data@.skip(0) =~= data@);
        assert(events_view(events@) + chunk_events_spec(data@) =~= chunk_events_spec(data@));
    }
    while pos < n
        invariant
            pos <= n,
            n == data@.len(),
            chunk_events_spec(data@) == events_view(events@) + chunk_events_spec(
                data@.skip(pos as int),
            ),
        decreases n - pos,
    {
        let ghost rest = data@.skip(pos as int);
        let ghost events_before = events@;
        let mut j: usize = pos;
        while j < n && data[j] != 10u8
            invariant
                pos <= j <= n,
                n == data@.len(),
                forall|k: int| pos <= k < j ==> data@[k] != 10,
            decreases n - j,
        {
            j += 1;
        }
        let line_end = if j < n {
            j + 1
        } else {
            j
        };
        proof {
            if j < n {
                lemma_line_break_newline(rest, j - pos);
            } else {
                lemma_line_break_none(rest);
            }
            assert(line_break(rest) == line_end - pos);
        }
        let mut lineb: Vec<u8> = Vec::new();
        let mut k: usize = pos;
        while k < line_end
            invariant
                pos <= k <= line_end,
                line_end <= n,
                n == data@.len(),
                lineb@ =~= data@.subrange(pos as int, k as int),
            decreases line_end - k,
        {
            lineb.push(data[k]);
            k += 1;
        }
        proof {
            assert(lineb@ =~= rest.subrange(0, line_break(rest)));
        }
        let s = utf8_lossy(&lineb);
        match parse_trade_message(s.as_str()) {
            Some(t) => events.push(ChatEvent::Trade(t)),
            None => {},
        }
        match parse_whisper(s.as_str()) {
            Some(w) => events.push(ChatEvent::Whisper(w)),
            None => {},
        }
        proof {
            assert(events_view(events@) =~= events_view(events_before) + line_events_spec(s@));
            assert(rest.skip(line_break(rest)) =~= data@.skip(line_end as int));
            assert(chunk_events_spec(rest) == line_events_spec(lossy_utf8(lineb@))
                + chunk_events_spec(data@.skip(line_end as int)));
            assert(events_view(events_before) + (line_events_spec(s@) + chunk_events_spec(
                data@.skip(line_end as int),
            )) =~= (events_view(events_before) + line_events_spec(s@)) + chunk_events_spec(
                data@.skip(line_end as int),
            ));
        }
        pos = line_end;
    }
    proof {
        assert(data@.skip(pos as int) =~= Seq::<u8>::empty());
        assert(events_view(events@) + Seq::<ChatEventFields>::empty() =~= events_view(events@));
    }
    events
}

/// The byte cursor into the active chat log.
///
/// The cursor only moves backwards when the file is observed smaller
/// than the cursor (truncation), and then snaps to the new size with
/// no events emitted for the gap.
pub struct ChatTailer {
    pub cursor: u64,
}

impl ChatTailer {
    /// A tailer that has consumed nothing.
    pub fn new() -> (t: ChatTailer)
        ensures
            t.cursor == 0,
    {
        ChatTailer { cursor: 0 }
    }

    /// Positions the cursor at the current end of file when watching
    /// starts: history is never replayed.
    pub fn begin(&mut self, end_of_file: u64)
        ensures
            final(self).cursor == end_of_file,
    {
        self.cursor = end_of_file;
    }

    /// Decides one tail invocation from the observed file size.
    ///
    /// Returns the position to read from, or nothing when no read is
    /// due: on truncation (size below the cursor) the cursor snaps to
    /// the new size and zero events are emitted for that invocation;
    /// an empty file resets the cursor; an unchanged or already
    /// consumed file is a no-op.
    pub fn observe(&mut self, file_size: u64) -> (read_from: Option<u64>)
        ensures
            final(self).cursor == if file_size < old(self).cursor {
                file_size
            } else {
                old(self).cursor
            },
            read_from == if old(self).cursor < file_size {
                Some(old(self).cursor)
            } else {
                None::<u64>
            },
            file_size < old(self).cursor ==> final(self).cursor == file_size && read_from is None,
    {
        if file_size < self.cursor {
            self.cursor = file_size;
            return None;
        }
        if file_size == 0 {
            self.cursor = 0;
            return None;
        }
        if self.cursor >= file_size {
            return None;
        }
        Some(self.cursor)
    }

    /// Advances the cursor to the position actually reached by the
    /// read, regardless of how the read lines classified. A read
    /// ends at or past the position it started from, so the cursor
    /// never moves backwards here — only a truncation observed by
    /// `observe` can lower it.
    pub fn advance(&mut self, position: u64)
        requires
            position >= old(self).cursor,
        ensures
            final(self).cursor == position,
    {
        self.cursor = position;
    }
}

} // verus!
