//! Turning the raw bytes read from the event socket into events: chunks are
//! joined into lines, whatever boundaries the reads fell on, and every whole
//! line is decoded in the order it arrived.
use vstd::prelude::*;
use vstd::utf8::{decode_utf8, valid_utf8};

use crate::codec::{
    decode_line, lemma_no_delimiter_is_malformed, name_unknown, parse_event, parse_event_noting,
    ParseError,
};
use crate::events::{EventModel, HyprlandEvent};
use crate::filter::{EventFilter, FilterView};
use crate::text::{lemma_split_on_nonempty, split_on};

verus! {

/// Room for this many events is kept for each consumer of a listener; one
/// that falls further behind misses the oldest.
pub const EVENT_CHANNEL_CAPACITY: usize = 64;

/// How long a listener waits after a read that failed, or found nothing
/// ready, before it waits for the socket again.
pub const READ_RETRY_MILLIS: u64 = 100;

/// The newline byte that ends each line of the event protocol.
pub const NEWLINE: u8 = 10;

/// Relies on `std::str::from_utf8`: it accepts exactly the valid UTF-8 byte
/// sequences and reads them as their characters.
#[verifier::external_body]
fn utf8_str(b: &[u8]) -> (r: Option<&str>)
    ensures
        r matches Some(s) ==> valid_utf8(b@) && s@ == decode_utf8(b@),
        r is None ==> !valid_utf8(b@),
{
    std::str::from_utf8(b).ok()
}

/// What decoding one line of bytes gives: a line that is not UTF-8 is malformed.
pub open spec fn decode_bytes(line: Seq<u8>, filter: FilterView) -> Result<EventModel, ParseError> {
    if valid_utf8(line) {
        decode_line(decode_utf8(line), filter)
    } else {
        Err(ParseError::MalformedEvent)
    }
}

/// Decodes one line, given as bytes without its newline, through `filter`.
pub fn parse_event_bytes(line: &[u8], filter: &EventFilter) -> (r: Result<HyprlandEvent, ParseError>)
    ensures
        r matches Ok(e) ==> decode_bytes(line@, filter@) == Ok::<EventModel, ParseError>(e@),
        r matches Err(x) ==> decode_bytes(line@, filter@) == Err::<EventModel, ParseError>(x),
{
    match utf8_str(line) {
        None => Err(ParseError::MalformedEvent),
        Some(s) => parse_event(s, filter),
    }
}

/// Whether `line` is UTF-8 with a name that is no known kind.
pub open spec fn bytes_name_unknown(line: Seq<u8>) -> bool {
    valid_utf8(line) && name_unknown(decode_utf8(line))
}

fn parse_bytes_noting(line: &[u8], filter: &EventFilter) -> (r: (
    Result<HyprlandEvent, ParseError>,
    bool,
))
    ensures
        r.0 matches Ok(e) ==> decode_bytes(line@, filter@) == Ok::<EventModel, ParseError>(e@),
        r.0 matches Err(x) ==> decode_bytes(line@, filter@) == Err::<EventModel, ParseError>(x),
        r.1 == bytes_name_unknown(line@),
{
    match utf8_str(line) {
        None => (Err(ParseError::MalformedEvent), false),
        Some(s) => parse_event_noting(s, filter),
    }
}

/// Whether decoding gave a fault in the line itself: no `>>`, not UTF-8, or a
/// field that does not fit. A line that the filter turned away is no fault.
pub open spec fn is_fault(d: Result<EventModel, ParseError>) -> bool {
    d is Err && d->Err_0 != ParseError::FilteredOut
}

/// How many of `lines` are faulty.
pub open spec fn fault_count(lines: Seq<Seq<u8>>, filter: FilterView) -> nat
    decreases lines.len(),
{
    if lines.len() == 0 {
        0
    } else {
        fault_count(lines.drop_last(), filter) + if is_fault(decode_bytes(lines.last(), filter)) {
            1nat
        } else {
            0nat
        }
    }
}

/// How many of `lines` gave a `Custom` event because their name is no known kind.
pub open spec fn unknown_count(lines: Seq<Seq<u8>>, filter: FilterView) -> nat
    decreases lines.len(),
{
    if lines.len() == 0 {
        0
    } else {
        unknown_count(lines.drop_last(), filter) + if decode_bytes(lines.last(), filter) is Ok
            && bytes_name_unknown(lines.last()) {
            1nat
        } else {
            0nat
        }
    }
}

/// The events that `lines` give through `filter`, in order; lines that give
/// no event are skipped.
pub open spec fn accepted_events(lines: Seq<Seq<u8>>, filter: FilterView) -> Seq<EventModel>
    decreases lines.len(),
{
    if lines.len() == 0 {
        Seq::empty()
    } else {
        let init = accepted_events(lines.drop_last(), filter);
        match decode_bytes(lines.last(), filter) {
            Ok(e) => init.push(e),
            Err(_) => init,
        }
    }
}

proof fn lemma_accepted_concat(x: Seq<Seq<u8>>, y: Seq<Seq<u8>>, filter: FilterView)
    ensures
        accepted_events(x + y, filter) == accepted_events(x, filter) + accepted_events(y, filter),
    decreases y.len(),
{
    if y.len() == 0 {
        assert(x + y =~= x);
        assert(accepted_events(x, filter) + accepted_events(y, filter) =~= accepted_events(x, filter));
    } else {
        lemma_accepted_concat(x, y.drop_last(), filter);
        assert((x + y).drop_last() =~= x + y.drop_last());
        assert((x + y).last() == y.last());
        let ex = accepted_events(x, filter);
        let ey = accepted_events(y.drop_last(), filter);
        match decode_bytes(y.last(), filter) {
            Ok(e) => {
                assert((ex + ey).push(e) =~= ex + ey.push(e));
            },
            Err(_) => {},
        }
    }
}

/// A line without `>>`, or that is not UTF-8, gives no event and holds up
/// none: the lines around it give their events as if it were not there.
pub proof fn lemma_malformed_line_skipped(
    before: Seq<Seq<u8>>,
    bad: Seq<u8>,
    after: Seq<Seq<u8>>,
    filter: FilterView,
)
    requires
        !valid_utf8(bad) || forall|i: int|
            0 <= i < decode_utf8(bad).len() - 1 ==> !(#[trigger] decode_utf8(bad)[i] == '>'
                && decode_utf8(bad)[i + 1] == '>'),
    ensures
        decode_bytes(bad, filter) == Err::<EventModel, ParseError>(ParseError::MalformedEvent),
        accepted_events(before + seq![bad] + after, filter) == accepted_events(before, filter)
            + accepted_events(after, filter),
{
    if valid_utf8(bad) {
        lemma_no_delimiter_is_malformed(decode_utf8(bad), filter);
    }
    lemma_accepted_concat(before + seq![bad], after, filter);
    lemma_accepted_concat(before, seq![bad], filter);
    assert(seq![bad].drop_last() =~= Seq::<Seq<u8>>::empty());
    assert(seq![bad].last() == bad);
    assert(decode_bytes(bad, filter) is Err);
    assert(accepted_events(Seq::<Seq<u8>>::empty(), filter) =~= Seq::<EventModel>::empty());
    assert(accepted_events(seq![bad], filter) =~= Seq::<EventModel>::empty());
    assert(accepted_events(before, filter) + Seq::<EventModel>::empty() =~= accepted_events(
        before,
        filter,
    ));
}

/// The whole lines of `data`: every piece that a newline ends.
pub open spec fn whole_lines(data: Seq<u8>) -> Seq<Seq<u8>> {
    split_on(data, NEWLINE).drop_last()
}

/// What is left of `data` after its last newline.
pub open spec fn partial_line(data: Seq<u8>) -> Seq<u8> {
    split_on(data, NEWLINE).last()
}

pub open spec fn byte_views(v: Seq<Vec<u8>>) -> Seq<Seq<u8>> {
    v.map_values(|l: Vec<u8>| l@)
}

pub open spec fn event_views(v: Seq<HyprlandEvent>) -> Seq<EventModel> {
    v.map_values(|e: HyprlandEvent| e@)
}

/// What one attempt to read the event socket gave.
#[derive(Clone, Copy, Debug, PartialEq, Eq, Structural)]
pub enum ReadOutcome {
    /// Some bytes, handed over beside this value.
    Data,
    /// The compositor closed the socket.
    Closed,
    /// Nothing was ready after all, though the socket seemed readable.
    WouldBlock,
    /// The read failed.
    Failed,
}

/// What the whole lines of one chunk gave: the events to deliver, in order,
/// and what is to be reported of the others.
pub struct ChunkReport {
    pub events: Vec<HyprlandEvent>,
    /// How many lines were faulty (see `is_fault`); they give no event.
    pub faults: usize,
    /// How many events are `Custom` because their name is no known kind.
    pub unknown_names: usize,
}

/// What a listener does after a read.
pub enum ListenerAction {
    /// Sends the report's events to the consumers, in order, reports the
    /// rest, then waits for the socket again.
    Publish(ChunkReport),
    /// Sleeps for the retry delay, then waits for the socket again; the
    /// socket is kept.
    Backoff,
    /// Ends the listener.
    Finish,
}

/// What a reader that hands out one event at a time does with one line.
pub enum PullStep {
    /// Hands out this event; `unknown_name` tells whether its name is no known kind.
    Deliver { event: HyprlandEvent, unknown_name: bool },
    /// Passes over the line, which gave this error, and reads the next.
    Skip(ParseError),
    /// The stream has ended: the read gave nothing.
    EndOfStream,
}

/// The decision of a one-at-a-time reader after reading `line`, which is
/// `read_len` bytes long: a line that decodes to an accepted event gives it,
/// any other line means reading the next, and an empty read ends the stream.
pub fn pull_step(read_len: usize, line: &str, filter: &EventFilter) -> (r: PullStep)
    ensures
        read_len == 0 ==> r is EndOfStream,
        read_len > 0 ==> !(r is EndOfStream),
        r matches PullStep::Deliver { event, unknown_name } ==> decode_line(line@, filter@)
            == Ok::<EventModel, ParseError>(event@) && unknown_name == name_unknown(line@),
        r matches PullStep::Skip(x) ==> decode_line(line@, filter@) == Err::<EventModel, ParseError>(x),
{
    if read_len == 0 {
        return PullStep::EndOfStream;
    }
    let (result, unknown) = parse_event_noting(line, filter);
    match result {
        Ok(event) => PullStep::Deliver { event, unknown_name: unknown },
        Err(x) => PullStep::Skip(x),
    }
}

/// The bytes of a line that has begun but not yet ended.
pub struct LineBuffer {
    pending: Vec<u8>,
}

impl View for LineBuffer {
    type V = Seq<u8>;

    closed spec fn view(&self) -> Seq<u8> {
        self.pending@
    }
}

impl LineBuffer {
    pub fn new() -> (r: Self)
        ensures
            r@ == Seq::<u8>::empty(),
    {
        LineBuffer { pending: Vec::new() }
    }

    /// Adds `chunk` to what is pending and takes out the lines that are now
    /// whole, in order and without their newlines.
    pub fn push_chunk(&mut self, chunk: &[u8]) -> (lines: Vec<Vec<u8>>)
        ensures
            byte_views(lines@) == whole_lines(old(self)@ + chunk@),
            final(self)@ == partial_line(old(self)@ + chunk@),
    {
        let ghost data = self.pending@ + chunk@;
        let mut all: Vec<u8> = Vec::new();
        let mut k: usize = 0;
        while k < self.pending.len()
            invariant
                k <= self.pending@.len(),
                all@ == self.pending@.take(k as int),
            decreases self.pending@.len() - k,
        {
            all.push(self.pending[k]);
            assert(self.pending@.take(k + 1) =~= self.pending@.take(k as int).push(
                self.pending@[k as int],
            ));
            k = k + 1;
        }
        let mut k: usize = 0;
        while k < chunk.len()
            invariant
                k <= chunk@.len(),
                all@ == self.pending@ + chunk@.take(k as int),
            decreases chunk@.len() - k,
        {
            all.push(chunk[k]);
            assert(chunk@.take(k + 1) =~= chunk@.take(k as int).push(chunk@[k as int]));
            k = k + 1;
        }
        assert(all@ =~= data);
        let mut lines: Vec<Vec<u8>> = Vec::new();
        let mut cur: Vec<u8> = Vec::new();
        let mut i: usize = 0;
        assert(byte_views(lines@).push(cur@) =~= split_on(all@.take(0), NEWLINE));
        while i < all.len()
            invariant
                i <= all@.len(),
                all@ == data,
                split_on(all@.take(i as int), NEWLINE) == byte_views(lines@).push(cur@),
            decreases all@.len() - i,
        {
            let b = all[i];
            assert(all@.take(i + 1).drop_last() =~= all@.take(i as int));
            if b == NEWLINE {
                let ghost before = lines@;
                lines.push(cur);
                cur = Vec::new();
                assert(byte_views(lines@) =~= byte_views(before).push(lines@.last()@));
            } else {
                let ghost before = cur@;
                cur.push(b);
                assert(byte_views(lines@).push(cur@) =~= byte_views(lines@).push(before).update(
                    lines@.len() as int,
                    before.push(b),
                ));
            }
            i = i + 1;
        }
        assert(all@.take(i as int) =~= data);
        proof {
            lemma_split_on_nonempty(data, NEWLINE);
            assert(byte_views(lines@) =~= byte_views(lines@).push(cur@).drop_last());
        }
        self.pending = cur;
        lines
    }

    /// Adds `chunk` and decodes every line that is now whole, giving the
    /// events that pass `filter` in the order their lines arrived, and how
    /// many lines were faulty or had unknown names.
    pub fn decode_chunk(&mut self, chunk: &[u8], filter: &EventFilter) -> (r: ChunkReport)
        ensures
            event_views(r.events@) == accepted_events(whole_lines(old(self)@ + chunk@), filter@),
            r.faults == fault_count(whole_lines(old(self)@ + chunk@), filter@),
            r.unknown_names == unknown_count(whole_lines(old(self)@ + chunk@), filter@),
            final(self)@ == partial_line(old(self)@ + chunk@),
    {
        let lines = self.push_chunk(chunk);
        let ghost ls = byte_views(lines@);
        let mut out: Vec<HyprlandEvent> = Vec::new();
        let mut faults: usize = 0;
        let mut unknown_names: usize = 0;
        let mut i: usize = 0;
        while i < lines.len()
            invariant
                i <= lines@.len(),
                ls == byte_views(lines@),
                event_views(out@) == accepted_events(ls.take(i as int), filter@),
                faults == fault_count(ls.take(i as int), filter@),
                unknown_names == unknown_count(ls.take(i as int), filter@),
                faults <= i,
                unknown_names <= i,
            decreases lines@.len() - i,
        {
            let ghost before = out@;
            assert(ls.take(i + 1).drop_last() =~= ls.take(i as int));
            let (result, unknown) = parse_bytes_noting(lines[i].as_slice(), filter);
            match result {
                Ok(e) => {
                    out.push(e);
                    assert(event_views(out@) =~= event_views(before).push(e@));
                    if unknown {
                        unknown_names = unknown_names + 1;
                    }
                },
                Err(x) => {
                    if x != ParseError::FilteredOut {
                        faults = faults + 1;
                    }
                },
            }
            i = i + 1;
        }
        assert(ls.take(i as int) =~= ls);
        ChunkReport { events: out, faults, unknown_names }
    }

    /// The listener's decision after a read: bytes are decoded and their
    /// events published. A read that found nothing ready, or that failed, is
    /// a transient fault: the listener sleeps the retry delay and waits for
    /// the socket again, without reconnecting. A closed socket is the fatal
    /// transport fault that ends the listener; the only other end is a
    /// publish that finds no consumer left, or an abort.
    pub fn after_read(&mut self, outcome: ReadOutcome, chunk: &[u8], filter: &EventFilter) -> (r:
        ListenerAction)
        ensures
            outcome == ReadOutcome::Data ==> (r matches ListenerAction::Publish(rep) && event_views(
                rep.events@,
            ) == accepted_events(whole_lines(old(self)@ + chunk@), filter@) && rep.faults
                == fault_count(whole_lines(old(self)@ + chunk@), filter@) && rep.unknown_names
                == unknown_count(whole_lines(old(self)@ + chunk@), filter@) && final(self)@
                == partial_line(old(self)@ + chunk@)),
            outcome == ReadOutcome::Closed ==> r is Finish && final(self)@ == old(self)@,
            outcome == ReadOutcome::WouldBlock ==> r is Backoff && final(self)@ == old(self)@,
            outcome == ReadOutcome::Failed ==> r is Backoff && final(self)@ == old(self)@,
    {
        match outcome {
            ReadOutcome::Data => ListenerAction::Publish(self.decode_chunk(chunk, filter)),
            ReadOutcome::Closed => ListenerAction::Finish,
            ReadOutcome::WouldBlock => ListenerAction::Backoff,
            ReadOutcome::Failed => ListenerAction::Backoff,
        }
    }
}

} // verus!
