//! Incremental assembly of streamed completion candidates.
//!
//! A completion call asks for `n` candidate messages at once. The endpoint
//! answers with a stream of events; each event carries fragments keyed by a
//! candidate index, and fragments for one index are appended in arrival
//! order. Arrival across indices may interleave arbitrarily. A literal
//! sentinel value ends the stream; an unreadable event degrades to an empty
//! one instead of aborting, so already-gathered text is never lost.

use vstd::prelude::*;

use crate::errors::CoreError;
use crate::protocol::{Choice, Response};
use crate::text::views_of;

verus! {

/// Whether one streamed entry names a candidate that exists among `n`.
pub open spec fn choice_in_range(c: Choice, n: int) -> bool {
    0 <= c.index < n
}

/// Whether every entry of an event names an existing candidate.
pub open spec fn choices_in_range(cs: Seq<Choice>, n: int) -> bool {
    forall|i: int| 0 <= i < cs.len() ==> choice_in_range(#[trigger] cs[i], n)
}

/// One entry applied to the candidate texts: its fragment, if it carries
/// one, goes to the end of the candidate it names. An entry naming no
/// existing candidate changes nothing here; the executable code rejects it
/// before ever applying it.
pub open spec fn apply_choice(acc: Seq<Seq<char>>, c: Choice) -> Seq<Seq<char>> {
    if 0 <= c.index < acc.len() {
        match c.delta.content {
            Some(s) => acc.update(c.index as int, acc[c.index as int] + s@),
            None => acc,
        }
    } else {
        acc
    }
}

/// All entries of one event applied in order.
pub open spec fn apply_choices(acc: Seq<Seq<char>>, cs: Seq<Choice>) -> Seq<Seq<char>>
    decreases cs.len(),
{
    if cs.len() == 0 {
        acc
    } else {
        apply_choices(apply_choice(acc, cs[0]), cs.drop_first())
    }
}

pub broadcast proof fn lemma_apply_choice_len(acc: Seq<Seq<char>>, c: Choice)
    ensures
        (#[trigger] apply_choice(acc, c)).len() == acc.len(),
{
}

pub broadcast proof fn lemma_apply_choices_len(acc: Seq<Seq<char>>, cs: Seq<Choice>)
    ensures
        (#[trigger] apply_choices(acc, cs)).len() == acc.len(),
    decreases cs.len(),
{
    if cs.len() > 0 {
        lemma_apply_choices_len(apply_choice(acc, cs[0]), cs.drop_first());
    }
}

/// Folding one more entry at the end is the same as folding the front and
/// then applying the last entry.
pub proof fn lemma_apply_choices_push(acc: Seq<Seq<char>>, cs: Seq<Choice>, c: Choice)
    ensures
        apply_choices(acc, cs.push(c)) == apply_choice(apply_choices(acc, cs), c),
    decreases cs.len(),
{
    reveal_with_fuel(apply_choices, 3);
    assert(cs.push(c)[cs.len() as int] == c);
    if cs.len() == 0 {
        assert(cs.push(c)[0] == c);
        assert(cs.push(c).drop_first() =~= Seq::<Choice>::empty());
    } else {
        assert(cs.push(c)[0] == cs[0]);
        assert(cs.push(c).drop_first() =~= cs.drop_first().push(c));
        lemma_apply_choices_push(apply_choice(acc, cs[0]), cs.drop_first(), c);
    }
}

/// Fresh, empty candidate texts for `n` candidates.
pub open spec fn empty_candidates(n: nat) -> Seq<Seq<char>> {
    Seq::new(n, |i: int| Seq::<char>::empty())
}

/// The mutable accumulators for one completion call: `n` growing candidate
/// texts and a count of the events received so far.
#[derive(Debug)]
pub struct StreamState {
    choices: Vec<String>,
    response_tokens: usize,
}

impl StreamState {
    /// The candidate texts gathered so far.
    pub closed spec fn candidates(self) -> Seq<Seq<char>> {
        views_of(self.choices@)
    }

    /// How many events have been received; each one stands in for roughly
    /// one completion token in the running cost display.
    pub closed spec fn events_seen(self) -> nat {
        self.response_tokens as nat
    }

    /// `n` empty accumulators, before the first event arrives.
    pub fn new(n: usize) -> (s: Self)
        ensures
            s.candidates() =~= empty_candidates(n as nat),
            s.events_seen() == 0,
    {
        let mut choices: Vec<String> = Vec::new();
        let mut i: usize = 0;
        while i < n
            invariant
                i <= n,
                choices@.len() == i,
                forall|j: int| 0 <= j < i ==> #[trigger] choices@[j]@ == Seq::<char>::empty(),
            decreases n - i,
        {
            choices.push(String::new());
            i += 1;
        }
        Self { choices, response_tokens: 0 }
    }

    pub fn candidate_count(&self) -> (n: usize)
        ensures
            n == self.candidates().len(),
    {
        self.choices.len()
    }

    pub fn response_tokens(&self) -> (n: usize)
        ensures
            n == self.events_seen(),
    {
        self.response_tokens
    }

    /// A copy of the candidate texts as they stand, for drawing while the
    /// stream is still open.
    pub fn clone_candidates(&self) -> (v: Vec<String>)
        ensures
            views_of(v@) =~= self.candidates(),
    {
        let mut v: Vec<String> = Vec::new();
        let mut i: usize = 0;
        while i < self.choices.len()
            invariant
                i <= self.choices@.len(),
                v@.len() == i,
                forall|j: int| 0 <= j < i ==> #[trigger] v@[j]@ == self.choices@[j]@,
            decreases self.choices@.len() - i,
        {
            v.push(self.choices[i].clone());
            i += 1;
        }
        v
    }

    /// Hands the finished candidate texts back, in index order.
    pub fn into_candidates(self) -> (v: Vec<String>)
        ensures
            views_of(v@) == self.candidates(),
    {
        self.choices
    }

    /// One streamed event folded into the accumulators: every fragment goes
    /// to the end of the candidate its entry names, in the order the entries
    /// stand in the event. An entry naming a candidate that does not exist
    /// is a protocol error: the event is rejected whole and nothing changes.
    pub fn apply_response(&mut self, resp: &Response) -> (r: Result<(), CoreError>)
        requires
            old(self).events_seen() < usize::MAX,
        ensures
            r is Ok <==> choices_in_range(resp.choices@, old(self).candidates().len() as int),
            r is Ok ==> final(self).candidates() == apply_choices(
                old(self).candidates(),
                resp.choices@,
            ) && final(self).events_seen() == old(self).events_seen() + 1,
            r is Err ==> *final(self) == *old(self) && r == Err::<(), CoreError>(
                CoreError::DeltaIndexOutOfRange,
            ),
    {
        broadcast use lemma_apply_choice_len, lemma_apply_choices_len;

        let n = self.choices.len();
        let mut i: usize = 0;
        while i < resp.choices.len()
            invariant
                i <= resp.choices@.len(),
                n == self.choices@.len(),
                forall|j: int| 0 <= j < i ==> choice_in_range(#[trigger] resp.choices@[j], n as int),
            decreases resp.choices@.len() - i,
        {
            let c = &resp.choices[i];
            if c.index < 0 || c.index as u64 >= n as u64 {
                return Err(CoreError::DeltaIndexOutOfRange);
            }
            i += 1;
        }
        assert(choices_in_range(resp.choices@, n as int));

        let ghost orig = self.candidates();
        let mut i: usize = 0;
        while i < resp.choices.len()
            invariant
                i <= resp.choices@.len(),
                n == self.choices@.len(),
                choices_in_range(resp.choices@, n as int),
                self.candidates() == apply_choices(orig, resp.choices@.take(i as int)),
                self.response_tokens == old(self).response_tokens,
                orig.len() == n,
            decreases resp.choices@.len() - i,
        {
            let ghost pre = self.candidates();
            let c = &resp.choices[i];
            assert(choice_in_range(resp.choices@[i as int], n as int));
            if let Some(content) = &c.delta.content {
                let idx = c.index as usize;
                let updated = self.choices[idx].clone().concat(content.as_str());
                self.choices.set(idx, updated);
                assert(self.candidates() =~= pre.update(
                    c.index as int,
                    pre[c.index as int] + content@,
                ));
            }
            proof {
                assert(apply_choice(pre, resp.choices@[i as int]) == self.candidates());
                assert(resp.choices@.take(i + 1) =~= resp.choices@.take(i as int).push(
                    resp.choices@[i as int],
                ));
                lemma_apply_choices_push(
                    orig,
                    resp.choices@.take(i as int),
                    resp.choices@[i as int],
                );
            }
            i += 1;
        }
        assert(resp.choices@.take(resp.choices@.len() as int) =~= resp.choices@);
        self.response_tokens = self.response_tokens + 1;
        Ok(())
    }
}

/// One item of the event stream, as the transport hands it in: either the
/// literal end-of-stream sentinel or a parsed data payload.
#[derive(Debug)]
pub enum StreamEvent {
    Done,
    Data(Response),
}

/// Whether an event's raw data field is the end-of-stream sentinel. The
/// sentinel is a literal value, not a payload, and must never be parsed as
/// one.
pub fn is_done_sentinel(data: &str) -> (b: bool)
    ensures
        b == (data@ == "[DONE]"@),
{
    let owned: String = data.to_owned();
    let sentinel: String = String::from_str("[DONE]");
    owned == sentinel
}

/// What a data event counts as once parsing has been attempted: a payload
/// that could not be read degrades to the empty one, so a single corrupt
/// frame never aborts the stream or loses gathered text.
pub fn event_from_parse(parsed: Option<Response>) -> (r: Response)
    ensures
        parsed is Some ==> r == parsed->0,
        parsed is None ==> r.choices@ == Seq::<Choice>::empty(),
{
    match parsed {
        Some(resp) => resp,
        None => Response::empty(),
    }
}

/// The read loop over a whole buffered event sequence: events are folded in
/// order until the first sentinel, which stops everything after it; a
/// payload naming a candidate that does not exist stops the run with no
/// result at all.
pub open spec fn spec_run(
    acc: Seq<Seq<char>>,
    count: nat,
    events: Seq<StreamEvent>,
) -> Option<(Seq<Seq<char>>, nat)>
    decreases events.len(),
{
    if events.len() == 0 {
        Some((acc, count))
    } else {
        match events[0] {
            StreamEvent::Done => Some((acc, count)),
            StreamEvent::Data(resp) => if choices_in_range(resp.choices@, acc.len() as int) {
                spec_run(apply_choices(acc, resp.choices@), count + 1, events.drop_first())
            } else {
                None
            },
        }
    }
}

/// Runs a whole sequence of already-received events through fresh
/// accumulators for `n` candidates, stopping at the first sentinel.
pub fn consume_stream(n: usize, events: &Vec<StreamEvent>) -> (r: Result<StreamState, CoreError>)
    requires
        events@.len() < usize::MAX,
    ensures
        ({
            let outcome = spec_run(empty_candidates(n as nat), 0, events@);
            match r {
                Ok(st) => outcome == Some((st.candidates(), st.events_seen())),
                Err(e) => outcome is None && e == CoreError::DeltaIndexOutOfRange,
            }
        }),
{
    broadcast use lemma_apply_choices_len;

    let mut st = StreamState::new(n);
    assert(events@.skip(0) =~= events@);
    let mut i: usize = 0;
    while i < events.len()
        invariant
            i <= events@.len(),
            events@.len() < usize::MAX,
            st.candidates().len() == n,
            st.events_seen() <= i,
            spec_run(empty_candidates(n as nat), 0, events@) == spec_run(
                st.candidates(),
                st.events_seen(),
                events@.skip(i as int),
            ),
        decreases events@.len() - i,
    {
        assert(events@.skip(i as int)[0] == events@[i as int]);
        assert(events@.skip(i as int).drop_first() =~= events@.skip(i as int + 1));
        match &events[i] {
            StreamEvent::Done => {
                return Ok(st);
            },
            StreamEvent::Data(resp) => {
                let ghost pre_c = st.candidates();
                match st.apply_response(resp) {
                    Ok(()) => {
                        proof {
                            lemma_apply_choices_len(pre_c, resp.choices@);
                        }
                    },
                    Err(e) => {
                        return Err(e);
                    },
                }
            },
        }
        i += 1;
    }
    assert(events@.skip(i as int) =~= Seq::<StreamEvent>::empty());
    Ok(st)
}

/// The sentinel stops the read loop: whatever events still sit buffered
/// behind the first sentinel, the run ends exactly as if they were never
/// received.
pub proof fn lemma_sentinel_stops_run(
    acc: Seq<Seq<char>>,
    count: nat,
    before: Seq<StreamEvent>,
    buffered: Seq<StreamEvent>,
)
    ensures
        spec_run(acc, count, before.push(StreamEvent::Done) + buffered) == spec_run(
            acc,
            count,
            before.push(StreamEvent::Done),
        ),
    decreases before.len(),
{
    let with_tail = before.push(StreamEvent::Done) + buffered;
    let without_tail = before.push(StreamEvent::Done);
    if before.len() == 0 {
        assert(with_tail[0] == StreamEvent::Done);
        assert(without_tail[0] == StreamEvent::Done);
    } else {
        assert(with_tail[0] == before[0]);
        assert(without_tail[0] == before[0]);
        assert(with_tail.drop_first() =~= before.drop_first().push(StreamEvent::Done) + buffered);
        assert(without_tail.drop_first() =~= before.drop_first().push(StreamEvent::Done));
        match before[0] {
            StreamEvent::Done => {},
            StreamEvent::Data(resp) => {
                if choices_in_range(resp.choices@, acc.len() as int) {
                    lemma_sentinel_stops_run(
                        apply_choices(acc, resp.choices@),
                        count + 1,
                        before.drop_first(),
                        buffered,
                    );
                }
            },
        }
    }
}

/// A payload that degraded to the empty one changes no candidate: an
/// unreadable event between two valid events for the same candidate leaves
/// that candidate's text exactly as if the two valid events had arrived
/// back to back; only the event count moves by one.
pub proof fn lemma_malformed_event_harmless(
    acc: Seq<Seq<char>>,
    count: nat,
    first: Response,
    garbled: Response,
    second: Response,
)
    requires
        garbled.choices@ == Seq::<Choice>::empty(),
    ensures
        ({
            let with_garbled = spec_run(
                acc,
                count,
                seq![
                    StreamEvent::Data(first),
                    StreamEvent::Data(garbled),
                    StreamEvent::Data(second),
                ],
            );
            let without = spec_run(
                acc,
                count,
                seq![StreamEvent::Data(first), StreamEvent::Data(second)],
            );
            &&& with_garbled is Some <==> without is Some
            &&& with_garbled is Some ==> (with_garbled->0).0 == (without->0).0 && (
            with_garbled->0).1 == (without->0).1 + 1
        }),
{
    broadcast use lemma_apply_choices_len;

    reveal_with_fuel(spec_run, 5);
    let with_events = seq![
        StreamEvent::Data(first),
        StreamEvent::Data(garbled),
        StreamEvent::Data(second),
    ];
    let without_events = seq![StreamEvent::Data(first), StreamEvent::Data(second)];
    let after_first = apply_choices(acc, first.choices@);
    assert(with_events[0] == StreamEvent::Data(first));
    assert(without_events[0] == StreamEvent::Data(first));
    if choices_in_range(first.choices@, acc.len() as int) {
        assert(with_events.drop_first()[0] == StreamEvent::Data(garbled));
        assert(apply_choices(after_first, garbled.choices@) == after_first);
        assert(with_events.drop_first().drop_first()[0] == StreamEvent::Data(second));
        assert(without_events.drop_first()[0] == StreamEvent::Data(second));
        assert(with_events.drop_first().drop_first().drop_first() =~= Seq::<
            StreamEvent,
        >::empty());
        assert(without_events.drop_first().drop_first() =~= Seq::<StreamEvent>::empty());
    }
}

} // verus!
