//! The decoder of a streamed response.
//!
//! The service sends a text of events. Each event ends with an empty line,
//! and the line of an event that carries a payload begins with `data: `. The
//! transport cuts that text into fragments wherever it likes, so the decoder
//! keeps what follows the last complete event and reads it again in front of
//! the next fragment.

use crate::err::{Error, ErrorView};
use crate::payload::{decode_payload, outcome_view, payload_outcome};
use crate::types::{ResponseChunk, ResponseChunkView};
use vstd::prelude::*;
use vstd::utf8::valid_utf8;

verus! {

/// The bytes `data: `, with which the line of an event begins.
pub open spec fn line_prefix() -> Seq<u8> {
    seq![100u8, 97u8, 116u8, 97u8, 58u8, 32u8]
}

/// The two line feeds that end an event.
pub open spec fn terminator() -> Seq<u8> {
    seq![10u8, 10u8]
}

/// What the error for a fragment that is no UTF-8 text says.
pub open spec fn invalid_utf8_message() -> Seq<char> {
    "Stream fragment is not valid UTF-8"@
}

/// Whether a terminator starts at `at` in `text`.
pub open spec fn terminator_at(text: Seq<u8>, at: int) -> bool {
    0 <= at && at + 2 <= text.len() && text[at] == 10 && text[at + 1] == 10
}

/// Where the first terminator at or after `from` starts in `text`; the
/// length of `text` where there is none.
pub open spec fn next_terminator(text: Seq<u8>, from: int) -> int
    decreases text.len() - from,
{
    if from < 0 || from + 2 > text.len() {
        text.len() as int
    } else if terminator_at(text, from) {
        from
    } else {
        next_terminator(text, from + 1)
    }
}

/// Whether an event begins with the line prefix.
pub open spec fn has_line_prefix(body: Seq<u8>) -> bool {
    body.len() >= 6 && body.subrange(0, 6) == line_prefix()
}

/// What one complete event gives, `body` being the event without its
/// terminator: nothing where it lacks the line prefix, else the outcome of
/// the payload behind the prefix.
pub open spec fn piece_events(body: Seq<u8>) -> Seq<Result<ResponseChunkView, ErrorView>> {
    if has_line_prefix(body) {
        seq![payload_outcome(body.subrange(6, body.len() as int))]
    } else {
        Seq::empty()
    }
}

/// The outcomes of the complete events of `text` that begin at or after
/// `from`, an event beginning where the one before it ended.
pub open spec fn events_from(text: Seq<u8>, from: int) -> Seq<Result<ResponseChunkView, ErrorView>>
    decreases text.len() - from,
{
    let at = next_terminator(text, from);
    if 0 <= from && from <= at && at + 2 <= text.len() {
        piece_events(text.subrange(from, at)) + events_from(text, at + 2)
    } else {
        Seq::empty()
    }
}

/// What is left of `text` behind its last complete event, looking from
/// `from` on.
pub open spec fn residue_from(text: Seq<u8>, from: int) -> Seq<u8>
    decreases text.len() - from,
{
    let at = next_terminator(text, from);
    if 0 <= from && from <= at && at + 2 <= text.len() {
        residue_from(text, at + 2)
    } else if 0 <= from && from <= text.len() {
        text.subrange(from, text.len() as int)
    } else {
        Seq::empty()
    }
}

/// The outcomes of all complete events of `text`.
pub open spec fn events_of(text: Seq<u8>) -> Seq<Result<ResponseChunkView, ErrorView>> {
    events_from(text, 0)
}

/// The incomplete event at the end of `text`.
pub open spec fn residue_of(text: Seq<u8>) -> Seq<u8> {
    residue_from(text, 0)
}

/// What decoding `fragment` yields when `carried` was left over before it: a
/// single parsing error where the fragment is no UTF-8 text, else the
/// outcomes of the complete events of the two taken together.
pub open spec fn decoded(carried: Seq<u8>, fragment: Seq<u8>) -> Seq<
    Result<ResponseChunkView, ErrorView>,
> {
    if valid_utf8(fragment) {
        events_of(carried + fragment)
    } else {
        seq![Err(ErrorView::ParsingError(invalid_utf8_message()))]
    }
}

/// What is left over after decoding `fragment`: the incomplete event at the
/// end, or what was there before where the fragment is no UTF-8 text.
pub open spec fn carried_after(carried: Seq<u8>, fragment: Seq<u8>) -> Seq<u8> {
    if valid_utf8(fragment) {
        residue_of(carried + fragment)
    } else {
        carried
    }
}

/// The fragments of a stream laid end to end.
pub open spec fn joined(fragments: Seq<Seq<u8>>) -> Seq<u8>
    decreases fragments.len(),
{
    if fragments.len() == 0 {
        Seq::empty()
    } else {
        fragments[0] + joined(fragments.drop_first())
    }
}

/// The outcomes of decoding the fragments one after the other, beginning
/// with `carried` left over.
pub open spec fn stream_events(carried: Seq<u8>, fragments: Seq<Seq<u8>>) -> Seq<
    Result<ResponseChunkView, ErrorView>,
>
    decreases fragments.len(),
{
    if fragments.len() == 0 {
        Seq::empty()
    } else {
        decoded(carried, fragments[0]) + stream_events(
            carried_after(carried, fragments[0]),
            fragments.drop_first(),
        )
    }
}

/// What is left over after decoding the fragments one after the other.
pub open spec fn stream_carried(carried: Seq<u8>, fragments: Seq<Seq<u8>>) -> Seq<u8>
    decreases fragments.len(),
{
    if fragments.len() == 0 {
        carried
    } else {
        stream_carried(carried_after(carried, fragments[0]), fragments.drop_first())
    }
}

/// The fragments of a stream, each by its bytes, in order.
pub open spec fn fragments_view(fragments: Seq<Vec<u8>>) -> Seq<Seq<u8>> {
    Seq::new(fragments.len(), |i: int| fragments[i]@)
}

/// The outcomes of a decoding step, each by its view, in order.
pub open spec fn outcomes_view(outcomes: Seq<Result<ResponseChunk, Error>>) -> Seq<
    Result<ResponseChunkView, ErrorView>,
> {
    Seq::new(outcomes.len(), |i: int| outcome_view(outcomes[i]))
}

/// A terminator found from `from` on lies at or behind `from`, nothing
/// before it is one, and `text.len()` stands for none.
pub proof fn lemma_next_terminator(text: Seq<u8>, from: int)
    requires
        0 <= from <= text.len(),
    ensures
        from <= next_terminator(text, from) <= text.len(),
        next_terminator(text, from) < text.len() ==> terminator_at(
            text,
            next_terminator(text, from),
        ),
        forall|at: int| from <= at < next_terminator(text, from) ==> !terminator_at(text, at),
        forall|at: int|
            next_terminator(text, from) == text.len() && from <= at ==> !terminator_at(text, at),
    decreases text.len() - from,
{
    if from + 2 > text.len() {
    } else if terminator_at(text, from) {
    } else {
        lemma_next_terminator(text, from + 1);
    }
}

/// Calls `std::str::from_utf8` and keeps only whether it gave a text: it
/// does so exactly where the bytes are valid UTF-8.
#[verifier::external_body]
fn is_utf8(bytes: &[u8]) -> (valid: bool)
    ensures
        valid == valid_utf8(bytes@),
{
    std::str::from_utf8(bytes).is_ok()
}

/// Finds the first terminator at or after `from`; the length of `text`
/// where there is none.
pub fn find_terminator(text: &[u8], from: usize) -> (at: usize)
    ensures
        at == next_terminator(text@, from as int),
{
    if from > text.len() {
        return text.len();
    }
    let mut at: usize = from;
    while text.len() - at >= 2
        invariant
            from <= at <= text@.len(),
            next_terminator(text@, from as int) == next_terminator(text@, at as int),
        decreases text@.len() - at,
    {
        if text[at] == 10 && text[at + 1] == 10 {
            return at;
        }
        at += 1;
    }
    text.len()
}

/// Whether an event begins with `data: `.
pub fn starts_with_line_prefix(body: &[u8]) -> (answer: bool)
    ensures
        answer == has_line_prefix(body@),
{
    let answer = body.len() >= 6 && body[0] == 100 && body[1] == 97 && body[2] == 116 && body[3]
        == 97 && body[4] == 58 && body[5] == 32;
    proof {
        if answer {
            assert(body@.subrange(0, 6) =~= line_prefix());
        }
        if body@.len() >= 6 && !answer {
            let head = body@.subrange(0, 6);
            assert(head[0] == body@[0] && head[1] == body@[1] && head[2] == body@[2] && head[3]
                == body@[3] && head[4] == body@[4] && head[5] == body@[5]);
        }
    }
    answer
}

/// The state of a decoder: the bytes of the event that is not complete yet.
pub struct StreamDecoder {
    unparsed: Vec<u8>,
}

impl View for StreamDecoder {
    type V = Seq<u8>;

    closed spec fn view(&self) -> Seq<u8> {
        self.unparsed@
    }
}

impl StreamDecoder {
    /// A decoder at the start of a stream: nothing is left over.
    pub fn new() -> (decoder: StreamDecoder)
        ensures
            decoder@ == Seq::<u8>::empty(),
    {
        StreamDecoder { unparsed: Vec::new() }
    }

    /// The bytes left over by the fragments decoded so far.
    pub fn unparsed(&self) -> (bytes: &[u8])
        ensures
            bytes@ == self@,
    {
        self.unparsed.as_slice()
    }

    /// Decodes one fragment. The events that are complete with this fragment
    /// come out in the order of the text, each once; an event that is not
    /// complete yet is kept, as it stands, for the next fragment. A fragment
    /// that is no UTF-8 text gives one parsing error and changes nothing.
    pub fn decode(&mut self, fragment: &[u8]) -> (events: Vec<Result<ResponseChunk, Error>>)
        ensures
            outcomes_view(events@) == decoded(old(self)@, fragment@),
            final(self)@ == carried_after(old(self)@, fragment@),
    {
        let mut events: Vec<Result<ResponseChunk, Error>> = Vec::new();
        if !is_utf8(fragment) {
            events.push(Err(Error::ParsingError("Stream fragment is not valid UTF-8".to_owned())));
            assert(outcomes_view(events@) =~= decoded(old(self)@, fragment@));
            return events;
        }
        let mut text: Vec<u8> = Vec::new();
        core::mem::swap(&mut text, &mut self.unparsed);
        text.extend_from_slice(fragment);
        assert(text@ =~= old(self)@ + fragment@);
        let mut start: usize = 0;
        assert(outcomes_view(events@) =~= Seq::empty());
        loop
            invariant
                start <= text@.len(),
                valid_utf8(fragment@),
                text@ == old(self)@ + fragment@,
                outcomes_view(events@) + events_from(text@, start as int) == events_of(text@),
                residue_from(text@, start as int) == residue_of(text@),
            ensures
                events_from(text@, start as int) == Seq::<
                    Result<ResponseChunkView, ErrorView>,
                >::empty(),
                residue_from(text@, start as int) == text@.subrange(
                    start as int,
                    text@.len() as int,
                ),
            decreases text@.len() - start,
        {
            let at = find_terminator(text.as_slice(), start);
            proof {
                lemma_next_terminator(text@, start as int);
            }
            if at >= text.len() {
                break ;
            }
            let body = vstd::slice::slice_subrange(text.as_slice(), start, at);
            let ghost before = outcomes_view(events@);
            if starts_with_line_prefix(body) {
                let payload = vstd::slice::slice_subrange(body, 6, body.len());
                let outcome = decode_payload(payload);
                events.push(outcome);
                assert(outcomes_view(events@) =~= before + piece_events(body@));
            }
            assert(outcomes_view(events@) == before + piece_events(body@));
            assert(before + (piece_events(body@) + events_from(text@, at + 2)) =~= (before
                + piece_events(body@)) + events_from(text@, at + 2));
            start = at + 2;
        }
        assert(outcomes_view(events@) + Seq::<Result<ResponseChunkView, ErrorView>>::empty()
            =~= outcomes_view(events@));
        self.unparsed = text.split_off(start);
        events
    }

    /// Decodes what the transport handed over: a fragment, or its account
    /// of a failure. A failure is passed on as one transport error and
    /// changes nothing.
    pub fn decode_part(&mut self, part: Result<Vec<u8>, String>) -> (events: Vec<
        Result<ResponseChunk, Error>,
    >)
        ensures
            match part {
                Ok(fragment) => outcomes_view(events@) == decoded(old(self)@, fragment@)
                    && final(self)@ == carried_after(old(self)@, fragment@),
                Err(reason) => outcomes_view(events@) == seq![
                    Err::<ResponseChunkView, ErrorView>(ErrorView::TransportError(reason@)),
                ] && final(self)@ == old(self)@,
            },
    {
        match part {
            Ok(fragment) => self.decode(fragment.as_slice()),
            Err(reason) => {
                let ghost account = reason@;
                let mut events: Vec<Result<ResponseChunk, Error>> = Vec::new();
                events.push(Err(Error::TransportError(reason)));
                assert(outcomes_view(events@) =~= seq![
                    Err::<ResponseChunkView, ErrorView>(ErrorView::TransportError(account)),
                ]);
                events
            },
        }
    }

    /// Decodes the fragments of a stream one after the other and hands out
    /// all their events in one sequence.
    pub fn decode_all(&mut self, fragments: &Vec<Vec<u8>>) -> (events: Vec<
        Result<ResponseChunk, Error>,
    >)
        ensures
            outcomes_view(events@) == stream_events(old(self)@, fragments_view(fragments@)),
            final(self)@ == stream_carried(old(self)@, fragments_view(fragments@)),
    {
        let ghost all = fragments_view(fragments@);
        let mut events: Vec<Result<ResponseChunk, Error>> = Vec::new();
        let mut done: usize = 0;
        assert(all.skip(0) =~= all);
        assert(outcomes_view(events@) =~= Seq::empty());
        while done < fragments.len()
            invariant
                done <= fragments@.len(),
                all == fragments_view(fragments@),
                outcomes_view(events@) + stream_events(self@, all.skip(done as int))
                    == stream_events(old(self)@, all),
                stream_carried(self@, all.skip(done as int)) == stream_carried(old(self)@, all),
            decreases fragments@.len() - done,
        {
            let ghost before = outcomes_view(events@);
            let ghost carried = self@;
            let ghost ahead = all.skip(done as int);
            let mut step = self.decode(fragments[done].as_slice());
            let ghost fresh = outcomes_view(step@);
            events.append(&mut step);
            proof {
                assert(ahead[0] == fragments@[done as int]@);
                assert(ahead.drop_first() =~= all.skip(done + 1));
                assert(outcomes_view(events@) =~= before + fresh);
                assert(before + (fresh + stream_events(self@, all.skip(done + 1))) =~= (before
                    + fresh) + stream_events(self@, all.skip(done + 1)));
            }
            done += 1;
        }
        assert(outcomes_view(events@) + Seq::<Result<ResponseChunkView, ErrorView>>::empty()
            =~= outcomes_view(events@));
        events
    }
}

} // verus!
