//! What holds of the decoder however the transport cuts the stream.

use crate::decoder::{
    carried_after, decoded, events_from, events_of, joined, lemma_next_terminator, line_prefix,
    next_terminator, piece_events, residue_from, residue_of, stream_carried, stream_events,
    terminator, terminator_at,
};
use crate::err::ErrorView;
use crate::payload::sentinel;
use crate::types::ResponseChunkView;
use vstd::prelude::*;
use vstd::utf8::{valid_utf8, valid_utf8_concat};

verus! {

/// The first terminator from `from` on is at `at` where one starts there
/// and none starts between the two.
pub proof fn lemma_terminator_found(text: Seq<u8>, from: int, at: int)
    requires
        0 <= from <= at,
        terminator_at(text, at),
        forall|j: int| from <= j < at ==> !terminator_at(text, j),
    ensures
        next_terminator(text, from) == at,
    decreases at - from,
{
    if from < at {
        lemma_terminator_found(text, from + 1, at);
    }
}

/// No terminator is found from `from` on where none starts there or later.
pub proof fn lemma_terminator_missing(text: Seq<u8>, from: int)
    requires
        0 <= from <= text.len(),
        forall|j: int| from <= j ==> !terminator_at(text, j),
    ensures
        next_terminator(text, from) == text.len(),
    decreases text.len() - from,
{
    if from + 2 <= text.len() {
        lemma_terminator_missing(text, from + 1);
    }
}

/// Looking from `from + offset` in a text is looking from `offset` in what
/// follows `from`.
pub proof fn lemma_shift(text: Seq<u8>, from: int, offset: int)
    requires
        0 <= from,
        0 <= offset,
        from + offset <= text.len(),
    ensures
        next_terminator(text, from + offset) == from + next_terminator(
            text.subrange(from, text.len() as int),
            offset,
        ),
        events_from(text, from + offset) == events_from(
            text.subrange(from, text.len() as int),
            offset,
        ),
        residue_from(text, from + offset) == residue_from(
            text.subrange(from, text.len() as int),
            offset,
        ),
    decreases text.len() - from - offset,
{
    let tail = text.subrange(from, text.len() as int);
    lemma_next_terminator(text, from + offset);
    lemma_next_terminator(tail, offset);
    let at = next_terminator(text, from + offset);
    assert forall|j: int| terminator_at(tail, j) <==> 0 <= j && terminator_at(text, from + j) by {
        if 0 <= j && j + 2 <= tail.len() {
            assert(tail[j] == text[from + j]);
            assert(tail[j + 1] == text[from + j + 1]);
        }
    }
    if at < text.len() {
        assert(terminator_at(tail, at - from));
        assert forall|j: int| offset <= j < at - from implies !terminator_at(tail, j) by {
            assert(!terminator_at(text, from + j));
        }
        lemma_terminator_found(tail, offset, at - from);
        lemma_shift(text, from, at + 2 - from);
        assert(text.subrange(from + offset, at) =~= tail.subrange(offset, at - from));
    } else {
        assert forall|j: int| offset <= j implies !terminator_at(tail, j) by {
            assert(!terminator_at(text, from + j));
        }
        lemma_terminator_missing(tail, offset);
        assert(text.subrange(from + offset, text.len() as int) =~= tail.subrange(
            offset,
            tail.len() as int,
        ));
    }
}

/// Text added behind a terminator does not move it.
pub proof fn lemma_terminator_stays(text: Seq<u8>, more: Seq<u8>, from: int)
    requires
        0 <= from <= text.len(),
        next_terminator(text, from) < text.len(),
    ensures
        next_terminator(text + more, from) == next_terminator(text, from),
{
    lemma_next_terminator(text, from);
    let at = next_terminator(text, from);
    let whole = text + more;
    assert(whole[at] == text[at] && whole[at + 1] == text[at + 1]);
    assert forall|j: int| from <= j < at implies !terminator_at(whole, j) by {
        assert(!terminator_at(text, j));
        assert(whole[j] == text[j] && whole[j + 1] == text[j + 1]);
    }
    lemma_terminator_found(whole, from, at);
}

/// The events of a text with more behind it are the events of the text,
/// then those of what the text left over with the rest behind it.
pub proof fn lemma_append(text: Seq<u8>, more: Seq<u8>, from: int)
    requires
        0 <= from <= text.len(),
    ensures
        events_from(text + more, from) == events_from(text, from) + events_of(
            residue_from(text, from) + more,
        ),
        residue_from(text + more, from) == residue_of(residue_from(text, from) + more),
    decreases text.len() - from,
{
    let whole = text + more;
    lemma_next_terminator(text, from);
    let at = next_terminator(text, from);
    if at < text.len() {
        lemma_terminator_stays(text, more, from);
        lemma_append(text, more, at + 2);
        assert(whole.subrange(from, at) =~= text.subrange(from, at));
        let first = piece_events(text.subrange(from, at));
        assert(first + (events_from(text, at + 2) + events_of(
            residue_from(text, at + 2) + more,
        )) =~= (first + events_from(text, at + 2)) + events_of(
            residue_from(text, at + 2) + more,
        ));
    } else {
        lemma_shift(whole, from, 0);
        assert(whole.subrange(from, whole.len() as int) =~= text.subrange(
            from,
            text.len() as int,
        ) + more);
        assert(Seq::<Result<ResponseChunkView, ErrorView>>::empty() + events_of(
            residue_from(text, from) + more,
        ) =~= events_of(residue_from(text, from) + more));
    }
}

/// Fragments of UTF-8 text, laid end to end, are UTF-8 text.
pub proof fn lemma_joined_valid(fragments: Seq<Seq<u8>>)
    requires
        forall|i: int| 0 <= i < fragments.len() ==> valid_utf8(#[trigger] fragments[i]),
    ensures
        valid_utf8(joined(fragments)),
    decreases fragments.len(),
{
    if fragments.len() > 0 {
        let rest = fragments.drop_first();
        assert forall|i: int| 0 <= i < rest.len() implies valid_utf8(#[trigger] rest[i]) by {
            assert(rest[i] == fragments[i + 1]);
        }
        lemma_joined_valid(rest);
        valid_utf8_concat(fragments[0], joined(rest));
    }
}

/// Cutting a fragment in two changes nothing: decoding the first part and
/// then the second yields the events of the whole, in the same order, and
/// leaves the same bytes over.
pub proof fn law_cut_in_two(carried: Seq<u8>, first: Seq<u8>, second: Seq<u8>)
    requires
        valid_utf8(first),
        valid_utf8(second),
    ensures
        decoded(carried, first + second) == decoded(carried, first) + decoded(
            carried_after(carried, first),
            second,
        ),
        carried_after(carried, first + second) == carried_after(
            carried_after(carried, first),
            second,
        ),
{
    valid_utf8_concat(first, second);
    lemma_append(carried + first, second, 0);
    assert(carried + (first + second) =~= (carried + first) + second);
}

/// However a stream of UTF-8 text is cut into one or more fragments, each
/// of them UTF-8 text, decoding them one after the other yields the events
/// of the whole text decoded as one fragment, in the same order, and leaves
/// the same bytes over.
pub proof fn law_fragmentation(carried: Seq<u8>, fragments: Seq<Seq<u8>>)
    requires
        fragments.len() >= 1,
        forall|i: int| 0 <= i < fragments.len() ==> valid_utf8(#[trigger] fragments[i]),
    ensures
        stream_events(carried, fragments) == decoded(carried, joined(fragments)),
        stream_carried(carried, fragments) == carried_after(carried, joined(fragments)),
    decreases fragments.len(),
{
    let rest = fragments.drop_first();
    let next = carried_after(carried, fragments[0]);
    if rest.len() == 0 {
        assert(joined(rest) =~= Seq::<u8>::empty());
        assert(joined(fragments) =~= fragments[0]);
        assert(stream_events(next, rest) =~= Seq::empty());
        assert(stream_carried(next, rest) == next);
        assert(stream_events(carried, fragments) =~= decoded(carried, fragments[0]));
    } else {
        assert forall|i: int| 0 <= i < rest.len() implies valid_utf8(#[trigger] rest[i]) by {
            assert(rest[i] == fragments[i + 1]);
        }
        law_fragmentation(next, rest);
        lemma_joined_valid(rest);
        law_cut_in_two(carried, fragments[0], joined(rest));
    }
}

/// Two ways of cutting the same text yield the same events and leave the
/// same bytes over.
pub proof fn law_same_text_same_events(
    carried: Seq<u8>,
    one: Seq<Seq<u8>>,
    other: Seq<Seq<u8>>,
)
    requires
        one.len() >= 1,
        other.len() >= 1,
        joined(one) == joined(other),
        forall|i: int| 0 <= i < one.len() ==> valid_utf8(#[trigger] one[i]),
        forall|i: int| 0 <= i < other.len() ==> valid_utf8(#[trigger] other[i]),
    ensures
        stream_events(carried, one) == stream_events(carried, other),
        stream_carried(carried, one) == stream_carried(carried, other),
{
    law_fragmentation(carried, one);
    law_fragmentation(carried, other);
}

/// An event whose payload is the sentinel yields the end of the stream,
/// once, and nothing else; the events behind it are read as if it were not
/// there.
pub proof fn law_sentinel_ends_stream(rest: Seq<u8>)
    ensures
        piece_events(line_prefix() + sentinel()) == seq![
            Ok::<ResponseChunkView, ErrorView>(ResponseChunkView::Done),
        ],
        events_of(line_prefix() + sentinel() + terminator() + rest) == seq![
            Ok::<ResponseChunkView, ErrorView>(ResponseChunkView::Done),
        ] + events_of(rest),
        residue_of(line_prefix() + sentinel() + terminator() + rest) == residue_of(rest),
{
    let body = line_prefix() + sentinel();
    let text = body + terminator() + rest;
    assert(body.len() == 12);
    assert(body.subrange(0, 6) =~= line_prefix());
    assert(body.subrange(6, 12) =~= sentinel());
    assert(text[12] == 10 && text[13] == 10);
    assert forall|j: int| 0 <= j < 12 implies !terminator_at(text, j) by {
        assert(text[j] == body[j]);
        assert(body[j] != 10);
    }
    lemma_terminator_found(text, 0, 12);
    assert(text.subrange(0, 12) =~= body);
    lemma_shift(text, 14, 0);
    assert(text.subrange(14, text.len() as int) =~= rest);
}

/// An event whose terminator is cut in the middle is held back, whole, by
/// the fragment that ends in the first line feed, and comes out once, in
/// front of what follows, with the fragment that brings the second.
pub proof fn law_terminator_cut(body: Seq<u8>, rest: Seq<u8>)
    requires
        valid_utf8(body + seq![10u8]),
        valid_utf8(seq![10u8] + rest),
        forall|j: int| !terminator_at(body + seq![10u8], j),
    ensures
        decoded(Seq::empty(), body + seq![10u8]) == Seq::<
            Result<ResponseChunkView, ErrorView>,
        >::empty(),
        carried_after(Seq::empty(), body + seq![10u8]) == body + seq![10u8],
        decoded(body + seq![10u8], seq![10u8] + rest) == piece_events(body) + events_of(rest),
        carried_after(body + seq![10u8], seq![10u8] + rest) == residue_of(rest),
{
    let first = body + seq![10u8];
    let second = seq![10u8] + rest;
    assert(Seq::<u8>::empty() + first =~= first);
    lemma_terminator_missing(first, 0);
    assert(first.subrange(0, first.len() as int) =~= first);
    let text = first + second;
    let at = body.len() as int;
    assert(text[at] == 10 && text[at + 1] == 10);
    assert forall|j: int| 0 <= j < at implies !terminator_at(text, j) by {
        assert(!terminator_at(first, j));
        assert(text[j] == first[j] && text[j + 1] == first[j + 1]);
    }
    lemma_terminator_found(text, 0, at);
    assert(text.subrange(0, at) =~= body);
    lemma_shift(text, at + 2, 0);
    assert(text.subrange(at + 2, text.len() as int) =~= rest);
}

} // verus!
