//! Stream-level decode properties.
//!
//! [`spec_read`](crate::spec_read) decodes one record at a position of a
//! byte stream. This module lifts it to whole streams — a recursive
//! specification of sequential decode — and proves the framing laws the
//! decoder is built around: a record's decode depends only on its own
//! bytes, and a concatenation of well-formed records decodes to exactly
//! those records, in order, followed by the clean-end signal.

use vstd::prelude::*;

use crate::wire::{be_uint, lemma_be_uint_agree, sat_sub};
use crate::{
    read_result_matches, spec_body_length, spec_header_at, spec_is_extended_type, spec_read,
    Header, MrtError, ReadOutcome, Record, RecordView,
};

verus! {

/// Sequential decode of `input` from `pos` to the end: the records in
/// order, or `None` if any decode fails before the clean end.
pub open spec fn spec_decode_all(input: Seq<u8>, pos: int) -> Option<Seq<(Header, RecordView)>>
    decreases input.len() - pos,
    when 0 <= pos <= input.len()
{
    match spec_read(input, pos) {
        ReadOutcome::End => Some(Seq::empty()),
        ReadOutcome::Rec(h, rv, p2) => if pos < p2 <= input.len() {
            match spec_decode_all(input, p2) {
                Some(rest) => Some(seq![(h, rv)] + rest),
                None => None,
            }
        } else {
            None
        },
        ReadOutcome::Fail(e) => None,
    }
}

/// A successful single-record decode starts inside the input and ends
/// within it, at least 12 bytes (the fixed header) past its start.
pub proof fn lemma_read_rec_bounds(input: Seq<u8>, pos: int, h: Header, rv: RecordView, p2: int)
    requires
        0 <= pos,
        spec_read(input, pos) == ReadOutcome::Rec(h, rv, p2),
    ensures
        pos + 12 <= p2 <= input.len(),
{
}

/// The concatenation of a sequence of byte chunks, in order.
pub open spec fn concat_chunks(chunks: Seq<Seq<u8>>) -> Seq<u8>
    decreases chunks.len(),
{
    if chunks.len() == 0 {
        Seq::empty()
    } else {
        chunks[0] + concat_chunks(chunks.drop_first())
    }
}

/// A well-formed encoded record: a byte chunk that decodes successfully
/// consuming exactly all of its bytes.
pub open spec fn wf_record_chunk(c: Seq<u8>) -> bool {
    match spec_read(c, 0) {
        ReadOutcome::Rec(h, rv, p2) => p2 == c.len(),
        _ => false,
    }
}

/// The header and value a well-formed record chunk decodes to.
pub open spec fn chunk_record(c: Seq<u8>) -> (Header, RecordView) {
    match spec_read(c, 0) {
        ReadOutcome::Rec(h, rv, p2) => (h, rv),
        _ => arbitrary(),
    }
}

/// Law (framing): decoding a record reads nothing past the record itself.
/// If the decode at `pos` succeeds within `c`, appending any further bytes
/// `s` to the stream leaves its outcome unchanged.
pub proof fn lemma_read_frame(c: Seq<u8>, s: Seq<u8>, pos: int, h: Header, rv: RecordView, p2: int)
    requires
        0 <= pos,
        spec_read(c, pos) == ReadOutcome::Rec(h, rv, p2),
    ensures
        spec_read(c + s, pos) == ReadOutcome::Rec(h, rv, p2),
{
    lemma_read_rec_bounds(c, pos, h, rv, p2);
    let cs = c + s;
    assert forall|i: int, n: nat| 0 <= i && i + n <= c.len() implies be_uint(c, i, n) == #[trigger]
        be_uint(cs, i, n) by {
        lemma_be_uint_agree(c, i, cs, i, n);
    }
    let h0 = spec_header_at(c, pos);
    assert(spec_header_at(cs, pos) == h0);
    if spec_is_extended_type(h0.record_type) {
        let blen = spec_body_length(h);
        assert(cs.subrange(pos + 16, pos + 16 + blen) =~= c.subrange(pos + 16, pos + 16 + blen));
    } else {
        let blen = spec_body_length(h0);
        assert(cs.subrange(pos + 12, pos + 12 + blen) =~= c.subrange(pos + 12, pos + 12 + blen));
    }
}

/// Law (position independence): decoding at a position past a prefix `a`
/// sees only the suffix. The outcome at `a.len() + pos` in `a + t` is the
/// outcome at `pos` in `t`, with the end position shifted by `a.len()`.
#[verifier::rlimit(100)]
pub proof fn lemma_read_shift(a: Seq<u8>, t: Seq<u8>, pos: int)
    requires
        0 <= pos <= t.len(),
    ensures
        match spec_read(t, pos) {
            ReadOutcome::End => spec_read(a + t, a.len() + pos) == ReadOutcome::End,
            ReadOutcome::Rec(h, rv, p2) => spec_read(a + t, a.len() + pos) == ReadOutcome::Rec(
                h,
                rv,
                a.len() + p2,
            ),
            ReadOutcome::Fail(e) => spec_read(a + t, a.len() + pos) == ReadOutcome::Fail(e),
        },
{
    let at = a + t;
    let apos = a.len() + pos;
    assert forall|i: int, n: nat| a.len() <= i && i + n <= at.len() implies #[trigger] be_uint(
        at,
        i,
        n,
    ) == be_uint(t, i - a.len(), n) by {
        lemma_be_uint_agree(at, i, t, i - a.len(), n);
    }
    if pos == t.len() {
    } else if t.len() < pos + 12 {
    } else {
        let h0 = spec_header_at(t, pos);
        assert(spec_header_at(at, apos) == h0);
        if spec_is_extended_type(h0.record_type) {
            if t.len() < pos + 16 {
            } else {
                let h = Header {
                    timestamp: h0.timestamp,
                    extended: be_uint(t, pos + 12, 4) as u32,
                    record_type: h0.record_type,
                    sub_type: h0.sub_type,
                    length: h0.length,
                };
                let blen = spec_body_length(h);
                if t.len() < pos + 16 + blen {
                } else {
                    assert(at.subrange(apos + 16, apos + 16 + blen) =~= t.subrange(
                        pos + 16,
                        pos + 16 + blen,
                    ));
                }
            }
        } else {
            let blen = spec_body_length(h0);
            if t.len() < pos + 12 + blen {
            } else {
                assert(at.subrange(apos + 12, apos + 12 + blen) =~= t.subrange(
                    pos + 12,
                    pos + 12 + blen,
                ));
            }
        }
    }
}

/// Sequential decode past a prefix sees only the suffix.
pub proof fn lemma_decode_all_shift(a: Seq<u8>, t: Seq<u8>, pos: int)
    requires
        0 <= pos <= t.len(),
    ensures
        spec_decode_all(a + t, a.len() + pos) == spec_decode_all(t, pos),
    decreases t.len() - pos,
{
    lemma_read_shift(a, t, pos);
    match spec_read(t, pos) {
        ReadOutcome::End => {},
        ReadOutcome::Rec(h, rv, p2) => {
            lemma_read_rec_bounds(t, pos, h, rv, p2);
            lemma_decode_all_shift(a, t, p2);
        },
        ReadOutcome::Fail(e) => {},
    }
}

/// Law: sequential decode of a concatenation of N well-formed records
/// yields exactly those N records, in their original order, followed by
/// the clean-end signal.
#[verifier::rlimit(100)]
pub proof fn lemma_decode_concatenation(chunks: Seq<Seq<u8>>)
    requires
        forall|i: int| 0 <= i < chunks.len() ==> wf_record_chunk(#[trigger] chunks[i]),
    ensures
        spec_decode_all(concat_chunks(chunks), 0) == Some(
            chunks.map_values(|c: Seq<u8>| chunk_record(c)),
        ),
    decreases chunks.len(),
{
    if chunks.len() == 0 {
        assert(concat_chunks(chunks) =~= Seq::<u8>::empty());
        assert(chunks.map_values(|c: Seq<u8>| chunk_record(c)) =~= Seq::<
            (Header, RecordView),
        >::empty());
    } else {
        let c0 = chunks[0];
        let rest = chunks.drop_first();
        let t = concat_chunks(rest);
        let whole = concat_chunks(chunks);
        assert(whole == c0 + t);
        assert(wf_record_chunk(c0));
        let (h, rv) = chunk_record(c0);
        assert(spec_read(c0, 0) == ReadOutcome::Rec(h, rv, c0.len() as int));
        lemma_read_rec_bounds(c0, 0, h, rv, c0.len() as int);
        lemma_read_frame(c0, t, 0, h, rv, c0.len() as int);
        lemma_decode_all_shift(c0, t, 0);
        assert(forall|i: int| 0 <= i < rest.len() ==> wf_record_chunk(#[trigger] rest[i]));
        lemma_decode_concatenation(rest);
        let mapped_rest = rest.map_values(|c: Seq<u8>| chunk_record(c));
        assert(spec_decode_all(whole, 0) == Some(seq![(h, rv)] + mapped_rest));
        assert(seq![(h, rv)] + mapped_rest =~= chunks.map_values(|c: Seq<u8>| chunk_record(c)));
    }
}

/// Law: the allocating and the buffer-reusing decode agree. Both `read`
/// and `read_with_buffer` ensure `read_result_matches` on the same input
/// and starting position — a contract that never mentions the reused
/// buffer — so any two results satisfying it carry the same header, records
/// of the same value, or the same error, and leave the cursor at the same
/// place.
pub proof fn lemma_decode_agreement(
    input: Seq<u8>,
    pos: int,
    r1: Result<Option<(Header, Record)>, MrtError>,
    pos1: int,
    r2: Result<Option<(Header, Record)>, MrtError>,
    pos2: int,
)
    requires
        read_result_matches(input, pos, pos1, r1),
        read_result_matches(input, pos, pos2, r2),
    ensures
        pos1 == pos2,
        match (r1, r2) {
            (Ok(o1), Ok(o2)) => match (o1, o2) {
                (Some((h1, rec1)), Some((h2, rec2))) => h1 == h2 && rec1@ == rec2@,
                (None, None) => true,
                _ => false,
            },
            (Err(e1), Err(e2)) => e1 == e2,
            _ => false,
        },
{
}

/// Law: for an extended-timestamp record type a successful decode consumes,
/// past the fixed 12-byte header, exactly 4 bytes for the microsecond field
/// and `length - 4` (saturating) bytes for the body.
pub proof fn lemma_extended_consumes(input: Seq<u8>, pos: int, h: Header, rv: RecordView, p2: int)
    requires
        0 <= pos,
        spec_read(input, pos) == ReadOutcome::Rec(h, rv, p2),
        spec_is_extended_type(h.record_type),
    ensures
        p2 == pos + 12 + 4 + sat_sub(h.length as int, 4),
{
}

} // verus!
