//! Series of byte strings as one byte string.

use vstd::prelude::*;

use vstd::bytes::{
    lemma_auto_spec_u64_to_from_le_bytes, spec_u64_from_le_bytes, spec_u64_to_le_bytes, u64_from_le_bytes,
    u64_to_le_bytes,
};
use vstd::slice::{slice_subrange, slice_to_vec};

verus! {

/// A series of byte strings as one: each behind its length, which takes eight bytes, the lowest
/// first.
pub open spec fn framed(parts: Seq<Seq<u8>>) -> Seq<u8>
    decreases parts.len(),
{
    if parts.len() == 0 {
        Seq::empty()
    } else {
        spec_u64_to_le_bytes(parts[0].len() as u64) + parts[0] + framed(parts.drop_first())
    }
}

/// The byte strings that a vector of them holds.
pub open spec fn views(strings: Seq<Vec<u8>>) -> Seq<Seq<u8>> {
    strings.map_values(|string: Vec<u8>| string@)
}

/// Frames a series of byte strings.
pub fn frame(parts: &Vec<Vec<u8>>) -> (bytes: Vec<u8>)
    ensures
        bytes@ == framed(views(parts@)),
{
    let ghost all = views(parts@);
    let mut bytes: Vec<u8> = Vec::new();
    let mut i: usize = 0;
    assert(all.skip(0) =~= all);
    while i < parts.len()
        invariant
            i <= parts@.len(),
            all == views(parts@),
            bytes@ + framed(all.skip(i as int)) == framed(all),
        decreases parts@.len() - i,
    {
        let ghost rest = all.skip(i as int);
        assert(rest.drop_first() =~= all.skip(i + 1));
        let ghost before = bytes@;
        let mut length: Vec<u8> = u64_to_le_bytes(parts[i].len() as u64);
        bytes.append(&mut length);
        bytes.extend_from_slice(parts[i].as_slice());
        assert(bytes@ + framed(all.skip(i + 1)) =~= before + framed(rest));
        i = i + 1;
    }
    assert(bytes@ + framed(all.skip(i as int)) =~= bytes@);
    bytes
}

/// Takes a frame apart. There is no series where the bytes are no frame.
pub fn unframe(bytes: &[u8]) -> (parts: Option<Vec<Vec<u8>>>)
    ensures
        match parts {
            Some(parts) => framed(views(parts@)) == bytes@,
            None => forall|parts: Seq<Seq<u8>>| framed(parts) != bytes@,
        },
{
    let mut parts: Vec<Vec<u8>> = Vec::new();
    let mut start: usize = 0;
    proof {
        lemma_auto_spec_u64_to_from_le_bytes();
        assert(bytes@.skip(0) =~= bytes@);
        assert(views(parts@) =~= Seq::empty());
    }
    while start < bytes.len()
        invariant
            start <= bytes@.len(),
            bytes@ == framed(views(parts@)) + bytes@.skip(start as int),
            forall|all: Seq<Seq<u8>>| #[trigger] framed(all) == bytes@ ==> exists|rest: Seq<Seq<u8>>| #[trigger]
                framed(rest) == bytes@.skip(start as int),
        decreases bytes@.len() - start,
    {
        proof {
            lemma_auto_spec_u64_to_from_le_bytes();
        }
        let ghost rest = bytes@.skip(start as int);
        if bytes.len() - start < 8 {
            assert forall|parts: Seq<Seq<u8>>| framed(parts) != rest by {}
            return None;
        }
        let length: u64 = u64_from_le_bytes(slice_subrange(bytes, start, start + 8));
        let ghost size = bytes@.subrange(start as int, start + 8);
        assert(rest.take(8) =~= size);
        let left: usize = bytes.len() - start - 8;
        if length > left as u64 {
            assert forall|parts: Seq<Seq<u8>>| framed(parts) != rest by {
                if framed(parts) == rest {
                    lemma_first_size(parts);
                }
            }
            return None;
        }
        let end: usize = start + 8 + length as usize;
        let part = slice_to_vec(slice_subrange(bytes, start + 8, end));
        let ghost before = views(parts@);
        parts.push(part);
        proof {
            assert(views(parts@) =~= before.push(part@));
            lemma_framed_push(before, part@);
            assert(bytes@ =~= framed(views(parts@)) + bytes@.skip(end as int));
            assert forall|all: Seq<Seq<u8>>| #[trigger] framed(all) == bytes@ implies exists|after: Seq<Seq<u8>>| #[trigger]
                framed(after) == bytes@.skip(end as int) by {
                let then = choose|then: Seq<Seq<u8>>| #[trigger] framed(then) == rest;
                lemma_first_size(then);
                assert(framed(then.drop_first()) =~= bytes@.skip(end as int));
            }
        }
        start = end;
    }
    assert(bytes@ =~= framed(views(parts@)));
    Some(parts)
}

/// Reads a number of eight bytes, the lowest first.
pub fn number(bytes: &[u8]) -> (number: Option<u64>)
    ensures
        match number {
            Some(number) => spec_u64_to_le_bytes(number) == bytes@,
            None => bytes@.len() != 8,
        },
{
    proof {
        lemma_auto_spec_u64_to_from_le_bytes();
    }
    if bytes.len() == 8 {
        Some(u64_from_le_bytes(bytes))
    } else {
        None
    }
}

/// Fills an array with as many bytes as it holds.
fn fill<const N: usize>(array: &mut [u8; N], bytes: &[u8])
    requires
        bytes@.len() == N,
    ensures
        final(array)@ == bytes@,
{
    let mut i: usize = 0;
    while i < N
        invariant
            i <= N,
            bytes@.len() == N,
            forall|j: int| 0 <= j < i ==> array@[j] == bytes@[j],
        decreases N - i,
    {
        array[i] = bytes[i];
        i = i + 1;
    }
    assert(array@ =~= bytes@);
}

/// Reads a value of 32 bytes.
pub fn word(bytes: &[u8]) -> (word: Option<[u8; 32]>)
    ensures
        match word {
            Some(word) => word@ == bytes@,
            None => bytes@.len() != 32,
        },
{
    if bytes.len() != 32 {
        return None;
    }
    let mut word: [u8; 32] = [0; 32];
    fill(&mut word, bytes);
    Some(word)
}

/// Reads a value of 20 bytes.
pub fn address(bytes: &[u8]) -> (address: Option<[u8; 20]>)
    ensures
        match address {
            Some(address) => address@ == bytes@,
            None => bytes@.len() != 20,
        },
{
    if bytes.len() != 20 {
        return None;
    }
    let mut address: [u8; 20] = [0; 20];
    fill(&mut address, bytes);
    Some(address)
}

/// Reads a value of 256 bytes.
pub fn bloom(bytes: &[u8]) -> (bloom: Option<[u8; 256]>)
    ensures
        match bloom {
            Some(bloom) => bloom@ == bytes@,
            None => bytes@.len() != 256,
        },
{
    if bytes.len() != 256 {
        return None;
    }
    let mut bloom: [u8; 256] = [0; 256];
    fill(&mut bloom, bytes);
    Some(bloom)
}

/// The size of the first part stands at the front of a frame, and the other parts follow it.
proof fn lemma_first_size(parts: Seq<Seq<u8>>)
    requires
        framed(parts).len() > 0,
        framed(parts).len() <= u64::MAX,
    ensures
        parts.len() > 0,
        framed(parts).take(8) == spec_u64_to_le_bytes(parts[0].len() as u64),
        spec_u64_from_le_bytes(framed(parts).take(8)) == parts[0].len(),
        framed(parts).len() >= 8 + parts[0].len(),
        framed(parts).skip(8 + parts[0].len() as int) == framed(parts.drop_first()),
{
    lemma_auto_spec_u64_to_from_le_bytes();
    lemma_framed_bounds(parts, 0);
    assert(framed(parts).take(8) =~= spec_u64_to_le_bytes(parts[0].len() as u64));
    assert(framed(parts).skip(8 + parts[0].len() as int) =~= framed(parts.drop_first()));
}

/// A part that is added to a series is added to its frame.
proof fn lemma_framed_push(parts: Seq<Seq<u8>>, part: Seq<u8>)
    ensures
        framed(parts.push(part)) == framed(parts) + spec_u64_to_le_bytes(part.len() as u64) + part,
    decreases parts.len(),
{
    let longer = parts.push(part);
    if parts.len() == 0 {
        assert(framed(longer.drop_first()) =~= Seq::empty());
        assert(framed(longer) =~= framed(parts) + spec_u64_to_le_bytes(part.len() as u64) + part);
    } else {
        assert(longer.drop_first() =~= parts.drop_first().push(part));
        lemma_framed_push(parts.drop_first(), part);
        assert(framed(longer) =~= framed(parts) + spec_u64_to_le_bytes(part.len() as u64) + part);
    }
}

/// Each part of a framed series is shorter than the whole.
pub proof fn lemma_framed_bounds(parts: Seq<Seq<u8>>, i: int)
    requires
        0 <= i < parts.len(),
    ensures
        parts[i].len() < framed(parts).len(),
    decreases parts.len(),
{
    lemma_auto_spec_u64_to_from_le_bytes();
    if i > 0 {
        lemma_framed_bounds(parts.drop_first(), i - 1);
    }
}

/// What was framed can be told from the frame: two series with one frame are one series. The
/// length of the whole has to be a length that a frame can hold.
pub proof fn law_frames_are_apart(a: Seq<Seq<u8>>, b: Seq<Seq<u8>>)
    requires
        framed(a) == framed(b),
        framed(a).len() <= u64::MAX,
    ensures
        a == b,
    decreases a.len(),
{
    lemma_auto_spec_u64_to_from_le_bytes();
    if a.len() > 0 && b.len() > 0 {
        lemma_framed_bounds(a, 0);
        lemma_framed_bounds(b, 0);
        let bytes = framed(a);
        let size_a = spec_u64_to_le_bytes(a[0].len() as u64);
        let size_b = spec_u64_to_le_bytes(b[0].len() as u64);
        assert(bytes.subrange(0, 8) =~= size_a);
        assert(bytes.subrange(0, 8) =~= size_b);
        assert(a[0].len() == b[0].len());
        let end = 8 + a[0].len() as int;
        assert(bytes.subrange(8, end) =~= a[0]);
        assert(bytes.subrange(8, end) =~= b[0]);
        assert(bytes.skip(end) =~= framed(a.drop_first()));
        assert(bytes.skip(end) =~= framed(b.drop_first()));
        law_frames_are_apart(a.drop_first(), b.drop_first());
        assert(a =~= seq![a[0]] + a.drop_first());
        assert(b =~= seq![b[0]] + b.drop_first());
    } else {
        assert(a =~= b);
    }
}

/// The byte strings of a vector are those that it holds, in their places.
pub proof fn law_views_are_in_place(strings: Seq<Vec<u8>>, i: int)
    requires
        0 <= i < strings.len(),
    ensures
        views(strings).len() == strings.len(),
        views(strings)[i] == strings[i]@,
{
}

/// A frame is made part by part: the frame of one part is its length and the part, and the frame
/// of two series one after the other is the one frame after the other.
pub proof fn law_frames_are_joined(part: Seq<u8>, first: Seq<Seq<u8>>, second: Seq<Seq<u8>>)
    requires
        part.len() <= u64::MAX,
    ensures
        framed(seq![part]) == spec_u64_to_le_bytes(part.len() as u64) + part,
        framed(first + second) == framed(first) + framed(second),
    decreases first.len(),
{
    assert(framed(seq![part].drop_first()) =~= Seq::empty());
    assert(framed(seq![part]) =~= spec_u64_to_le_bytes(part.len() as u64) + part);
    if first.len() == 0 {
        assert(first + second =~= second);
        assert(framed(first + second) =~= framed(first) + framed(second));
    } else {
        assert((first + second).drop_first() =~= first.drop_first() + second);
        law_frames_are_joined(part, first.drop_first(), second);
        assert(framed(first + second) =~= framed(first) + framed(second));
    }
}

} // verus!
