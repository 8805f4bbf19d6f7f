//! Parameter values as the parallel arrays that a wire call takes.
//!
//! A pointer is held as an optional borrowed slice: `None` is the null
//! pointer, `Some` points at the first byte of a buffer that outlives the
//! arrays. An absent value and an empty one therefore never coincide.

use vstd::prelude::*;
use crate::types::Oid;

verus! {

/// The format code of a value sent as raw typed bytes.
pub const BINARY_FORMAT: i32 = 1;

/// A count or a byte length as the wire's signed 32-bit integer: the low
/// 32 bits of `n`, which is `n` itself up to `i32::MAX`.
pub open spec fn wire_int(n: nat) -> i32 {
    n as i32
}

/// What the pointer for one parameter refers to: nothing for an absent
/// value, the buffer's bytes for a present one.
pub open spec fn pointer_of(param: Option<Vec<u8>>) -> Option<Seq<u8>> {
    match param {
        Some(data) => Some(data@),
        None => None,
    }
}

/// The length sent for one parameter: zero for an absent value, the
/// buffer's byte length for a present one.
pub open spec fn length_of(param: Option<Vec<u8>>) -> i32 {
    match param {
        Some(data) => wire_int(data@.len()),
        None => 0,
    }
}

/// The pointer array for `params`.
pub open spec fn pointers_of(params: Seq<Option<Vec<u8>>>) -> Seq<Option<Seq<u8>>> {
    Seq::new(params.len(), |i: int| pointer_of(params[i]))
}

/// The length array for `params`.
pub open spec fn lengths_of(params: Seq<Option<Vec<u8>>>) -> Seq<i32> {
    Seq::new(params.len(), |i: int| length_of(params[i]))
}

/// `count` entries, each the binary format code.
pub open spec fn all_binary(count: nat) -> Seq<i32> {
    Seq::new(count, |i: int| BINARY_FORMAT)
}

/// What a pointer array refers to, entry by entry.
pub open spec fn pointers_view(pointers: Seq<Option<&[u8]>>) -> Seq<Option<Seq<u8>>> {
    Seq::new(
        pointers.len(),
        |i: int|
            match pointers[i] {
                Some(bytes) => Some(bytes@),
                None => None,
            },
    )
}

/// What the receiver reads for one parameter: SQL NULL behind a null
/// pointer, else the first `length` bytes behind the pointer.
pub open spec fn received(pointer: Option<Seq<u8>>, length: i32) -> Option<Seq<u8>> {
    match pointer {
        Some(bytes) => Some(bytes.subrange(0, length as int)),
        None => None,
    }
}

/// Converts a count or byte length to the wire's integer, keeping the low
/// 32 bits.
pub fn to_wire_int(n: usize) -> (w: i32)
    ensures
        w == wire_int(n as nat),
        n <= i32::MAX ==> w == n,
{
    #[verifier::truncate]
    (n as i32)
}

/// One pointer per parameter: null for an absent value, the buffer for a
/// present one, empty or not.
pub fn param_pointers<'a>(param_data: &'a [Option<Vec<u8>>]) -> (pointers: Vec<Option<&'a [u8]>>)
    ensures
        pointers_view(pointers@) == pointers_of(param_data@),
        pointers@.len() == param_data@.len(),
        forall|i: int|
            0 <= i < param_data@.len() ==> ((#[trigger] pointers@[i]) is None
                <==> param_data@[i] is None),
{
    let mut pointers: Vec<Option<&'a [u8]>> = Vec::new();
    let mut i: usize = 0;
    while i < param_data.len()
        invariant
            i <= param_data.len(),
            pointers@.len() == i,
            forall|j: int|
                0 <= j < i ==> match (#[trigger] pointers@[j]) {
                    Some(bytes) => param_data@[j] is Some && bytes@ == param_data@[j]->Some_0@,
                    None => param_data@[j] is None,
                },
        decreases param_data.len() - i,
    {
        let pointer: Option<&'a [u8]> = match &param_data[i] {
            Some(data) => Some(data.as_slice()),
            None => None,
        };
        pointers.push(pointer);
        i += 1;
    }
    proof {
        assert(pointers_view(pointers@) =~= pointers_of(param_data@));
    }
    pointers
}

/// One length per parameter: zero for an absent value, the byte length
/// for a present one.
pub fn param_lengths(param_data: &[Option<Vec<u8>>]) -> (lengths: Vec<i32>)
    ensures
        lengths@ == lengths_of(param_data@),
{
    let mut lengths: Vec<i32> = Vec::new();
    let mut i: usize = 0;
    while i < param_data.len()
        invariant
            i <= param_data.len(),
            lengths@.len() == i,
            forall|j: int| 0 <= j < i ==> lengths@[j] == length_of(#[trigger] param_data@[j]),
        decreases param_data.len() - i,
    {
        let length: i32 = match &param_data[i] {
            Some(data) => to_wire_int(data.len()),
            None => 0,
        };
        lengths.push(length);
        i += 1;
    }
    proof {
        assert(lengths@ =~= lengths_of(param_data@));
    }
    lengths
}

/// The pointer to an oid array: null where there is no array, else the
/// array itself.
pub fn param_types_to_ptr<'a>(param_types: Option<&'a Vec<Oid>>) -> (pointer: Option<&'a [Oid]>)
    ensures
        match param_types {
            Some(types) => pointer is Some && pointer->Some_0@ == types@,
            None => pointer is None,
        },
{
    match param_types {
        Some(types) => Some(types.as_slice()),
        None => None,
    }
}

/// A format array of `count` entries, all binary.
pub fn binary_formats(count: usize) -> (formats: Vec<i32>)
    ensures
        formats@ == all_binary(count as nat),
{
    let mut formats: Vec<i32> = Vec::new();
    let mut i: usize = 0;
    while i < count
        invariant
            i <= count,
            formats@.len() == i,
            forall|j: int| 0 <= j < i ==> formats@[j] == BINARY_FORMAT,
        decreases count - i,
    {
        formats.push(BINARY_FORMAT);
        i += 1;
    }
    proof {
        assert(formats@ =~= all_binary(count as nat));
    }
    formats
}

/// The pointer, length and format arrays for one parameter sequence have
/// one entry per parameter each.
pub proof fn lemma_arrays_are_parallel(params: Seq<Option<Vec<u8>>>)
    ensures
        pointers_of(params).len() == params.len(),
        lengths_of(params).len() == params.len(),
        all_binary(params.len()).len() == params.len(),
{
}

/// An absent value is sent as a null pointer with length zero; a present
/// empty value as a pointer that is not null, with length zero too.
pub proof fn lemma_absent_and_empty_differ(params: Seq<Option<Vec<u8>>>, i: int)
    requires
        0 <= i < params.len(),
    ensures
        params[i] is None ==> pointers_of(params)[i] is None && lengths_of(params)[i] == 0,
        params[i] is Some && params[i]->Some_0@.len() == 0 ==> pointers_of(params)[i] is Some
            && lengths_of(params)[i] == 0,
{
}

/// What the receiver reads from the arrays is what was bound: an absent
/// value arrives as SQL NULL, and a present one of at most `i32::MAX`
/// bytes arrives byte for byte, the empty one included.
pub proof fn lemma_values_round_trip(params: Seq<Option<Vec<u8>>>, i: int)
    requires
        0 <= i < params.len(),
        params[i] is Some ==> params[i]->Some_0@.len() <= i32::MAX,
    ensures
        received(pointers_of(params)[i], lengths_of(params)[i]) == pointer_of(params[i]),
{
    match params[i] {
        Some(data) => {
            assert(data@.subrange(0, data@.len() as int) =~= data@);
        },
        None => {},
    }
}

/// Two parameter sequences with the same pointer array hold absent
/// values at the same places.
pub proof fn lemma_pointers_tell_absence(a: Seq<Option<Vec<u8>>>, b: Seq<Option<Vec<u8>>>, i: int)
    requires
        pointers_of(a) == pointers_of(b),
        0 <= i < a.len(),
    ensures
        a.len() == b.len(),
        a[i] is None <==> b[i] is None,
{
    assert(pointers_of(a).len() == a.len());
    assert(pointers_of(b).len() == b.len());
    assert(pointers_of(a)[i] == pointer_of(a[i]));
    assert(pointers_of(b)[i] == pointer_of(b[i]));
}

} // verus!
