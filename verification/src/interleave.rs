//! Pixel interleaving: merging two equal-length pixel buffers into one by
//! alternating the source of each 4-byte pixel unit.

use vstd::prelude::*;

verus! {

/// The merge of two equal-length byte sequences under the positional
/// alternation rule: the byte at offset `i` belongs to pixel unit `i / 4`,
/// and comes from `a` when that unit's ordinal index is even, from `b` when
/// it is odd.
pub open spec fn interleaved(a: Seq<u8>, b: Seq<u8>) -> Seq<u8> {
    Seq::new(a.len(), |i: int| if (i / 4) % 2 == 0 { a[i] } else { b[i] })
}

/// The interleaving law: the merge of two equal-length buffers has the
/// inputs' length, and the byte at each offset comes from the first buffer
/// when its pixel unit's ordinal index is even and from the second buffer
/// when that index is odd.
pub proof fn lemma_interleaved_law(a: Seq<u8>, b: Seq<u8>)
    requires
        a.len() == b.len(),
    ensures
        interleaved(a, b).len() == a.len(),
        forall|i: int|
            0 <= i < a.len() && (i / 4) % 2 == 0 ==> interleaved(a, b)[i] == a[i],
        forall|i: int|
            0 <= i < a.len() && (i / 4) % 2 != 0 ==> interleaved(a, b)[i] == b[i],
{
}

/// Every byte offset in one 4-byte unit addresses the same unit: for a unit
/// starting at `4 * p`, the ordinal index of each of its four bytes is `p`.
proof fn lemma_unit_index(p: int, r: int)
    requires
        0 <= p,
        0 <= r < 4,
    ensures
        (4 * p + r) / 4 == p,
{
    assert((4 * p + r) / 4 == p) by (nonlinear_arith)
        requires
            0 <= p,
            0 <= r < 4,
    ;
}

/// For an offset that starts a unit, divisibility by 8 is the same test as
/// evenness of the unit's ordinal index.
proof fn lemma_alternation_test(i: int)
    requires
        0 <= i,
        i % 4 == 0,
    ensures
        (i % 8 == 0) <==> ((i / 4) % 2 == 0),
{
    assert((i % 8 == 0) <==> ((i / 4) % 2 == 0)) by (nonlinear_arith)
        requires
            0 <= i,
            i % 4 == 0,
    ;
}

/// Copies the bytes of `vec` from offset `start` to offset `end`, both
/// inclusive, into a fresh vector.
pub fn set_rgba(vec: &Vec<u8>, start: usize, end: usize) -> (rgba: Vec<u8>)
    requires
        start <= end < vec@.len(),
    ensures
        rgba@ == vec@.subrange(start as int, end + 1),
{
    let mut rgba: Vec<u8> = Vec::new();
    let mut i: usize = start;
    while i <= end
        invariant
            start <= i <= end + 1,
            end < vec@.len(),
            rgba@ == vec@.subrange(start as int, i as int),
        decreases end + 1 - i,
    {
        // A vector's length is a usize; binding it keeps the counter's
        // increment below the usize range.
        let _n: usize = vec.len();
        rgba.push(vec[i]);
        assert(rgba@ =~= vec@.subrange(start as int, i + 1));
        i = i + 1;
    }
    rgba
}

/// Merges two equal-length pixel buffers, whose length is a whole number of
/// 4-byte units, by copying each unit verbatim from the first buffer when
/// the unit's ordinal index is even and from the second when it is odd.
pub fn alternate_pixels(vec_1: Vec<u8>, vec_2: Vec<u8>) -> (combined: Vec<u8>)
    requires
        vec_1@.len() == vec_2@.len(),
        vec_1@.len() % 4 == 0,
    ensures
        combined@ == interleaved(vec_1@, vec_2@),
{
    let mut combined_data: Vec<u8> = Vec::new();
    let mut i: usize = 0;
    while i < vec_1.len()
        invariant
            vec_1@.len() == vec_2@.len(),
            vec_1@.len() % 4 == 0,
            i % 4 == 0,
            i <= vec_1@.len(),
            combined_data@ == interleaved(vec_1@, vec_2@).subrange(0, i as int),
        decreases vec_1@.len() - i,
    {
        proof {
            assert(i + 4 <= vec_1@.len()) by (nonlinear_arith)
                requires
                    i < vec_1@.len(),
                    i % 4 == 0,
                    vec_1@.len() % 4 == 0,
            ;
        }
        let mut rgba: Vec<u8> = if i % 8 == 0 {
            set_rgba(&vec_1, i, i + 3)
        } else {
            set_rgba(&vec_2, i, i + 3)
        };
        combined_data.append(&mut rgba);
        proof {
            let p = i as int / 4;
            lemma_alternation_test(i as int);
            lemma_unit_index(p, 0);
            lemma_unit_index(p, 1);
            lemma_unit_index(p, 2);
            lemma_unit_index(p, 3);
            assert(combined_data@ =~= interleaved(vec_1@, vec_2@).subrange(0, i + 4));
        }
        i = i + 4;
    }
    assert(combined_data@ =~= interleaved(vec_1@, vec_2@));
    combined_data
}

} // verus!
