use vstd::prelude::*;

verus! {

/// Where the bit at position `i` of a sequence of `n` bits goes when the order
/// of the bits is reversed inside each byte. The last group may hold fewer than
/// eight bits; it is reversed as it stands.
pub open spec fn flip_index(n: int, i: int) -> int {
    let start = i - i % 8;
    let width = if n - start < 8 { n - start } else { 8 };
    start + (width - 1 - (i - start))
}

/// A sequence with the order of its elements reversed inside each group of eight.
pub open spec fn flip_seq<T>(s: Seq<T>) -> Seq<T> {
    Seq::new(s.len(), |i: int| s[flip_index(s.len() as int, i)])
}

proof fn lemma_flip_index(n: int, i: int)
    requires
        0 <= i < n,
    ensures
        0 <= flip_index(n, i) < n,
        flip_index(n, i) - flip_index(n, i) % 8 == i - i % 8,
        flip_index(n, flip_index(n, i)) == i,
{
    let start = i - i % 8;
    let j = flip_index(n, i);
    assert(start % 8 == 0 && start <= j < start + 8);
    assert(j - j % 8 == start);
}

/// Reversing the bit order inside each byte twice gives back the sequence.
pub proof fn lemma_flip_round_trip<T>(s: Seq<T>)
    ensures
        flip_seq(flip_seq(s)) == s,
        flip_seq(s).len() == s.len(),
{
    let n = s.len() as int;
    assert forall|i: int| 0 <= i < n implies flip_seq(flip_seq(s))[i] == s[i] by {
        lemma_flip_index(n, i);
    }
    assert(flip_seq(flip_seq(s)) =~= s);
}

/// The positions from which the reordered sequence of `n` bits takes its
/// elements: element `i` of the result is element `r[i]` of the input.
pub fn flip_endianness_order(n: usize) -> (r: Vec<usize>)
    ensures
        r@.len() == n,
        forall|i: int| 0 <= i < n ==> r@[i] as int == flip_index(n as int, i),
{
    let mut r: Vec<usize> = Vec::new();
    let mut i: usize = 0;
    while i < n
        invariant
            i <= n,
            r@.len() == i,
            forall|k: int| 0 <= k < i ==> r@[k] as int == flip_index(n as int, k),
        decreases n - i,
    {
        let start: usize = i - i % 8;
        let width: usize = if n - start < 8 { n - start } else { 8 };
        proof {
            lemma_flip_index(n as int, i as int);
        }
        r.push(start + (width - 1 - (i - start)));
        i = i + 1;
    }
    r
}

} // verus!
