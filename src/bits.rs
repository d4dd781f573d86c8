use vstd::prelude::*;

verus! {

/// The number of bytes in a preimage.
pub const PREIMAGE_LEN: usize = 160;

/// Bit `i` of the byte `b`, counted from the least significant bit.
pub open spec fn bit_of(b: u8, i: nat) -> bool {
    (b >> (i as u8)) & 1u8 == 1u8
}

/// The bits of a byte string, each byte least significant bit first.
pub open spec fn le_bits(s: Seq<u8>) -> Seq<bool> {
    Seq::new(8 * s.len(), |j: int| bit_of(s[j / 8], (j % 8) as nat))
}

/// The value given to each preimage bit that a circuit allocates, with the
/// preimage's bytes when it is known.
pub open spec fn planned_bit_values(preimage: Option<Seq<u8>>) -> Seq<Option<bool>> {
    match preimage {
        Some(p) => Seq::new(8 * PREIMAGE_LEN as nat, |j: int| Some(le_bits(p)[j])),
        None => Seq::new(8 * PREIMAGE_LEN as nat, |j: int| None),
    }
}

/// Setup, without a preimage, and proving, with one, allocate the same number
/// of preimage bits in the same order: the two plans differ only in that
/// proving attaches a value to every bit and setup to none.
pub proof fn lemma_same_allocation_shape(p: Seq<u8>)
    requires
        p.len() == PREIMAGE_LEN,
    ensures
        planned_bit_values(None).len() == planned_bit_values(Some(p)).len(),
        forall|j: int|
            0 <= j < 8 * PREIMAGE_LEN ==> planned_bit_values(None)[j] is None
                && planned_bit_values(Some(p))[j] is Some,
{
}

/// The values of the preimage bits that a circuit allocates: the bits of each
/// byte, least significant first, when the preimage is known, and an unknown
/// value for each of them when it is not. Both modes give the same number.
pub fn preimage_bit_values(preimage: Option<[u8; 160]>) -> (r: Vec<Option<bool>>)
    ensures
        r@ == planned_bit_values(
            match preimage {
                Some(p) => Some(p@),
                None => None,
            },
        ),
        r@.len() == 8 * PREIMAGE_LEN,
        match preimage {
            Some(p) => forall|j: int|
                0 <= j < 8 * PREIMAGE_LEN ==> r@[j] == Some(le_bits(p@)[j]),
            None => forall|j: int| 0 <= j < 8 * PREIMAGE_LEN ==> r@[j] is None,
        },
{
    let mut r: Vec<Option<bool>> = Vec::new();
    match preimage {
        Some(p) => {
            let mut k: usize = 0;
            while k < PREIMAGE_LEN
                invariant
                    k <= PREIMAGE_LEN,
                    p@.len() == PREIMAGE_LEN,
                    r@.len() == 8 * k,
                    forall|j: int| 0 <= j < 8 * k ==> r@[j] == Some(le_bits(p@)[j]),
                decreases PREIMAGE_LEN - k,
            {
                let byte: u8 = p[k];
                let mut i: u8 = 0;
                while i < 8
                    invariant
                        k < PREIMAGE_LEN,
                        i <= 8,
                        p@.len() == PREIMAGE_LEN,
                        byte == p@[k as int],
                        r@.len() == 8 * k + i,
                        forall|j: int| 0 <= j < 8 * k + i ==> r@[j] == Some(le_bits(p@)[j]),
                    decreases 8 - i,
                {
                    let j: Ghost<int> = Ghost(8 * k + i);
                    assert(j@ / 8 == k as int && j@ % 8 == i as int);
                    r.push(Some((byte >> i) & 1u8 == 1u8));
                    i = i + 1;
                }
                k = k + 1;
            }
        },
        None => {
            let mut j: usize = 0;
            while j < 8 * PREIMAGE_LEN
                invariant
                    j <= 8 * PREIMAGE_LEN,
                    r@.len() == j,
                    forall|t: int| 0 <= t < j ==> r@[t] is None,
                decreases 8 * PREIMAGE_LEN - j,
            {
                r.push(None);
                j = j + 1;
            }
        },
    }
    assert(r@ =~= planned_bit_values(
        match preimage {
            Some(p) => Some(p@),
            None => None,
        },
    ));
    r
}

} // verus!
