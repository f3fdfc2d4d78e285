use vstd::prelude::*;

verus! {

/// The modulus of the base field of BN254, as 32 bytes, most significant
/// byte first. The coordinates of a curve point are numbers below it.
pub const BASE_FIELD_MODULUS: [u8; 32] = [
    0x30, 0x64, 0x4e, 0x72, 0xe1, 0x31, 0xa0, 0x29, 0xb8, 0x50, 0x45, 0xb6, 0x81, 0x81, 0x58, 0x5d,
    0x97, 0x81, 0x6a, 0x91, 0x68, 0x71, 0xca, 0x8d, 0x3c, 0x20, 0x8c, 0x16, 0xd8, 0x7c, 0xfd, 0x47,
];

/// The modulus of the scalar field of BN254, as 32 bytes, most significant
/// byte first. A public input of a proof is a number below it.
pub const SCALAR_FIELD_MODULUS: [u8; 32] = [
    0x30, 0x64, 0x4e, 0x72, 0xe1, 0x31, 0xa0, 0x29, 0xb8, 0x50, 0x45, 0xb6, 0x81, 0x81, 0x58, 0x5d,
    0x28, 0x33, 0xe8, 0x48, 0x79, 0xb9, 0x70, 0x91, 0x43, 0xe1, 0xf5, 0x93, 0xf0, 0x00, 0x00, 0x01,
];

/// The number that `bytes` encodes, most significant byte first.
pub open spec fn be_value(bytes: Seq<u8>) -> nat
    decreases bytes.len(),
{
    if bytes.len() == 0 {
        0
    } else {
        be_value(bytes.drop_last()) * 256 + bytes.last() as nat
    }
}

/// The `k`-th run of 32 bytes of `bytes`.
pub open spec fn word(bytes: Seq<u8>, k: int) -> Seq<u8> {
    bytes.subrange(32 * k, 32 * k + 32)
}

/// Whether `bytes` is a whole number of 32-byte words, each of which encodes
/// a number below the one that `modulus` encodes.
pub open spec fn canonical(bytes: Seq<u8>, modulus: Seq<u8>) -> bool {
    &&& bytes.len() % 32 == 0
    &&& forall|k: int|
        0 <= k < bytes.len() / 32 ==> be_value(#[trigger] word(bytes, k)) < be_value(modulus)
}

/// Of two byte strings of one length that agree before position `i`, the one
/// with the smaller byte at `i` encodes the smaller number.
pub proof fn lemma_first_difference_decides(a: Seq<u8>, b: Seq<u8>, i: int)
    requires
        a.len() == b.len(),
        0 <= i < a.len(),
        a.subrange(0, i) == b.subrange(0, i),
        a[i] < b[i],
    ensures
        be_value(a) < be_value(b),
    decreases a.len(),
{
    let a0 = a.drop_last();
    let b0 = b.drop_last();
    if i == a.len() - 1 {
        assert(a0 =~= a.subrange(0, i));
        assert(b0 =~= b.subrange(0, i));
    } else {
        assert(a0.subrange(0, i) =~= a.subrange(0, i));
        assert(b0.subrange(0, i) =~= b.subrange(0, i));
        lemma_first_difference_decides(a0, b0, i);
    }
}

/// Whether the 32 bytes of `bytes` from `offset` on encode a number below
/// the one that `modulus` encodes.
pub fn word_below(bytes: &[u8], offset: usize, modulus: &[u8; 32]) -> (below: bool)
    requires
        offset + 32 <= bytes@.len(),
    ensures
        below == (be_value(bytes@.subrange(offset as int, offset + 32)) < be_value(modulus@)),
{
    let ghost w = bytes@.subrange(offset as int, offset + 32);
    let n: usize = bytes.len();
    let mut i: usize = 0;
    while i < 32
        invariant
            i <= 32,
            n == bytes@.len(),
            offset + 32 <= n,
            w == bytes@.subrange(offset as int, offset + 32),
            w.subrange(0, i as int) == modulus@.subrange(0, i as int),
        decreases 32 - i,
    {
        let x: u8 = bytes[offset + i];
        let m: u8 = modulus[i];
        if x < m {
            proof {
                lemma_first_difference_decides(w, modulus@, i as int);
            }
            return true;
        }
        if x > m {
            proof {
                lemma_first_difference_decides(modulus@, w, i as int);
            }
            return false;
        }
        proof {
            assert(w.subrange(0, i + 1) =~= w.subrange(0, i as int).push(w[i as int]));
            assert(modulus@.subrange(0, i + 1) =~= modulus@.subrange(0, i as int).push(
                modulus@[i as int],
            ));
        }
        i += 1;
    }
    proof {
        assert(w =~= w.subrange(0, 32));
        assert(modulus@ =~= modulus@.subrange(0, 32));
    }
    false
}

/// Whether every 32-byte word of `bytes` encodes a number below the one that
/// `modulus` encodes.
pub fn is_canonical(bytes: &[u8], modulus: &[u8; 32]) -> (yes: bool)
    ensures
        yes == canonical(bytes@, modulus@),
{
    let n: usize = bytes.len();
    if n % 32 != 0 {
        return false;
    }
    let words: usize = n / 32;
    let mut k: usize = 0;
    while k < words
        invariant
            k <= words,
            n == bytes@.len(),
            words == n / 32,
            n % 32 == 0,
            forall|j: int| 0 <= j < k ==> be_value(#[trigger] word(bytes@, j)) < be_value(modulus@),
        decreases words - k,
    {
        if !word_below(bytes, 32 * k, modulus) {
            assert(!(be_value(word(bytes@, k as int)) < be_value(modulus@)));
            return false;
        }
        k += 1;
    }
    true
}

/// The bytes of `BASE_FIELD_MODULUS` encode the prime over which the curve
/// BN254 is defined.
pub proof fn law_base_field_modulus()
    ensures
        be_value(BASE_FIELD_MODULUS@)
            == 21888242871839275222246405745257275088696311157297823662689037894645226208583nat,
{
    assert(BASE_FIELD_MODULUS@.len() == 32);
    reveal_with_fuel(be_value, 33);
}

/// The bytes of `SCALAR_FIELD_MODULUS` encode the order of the group of
/// points of BN254, a prime as well.
pub proof fn law_scalar_field_modulus()
    ensures
        be_value(SCALAR_FIELD_MODULUS@)
            == 21888242871839275222246405745257275088548364400416034343698204186575808495617nat,
{
    assert(SCALAR_FIELD_MODULUS@.len() == 32);
    reveal_with_fuel(be_value, 33);
}

} // verus!
