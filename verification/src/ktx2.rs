use vstd::prelude::*;

verus! {

/// The 12-byte KTX2 file identifier.
pub const KTX2_MAGIC: [u8; 12] = [
    0xAB, 0x4B, 0x54, 0x58, 0x20, 0x32, 0x30, 0xBB, 0x0D, 0x0A, 0x1A, 0x0A,
];

/// The KTX2 file identifier as a sequence.
pub open spec fn ktx2_magic() -> Seq<u8> {
    seq![0xABu8, 0x4Bu8, 0x54u8, 0x58u8, 0x20u8, 0x32u8, 0x30u8, 0xBBu8, 0x0Du8, 0x0Au8, 0x1Au8, 0x0Au8]
}

/// `prefix` is an initial segment of `bytes`.
pub open spec fn has_prefix(bytes: Seq<u8>, prefix: Seq<u8>) -> bool {
    prefix.len() <= bytes.len() && bytes.subrange(0, prefix.len() as int) == prefix
}

/// Returns whether `bytes` starts with `prefix`.
pub fn starts_with(bytes: &[u8], prefix: &[u8]) -> (r: bool)
    ensures
        r == has_prefix(bytes@, prefix@),
{
    if prefix.len() > bytes.len() {
        return false;
    }
    let mut i: usize = 0;
    while i < prefix.len()
        invariant
            i <= prefix@.len() <= bytes@.len(),
            forall|j: int| 0 <= j < i ==> bytes@[j] == prefix@[j],
        decreases prefix@.len() - i,
    {
        if bytes[i] != prefix[i] {
            assert(bytes@.subrange(0, prefix@.len() as int)[i as int] != prefix@[i as int]);
            return false;
        }
        i = i + 1;
    }
    assert(bytes@.subrange(0, prefix@.len() as int) =~= prefix@);
    true
}

/// Returns true if the bytes start with the KTX2 file identifier.
pub fn is_ktx2(buffer: &[u8]) -> (r: bool)
    ensures
        r == has_prefix(buffer@, ktx2_magic()),
{
    let magic: &[u8] = &KTX2_MAGIC;
    assert(magic@ =~= ktx2_magic());
    starts_with(buffer, magic)
}

} // verus!
