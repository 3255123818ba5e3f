//! Modbus CRC-16 (reflected polynomial 0xA001, initial register 0xFFFF).
use vstd::prelude::*;

verus! {

/// The reflected generator polynomial of the Modbus checksum.
pub const CRC_POLY: u16 = 0xA001;

/// The register value before any byte is folded in.
pub const CRC_INIT: u16 = 0xFFFF;

/// One bit step of the register: shift right, and fold the polynomial in
/// when the bit shifted out was set.
pub open spec fn crc_shift(r: u16) -> u16 {
    if r & 1 != 0 {
        (r >> 1u16) ^ 0xA001u16
    } else {
        r >> 1u16
    }
}

/// `n` bit steps of the register.
pub open spec fn crc_shifts(r: u16, n: nat) -> u16
    decreases n,
{
    if n == 0 {
        r
    } else {
        crc_shift(crc_shifts(r, (n - 1) as nat))
    }
}

/// The register after folding byte `b` into register `r`.
pub open spec fn crc_byte(r: u16, b: u8) -> u16 {
    crc_shifts(r ^ (b as u16), 8)
}

/// The register after folding in every byte of `s`, first to last.
pub open spec fn crc_register(s: Seq<u8>) -> u16
    decreases s.len(),
{
    if s.len() == 0 {
        0xFFFFu16
    } else {
        crc_byte(crc_register(s.drop_last()), s.last())
    }
}

/// The two checksum bytes of `s`: the register's low byte, then its high byte.
pub open spec fn crc_bytes(s: Seq<u8>) -> Seq<u8> {
    seq![(crc_register(s) & 0xFFu16) as u8, ((crc_register(s) >> 8u16) & 0xFFu16) as u8]
}

/// Computes the Modbus CRC-16 of `data`, low byte first.
pub fn calculate_crc(data: &[u8]) -> (r: [u8; 2])
    ensures
        r@ == crc_bytes(data@),
{
    let mut crc: u16 = CRC_INIT;
    let mut i: usize = 0;
    while i < data.len()
        invariant
            i <= data.len(),
            crc == crc_register(data@.subrange(0, i as int)),
        decreases data.len() - i,
    {
        crc = crc ^ (data[i] as u16);
        let ghost start = crc;
        let mut j: u32 = 0;
        while j < 8
            invariant
                j <= 8,
                crc == crc_shifts(start, j as nat),
            decreases 8 - j,
        {
            if crc & 0x0001 != 0 {
                crc = (crc >> 1u16) ^ CRC_POLY;
            } else {
                crc = crc >> 1u16;
            }
            j = j + 1;
        }
        assert(data@.subrange(0, i + 1).drop_last() =~= data@.subrange(0, i as int));
        i = i + 1;
    }
    assert(data@.subrange(0, data.len() as int) =~= data@);
    let low: u8 = (crc & 0xFF) as u8;
    let high: u8 = ((crc >> 8u16) & 0xFF) as u8;
    let r = [low, high];
    assert(r@ =~= crc_bytes(data@));
    r
}

proof fn lemma_shift_injective(x: u16, y: u16)
    requires
        x != y,
    ensures
        crc_shift(x) != crc_shift(y),
{
    assert(x != y ==> crc_shift(x) != crc_shift(y)) by (bit_vector);
}

proof fn lemma_shifts_injective(x: u16, y: u16, n: nat)
    requires
        x != y,
    ensures
        crc_shifts(x, n) != crc_shifts(y, n),
    decreases n,
{
    if n > 0 {
        lemma_shifts_injective(x, y, (n - 1) as nat);
        lemma_shift_injective(crc_shifts(x, (n - 1) as nat), crc_shifts(y, (n - 1) as nat));
    }
}

proof fn lemma_byte_step_injective(r1: u16, r2: u16, b1: u8, b2: u8)
    requires
        (r1 == r2) != (b1 == b2),
    ensures
        crc_byte(r1, b1) != crc_byte(r2, b2),
{
    assert((r1 == r2) != (b1 == b2) ==> r1 ^ (b1 as u16) != r2 ^ (b2 as u16)) by (bit_vector);
    lemma_shifts_injective(r1 ^ (b1 as u16), r2 ^ (b2 as u16), 8);
}

/// Once the prefixes of `a` and `b` differ in byte `i` alone, the registers
/// over the first `n > i` bytes differ.
proof fn lemma_prefix_registers_differ(a: Seq<u8>, b: Seq<u8>, i: int, n: int)
    requires
        a.len() == b.len(),
        0 <= i < n <= a.len(),
        a[i] != b[i],
        forall|j: int| 0 <= j < a.len() && j != i ==> a[j] == b[j],
    ensures
        crc_register(a.subrange(0, n)) != crc_register(b.subrange(0, n)),
    decreases n,
{
    let pa = a.subrange(0, n);
    let pb = b.subrange(0, n);
    assert(pa.drop_last() =~= a.subrange(0, n - 1));
    assert(pb.drop_last() =~= b.subrange(0, n - 1));
    if n - 1 == i {
        assert(a.subrange(0, i) =~= b.subrange(0, i));
    } else {
        lemma_prefix_registers_differ(a, b, i, n - 1);
    }
    lemma_byte_step_injective(
        crc_register(pa.drop_last()),
        crc_register(pb.drop_last()),
        a[n - 1],
        b[n - 1],
    );
}

/// Two inputs of one length that differ in exactly one byte have different
/// checksums.
pub proof fn lemma_crc_detects_byte_change(a: Seq<u8>, b: Seq<u8>, i: int)
    requires
        a.len() == b.len(),
        0 <= i < a.len(),
        a[i] != b[i],
        forall|j: int| 0 <= j < a.len() && j != i ==> a[j] == b[j],
    ensures
        crc_bytes(a) != crc_bytes(b),
{
    lemma_prefix_registers_differ(a, b, i, a.len() as int);
    assert(a.subrange(0, a.len() as int) =~= a);
    assert(b.subrange(0, b.len() as int) =~= b);
    let x = crc_register(a);
    let y = crc_register(b);
    assert(x != y ==> ((x & 0xFFu16) as u8 != (y & 0xFFu16) as u8 || ((x >> 8u16) & 0xFFu16) as u8
        != ((y >> 8u16) & 0xFFu16) as u8)) by (bit_vector);
    assert(crc_bytes(a)[0] == (x & 0xFFu16) as u8);
    assert(crc_bytes(b)[0] == (y & 0xFFu16) as u8);
    assert(crc_bytes(a)[1] == ((x >> 8u16) & 0xFFu16) as u8);
    assert(crc_bytes(b)[1] == ((y >> 8u16) & 0xFFu16) as u8);
}

/// Flipping any one bit of the input changes the checksum.
pub proof fn lemma_crc_detects_bit_flip(s: Seq<u8>, i: int, bit: u8)
    requires
        0 <= i < s.len(),
        bit < 8,
    ensures
        crc_bytes(s) != crc_bytes(s.update(i, s[i] ^ (1u8 << bit))),
{
    let v = s[i];
    assert(bit < 8 ==> v ^ (1u8 << bit) != v) by (bit_vector);
    lemma_crc_detects_byte_change(s, s.update(i, v ^ (1u8 << bit)), i);
}

/// The checksum depends on the input bytes alone: equal inputs give equal
/// checksums.
pub proof fn lemma_crc_deterministic(a: Seq<u8>, b: Seq<u8>)
    requires
        a == b,
    ensures
        crc_bytes(a) == crc_bytes(b),
{
}

} // verus!
