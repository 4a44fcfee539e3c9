//! Byte-level building blocks of the wire format: little-endian integers and
//! fixed 32-byte addresses.

use vstd::prelude::*;

verus! {

/// 256 raised to `width`: the number of values that `width` bytes can hold.
pub open spec fn radix_pow(width: nat) -> nat
    decreases width,
{
    if width == 0 {
        1
    } else {
        256 * radix_pow((width - 1) as nat)
    }
}

/// The `width` low-order base-256 digits of `value`, least significant first.
pub open spec fn le_bytes(value: nat, width: nat) -> Seq<u8>
    decreases width,
{
    if width == 0 {
        Seq::empty()
    } else {
        seq![(value % 256) as u8] + le_bytes(value / 256, (width - 1) as nat)
    }
}

/// The number whose base-256 digits, least significant first, are `bytes`.
pub open spec fn le_value(bytes: Seq<u8>) -> nat
    decreases bytes.len(),
{
    if bytes.len() == 0 {
        0
    } else {
        bytes[0] as nat + 256 * le_value(bytes.subrange(1, bytes.len() as int))
    }
}

/// Whether every byte of `bytes` is zero.
pub open spec fn all_zero(bytes: Seq<u8>) -> bool {
    forall|i: int| 0 <= i < bytes.len() ==> bytes[i] == 0
}

/// `address`, preceded by as many zero bytes as bring it to 32 bytes.
pub open spec fn right_aligned(address: Seq<u8>) -> Seq<u8>
    recommends
        address.len() <= 32,
{
    Seq::new((32 - address.len()) as nat, |i: int| 0u8) + address
}

/// A number written in `width` bytes takes `width` bytes.
pub proof fn lemma_le_bytes_len(value: nat, width: nat)
    ensures
        le_bytes(value, width).len() == width,
    decreases width,
{
    if width > 0 {
        lemma_le_bytes_len(value / 256, (width - 1) as nat);
    }
}

/// Reading back what was written gives the number, as long as it fits.
pub proof fn lemma_le_value_of_bytes(value: nat, width: nat)
    requires
        value < radix_pow(width),
    ensures
        le_value(le_bytes(value, width)) == value,
    decreases width,
{
    if width > 0 {
        let rest = le_bytes(value / 256, (width - 1) as nat);
        let all = le_bytes(value, width);
        lemma_le_bytes_len(value / 256, (width - 1) as nat);
        lemma_le_value_of_bytes(value / 256, (width - 1) as nat);
        assert(all.subrange(1, all.len() as int) =~= rest);
    }
}

/// Writing what was read gives the bytes back, and what was read fits.
pub proof fn lemma_le_bytes_of_value(bytes: Seq<u8>)
    ensures
        le_value(bytes) < radix_pow(bytes.len()),
        le_bytes(le_value(bytes), bytes.len()) == bytes,
    decreases bytes.len(),
{
    if bytes.len() > 0 {
        let rest = bytes.subrange(1, bytes.len() as int);
        lemma_le_bytes_of_value(rest);
        let v = le_value(bytes);
        assert(v % 256 == bytes[0] as nat && v / 256 == le_value(rest)) by {
            assert(v == bytes[0] as nat + 256 * le_value(rest));
        }
        assert(le_bytes(v, bytes.len()) =~= bytes);
    }
}

/// Two bytes hold the numbers below 2^16, eight bytes those below 2^64.
pub proof fn lemma_radix_pow_values()
    ensures
        radix_pow(2) == 0x1_0000,
        radix_pow(8) == 0x1_0000_0000_0000_0000,
{
    reveal_with_fuel(radix_pow, 9);
}

/// Whether two addresses are the same, byte for byte.
pub fn same_address(a: &[u8; 32], b: &[u8; 32]) -> (same: bool)
    ensures
        same == (*a == *b),
        same == (a@ == b@),
{
    let mut i: usize = 0;
    while i < 32
        invariant
            i <= 32,
            forall|j: int| 0 <= j < i ==> a[j] == b[j],
        decreases 32 - i,
    {
        if a[i] != b[i] {
            return false;
        }
        i += 1;
    }
    assert(*a =~= *b);
    true
}

/// Whether an address consists of zero bytes only.
pub fn is_zero_address(address: &[u8; 32]) -> (zero: bool)
    ensures
        zero == all_zero(address@),
{
    let mut i: usize = 0;
    while i < 32
        invariant
            i <= 32,
            forall|j: int| 0 <= j < i ==> address[j] == 0,
        decreases 32 - i,
    {
        if address[i] != 0 {
            return false;
        }
        i += 1;
    }
    true
}

/// The 32 bytes of `bytes` that begin at `start`.
pub(crate) fn read_address(bytes: &[u8], start: usize) -> (address: [u8; 32])
    requires
        start + 32 <= bytes@.len(),
    ensures
        address@ == bytes@.subrange(start as int, start + 32),
{
    let len = bytes.len();
    let mut address = [0u8; 32];
    let mut i: usize = 0;
    while i < 32
        invariant
            i <= 32,
            start + 32 <= len,
            len == bytes@.len(),
            forall|j: int| 0 <= j < i ==> address[j] == bytes[start + j],
        decreases 32 - i,
    {
        address[i] = bytes[start + i];
        i += 1;
    }
    assert(address@ =~= bytes@.subrange(start as int, start + 32));
    address
}

/// Pads an address of another chain to 32 bytes by putting zero bytes in
/// front of it. An address of more than 32 bytes has no padded form.
pub fn right_align(address: &[u8]) -> (padded: Option<[u8; 32]>)
    ensures
        padded is Some <==> address@.len() <= 32,
        padded is Some ==> padded.unwrap()@ == right_aligned(address@),
{
    let len = address.len();
    if len > 32 {
        return None;
    }
    let gap = 32 - len;
    let mut padded = [0u8; 32];
    let mut i: usize = 0;
    while i < len
        invariant
            i <= len,
            len == address@.len(),
            gap + len == 32,
            forall|j: int| 0 <= j < gap ==> padded[j] == 0,
            forall|j: int| 0 <= j < i ==> padded[gap + j] == address[j],
        decreases len - i,
    {
        padded[gap + i] = address[i];
        i += 1;
    }
    assert(padded@ =~= right_aligned(address@));
    Some(padded)
}

/// `borsh::to_vec` on a `u64`. Borsh writes an integer as its little-endian
/// bytes, and writing into a vector cannot fail: the result is always the
/// eight bytes of `value`, least significant first.
#[verifier::external_body]
pub(crate) fn borsh_write_u64(value: u64) -> (out: Option<Vec<u8>>)
    ensures
        out is Some,
        out.unwrap()@ == le_bytes(value as nat, 8),
{
    borsh::to_vec(&value).ok()
}

/// `BorshDeserialize::try_from_slice` for `u64`. Borsh reads exactly eight
/// bytes as a little-endian number and refuses an input that is shorter or
/// that has bytes left over.
#[verifier::external_body]
pub(crate) fn borsh_read_u64(bytes: &[u8]) -> (out: Option<u64>)
    ensures
        out == (if bytes@.len() == 8 {
            Some(le_value(bytes@) as u64)
        } else {
            None::<u64>
        }),
{
    let read: Result<u64, std::io::Error> = borsh::BorshDeserialize::try_from_slice(bytes);
    read.ok()
}

/// `borsh::to_vec` on a `u16`: always the two bytes of `value`, least
/// significant first.
#[verifier::external_body]
pub(crate) fn borsh_write_u16(value: u16) -> (out: Option<Vec<u8>>)
    ensures
        out is Some,
        out.unwrap()@ == le_bytes(value as nat, 2),
{
    borsh::to_vec(&value).ok()
}

/// `BorshDeserialize::try_from_slice` for `u16`: exactly two bytes, read as a
/// little-endian number; any other length is refused.
#[verifier::external_body]
pub(crate) fn borsh_read_u16(bytes: &[u8]) -> (out: Option<u16>)
    ensures
        out == (if bytes@.len() == 2 {
            Some(le_value(bytes@) as u16)
        } else {
            None::<u16>
        }),
{
    let read: Result<u16, std::io::Error> = borsh::BorshDeserialize::try_from_slice(bytes);
    read.ok()
}

/// `u64::to_le_bytes` of the standard library: the memory representation of
/// `value` as eight bytes in little-endian order.
#[verifier::external_body]
pub(crate) fn u64_le_bytes(value: u64) -> (out: [u8; 8])
    ensures
        out@ == le_bytes(value as nat, 8),
{
    value.to_le_bytes()
}

} // verus!
