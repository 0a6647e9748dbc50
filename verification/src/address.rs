use anchor_lang::prelude::Pubkey;
use vstd::prelude::*;
use vstd::array::spec_array_fill_for_copy_type;

verus! {

/// An account address: the 32 bytes of a public key.
pub type Key = [u8; 32];

/// The program address (and its bump seed) that the runtime derives from
/// `seeds` under `program_id`, or `None` where no bump seed yields one.
pub uninterp spec fn program_address(seeds: Seq<Seq<u8>>, program_id: Key) -> Option<(Key, u8)>;

/// The base58 text of a key.
pub uninterp spec fn base58_text(key: Key) -> Seq<char>;

/// Calls `Pubkey::try_find_program_address`, which tries bump seeds from 255
/// down and returns the first address off the curve with its bump. The
/// contract names the result, a function of the seeds and the program id
/// alone, and states what the source shows of the seeds' limits: with more
/// than 15 seeds, or a seed longer than 32 bytes, there is no address. How
/// the address is hashed, and that some bump almost always works, is left
/// unsaid.
#[verifier::external_body]
pub(crate) fn try_find_program_address(seeds: &Vec<Vec<u8>>, program_id: &Key) -> (res: Option<(Key, u8)>)
    ensures
        res == program_address(seeds@.map_values(|s: Vec<u8>| s@), *program_id),
        (seeds@.len() > 15 || (exists|i: int| 0 <= i < seeds@.len() && seeds@[i]@.len() > 32)) ==> res is None,
{
    let refs: Vec<&[u8]> = seeds.iter().map(|s| s.as_slice()).collect();
    Pubkey::try_find_program_address(&refs, &Pubkey::new_from_array(*program_id))
        .map(|(k, bump)| (k.to_bytes(), bump))
}

/// Calls `Pubkey`'s `to_string`, which writes the key in base58 with the
/// Bitcoin alphabet. The contract names the text and states what the
/// encoder shows of its shape: every character comes from the alphabet,
/// which holds ASCII characters only, and a 32-byte key takes at most 44
/// characters (one `1` per leading zero byte, and at most 44 digits in all
/// since 58^44 exceeds 256^32).
#[verifier::external_body]
pub(crate) fn key_to_base58(key: &Key) -> (res: String)
    ensures
        res@ == base58_text(*key),
        res@.len() <= 44,
        vstd::utf8::is_ascii_chars(res@),
{
    Pubkey::new_from_array(*key).to_string()
}


/// The all-zero key, `Pubkey::default()`.
pub open spec fn zero_key() -> Key {
    spec_array_fill_for_copy_type::<u8, 32>(0u8)
}

pub fn default_key() -> (k: Key)
    ensures
        k == zero_key(),
{
    [0u8; 32]
}

/// Whether two keys are the same.
pub fn keys_equal(a: &Key, b: &Key) -> (r: bool)
    ensures
        r == (*a == *b),
{
    broadcast use vstd::array::group_array_axioms;
    let mut i: usize = 0;
    while i < 32
        invariant
            i <= 32,
            forall|j: int| 0 <= j < i ==> a[j] == b[j],
        decreases 32 - i,
    {
        if a[i] != b[i] {
            return false;
        }
        i = i + 1;
    }
    assert(*a =~= *b);
    true
}

/// Whether `k` occurs in `keys`.
pub fn contains_key(keys: &Vec<Key>, k: &Key) -> (r: bool)
    ensures
        r == keys@.contains(*k),
{
    let mut i: usize = 0;
    while i < keys.len()
        invariant
            i <= keys@.len(),
            forall|j: int| 0 <= j < i ==> keys@[j] != *k,
        decreases keys@.len() - i,
    {
        if keys_equal(&keys[i], k) {
            return true;
        }
        i = i + 1;
    }
    false
}

/// The bytes of a key, as a seed.
pub fn key_bytes(k: &Key) -> (v: Vec<u8>)
    ensures
        v@ == k@,
{
    broadcast use vstd::array::group_array_axioms;
    let mut v: Vec<u8> = Vec::new();
    let mut i: usize = 0;
    while i < 32
        invariant
            i <= 32,
            v@ == k@.subrange(0, i as int),
        decreases 32 - i,
    {
        v.push(k[i]);
        i = i + 1;
        assert(v@ =~= k@.subrange(0, i as int));
    }
    assert(k@.subrange(0, 32) =~= k@);
    v
}

/// The big-endian bytes of a `u64`, as `u64::to_be_bytes` gives them.
pub open spec fn be_bytes_u64(n: u64) -> Seq<u8> {
    seq![
        (n >> 56u64) as u8, (n >> 48u64) as u8, (n >> 40u64) as u8, (n >> 32u64) as u8,
        (n >> 24u64) as u8, (n >> 16u64) as u8, (n >> 8u64) as u8, n as u8,
    ]
}

/// The big-endian bytes of a `u32`, as `u32::to_be_bytes` gives them.
pub open spec fn be_bytes_u32(n: u32) -> Seq<u8> {
    seq![(n >> 24u32) as u8, (n >> 16u32) as u8, (n >> 8u32) as u8, n as u8]
}

pub fn u64_be_bytes(n: u64) -> (v: Vec<u8>)
    ensures
        v@ == be_bytes_u64(n),
{
    let mut v: Vec<u8> = Vec::new();
    v.push((n >> 56u64) as u8);
    v.push((n >> 48u64) as u8);
    v.push((n >> 40u64) as u8);
    v.push((n >> 32u64) as u8);
    v.push((n >> 24u64) as u8);
    v.push((n >> 16u64) as u8);
    v.push((n >> 8u64) as u8);
    v.push(n as u8);
    assert(v@ =~= be_bytes_u64(n));
    v
}

pub fn u32_be_bytes(n: u32) -> (v: Vec<u8>)
    ensures
        v@ == be_bytes_u32(n),
{
    let mut v: Vec<u8> = Vec::new();
    v.push((n >> 24u32) as u8);
    v.push((n >> 16u32) as u8);
    v.push((n >> 8u32) as u8);
    v.push(n as u8);
    assert(v@ =~= be_bytes_u32(n));
    v
}

} // verus!
