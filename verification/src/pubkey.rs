use vstd::prelude::*;

verus! {

/// A 32-byte account address.
#[derive(Clone, Copy, Debug)]
pub struct Pubkey {
    pub bytes: [u8; 32],
}

impl Pubkey {
    /// The address with the given bytes.
    pub fn new_from_array(bytes: [u8; 32]) -> (k: Pubkey)
        ensures
            k.bytes == bytes,
    {
        Pubkey { bytes }
    }

    /// Whether two addresses are the same address.
    pub fn key_eq(&self, other: &Pubkey) -> (r: bool)
        ensures
            r == (*self == *other),
    {
        let mut i: usize = 0;
        while i < 32
            invariant
                i <= 32,
                forall|j: int| 0 <= j < i ==> self.bytes@[j] == other.bytes@[j],
            decreases 32 - i,
        {
            if self.bytes[i] != other.bytes[i] {
                return false;
            }
            i = i + 1;
        }
        proof {
            broadcast use vstd::array::group_array_axioms;
            assert(self.bytes@ =~= other.bytes@);
            assert(self.bytes == other.bytes);
        }
        true
    }
}

/// Whether `key` is one of the addresses in `list`.
pub fn list_contains(list: &[Pubkey], key: &Pubkey) -> (r: bool)
    ensures
        r == list@.contains(*key),
{
    let mut i: usize = 0;
    while i < list.len()
        invariant
            i <= list@.len(),
            forall|j: int| 0 <= j < i ==> list@[j] != *key,
        decreases list@.len() - i,
    {
        if list[i].key_eq(key) {
            assert(list@[i as int] == *key);
            return true;
        }
        i = i + 1;
    }
    false
}

/// The all-zero address, which a freshly created account holds.
pub open spec fn zero_key() -> Pubkey {
    Pubkey { bytes: vstd::array::spec_array_fill_for_copy_type::<u8, 32>(0u8) }
}

/// The all-zero address, computed.
pub fn zero_pubkey() -> (k: Pubkey)
    ensures
        k == zero_key(),
{
    Pubkey { bytes: [0u8; 32] }
}

/// The address whose bytes are `data[start..start + 32]`.
fn key_at(data: &[u8], start: usize) -> (k: Pubkey)
    requires
        start + 32 <= data@.len(),
    ensures
        k.bytes@ == data@.subrange(start as int, start + 32),
{
    let mut bytes: [u8; 32] = [0u8; 32];
    let len = data.len();
    let mut i: usize = 0;
    while i < 32
        invariant
            len == data@.len(),
            start + 32 <= data@.len(),
            i <= 32,
            forall|j: int| 0 <= j < i ==> bytes@[j] == data@[start + j],
        decreases 32 - i,
    {
        bytes[i] = data[start + i];
        i = i + 1;
    }
    assert(bytes@ =~= data@.subrange(start as int, start + 32));
    Pubkey { bytes }
}

/// The addresses stored back to back in `data`, 32 bytes each; a trailing
/// partial address is ignored.
pub fn keys_from_bytes(data: &[u8]) -> (keys: Vec<Pubkey>)
    ensures
        keys@.len() == data@.len() / 32,
        forall|i: int| 0 <= i < keys@.len() ==> #[trigger] keys@[i].bytes@ == data@.subrange(32 * i, 32 * i + 32),
{
    let mut keys: Vec<Pubkey> = Vec::new();
    let len = data.len();
    let n = len / 32;
    let mut i: usize = 0;
    while i < n
        invariant
            len == data@.len(),
            n == data@.len() / 32,
            i <= n,
            keys@.len() == i,
            forall|j: int| 0 <= j < i ==> #[trigger] keys@[j].bytes@ == data@.subrange(32 * j, 32 * j + 32),
        decreases n - i,
    {
        assert(32 * i + 32 <= len) by (nonlinear_arith)
            requires
                i < n,
                n == len / 32,
        ;
        keys.push(key_at(data, 32 * i));
        i = i + 1;
    }
    keys
}

} // verus!
