use vstd::prelude::*;

verus! {

/// A 32-byte account identity.
pub type AccountKey = [u8; 32];

/// Compares two account identities byte by byte.
pub fn keys_equal(a: &AccountKey, b: &AccountKey) -> (r: bool)
    ensures
        r == (a@ == b@),
{
    let mut i: usize = 0;
    while i < 32
        invariant
            0 <= i <= 32,
            forall|j: int| 0 <= j < i ==> a[j] == b[j],
        decreases 32 - i,
    {
        if a[i] != b[i] {
            assert(a@[i as int] != b@[i as int]);
            return false;
        }
        i = i + 1;
    }
    assert(a@ =~= b@);
    true
}

/// The identity whose bytes are `blob`.
pub open spec fn key_of(blob: Seq<u8>) -> AccountKey {
    choose|k: AccountKey| k@ == blob
}

/// What one identity blob resolves to: its identity when it is 32 bytes
/// long, and nothing (an invalid position) otherwise.
pub open spec fn slot_of(blob: Seq<u8>) -> Option<AccountKey> {
    if blob.len() == 32 {
        Some(key_of(blob))
    } else {
        None
    }
}

/// What each position of a transaction's identity blobs resolves to, in
/// order.
pub open spec fn keys_of(raw: Seq<Vec<u8>>) -> Seq<Option<AccountKey>> {
    Seq::new(raw.len(), |i: int| slot_of(raw[i]@))
}

/// The ordered table of account identities that the instructions of one
/// transaction address by position. A position whose blob was malformed
/// holds nothing.
pub struct AccountTable {
    pub keys: Vec<Option<AccountKey>>,
}

impl AccountTable {
    pub open spec fn view(&self) -> Seq<Option<AccountKey>> {
        self.keys@
    }

    /// Builds the table from raw identity blobs, keeping their order. A blob
    /// that is not 32 bytes long makes its position invalid, and only that
    /// position.
    pub fn from_raw(raw: &Vec<Vec<u8>>) -> (r: AccountTable)
        ensures
            r@ == keys_of(raw@),
    {
        let mut keys: Vec<Option<AccountKey>> = Vec::new();
        let mut i: usize = 0;
        while i < raw.len()
            invariant
                0 <= i <= raw@.len(),
                keys@.len() == i,
                forall|j: int| 0 <= j < i ==> (#[trigger] keys@[j]) == slot_of(raw@[j]@),
            decreases raw@.len() - i,
        {
            let blob = &raw[i];
            if blob.len() != 32 {
                keys.push(None);
            } else {
                let mut key: AccountKey = [0u8; 32];
                let mut k: usize = 0;
                while k < 32
                    invariant
                        0 <= k <= 32,
                        blob@.len() == 32,
                        forall|j: int| 0 <= j < k ==> key[j] == blob@[j],
                    decreases 32 - k,
                {
                    key[k] = blob[k];
                    k = k + 1;
                }
                assert(key@ =~= blob@);
                proof {
                    let chosen = key_of(blob@);
                    assert(exists|c: AccountKey| c@ == blob@) by {
                        assert(key@ == blob@);
                    }
                    assert(chosen =~= key);
                }
                keys.push(Some(key));
            }
            i = i + 1;
        }
        assert(keys@ =~= keys_of(raw@));
        AccountTable { keys }
    }

    pub fn len(&self) -> (r: usize)
        ensures
            r == self@.len(),
    {
        self.keys.len()
    }

    /// Resolves a position of the table. A position past its end, or one
    /// whose blob was malformed, resolves to nothing.
    pub fn get(&self, index: usize) -> (r: Option<AccountKey>)
        ensures
            index < self@.len() ==> r == self@[index as int],
            index >= self@.len() ==> r is None,
    {
        if index < self.keys.len() {
            self.keys[index]
        } else {
            None
        }
    }
}

} // verus!
