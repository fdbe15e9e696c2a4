//! An in-memory merchant key-store table with the platform's storage
//! semantics: merchant ids are unique, lookups and deletions report
//! `ValueNotFound`, and a second insert for the same merchant reports
//! `DuplicateValue`. The durable store, cache, and key encryption around
//! these decisions are external collaborators.

use vstd::prelude::*;

use crate::text::str_eq;

verus! {

/// One merchant's key-store row: the merchant, the (encrypted) key bytes,
/// and when the row was created (unix seconds).
#[derive(Clone, Debug, PartialEq, Eq)]
pub struct MerchantKeyStore {
    pub merchant_id: String,
    pub key: Vec<u8>,
    pub created_at: i64,
}

/// Model of [`MerchantKeyStore`].
#[verifier::ext_equal]
pub struct MerchantKeyStoreV {
    pub merchant_id: Seq<char>,
    pub key: Seq<u8>,
    pub created_at: i64,
}

impl DeepView for MerchantKeyStore {
    type V = MerchantKeyStoreV;

    open spec fn deep_view(&self) -> MerchantKeyStoreV {
        MerchantKeyStoreV {
            merchant_id: self.merchant_id@,
            key: self.key.deep_view(),
            created_at: self.created_at,
        }
    }
}

/// An error of the key-store table.
#[derive(Clone, Debug, PartialEq, Eq)]
pub enum StorageError {
    /// An insert collided with an existing row; names the entity and, when
    /// known, the colliding key.
    DuplicateValue { entity: String, key: Option<String> },
    /// The requested row does not exist.
    ValueNotFound(String),
}

/// Model of [`StorageError`].
#[verifier::ext_equal]
pub enum StorageErrorV {
    DuplicateValue { entity: Seq<char>, key: Option<Seq<char>> },
    ValueNotFound(Seq<char>),
}

impl DeepView for StorageError {
    type V = StorageErrorV;

    open spec fn deep_view(&self) -> StorageErrorV {
        match self {
            StorageError::DuplicateValue { entity, key } => StorageErrorV::DuplicateValue {
                entity: entity@,
                key: key.deep_view(),
            },
            StorageError::ValueNotFound(s) => StorageErrorV::ValueNotFound(s@),
        }
    }
}

/// Whether some row of `s` belongs to the merchant `id`.
pub open spec fn spec_contains_id(s: Seq<MerchantKeyStoreV>, id: Seq<char>) -> bool {
    exists|i: int| 0 <= i < s.len() && s[i].merchant_id == id
}

/// Whether no two rows of `s` share a merchant id.
pub open spec fn spec_ids_unique(s: Seq<MerchantKeyStoreV>) -> bool {
    forall|i: int, j: int|
        0 <= i < j < s.len() ==> #[trigger] s[i].merchant_id != #[trigger] s[j].merchant_id
}

/// Copies a key-store row.
fn clone_store(s: &MerchantKeyStore) -> (r: MerchantKeyStore)
    ensures
        r.deep_view() == s.deep_view(),
{
    let r = MerchantKeyStore {
        merchant_id: s.merchant_id.clone(),
        key: s.key.clone(),
        created_at: s.created_at,
    };
    proof {
        broadcast use vstd::std_specs::vec::vec_clone_deep_view_proof;

        assert(r.deep_view() =~= s.deep_view());
    }
    r
}

/// The in-memory merchant key-store table.
#[derive(Debug)]
pub struct MerchantKeyStoreDb {
    pub merchant_key_store: Vec<MerchantKeyStore>,
}

impl MerchantKeyStoreDb {
    /// The table's invariant: one row per merchant. `insert` preserves it
    /// and it is what makes lookups unambiguous.
    pub open spec fn well_formed(&self) -> bool {
        spec_ids_unique(self.merchant_key_store.deep_view())
    }

    /// An empty table.
    pub fn new() -> (r: Self)
        ensures
            r.merchant_key_store.deep_view() == Seq::<MerchantKeyStoreV>::empty(),
            r.well_formed(),
    {
        let r = MerchantKeyStoreDb { merchant_key_store: Vec::new() };
        proof {
            assert(r.merchant_key_store.deep_view() =~= Seq::<MerchantKeyStoreV>::empty());
        }
        r
    }

    /// Inserts a merchant's key store, returning the stored row, or a
    /// `DuplicateValue` naming the merchant when a row for it already
    /// exists; a failed insert leaves the table unchanged.
    pub fn insert_merchant_key_store(&mut self, merchant_key_store: MerchantKeyStore) -> (r: Result<
        MerchantKeyStore,
        StorageError,
    >)
        ensures
            spec_contains_id(
                old(self).merchant_key_store.deep_view(),
                merchant_key_store.merchant_id@,
            ) ==> (*final(self) == *old(self) && (r matches Err(e) && e.deep_view()
                == StorageErrorV::DuplicateValue {
                entity: "merchant_key_store"@,
                key: Some(merchant_key_store.merchant_id@),
            })),
            !spec_contains_id(
                old(self).merchant_key_store.deep_view(),
                merchant_key_store.merchant_id@,
            ) ==> (final(self).merchant_key_store.deep_view() == old(self).merchant_key_store.deep_view().push(merchant_key_store.deep_view()) && (r matches Ok(
                s,
            ) && s.deep_view() == merchant_key_store.deep_view())),
            old(self).well_formed() ==> final(self).well_formed(),
    {
        let n = self.merchant_key_store.len();
        let mut i: usize = 0;
        while i < n
            invariant
                n == self.merchant_key_store.len(),
                0 <= i <= n,
                forall|j: int|
                    0 <= j < i ==> self.merchant_key_store.deep_view()[j].merchant_id
                        != merchant_key_store.merchant_id@,
            decreases n - i,
        {
            if str_eq(
                self.merchant_key_store[i].merchant_id.as_str(),
                merchant_key_store.merchant_id.as_str(),
            ) {
                proof {
                    assert(self.merchant_key_store.deep_view()[i as int].merchant_id
                        == merchant_key_store.merchant_id@);
                }
                return Err(
                    StorageError::DuplicateValue {
                        entity: "merchant_key_store".to_owned(),
                        key: Some(merchant_key_store.merchant_id.clone()),
                    },
                );
            }
            i = i + 1;
        }
        let returned = clone_store(&merchant_key_store);
        self.merchant_key_store.push(merchant_key_store);
        proof {
            assert(!spec_contains_id(
                old(self).merchant_key_store.deep_view(),
                returned.merchant_id@,
            ));
            assert(self.merchant_key_store.deep_view() =~= old(self).merchant_key_store.deep_view().push(returned.deep_view()));
            if old(self).well_formed() {
                assert(self.well_formed());
            }
        }
        Ok(returned)
    }

    /// Finds the key store of a merchant, or `ValueNotFound` when the table
    /// holds none for it.
    pub fn get_merchant_key_store_by_merchant_id(&self, merchant_id: &str) -> (r: Result<
        MerchantKeyStore,
        StorageError,
    >)
        ensures
            spec_contains_id(self.merchant_key_store.deep_view(), merchant_id@) <==> r is Ok,
            r matches Ok(s) ==> exists|i: int|
                0 <= i < self.merchant_key_store.deep_view().len()
                    && self.merchant_key_store.deep_view()[i] == s.deep_view()
                    && s.merchant_id@ == merchant_id@ && (forall|j: int|
                    0 <= j < i ==> self.merchant_key_store.deep_view()[j].merchant_id
                        != merchant_id@),
            r matches Err(e) ==> e.deep_view() == StorageErrorV::ValueNotFound(
                "merchant_key_store"@,
            ),
    {
        let n = self.merchant_key_store.len();
        let mut i: usize = 0;
        while i < n
            invariant
                n == self.merchant_key_store.len(),
                0 <= i <= n,
                forall|j: int|
                    0 <= j < i ==> self.merchant_key_store.deep_view()[j].merchant_id
                        != merchant_id@,
            decreases n - i,
        {
            if str_eq(self.merchant_key_store[i].merchant_id.as_str(), merchant_id) {
                let found = clone_store(&self.merchant_key_store[i]);
                proof {
                    assert(self.merchant_key_store.deep_view()[i as int]
                        == self.merchant_key_store@[i as int].deep_view());
                    assert(found.deep_view() == self.merchant_key_store.deep_view()[i as int]);
                    assert(found.merchant_id@ == merchant_id@);
                }
                return Ok(found);
            }
            i = i + 1;
        }
        Err(StorageError::ValueNotFound("merchant_key_store".to_owned()))
    }

    /// Deletes the first row of a merchant, returning true, or
    /// `ValueNotFound` naming the merchant when the table holds none; a
    /// failed delete leaves the table unchanged.
    pub fn delete_merchant_key_store_by_merchant_id(&mut self, merchant_id: &str) -> (r: Result<
        bool,
        StorageError,
    >)
        ensures
            !spec_contains_id(old(self).merchant_key_store.deep_view(), merchant_id@) ==> (*final(self) == *old(self) && (r matches Err(e) && e.deep_view() == StorageErrorV::ValueNotFound(
                "No merchant key store found for merchant_id = "@ + merchant_id@,
            ))),
            spec_contains_id(old(self).merchant_key_store.deep_view(), merchant_id@) ==> (r
                matches Ok(b) && b && exists|i: int|
                0 <= i < old(self).merchant_key_store.deep_view().len() && old(self).merchant_key_store.deep_view()[i].merchant_id == merchant_id@ && final(self).merchant_key_store.deep_view() == old(self).merchant_key_store.deep_view().remove(i)),
    {
        let n = self.merchant_key_store.len();
        let mut i: usize = 0;
        while i < n
            invariant
                n == self.merchant_key_store.len(),
                0 <= i <= n,
                self == old(self),
                forall|j: int|
                    0 <= j < i ==> self.merchant_key_store.deep_view()[j].merchant_id
                        != merchant_id@,
            decreases n - i,
        {
            if str_eq(self.merchant_key_store[i].merchant_id.as_str(), merchant_id) {
                proof {
                    assert(old(self).merchant_key_store.deep_view()[i as int].merchant_id
                        == merchant_id@);
                }
                self.merchant_key_store.remove(i);
                proof {
                    assert(self.merchant_key_store.deep_view() =~= old(self).merchant_key_store.deep_view().remove(i as int));
                }
                return Ok(true);
            }
            i = i + 1;
        }
        let mut message = String::new();
        message.append("No merchant key store found for merchant_id = ");
        message.append(merchant_id);
        Err(StorageError::ValueNotFound(message))
    }

    /// The rows of the given merchants, in table order.
    pub fn list_multiple_key_stores(&self, merchant_ids: &Vec<String>) -> (r: Vec<
        MerchantKeyStore,
    >)
        ensures
            r.deep_view() == self.merchant_key_store.deep_view().filter(
                |s: MerchantKeyStoreV| merchant_ids.deep_view().contains(s.merchant_id),
            ),
    {
        let n = self.merchant_key_store.len();
        let mut out: Vec<MerchantKeyStore> = Vec::new();
        let mut i: usize = 0;
        proof {
            assert(self.merchant_key_store.deep_view().subrange(0, 0)
                =~= Seq::<MerchantKeyStoreV>::empty());
            reveal(Seq::filter);
            assert(out.deep_view() =~= self.merchant_key_store.deep_view().subrange(0, 0).filter(
                |s: MerchantKeyStoreV| merchant_ids.deep_view().contains(s.merchant_id),
            ));
        }
        while i < n
            invariant
                n == self.merchant_key_store.len(),
                0 <= i <= n,
                out.deep_view() == self.merchant_key_store.deep_view().subrange(0, i as int).filter(
                    |s: MerchantKeyStoreV| merchant_ids.deep_view().contains(s.merchant_id),
                ),
            decreases n - i,
        {
            let ghost pred = |s: MerchantKeyStoreV| merchant_ids.deep_view().contains(
                s.merchant_id,
            );
            let ghost prefix = self.merchant_key_store.deep_view().subrange(0, i as int);
            let ghost next_prefix = self.merchant_key_store.deep_view().subrange(0, i + 1);
            if contains_string(merchant_ids, self.merchant_key_store[i].merchant_id.as_str()) {
                let copied = clone_store(&self.merchant_key_store[i]);
                proof {
                    assert(copied.deep_view() == self.merchant_key_store.deep_view()[i as int]);
                }
                out.push(copied);
            } else {
                proof {
                    assert(self.merchant_key_store.deep_view()[i as int].merchant_id
                        == self.merchant_key_store@[i as int].merchant_id@);
                }
            }
            proof {
                reveal(Seq::filter);
                assert(next_prefix.drop_last() =~= prefix);
                assert(next_prefix.last() == self.merchant_key_store.deep_view()[i as int]);
                assert(out.deep_view() =~= next_prefix.filter(pred));
            }
            i = i + 1;
        }
        proof {
            assert(self.merchant_key_store.deep_view().subrange(0, n as int)
                =~= self.merchant_key_store.deep_view());
        }
        out
    }

    /// Every row of the table, in order. The range arguments are accepted
    /// for interface parity and ignored, as the in-memory table pages
    /// nothing.
    pub fn get_all_key_stores(&self, from: u32, to: u32) -> (r: Vec<MerchantKeyStore>)
        ensures
            r.deep_view() == self.merchant_key_store.deep_view(),
    {
        let n = self.merchant_key_store.len();
        let mut out: Vec<MerchantKeyStore> = Vec::new();
        let mut i: usize = 0;
        while i < n
            invariant
                n == self.merchant_key_store.len(),
                0 <= i <= n,
                out.deep_view() == self.merchant_key_store.deep_view().subrange(0, i as int),
            decreases n - i,
        {
            let copied = clone_store(&self.merchant_key_store[i]);
            proof {
                assert(copied.deep_view() == self.merchant_key_store.deep_view()[i as int]);
            }
            let ghost prev = out.deep_view();
            out.push(copied);
            proof {
                assert(out.deep_view() =~= prev.push(copied.deep_view()));
                assert(self.merchant_key_store.deep_view().subrange(0, i + 1) =~= prev.push(
                    copied.deep_view(),
                ));
            }
            i = i + 1;
        }
        proof {
            assert(self.merchant_key_store.deep_view().subrange(0, n as int)
                =~= self.merchant_key_store.deep_view());
        }
        out
    }
}

/// The cache key under which a merchant's key store is memoized by the
/// caching collaborator, and which is redacted when the row is deleted.
pub fn merchant_key_store_cache_key(merchant_id: &str) -> (r: String)
    ensures
        r@ == "merchant_key_store_"@ + merchant_id@,
{
    let mut s = String::new();
    s.append("merchant_key_store_");
    s.append(merchant_id);
    s
}

/// Whether one of the strings in `haystack` holds the same characters as
/// `needle`.
fn contains_string(haystack: &Vec<String>, needle: &str) -> (r: bool)
    ensures
        r == haystack.deep_view().contains(needle@),
{
    let n = haystack.len();
    let mut i: usize = 0;
    while i < n
        invariant
            n == haystack.len(),
            0 <= i <= n,
            forall|j: int| 0 <= j < i ==> haystack.deep_view()[j] != needle@,
        decreases n - i,
    {
        if str_eq(haystack[i].as_str(), needle) {
            assert(haystack.deep_view()[i as int] == needle@);
            return true;
        }
        i = i + 1;
    }
    proof {
        assert(forall|j: int| 0 <= j < haystack.deep_view().len() ==> haystack.deep_view()[j]
            != needle@);
    }
    false
}

} // verus!
