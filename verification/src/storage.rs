//! The store of secrets, behind one interface for every backend of the
//! operating system (Keychain, DPAPI with Credential Manager, Secret
//! Service). The in-memory store below serves development only: it keeps
//! secrets in clear.
use vstd::prelude::*;
use crate::keyed::{
    distinct_keys, find_key, keyed_map, lemma_keyed_map_at, lemma_keyed_map_push,
    lemma_keyed_map_remove, lemma_keyed_map_update, Keyed,
};

verus! {

/// Why a store could not serve a request.
#[derive(Debug)]
pub enum StoreError {
    /// No secret is stored under the given id.
    NotFound(String),
    /// The backend failed.
    Backend(String),
}

/// A store of secrets, each under an id.
pub trait SecretStore: Send + Sync {
    /// The secrets held, by id.
    spec fn secrets(&self) -> Map<Seq<char>, Seq<u8>>;

    /// Stores `secret` under `id`, replacing what was there.
    fn put(&mut self, id: &str, secret: &[u8]) -> (r: Result<(), StoreError>)
        ensures
            r is Ok ==> final(self).secrets() == old(self).secrets().insert(id@, secret@),
    ;

    /// The secret stored under `id`.
    fn get(&self, id: &str) -> (r: Result<Vec<u8>, StoreError>)
        ensures
            r matches Ok(v) ==> self.secrets().contains_key(id@) && v@ == self.secrets()[id@],
            r matches Err(StoreError::NotFound(missing)) ==> !self.secrets().contains_key(id@)
                && missing@ == id@,
    ;

    /// Forgets the secret stored under `id`, if any.
    fn delete(&mut self, id: &str) -> (r: Result<(), StoreError>)
        ensures
            r is Ok ==> final(self).secrets() == old(self).secrets().remove(id@),
    ;
}

/// A secret and the id it is stored under.
struct Entry {
    id: String,
    secret: Vec<u8>,
}

impl Keyed for Entry {
    type V = Seq<u8>;

    closed spec fn key_view(&self) -> Seq<char> {
        self.id@
    }

    closed spec fn value_view(&self) -> Seq<u8> {
        self.secret@
    }

    fn key(&self) -> (r: &String) {
        &self.id
    }
}

/// A store that keeps its secrets in memory, in clear. For development
/// only.
pub struct InMemoryStore {
    entries: Vec<Entry>,
}

impl InMemoryStore {
    #[verifier::type_invariant]
    spec fn inv(self) -> bool {
        distinct_keys(self.entries@)
    }
}

impl Default for InMemoryStore {
    /// An empty store.
    fn default() -> (r: Self)
        ensures
            r.secrets() == Map::<Seq<char>, Seq<u8>>::empty(),
    {
        let r = InMemoryStore { entries: Vec::new() };
        assert(keyed_map(r.entries@) =~= Map::<Seq<char>, Seq<u8>>::empty());
        r
    }
}

impl SecretStore for InMemoryStore {
    closed spec fn secrets(&self) -> Map<Seq<char>, Seq<u8>> {
        keyed_map(self.entries@)
    }

    /// Always succeeds.
    fn put(&mut self, id: &str, secret: &[u8]) -> (r: Result<(), StoreError>)
        ensures
            r is Ok,
    {
        proof {
            use_type_invariant(&*self);
        }
        let e = Entry { id: id.to_owned(), secret: vstd::slice::slice_to_vec(secret) };
        let found = find_key(&self.entries, &e.id);
        let mut entries: Vec<Entry> = Vec::new();
        std::mem::swap(&mut entries, &mut self.entries);
        match found {
            Some(i) => {
                proof {
                    lemma_keyed_map_update(entries@, i as int, e);
                }
                entries.set(i, e);
            },
            None => {
                proof {
                    lemma_keyed_map_push(entries@, e);
                }
                entries.push(e);
            },
        }
        self.entries = entries;
        Ok(())
    }

    /// Fails exactly when nothing is stored under `id`, and then with
    /// `NotFound(id)`.
    fn get(&self, id: &str) -> (r: Result<Vec<u8>, StoreError>)
        ensures
            r is Ok <==> self.secrets().contains_key(id@),
            !self.secrets().contains_key(id@) ==> (r matches Err(StoreError::NotFound(missing))
                && missing@ == id@),
    {
        proof {
            use_type_invariant(self);
        }
        let key = id.to_owned();
        match find_key(&self.entries, &key) {
            Some(i) => {
                proof {
                    lemma_keyed_map_at(self.entries@, i as int);
                }
                Ok(self.entries[i].secret.clone())
            },
            None => Err(StoreError::NotFound(key)),
        }
    }

    /// Always succeeds, also where nothing was stored under `id`.
    fn delete(&mut self, id: &str) -> (r: Result<(), StoreError>)
        ensures
            r is Ok,
    {
        proof {
            use_type_invariant(&*self);
        }
        let key = id.to_owned();
        match find_key(&self.entries, &key) {
            Some(i) => {
                let mut entries: Vec<Entry> = Vec::new();
                std::mem::swap(&mut entries, &mut self.entries);
                proof {
                    lemma_keyed_map_remove(entries@, i as int);
                }
                entries.remove(i);
                self.entries = entries;
            },
            None => {
                assert(keyed_map(self.entries@).remove(id@) =~= keyed_map(self.entries@));
            },
        }
        Ok(())
    }
}

/// What a successful `put` of `secret` under `id` leaves is read back by
/// `get`: the store holds `secret` under `id`, so a read that succeeds
/// gives `secret`, and a read of the in-memory store succeeds.
pub proof fn lemma_get_after_put<S: SecretStore>(before: S, after: S, id: Seq<char>, secret: Seq<u8>)
    requires
        after.secrets() == before.secrets().insert(id, secret),
    ensures
        after.secrets().contains_key(id),
        after.secrets()[id] == secret,
{
}

/// After a successful `delete` of `id`, nothing is stored under `id`: a
/// read of it fails, with `NotFound` in the in-memory store.
pub proof fn lemma_get_after_delete<S: SecretStore>(before: S, after: S, id: Seq<char>)
    requires
        after.secrets() == before.secrets().remove(id),
    ensures
        !after.secrets().contains_key(id),
{
}

/// A successful `put` or `delete` under `id` leaves every other id of the
/// store as it was.
pub proof fn lemma_other_ids_untouched<S: SecretStore>(
    before: S,
    after: S,
    id: Seq<char>,
    secret: Seq<u8>,
    other: Seq<char>,
)
    requires
        other != id,
        after.secrets() == before.secrets().insert(id, secret) || after.secrets()
            == before.secrets().remove(id),
    ensures
        after.secrets().contains_key(other) == before.secrets().contains_key(other),
        before.secrets().contains_key(other) ==> after.secrets()[other] == before.secrets()[other],
{
}

} // verus!
