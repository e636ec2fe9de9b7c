//! Bookkeeping beside the ledger: the users that signed in and the proofs
//! that were applied. A proof is an immutable fact: it is stored once,
//! under the fingerprint of its raw bytes, and never changed afterwards.
//!
//! `UserRepo` holds its rows in memory and states what a store must keep:
//! one row for each user, one proof for each fingerprint, every proof with
//! the user it belongs to. A relational store behind the service keeps the
//! same rows under the same rules.

use vstd::prelude::*;
use vstd::string::*;
use crate::codec::{hash_bytes_sha256, hex_encoding, sha256_digest};
use crate::text::{all_different, first_index, lemma_first_index_bounds, lemma_first_index_is, str_equal};

verus! {

/// A user that signed in: the signer's identifier, the public key in the
/// form it was sent in, and the time of the first sign-in.
#[derive(Debug)]
pub struct UserEntity {
    pub id: String,
    pub public_key: String,
    pub created_at: i64,
}

pub struct UserEntityView {
    pub id: Seq<char>,
    pub public_key: Seq<char>,
    pub created_at: i64,
}

impl View for UserEntity {
    type V = UserEntityView;

    open spec fn view(&self) -> UserEntityView {
        UserEntityView { id: self.id@, public_key: self.public_key@, created_at: self.created_at }
    }
}

impl Clone for UserEntity {
    fn clone(&self) -> (copy: Self)
        ensures
            copy@ == self@,
    {
        UserEntity { id: self.id.clone(), public_key: self.public_key.clone(), created_at: self.created_at }
    }
}

/// A proof that was applied for a user.
#[derive(Debug)]
pub struct ProofEntity {
    pub provider_id: String,
    pub user_id: String,
    pub raw_data: Option<Vec<u8>>,
    pub raw_data_hash: String,
    pub created_at: i64,
}

pub struct ProofEntityView {
    pub provider_id: Seq<char>,
    pub user_id: Seq<char>,
    pub raw_data: Option<Seq<u8>>,
    pub raw_data_hash: Seq<char>,
    pub created_at: i64,
}

impl View for ProofEntity {
    type V = ProofEntityView;

    open spec fn view(&self) -> ProofEntityView {
        ProofEntityView {
            provider_id: self.provider_id@,
            user_id: self.user_id@,
            raw_data: match self.raw_data {
                Some(raw) => Some(raw@),
                None => None,
            },
            raw_data_hash: self.raw_data_hash@,
            created_at: self.created_at,
        }
    }
}

impl Clone for ProofEntity {
    fn clone(&self) -> (copy: Self)
        ensures
            copy@ == self@,
    {
        ProofEntity {
            provider_id: self.provider_id.clone(),
            user_id: self.user_id.clone(),
            raw_data: match &self.raw_data {
                Some(raw) => Some(raw.clone()),
                None => None,
            },
            raw_data_hash: self.raw_data_hash.clone(),
            created_at: self.created_at,
        }
    }
}

/// The fingerprint of raw proof bytes: the lowercase hexadecimal SHA-256
/// digest.
pub open spec fn fingerprint(raw: Seq<u8>) -> Seq<char> {
    hex_encoding(sha256_digest(raw))
}

impl ProofEntity {
    /// The hash is the fingerprint of the raw bytes, where there are any.
    pub open spec fn wf(&self) -> bool {
        self.raw_data matches Some(raw) ==> self.raw_data_hash@ == fingerprint(raw@)
    }

    /// The record of a proof with the given raw bytes, under their
    /// fingerprint.
    pub fn new(provider_id: String, user_id: String, raw_data: Vec<u8>, created_at: i64) -> (proof: Self)
        ensures
            proof.wf(),
            proof.provider_id == provider_id,
            proof.user_id == user_id,
            proof.raw_data matches Some(raw) && raw@ == raw_data@,
            proof.raw_data_hash@ == fingerprint(raw_data@),
            proof.created_at == created_at,
    {
        let raw_data_hash = hash_bytes_sha256(raw_data.clone());
        ProofEntity { provider_id, user_id, raw_data: Some(raw_data), raw_data_hash, created_at }
    }

    /// The raw bytes of the proof.
    pub fn get_raw_data(&self) -> (raw: Option<&Vec<u8>>)
        ensures
            raw.is_some() == self.raw_data.is_some(),
            raw.is_some() ==> *raw.unwrap() == self.raw_data.unwrap(),
    {
        match &self.raw_data {
            Some(raw) => Some(raw),
            None => None,
        }
    }

    /// Replaces the raw bytes, and the hash with their fingerprint.
    pub fn set_raw_proof(&mut self, raw_data: Vec<u8>)
        ensures
            final(self).wf(),
            final(self).raw_data matches Some(raw) && raw@ == raw_data@,
            final(self).raw_data_hash@ == fingerprint(raw_data@),
            final(self).provider_id == old(self).provider_id,
            final(self).user_id == old(self).user_id,
            final(self).created_at == old(self).created_at,
    {
        self.raw_data_hash = hash_bytes_sha256(raw_data.clone());
        self.raw_data = Some(raw_data);
    }
}

/// Why the store did not take a row.
#[derive(Debug, Clone, Copy, PartialEq, Eq, Structural)]
pub enum RepoError {
    /// A proof of this fingerprint is stored already, for whichever user.
    Conflict,
    /// A user of this identifier is stored already.
    DuplicateUser,
    /// The proof is for a user that is not stored.
    UnknownUser,
}

/// The identifiers of users, in their order.
pub open spec fn user_ids(users: Seq<UserEntity>) -> Seq<Seq<char>> {
    users.map_values(|user: UserEntity| user.id@)
}

/// The fingerprints of proofs, in their order.
pub open spec fn proof_hashes(proofs: Seq<ProofEntity>) -> Seq<Seq<char>> {
    proofs.map_values(|proof: ProofEntity| proof.raw_data_hash@)
}

/// The providers of proofs, in their order.
pub open spec fn proof_providers(proofs: Seq<ProofEntity>) -> Seq<Seq<char>> {
    proofs.map_values(|proof: ProofEntity| proof.provider_id@)
}

/// What each of the users holds.
pub open spec fn users_view(users: Seq<UserEntity>) -> Seq<UserEntityView> {
    users.map_values(|user: UserEntity| user@)
}

/// What each of the proofs holds.
pub open spec fn proofs_view(proofs: Seq<ProofEntity>) -> Seq<ProofEntityView> {
    proofs.map_values(|proof: ProofEntity| proof@)
}

/// Whether no two of the texts are the same.
pub open spec fn no_duplicates(texts: Seq<Seq<char>>) -> bool {
    all_different(texts)
}

/// The proofs of one user among proofs, in their order.
pub open spec fn proofs_of_user(proofs: Seq<ProofEntityView>, user_id: Seq<char>) -> Seq<ProofEntityView>
    decreases proofs.len(),
{
    if proofs.len() == 0 {
        Seq::empty()
    } else {
        let before = proofs_of_user(proofs.drop_last(), user_id);
        if proofs.last().user_id == user_id {
            before.push(proofs.last())
        } else {
            before
        }
    }
}

/// How often a text occurs among texts.
pub open spec fn occurrences(texts: Seq<Seq<char>>, wanted: Seq<char>) -> nat
    decreases texts.len(),
{
    if texts.len() == 0 {
        0
    } else {
        occurrences(texts.drop_last(), wanted) + if texts.last() == wanted {
            1nat
        } else {
            0nat
        }
    }
}

/// A text that occurs among texts occurs at least once, and a text that
/// occurs at least once is among them.
pub proof fn lemma_occurrences_positive(texts: Seq<Seq<char>>, wanted: Seq<char>)
    ensures
        occurrences(texts, wanted) > 0 <==> exists|i: int| 0 <= i < texts.len() && texts[i] == wanted,
        occurrences(texts, wanted) <= texts.len(),
    decreases texts.len(),
{
    if texts.len() > 0 {
        let before = texts.drop_last();
        lemma_occurrences_positive(before, wanted);
        if occurrences(texts, wanted) > 0 {
            if texts.last() == wanted {
                assert(texts[texts.len() - 1] == wanted);
            } else {
                let i = choose|i: int| 0 <= i < before.len() && before[i] == wanted;
                assert(texts[i] == wanted);
            }
        }
        if exists|i: int| 0 <= i < texts.len() && texts[i] == wanted {
            let i = choose|i: int| 0 <= i < texts.len() && texts[i] == wanted;
            if i < texts.len() - 1 {
                assert(before[i] == wanted);
            }
        }
    }
}

/// The providers of a tally, in their order.
pub open spec fn tally_keys(tally: Seq<(String, usize)>) -> Seq<Seq<char>> {
    tally.map_values(|entry: (String, usize)| entry.0@)
}

/// Whether a tally counts the texts: each text among them has exactly one
/// entry, with the number of its occurrences, and there is no other entry.
pub open spec fn is_tally(tally: Seq<(String, usize)>, texts: Seq<Seq<char>>) -> bool {
    &&& no_duplicates(tally_keys(tally))
    &&& forall|i: int| 0 <= i < tally.len() ==> (#[trigger] tally[i]).1 == occurrences(texts, tally[i].0@) && tally[i].1 > 0
    &&& forall|k: int|
        0 <= k < texts.len() ==> first_index(tally_keys(tally), #[trigger] texts[k]) < tally.len()
}

/// The store of users and proofs, held in memory. A relational store that
/// takes its place has to behave as this one does. No two users of a store
/// share an identifier, and no two proofs a fingerprint.
pub struct UserRepo {
    users: Vec<UserEntity>,
    proofs: Vec<ProofEntity>,
}

/// What the store holds: users and proofs, each in the order of storing.
pub struct UserRepoView {
    pub users: Seq<UserEntity>,
    pub proofs: Seq<ProofEntity>,
}

impl View for UserRepo {
    type V = UserRepoView;

    closed spec fn view(&self) -> UserRepoView {
        UserRepoView { users: self.users@, proofs: self.proofs@ }
    }
}

impl UserRepo {
    #[verifier::type_invariant]
    spec fn holds_no_row_twice(&self) -> bool {
        self.wf()
    }

    /// No two users share an identifier, and no two proofs a fingerprint.
    /// This holds of every store.
    pub open spec fn wf(&self) -> bool {
        &&& no_duplicates(user_ids(self@.users))
        &&& no_duplicates(proof_hashes(self@.proofs))
    }

    pub open spec fn has_user(&self, id: Seq<char>) -> bool {
        first_index(user_ids(self@.users), id) < self@.users.len()
    }

    /// Whether a proof of this fingerprint is stored.
    pub open spec fn has_proof(&self, hash: Seq<char>) -> bool {
        first_index(proof_hashes(self@.proofs), hash) < self@.proofs.len()
    }

    /// The users, in the order of storing.
    pub fn users(&self) -> (users: &Vec<UserEntity>)
        ensures
            users@ == self@.users,
            self.wf(),
    {
        proof {
            use_type_invariant(self);
        }
        &self.users
    }

    /// The proofs, in the order of storing.
    pub fn proofs(&self) -> (proofs: &Vec<ProofEntity>)
        ensures
            proofs@ == self@.proofs,
            self.wf(),
    {
        proof {
            use_type_invariant(self);
        }
        &self.proofs
    }

    /// A store without rows.
    pub fn new() -> (repo: Self)
        ensures
            repo.wf(),
            repo@.users.len() == 0,
            repo@.proofs.len() == 0,
    {
        UserRepo { users: Vec::new(), proofs: Vec::new() }
    }

    /// Finds the place of the user `id`, or the number of users.
    pub fn find_user(&self, id: &str) -> (index: usize)
        ensures
            index == first_index(user_ids(self@.users), id@),
            index <= self@.users.len(),
            index < self@.users.len() ==> self@.users[index as int].id@ == id@,
    {
        let mut index: usize = 0;
        while index < self.users.len() && !str_equal(self.users[index].id.as_str(), id)
            invariant
                index <= self.users@.len(),
                forall|i: int| 0 <= i < index ==> self.users@[i].id@ != id@,
            decreases self.users@.len() - index,
        {
            index += 1;
        }
        proof {
            lemma_first_index_is(user_ids(self.users@), id@, index as int);
        }
        index
    }

    /// Finds the place of the proof with this fingerprint, or the number
    /// of proofs.
    pub fn find_proof(&self, hash: &str) -> (index: usize)
        ensures
            index == first_index(proof_hashes(self@.proofs), hash@),
            index <= self@.proofs.len(),
            index < self@.proofs.len() ==> self@.proofs[index as int].raw_data_hash@ == hash@,
    {
        let mut index: usize = 0;
        while index < self.proofs.len() && !str_equal(self.proofs[index].raw_data_hash.as_str(), hash)
            invariant
                index <= self.proofs@.len(),
                forall|i: int| 0 <= i < index ==> self.proofs@[i].raw_data_hash@ != hash@,
            decreases self.proofs@.len() - index,
        {
            index += 1;
        }
        proof {
            lemma_first_index_is(proof_hashes(self.proofs@), hash@, index as int);
        }
        index
    }

    /// Stores a user. A second user of the same identifier is not taken.
    /// The number of rows stored is returned.
    pub fn insert_user(&mut self, user: UserEntity) -> (result: Result<usize, RepoError>)
        ensures
            final(self).wf(),
            final(self)@.proofs == old(self)@.proofs,
            old(self).has_user(user.id@) ==> result == Err::<usize, RepoError>(RepoError::DuplicateUser)
                && final(self)@.users == old(self)@.users,
            !old(self).has_user(user.id@) ==> result == Ok::<usize, RepoError>(1) && final(self)@.users == old(
                self,
            )@.users.push(user),
            result is Ok ==> final(self).has_user(user.id@),
    {
        proof {
            use_type_invariant(&*self);
        }
        let index = self.find_user(user.id.as_str());
        if index < self.users.len() {
            return Err(RepoError::DuplicateUser);
        }
        proof {
            lemma_first_index_bounds(user_ids(self.users@), user.id@);
        }
        let mut users: Vec<UserEntity> = Vec::new();
        core::mem::swap(&mut users, &mut self.users);
        let ghost before = users@;
        users.push(user);
        proof {
            assert(user_ids(users@) =~= user_ids(before).push(user.id@));
            lemma_first_index_is(user_ids(users@), user.id@, before.len() as int);
        }
        self.users = users;
        Ok(1)
    }

    /// Stores a proof, unless a proof of the same fingerprint is stored
    /// already, for this user or for another: that is a conflict, and the
    /// store stays as it was. The check and the insertion are one step.
    /// The number of rows stored is returned.
    pub fn insert_proof(&mut self, proof: ProofEntity) -> (result: Result<usize, RepoError>)
        ensures
            final(self).wf(),
            final(self)@.users == old(self)@.users,
            old(self).has_proof(proof.raw_data_hash@) ==> result == Err::<usize, RepoError>(RepoError::Conflict)
                && final(self)@.proofs == old(self)@.proofs,
            !old(self).has_proof(proof.raw_data_hash@) && !old(self).has_user(proof.user_id@) ==> result == Err::<
                usize,
                RepoError,
            >(RepoError::UnknownUser) && final(self)@.proofs == old(self)@.proofs,
            !old(self).has_proof(proof.raw_data_hash@) && old(self).has_user(proof.user_id@) ==> result == Ok::<
                usize,
                RepoError,
            >(1) && final(self)@.proofs == old(self)@.proofs.push(proof),
            result is Ok ==> final(self).has_proof(proof.raw_data_hash@),
    {
        proof {
            use_type_invariant(&*self);
        }
        let index = self.find_proof(proof.raw_data_hash.as_str());
        if index < self.proofs.len() {
            return Err(RepoError::Conflict);
        }
        let user = self.find_user(proof.user_id.as_str());
        if user >= self.users.len() {
            return Err(RepoError::UnknownUser);
        }
        proof {
            lemma_first_index_bounds(proof_hashes(self.proofs@), proof.raw_data_hash@);
        }
        let mut proofs: Vec<ProofEntity> = Vec::new();
        core::mem::swap(&mut proofs, &mut self.proofs);
        let ghost before = proofs@;
        proofs.push(proof);
        proof {
            assert(proof_hashes(proofs@) =~= proof_hashes(before).push(proof.raw_data_hash@));
            lemma_first_index_is(proof_hashes(proofs@), proof.raw_data_hash@, before.len() as int);
        }
        self.proofs = proofs;
        Ok(1)
    }

    /// Looks a user up by the identifier.
    pub fn get_user(&self, user_id: &str) -> (user: Option<UserEntity>)
        ensures
            user.is_some() == self.has_user(user_id@),
            user.is_some() ==> user.unwrap()@ == self@.users[first_index(user_ids(self@.users), user_id@)]@,
    {
        let index = self.find_user(user_id);
        if index < self.users.len() {
            Some(self.users[index].clone())
        } else {
            None
        }
    }

    /// Whether a proof of this fingerprint is stored.
    pub fn proof_exists_by_hash(&self, hash: &str) -> (exists: bool)
        ensures
            exists == self.has_proof(hash@),
    {
        self.find_proof(hash) < self.proofs.len()
    }

    /// The proofs of one user, in the order in which they were stored.
    pub fn get_proofs_by_user(&self, user_id: &str) -> (proofs: Vec<ProofEntity>)
        ensures
            proofs_view(proofs@) == proofs_of_user(proofs_view(self@.proofs), user_id@),
    {
        let mut proofs: Vec<ProofEntity> = Vec::new();
        let mut index: usize = 0;
        let ghost all = proofs_view(self.proofs@);
        assert(all.take(0) =~= Seq::<ProofEntityView>::empty());
        while index < self.proofs.len()
            invariant
                index <= self.proofs@.len(),
                all == proofs_view(self.proofs@),
                proofs_view(proofs@) == proofs_of_user(all.take(index as int), user_id@),
            decreases self.proofs@.len() - index,
        {
            let ghost before = proofs@;
            assert(all.take(index + 1).drop_last() =~= all.take(index as int));
            assert(all.take(index + 1).last() == self.proofs@[index as int]@);
            if str_equal(self.proofs[index].user_id.as_str(), user_id) {
                let copy = self.proofs[index].clone();
                proofs.push(copy);
                assert(proofs_view(proofs@) =~= proofs_view(before).push(copy@));
            }
            index += 1;
        }
        assert(all.take(index as int) =~= all);
        proofs
    }

    /// How many proofs are stored for each provider: one entry for each
    /// provider that has any, with the number of its proofs.
    pub fn get_proof_stats_by_provider_id(&self) -> (stats: Vec<(String, usize)>)
        ensures
            is_tally(stats@, proof_providers(self@.proofs)),
    {
        let mut stats: Vec<(String, usize)> = Vec::new();
        let mut index: usize = 0;
        let ghost providers = proof_providers(self.proofs@);
        assert(providers.take(0) =~= Seq::<Seq<char>>::empty());
        while index < self.proofs.len()
            invariant
                index <= self.proofs@.len(),
                providers == proof_providers(self.proofs@),
                is_tally(stats@, providers.take(index as int)),
            decreases self.proofs@.len() - index,
        {
            let ghost seen = providers.take(index as int);
            let ghost next = providers.take(index + 1);
            let ghost before = stats@;
            let provider = &self.proofs[index].provider_id;
            proof {
                assert(next.drop_last() =~= seen);
                assert(next.last() == provider@);
                lemma_occurrences_positive(seen, provider@);
            }
            let mut place: usize = 0;
            while place < stats.len() && !str_equal(stats[place].0.as_str(), provider.as_str())
                invariant
                    place <= stats@.len(),
                    stats@ == before,
                    forall|i: int| 0 <= i < place ==> stats@[i].0@ != provider@,
                decreases stats@.len() - place,
            {
                place += 1;
            }
            proof {
                lemma_first_index_is(tally_keys(before), provider@, place as int);
            }
            if place < stats.len() {
                let (name, count) = stats.remove(place);
                proof {
                    assert(count == occurrences(seen, provider@));
                    assert(count <= seen.len());
                }
                stats.insert(place, (name, count + 1));
                proof {
                    assert(tally_keys(stats@) =~= tally_keys(before));
                    assert forall|i: int| 0 <= i < stats@.len() implies (#[trigger] stats@[i]).1 == occurrences(
                        next,
                        stats@[i].0@,
                    ) && stats@[i].1 > 0 by {
                        if i != place {
                            assert(stats@[i] == before[i]);
                            assert(tally_keys(before)[i] != tally_keys(before)[place as int]);
                        }
                    }
                    assert forall|k: int| 0 <= k < next.len() implies first_index(
                        tally_keys(stats@),
                        #[trigger] next[k],
                    ) < stats@.len() by {
                        if k < seen.len() {
                            assert(seen[k] == next[k]);
                        }
                    }
                }
            } else {
                proof {
                    lemma_first_index_bounds(tally_keys(before), provider@);
                    if occurrences(seen, provider@) > 0 {
                        let k = choose|k: int| 0 <= k < seen.len() && seen[k] == provider@;
                        assert(first_index(tally_keys(before), seen[k]) < before.len());
                    }
                }
                stats.push((provider.clone(), 1));
                proof {
                    assert(tally_keys(stats@) =~= tally_keys(before).push(provider@));
                    assert forall|i: int| 0 <= i < stats@.len() implies (#[trigger] stats@[i]).1 == occurrences(
                        next,
                        stats@[i].0@,
                    ) && stats@[i].1 > 0 by {
                        if i < before.len() {
                            assert(stats@[i] == before[i]);
                            assert(tally_keys(before)[i] == before[i].0@);
                        }
                    }
                    assert forall|k: int| 0 <= k < next.len() implies first_index(
                        tally_keys(stats@),
                        #[trigger] next[k],
                    ) < stats@.len() by {
                        if k < seen.len() {
                            assert(seen[k] == next[k]);
                            let found = first_index(tally_keys(before), seen[k]);
                            lemma_first_index_bounds(tally_keys(before), seen[k]);
                            assert forall|i: int| 0 <= i < found implies tally_keys(stats@)[i] != seen[k] by {
                                assert(tally_keys(stats@)[i] == tally_keys(before)[i]);
                            }
                            assert(tally_keys(stats@)[found] == tally_keys(before)[found]);
                            lemma_first_index_is(tally_keys(stats@), seen[k], found);
                        } else {
                            lemma_first_index_is(tally_keys(stats@), provider@, before.len() as int);
                        }
                    }
                }
            }
            index += 1;
        }
        assert(providers.take(index as int) =~= providers);
        stats
    }
}

/// A proof is applied at most once: once a proof is stored, a proof of
/// the same fingerprint is a conflict, for the same user and for any
/// other. Proofs of the same raw bytes have the same fingerprint.
pub proof fn lemma_same_bytes_conflict(repo: &UserRepo, first: &ProofEntity, second: &ProofEntity)
    requires
        first.wf(),
        second.wf(),
        first.raw_data is Some,
        second.raw_data is Some,
        first.raw_data->Some_0@ == second.raw_data->Some_0@,
        repo.has_proof(first.raw_data_hash@),
    ensures
        second.raw_data_hash@ == first.raw_data_hash@,
        repo.has_proof(second.raw_data_hash@),
{
}

} // verus!
