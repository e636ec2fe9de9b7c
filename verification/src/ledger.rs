//! A model of a verifiable ledger of accounts, held in memory. It states
//! the contract under which this library talks to a ledger: which
//! transactions are taken, and what they do to an account.
//!
//! The model is no ledger: it keeps no history, proves nothing to a third
//! party and forgets its accounts with the process. Its encodings, its
//! nonces and its curve are this library's own, and nothing here shows that
//! a ledger elsewhere takes and refuses the same transactions. A service
//! that talks to such a ledger asks it for the account, lets
//! `UserService::registration_step` or `UserService::addition_step` decide,
//! submits the transaction that they give, and hands the answer to
//! `submission_outcome`.

use vstd::prelude::*;
use vstd::string::*;
use crate::signature::{
    ecdsa_sha256_accepts, ecdsa_sha256_verify, signed_message, SignatureBundle, SignatureBundleView, SignatureService,
};
use crate::text::{all_different, first_index, lemma_first_index_bounds, lemma_first_index_is, str_equal};
use crate::transaction::{
    challenge_message, challenge_message_for, payload_of, Operation, OperationView, Transaction, TransactionView,
};

verus! {

/// Data that was added to an account, with the user's signature over it.
#[derive(Debug)]
pub struct SignedData {
    pub data: Vec<u8>,
    pub signature_bundle: SignatureBundle,
}

pub struct SignedDataView {
    pub data: Seq<u8>,
    pub signature_bundle: SignatureBundleView,
}

impl View for SignedData {
    type V = SignedDataView;

    open spec fn view(&self) -> SignedDataView {
        SignedDataView { data: self.data@, signature_bundle: self.signature_bundle@ }
    }
}

/// What each of the entries holds.
pub open spec fn entries_view(entries: Seq<SignedData>) -> Seq<SignedDataView> {
    entries.map_values(|entry: SignedData| entry@)
}

/// An account of the ledger: an identifier bound to a verifying key, with
/// the signed data that was added to it, in the order of adding.
#[derive(Debug)]
pub struct LedgerAccount {
    pub id: String,
    pub service_id: String,
    pub verifying_key: Vec<u8>,
    pub signed_data: Vec<SignedData>,
    /// The nonce that the next transaction on this account must bear.
    pub nonce: u64,
}

pub struct LedgerAccountView {
    pub id: Seq<char>,
    pub service_id: Seq<char>,
    pub verifying_key: Seq<u8>,
    pub signed_data: Seq<SignedDataView>,
    pub nonce: u64,
}

impl View for LedgerAccount {
    type V = LedgerAccountView;

    open spec fn view(&self) -> LedgerAccountView {
        LedgerAccountView {
            id: self.id@,
            service_id: self.service_id@,
            verifying_key: self.verifying_key@,
            signed_data: entries_view(self.signed_data@),
            nonce: self.nonce,
        }
    }
}

impl Clone for SignedData {
    fn clone(&self) -> (copy: Self)
        ensures
            copy@ == self@,
    {
        SignedData { data: self.data.clone(), signature_bundle: self.signature_bundle.clone() }
    }
}

impl Clone for LedgerAccount {
    fn clone(&self) -> (copy: Self)
        ensures
            copy@ == self@,
    {
        let mut signed_data: Vec<SignedData> = Vec::new();
        let mut index: usize = 0;
        while index < self.signed_data.len()
            invariant
                index <= self.signed_data@.len(),
                signed_data@.len() == index,
                forall|i: int| 0 <= i < index ==> signed_data@[i]@ == self.signed_data@[i]@,
            decreases self.signed_data@.len() - index,
        {
            let copy = self.signed_data[index].clone();
            signed_data.push(copy);
            index += 1;
        }
        assert(entries_view(signed_data@) =~= entries_view(self.signed_data@));
        LedgerAccount {
            id: self.id.clone(),
            service_id: self.service_id.clone(),
            verifying_key: self.verifying_key.clone(),
            signed_data,
            nonce: self.nonce,
        }
    }
}

/// A service that may authorise the creation of accounts, with the key
/// that its signatures are verified with.
#[derive(Debug)]
pub struct ServiceRegistration {
    pub id: String,
    pub verifying_key: Vec<u8>,
}

/// Why the ledger did not take a transaction.
#[derive(Debug, Clone, Copy, PartialEq, Eq, Structural)]
pub enum TransactionError {
    /// The transaction is about another account than its operation.
    AccountMismatch,
    /// The account to create is there already.
    AccountExists,
    /// The account to change is not there.
    UnknownAccount,
    /// The service is not registered, or is registered already.
    UnknownService,
    ServiceExists,
    /// The transaction does not bear the nonce that the account expects.
    /// An account that has used up its nonces expects none.
    NonceMismatch,
    /// The service's signature over the challenge message does not verify.
    ChallengeMismatch,
    /// The signature that authorises the transaction does not verify.
    SignatureMismatch,
    /// The user's signature over the data does not verify.
    DataSignatureMismatch,
}

/// The identifiers of accounts, in their order.
pub open spec fn account_ids(accounts: Seq<LedgerAccount>) -> Seq<Seq<char>> {
    accounts.map_values(|account: LedgerAccount| account.id@)
}

/// The identifiers of services, in their order.
pub open spec fn service_ids(services: Seq<ServiceRegistration>) -> Seq<Seq<char>> {
    services.map_values(|service: ServiceRegistration| service.id@)
}

/// What each of the accounts holds.
pub open spec fn accounts_view(accounts: Seq<LedgerAccount>) -> Seq<LedgerAccountView> {
    accounts.map_values(|account: LedgerAccount| account@)
}

/// Whether no two of the identifiers are the same.
pub open spec fn all_distinct(ids: Seq<Seq<char>>) -> bool {
    all_different(ids)
}

/// Whether two byte strings are the same.
pub fn bytes_equal(left: &[u8], right: &[u8]) -> (same: bool)
    ensures
        same == (left@ == right@),
{
    if left.len() != right.len() {
        return false;
    }
    let mut index: usize = 0;
    while index < left.len()
        invariant
            left@.len() == right@.len(),
            index <= left@.len(),
            forall|i: int| 0 <= i < index ==> left@[i] == right@[i],
        decreases left@.len() - index,
    {
        if left[index] != right[index] {
            return false;
        }
        index += 1;
    }
    assert(left@ =~= right@);
    true
}

/// The ledger: services, and the accounts created for them. No two
/// accounts of a ledger share an identifier, and no two services.
pub struct Ledger {
    accounts: Vec<LedgerAccount>,
    services: Vec<ServiceRegistration>,
}

/// What the ledger holds: accounts and services, each in the order of
/// their coming.
pub struct LedgerView {
    pub accounts: Seq<LedgerAccount>,
    pub services: Seq<ServiceRegistration>,
}

impl View for Ledger {
    type V = LedgerView;

    closed spec fn view(&self) -> LedgerView {
        LedgerView { accounts: self.accounts@, services: self.services@ }
    }
}

impl Ledger {
    #[verifier::type_invariant]
    spec fn holds_no_identifier_twice(&self) -> bool {
        self.wf()
    }

    /// No two accounts and no two services share an identifier. This holds
    /// of every ledger.
    pub open spec fn wf(&self) -> bool {
        &&& all_distinct(account_ids(self@.accounts))
        &&& all_distinct(service_ids(self@.services))
    }

    /// The accounts, in the order of their creation.
    pub fn accounts(&self) -> (accounts: &Vec<LedgerAccount>)
        ensures
            accounts@ == self@.accounts,
            self.wf(),
    {
        proof {
            use_type_invariant(self);
        }
        &self.accounts
    }

    /// The services, in the order of their registration.
    pub fn services(&self) -> (services: &Vec<ServiceRegistration>)
        ensures
            services@ == self@.services,
            self.wf(),
    {
        proof {
            use_type_invariant(self);
        }
        &self.services
    }

    /// The place of the account `id`, or the number of accounts where there
    /// is none.
    pub open spec fn account_index(&self, id: Seq<char>) -> int {
        first_index(account_ids(self@.accounts), id)
    }

    pub open spec fn has_account(&self, id: Seq<char>) -> bool {
        self.account_index(id) < self@.accounts.len()
    }

    /// The account `id`, where there is one.
    pub open spec fn account(&self, id: Seq<char>) -> LedgerAccountView {
        self@.accounts[self.account_index(id)]@
    }

    pub open spec fn service_index(&self, id: Seq<char>) -> int {
        first_index(service_ids(self@.services), id)
    }

    pub open spec fn has_service(&self, id: Seq<char>) -> bool {
        self.service_index(id) < self@.services.len()
    }

    /// The verifying key of the service `id`, where it is registered.
    pub open spec fn service_key(&self, id: Seq<char>) -> Seq<u8> {
        self@.services[self.service_index(id)].verifying_key@
    }

    /// A ledger without services or accounts.
    pub fn new() -> (ledger: Self)
        ensures
            ledger.wf(),
            ledger@.accounts.len() == 0,
            ledger@.services.len() == 0,
    {
        Ledger { accounts: Vec::new(), services: Vec::new() }
    }

    /// Finds the place of the account `id`.
    pub fn find_account(&self, id: &str) -> (index: usize)
        ensures
            index == self.account_index(id@),
            index <= self@.accounts.len(),
            index < self@.accounts.len() ==> self@.accounts[index as int].id@ == id@,
    {
        let mut index: usize = 0;
        while index < self.accounts.len() && !str_equal(self.accounts[index].id.as_str(), id)
            invariant
                index <= self@.accounts.len(),
                forall|i: int| 0 <= i < index ==> self@.accounts[i].id@ != id@,
            decreases self@.accounts.len() - index,
        {
            index += 1;
        }
        proof {
            lemma_first_index_is(account_ids(self@.accounts), id@, index as int);
        }
        index
    }

    /// Finds the place of the service `id`.
    pub fn find_service(&self, id: &str) -> (index: usize)
        ensures
            index == self.service_index(id@),
            index <= self@.services.len(),
            index < self@.services.len() ==> self@.services[index as int].id@ == id@,
    {
        let mut index: usize = 0;
        while index < self.services.len() && !str_equal(self.services[index].id.as_str(), id)
            invariant
                index <= self@.services.len(),
                forall|i: int| 0 <= i < index ==> self@.services[i].id@ != id@,
            decreases self@.services.len() - index,
        {
            index += 1;
        }
        proof {
            lemma_first_index_is(service_ids(self@.services), id@, index as int);
        }
        index
    }

    /// Looks an account up by its identifier.
    pub fn get_account(&self, id: &str) -> (account: Option<LedgerAccount>)
        ensures
            account.is_some() == self.has_account(id@),
            account.is_some() ==> account.unwrap()@ == self.account(id@),
    {
        let index = self.find_account(id);
        if index < self.accounts.len() {
            Some(self.accounts[index].clone())
        } else {
            None
        }
    }

    /// Registers a service with the key that verifies its signatures. A
    /// service that is registered already stays as it is.
    pub fn register_service(&mut self, id: String, verifying_key: Vec<u8>) -> (result: Result<(), TransactionError>)
        ensures
            final(self).wf(),
            final(self)@.accounts == old(self)@.accounts,
            old(self).has_service(id@) ==> result == Err::<(), TransactionError>(TransactionError::ServiceExists)
                && final(self)@.services == old(self)@.services,
            !old(self).has_service(id@) ==> result is Ok && final(self).has_service(id@) && final(self).service_key(
                id@,
            ) == verifying_key@ && final(self)@.services.len() == old(self)@.services.len() + 1,
    {
        proof {
            use_type_invariant(&*self);
        }
        let index = self.find_service(id.as_str());
        if index < self.services.len() {
            return Err(TransactionError::ServiceExists);
        }
        proof {
            lemma_first_index_bounds(service_ids(self@.services), id@);
        }
        let mut services: Vec<ServiceRegistration> = Vec::new();
        core::mem::swap(&mut services, &mut self.services);
        let ghost before = services@;
        services.push(ServiceRegistration { id, verifying_key });
        proof {
            let ids = service_ids(services@);
            assert(ids =~= service_ids(before).push(id@));
            lemma_first_index_is(ids, id@, before.len() as int);
        }
        self.services = services;
        Ok(())
    }

    /// Why the ledger does not take a transaction, or `None` where it
    /// takes it. An account is created once, for a registered service whose
    /// signature over the challenge message verifies, by a transaction that
    /// the user's wallet signed: the signature is over the canonical message
    /// for the bytes to sign. Data is added to an account that is there, by
    /// a transaction that the account's service signed, with the user's
    /// signature over the data. Every transaction bears the nonce that its
    /// account expects: zero for a creation.
    pub open spec fn rejection(&self, transaction: TransactionView) -> Option<TransactionError> {
        let signature = transaction.signature;
        match transaction.operation {
            OperationView::CreateAccount { id, service_id, challenge, key } => {
                if transaction.id != id {
                    Some(TransactionError::AccountMismatch)
                } else if self.has_account(id) {
                    Some(TransactionError::AccountExists)
                } else if transaction.nonce != 0 {
                    Some(TransactionError::NonceMismatch)
                } else if !self.has_service(service_id) {
                    Some(TransactionError::UnknownService)
                } else if !ecdsa_sha256_accepts(
                    self.service_key(service_id),
                    challenge_message(id, service_id, key),
                    challenge,
                ) {
                    Some(TransactionError::ChallengeMismatch)
                } else if signature.verifying_key != key || !ecdsa_sha256_accepts(
                    key,
                    signed_message(id, payload_of(transaction)),
                    signature.signature,
                ) {
                    Some(TransactionError::SignatureMismatch)
                } else {
                    None
                }
            },
            OperationView::AddData { data, data_signature } => {
                if !self.has_account(transaction.id) {
                    Some(TransactionError::UnknownAccount)
                } else {
                    let account = self.account(transaction.id);
                    if transaction.nonce != account.nonce || account.nonce == u64::MAX {
                        Some(TransactionError::NonceMismatch)
                    } else if !self.has_service(account.service_id) {
                        Some(TransactionError::UnknownService)
                    } else if signature.verifying_key != self.service_key(account.service_id)
                        || !ecdsa_sha256_accepts(
                        self.service_key(account.service_id),
                        payload_of(transaction),
                        signature.signature,
                    ) {
                        Some(TransactionError::SignatureMismatch)
                    } else if data_signature.verifying_key != account.verifying_key || !ecdsa_sha256_accepts(
                        account.verifying_key,
                        data,
                        data_signature.signature,
                    ) {
                        Some(TransactionError::DataSignatureMismatch)
                    } else {
                        None
                    }
                }
            },
        }
    }

    /// The account that a transaction leaves behind, where the ledger takes
    /// it: a new account without data, or the account with the data added
    /// at the end. Either way the account expects the next nonce.
    pub open spec fn applied(&self, transaction: TransactionView) -> LedgerAccountView {
        match transaction.operation {
            OperationView::CreateAccount { id, service_id, challenge, key } => LedgerAccountView {
                id,
                service_id,
                verifying_key: key,
                signed_data: Seq::empty(),
                nonce: 1,
            },
            OperationView::AddData { data, data_signature } => {
                let account = self.account(transaction.id);
                LedgerAccountView {
                    id: account.id,
                    service_id: account.service_id,
                    verifying_key: account.verifying_key,
                    signed_data: account.signed_data.push(SignedDataView { data, signature_bundle: data_signature }),
                    nonce: (account.nonce + 1) as u64,
                }
            },
        }
    }

    /// The accounts after a transaction that the ledger takes: a created
    /// account comes last, a changed account stays in its place.
    pub open spec fn accounts_after(&self, transaction: TransactionView) -> Seq<LedgerAccountView> {
        match transaction.operation {
            OperationView::CreateAccount { .. } => accounts_view(self@.accounts).push(self.applied(transaction)),
            OperationView::AddData { .. } => accounts_view(self@.accounts).update(
                self.account_index(transaction.id),
                self.applied(transaction),
            ),
        }
    }

    /// Whether `after` and `result` are what handing `transaction` to this
    /// ledger gives: a transaction that is not taken leaves the ledger as
    /// it was.
    pub open spec fn is_submission(
        &self,
        transaction: TransactionView,
        after: &Ledger,
        result: Result<LedgerAccount, TransactionError>,
    ) -> bool {
        &&& after@.services == self@.services
        &&& match self.rejection(transaction) {
            Some(error) => result is Err && result->Err_0 == error && after@.accounts == self@.accounts,
            None => result is Ok && result->Ok_0@ == self.applied(transaction) && accounts_view(after@.accounts)
                == self.accounts_after(transaction),
        }
    }

    /// Hands a transaction to the ledger. A transaction that is not taken
    /// leaves the ledger as it was.
    pub fn submit(&mut self, transaction: Transaction) -> (result: Result<LedgerAccount, TransactionError>)
        ensures
            final(self).wf(),
            old(self).is_submission(transaction@, final(self), result),
    {
        proof {
            use_type_invariant(&*self);
        }
        let (unsigned, signature) = transaction.into_parts();
        let payload = unsigned.signing_payload();
        let account_id = unsigned.id;
        let nonce = unsigned.nonce;
        match unsigned.operation {
            Operation::CreateAccount { id, service_id, challenge, key } => {
                if !str_equal(account_id.as_str(), id.as_str()) {
                    return Err(TransactionError::AccountMismatch);
                }
                let place = self.find_account(id.as_str());
                if place < self.accounts.len() {
                    return Err(TransactionError::AccountExists);
                }
                if nonce != 0 {
                    return Err(TransactionError::NonceMismatch);
                }
                let service = self.find_service(service_id.as_str());
                if service >= self.services.len() {
                    return Err(TransactionError::UnknownService);
                }
                let message = challenge_message_for(id.as_str(), service_id.as_str(), key.as_slice());
                if !ecdsa_sha256_verify(
                    self.services[service].verifying_key.as_slice(),
                    message.as_slice(),
                    challenge.as_slice(),
                ) {
                    return Err(TransactionError::ChallengeMismatch);
                }
                if !bytes_equal(signature.verifying_key.as_slice(), key.as_slice()) {
                    return Err(TransactionError::SignatureMismatch);
                }
                let signed = SignatureService::message_to_sign(id.as_str(), payload.as_slice());
                if !ecdsa_sha256_verify(key.as_slice(), signed.as_slice(), signature.signature.as_slice()) {
                    return Err(TransactionError::SignatureMismatch);
                }
                let account = LedgerAccount { id, service_id, verifying_key: key, signed_data: Vec::new(), nonce: 1 };
                let copy = account.clone();
                let mut accounts: Vec<LedgerAccount> = Vec::new();
                core::mem::swap(&mut accounts, &mut self.accounts);
                let ghost before = accounts@;
                proof {
                    lemma_first_index_bounds(account_ids(before), account.id@);
                    assert(entries_view(account.signed_data@) =~= Seq::<SignedDataView>::empty());
                }
                accounts.push(account);
                proof {
                    assert(account_ids(accounts@) =~= account_ids(before).push(account.id@));
                    assert(accounts_view(accounts@) =~= accounts_view(before).push(account@));
                }
                self.accounts = accounts;
                Ok(copy)
            },
            Operation::AddData { data, data_signature } => {
                let place = self.find_account(account_id.as_str());
                if place >= self.accounts.len() {
                    return Err(TransactionError::UnknownAccount);
                }
                if nonce != self.accounts[place].nonce {
                    return Err(TransactionError::NonceMismatch);
                }
                if nonce == u64::MAX {
                    return Err(TransactionError::NonceMismatch);
                }
                let service = self.find_service(self.accounts[place].service_id.as_str());
                if service >= self.services.len() {
                    return Err(TransactionError::UnknownService);
                }
                if !bytes_equal(signature.verifying_key.as_slice(), self.services[service].verifying_key.as_slice()) {
                    return Err(TransactionError::SignatureMismatch);
                }
                if !ecdsa_sha256_verify(
                    self.services[service].verifying_key.as_slice(),
                    payload.as_slice(),
                    signature.signature.as_slice(),
                ) {
                    return Err(TransactionError::SignatureMismatch);
                }
                if !bytes_equal(data_signature.verifying_key.as_slice(), self.accounts[place].verifying_key.as_slice()) {
                    return Err(TransactionError::DataSignatureMismatch);
                }
                if !ecdsa_sha256_verify(
                    self.accounts[place].verifying_key.as_slice(),
                    data.as_slice(),
                    data_signature.signature.as_slice(),
                ) {
                    return Err(TransactionError::DataSignatureMismatch);
                }
                let mut accounts: Vec<LedgerAccount> = Vec::new();
                core::mem::swap(&mut accounts, &mut self.accounts);
                let ghost before = accounts@;
                let mut account = accounts.remove(place);
                let ghost entries = account.signed_data@;
                let entry = SignedData { data, signature_bundle: data_signature };
                account.signed_data.push(entry);
                account.nonce = nonce + 1;
                let copy = account.clone();
                proof {
                    assert(entries_view(account.signed_data@) =~= entries_view(entries).push(entry@));
                }
                accounts.insert(place, account);
                proof {
                    assert(account_ids(accounts@) =~= account_ids(before));
                    assert(accounts_view(accounts@) =~= accounts_view(before).update(place as int, account@));
                }
                self.accounts = accounts;
                Ok(copy)
            },
        }
    }
}

} // verus!
