//! Account transactions in two steps: an unsigned transaction states what
//! is to happen and gives the bytes to sign; only with a signature attached
//! does it become a transaction that a ledger takes.

use vstd::prelude::*;
use vstd::string::*;
use vstd::bytes::{spec_u64_to_le_bytes, u64_to_le_bytes};
use vstd::utf8::encode_utf8;
use crate::signature::{SignatureBundle, SignatureBundleView};

verus! {

/// The encoding of one field: its length in eight bytes, lowest first,
/// then its bytes.
pub open spec fn field_encoding(bytes: Seq<u8>) -> Seq<u8> {
    spec_u64_to_le_bytes(bytes.len() as u64) + bytes
}

/// Appends bytes to a buffer.
pub fn append_bytes(out: &mut Vec<u8>, bytes: &[u8])
    ensures
        final(out)@ == old(out)@ + bytes@,
{
    let ghost before = out@;
    let mut index: usize = 0;
    while index < bytes.len()
        invariant
            index <= bytes@.len(),
            out@ == before + bytes@.take(index as int),
        decreases bytes@.len() - index,
    {
        out.push(bytes[index]);
        index += 1;
        assert(out@ =~= before + bytes@.take(index as int));
    }
    assert(bytes@.take(index as int) =~= bytes@);
}

/// Appends the encoding of one field to a buffer.
pub fn append_field(out: &mut Vec<u8>, bytes: &[u8])
    ensures
        final(out)@ == old(out)@ + field_encoding(bytes@),
{
    let ghost before = out@;
    let length = u64_to_le_bytes(bytes.len() as u64);
    append_bytes(out, length.as_slice());
    append_bytes(out, bytes);
    assert(out@ =~= before + field_encoding(bytes@));
}

/// What a transaction does to an account.
#[derive(Debug)]
pub enum Operation {
    /// Creates the account `id` with the user's verifying key `key`, for
    /// the service `service_id`, whose signature over the challenge
    /// message authorises the creation.
    CreateAccount { id: String, service_id: String, challenge: Vec<u8>, key: Vec<u8> },
    /// Adds `data` to the account, with the user's signature over it.
    AddData { data: Vec<u8>, data_signature: SignatureBundle },
}

/// What an operation holds.
pub enum OperationView {
    CreateAccount { id: Seq<char>, service_id: Seq<char>, challenge: Seq<u8>, key: Seq<u8> },
    AddData { data: Seq<u8>, data_signature: SignatureBundleView },
}

impl View for Operation {
    type V = OperationView;

    open spec fn view(&self) -> OperationView {
        match self {
            Operation::CreateAccount { id, service_id, challenge, key } => OperationView::CreateAccount {
                id: id@,
                service_id: service_id@,
                challenge: challenge@,
                key: key@,
            },
            Operation::AddData { data, data_signature } => OperationView::AddData {
                data: data@,
                data_signature: data_signature@,
            },
        }
    }
}

/// The message that a service signs to authorise the creation of an
/// account: the account's id, the service's id and the user's key, each as
/// a field.
pub open spec fn challenge_message(id: Seq<char>, service_id: Seq<char>, key: Seq<u8>) -> Seq<u8> {
    field_encoding(encode_utf8(id)) + field_encoding(encode_utf8(service_id)) + field_encoding(key)
}

/// The encoding of an operation: a byte that tells the kind, then its
/// parts as fields.
pub open spec fn operation_encoding(operation: OperationView) -> Seq<u8> {
    match operation {
        OperationView::CreateAccount { id, service_id, challenge, key } => seq![0u8] + field_encoding(
            encode_utf8(id),
        ) + field_encoding(encode_utf8(service_id)) + field_encoding(challenge) + field_encoding(key),
        OperationView::AddData { data, data_signature } => seq![1u8] + field_encoding(data) + field_encoding(
            data_signature.verifying_key,
        ) + field_encoding(data_signature.signature),
    }
}

/// The bytes to sign for a transaction: the account's id as a field, the
/// nonce in eight bytes, and the operation.
pub open spec fn signing_payload_of(id: Seq<char>, operation: OperationView, nonce: u64) -> Seq<u8> {
    field_encoding(encode_utf8(id)) + spec_u64_to_le_bytes(nonce) + operation_encoding(operation)
}

/// Builds the message that a service signs to authorise the creation of an
/// account.
pub fn challenge_message_for(id: &str, service_id: &str, key: &[u8]) -> (message: Vec<u8>)
    ensures
        message@ == challenge_message(id@, service_id@, key@),
{
    let mut message: Vec<u8> = Vec::new();
    append_field(&mut message, id.as_bytes());
    append_field(&mut message, service_id.as_bytes());
    append_field(&mut message, key);
    assert(message@ =~= challenge_message(id@, service_id@, key@));
    message
}

/// A transaction that nobody has signed yet.
#[derive(Debug)]
pub struct UnsignedTransaction {
    pub id: String,
    pub operation: Operation,
    pub nonce: u64,
}

/// A transaction with the signature that authorises it. It comes only of
/// an unsigned transaction and a signature.
#[derive(Debug)]
pub struct Transaction {
    id: String,
    operation: Operation,
    nonce: u64,
    signature: SignatureBundle,
}

impl UnsignedTransaction {
    pub fn new(id: String, operation: Operation, nonce: u64) -> (transaction: Self)
        ensures
            transaction.id == id,
            transaction.operation == operation,
            transaction.nonce == nonce,
    {
        UnsignedTransaction { id, operation, nonce }
    }

    /// The bytes to sign for this transaction. The same transaction always
    /// gives the same bytes.
    pub fn signing_payload(&self) -> (payload: Vec<u8>)
        ensures
            payload@ == signing_payload_of(self.id@, self.operation@, self.nonce),
    {
        let mut payload: Vec<u8> = Vec::new();
        append_field(&mut payload, self.id.as_str().as_bytes());
        let nonce = u64_to_le_bytes(self.nonce);
        append_bytes(&mut payload, nonce.as_slice());
        match &self.operation {
            Operation::CreateAccount { id, service_id, challenge, key } => {
                payload.push(0u8);
                append_field(&mut payload, id.as_str().as_bytes());
                append_field(&mut payload, service_id.as_str().as_bytes());
                append_field(&mut payload, challenge.as_slice());
                append_field(&mut payload, key.as_slice());
            },
            Operation::AddData { data, data_signature } => {
                payload.push(1u8);
                append_field(&mut payload, data.as_slice());
                append_field(&mut payload, data_signature.verifying_key.as_slice());
                append_field(&mut payload, data_signature.signature.as_slice());
            },
        }
        assert(payload@ =~= signing_payload_of(self.id@, self.operation@, self.nonce));
        payload
    }

    /// Attaches the signature that authorises this transaction.
    pub fn externally_signed(self, signature: SignatureBundle) -> (transaction: Transaction)
        ensures
            transaction.id() == self.id,
            transaction.operation() == self.operation,
            transaction.nonce() == self.nonce,
            transaction.signature() == signature,
    {
        Transaction { id: self.id, operation: self.operation, nonce: self.nonce, signature }
    }
}

/// What a transaction holds.
pub struct TransactionView {
    pub id: Seq<char>,
    pub operation: OperationView,
    pub nonce: u64,
    pub signature: SignatureBundleView,
}

/// The bytes that were to be signed for a transaction.
pub open spec fn payload_of(transaction: TransactionView) -> Seq<u8> {
    signing_payload_of(transaction.id, transaction.operation, transaction.nonce)
}

impl View for Transaction {
    type V = TransactionView;

    open spec fn view(&self) -> TransactionView {
        TransactionView {
            id: self.id()@,
            operation: self.operation()@,
            nonce: self.nonce(),
            signature: self.signature()@,
        }
    }
}

impl Transaction {
    /// The account that the transaction is about.
    pub closed spec fn id(&self) -> String {
        self.id
    }

    pub closed spec fn operation(&self) -> Operation {
        self.operation
    }

    pub closed spec fn nonce(&self) -> u64 {
        self.nonce
    }

    /// The signature that authorises the transaction.
    pub closed spec fn signature(&self) -> SignatureBundle {
        self.signature
    }

    /// Takes the transaction apart.
    pub fn into_parts(self) -> (parts: (UnsignedTransaction, SignatureBundle))
        ensures
            parts.0.id == self.id(),
            parts.0.operation == self.operation(),
            parts.0.nonce == self.nonce(),
            parts.1 == self.signature(),
    {
        (UnsignedTransaction { id: self.id, operation: self.operation, nonce: self.nonce }, self.signature)
    }
}

} // verus!
