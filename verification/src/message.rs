//! The canonical message: the exact text a wallet signs in place of raw
//! data, in the form of an amino `sign/MsgSignData` document.

use vstd::prelude::*;
use vstd::string::*;

verus! {

/// The canonical message for a signer and the base64 text of the data: a
/// fixed JSON frame with the two values set in. The same pair always gives
/// the same text, so signer and verifier reproduce it independently.
pub open spec fn arbitrary_message(signer: Seq<char>, data: Seq<char>) -> Seq<char> {
    "{\"account_number\":\"0\",\"chain_id\":\"\",\"fee\":{\"amount\":[],\"gas\":\"0\"},\"memo\":\"\",\"msgs\":[{\"type\":\"sign/MsgSignData\",\"value\":{\"data\":\""@
        + data + "\",\"signer\":\""@ + signer + "\"}}],\"sequence\":\"0\"}"@
}

/// Builds the canonical message that `signer` must sign for `data`.
pub fn to_arbitrary_message_bytes(signer: &str, data: &str) -> (message: String)
    ensures
        message@ == arbitrary_message(signer@, data@),
{
    let mut message = String::from_str(
        "{\"account_number\":\"0\",\"chain_id\":\"\",\"fee\":{\"amount\":[],\"gas\":\"0\"},\"memo\":\"\",\"msgs\":[{\"type\":\"sign/MsgSignData\",\"value\":{\"data\":\"",
    );
    message.append(data);
    message.append("\",\"signer\":\"");
    message.append(signer);
    message.append("\"}}],\"sequence\":\"0\"}");
    message
}

/// Two canonical messages for one signer are equal only if their data are:
/// a change to the data always changes the text that is signed.
pub proof fn lemma_arbitrary_message_fixes_data(signer: Seq<char>, first: Seq<char>, second: Seq<char>)
    requires
        arbitrary_message(signer, first) == arbitrary_message(signer, second),
    ensures
        first == second,
{
    let head = "{\"account_number\":\"0\",\"chain_id\":\"\",\"fee\":{\"amount\":[],\"gas\":\"0\"},\"memo\":\"\",\"msgs\":[{\"type\":\"sign/MsgSignData\",\"value\":{\"data\":\""@;
    let rest = "\",\"signer\":\""@ + signer + "\"}}],\"sequence\":\"0\"}"@;
    let a = arbitrary_message(signer, first);
    let b = arbitrary_message(signer, second);
    assert(a =~= head + first + rest);
    assert(b =~= head + second + rest);
    assert(first.len() == second.len());
    assert forall|i: int| 0 <= i < first.len() implies first[i] == second[i] by {
        assert(a[head.len() + i] == first[i]);
        assert(b[head.len() + i] == second[i]);
    }
    assert(first =~= second);
}

} // verus!
