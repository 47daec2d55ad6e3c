//! What goes to the ledger service and what comes back, as plain records.

use crate::json::{json_member, json_object, json_quoted, member_text, object_text, string_text};
use crate::utxo::Utxo;
use vstd::prelude::*;

verus! {

/// The status word with which the service reports success.
pub open spec fn success_word() -> Seq<char> {
    "success"@
}

/// Whether `status` is the word for success.
pub fn is_success(status: &String) -> (r: bool)
    ensures
        r == (status@ == success_word()),
{
    let expected = String::from_str("success");
    *status == expected
}

/// The question for the spendable outputs of a wallet.
#[derive(Clone, Debug, PartialEq, Eq)]
pub struct UtxoRequest {
    /// The address of the wallet.
    pub public_key: String,
    /// The kind of question: always `utxo`.
    pub request: String,
    /// The worth that is to be spent, as a decimal text.
    pub value: String,
}

/// The JSON object of a question for spendable outputs.
pub open spec fn utxo_request_json(
    public_key: Seq<char>,
    request: Seq<char>,
    value: Seq<char>,
) -> Seq<char> {
    json_object(
        seq![
            json_member("publicKey"@, json_quoted(public_key)),
            json_member("request"@, json_quoted(request)),
            json_member("value"@, json_quoted(value)),
        ],
    )
}

impl UtxoRequest {
    /// The JSON object of this question: the body that is sent.
    pub fn to_json(&self) -> (r: String)
        ensures
            r@ == utxo_request_json(self.public_key@, self.request@, self.value@),
    {
        let mut members: Vec<String> = Vec::new();
        members.push(member_text("publicKey", string_text(self.public_key.as_str()).as_str()));
        members.push(member_text("request", string_text(self.request.as_str()).as_str()));
        members.push(member_text("value", string_text(self.value.as_str()).as_str()));
        proof {
            assert(members.deep_view() =~= seq![
                json_member("publicKey"@, json_quoted(self.public_key@)),
                json_member("request"@, json_quoted(self.request@)),
                json_member("value"@, json_quoted(self.value@)),
            ]);
        }
        object_text(&members)
    }
}

/// The service's answer to a question for spendable outputs.
#[derive(Clone, Debug, PartialEq, Eq)]
pub struct UtxoResponse {
    /// The address that was asked about.
    pub public_key: String,
    /// The outputs that the service offers for the spend.
    pub utxo_data: Vec<Utxo>,
    /// `success`, or another word where the service refuses.
    pub status: String,
    /// What the service has to say, for the user.
    pub description: String,
}

/// The service's acknowledgment of a submitted transaction.
#[derive(Clone, Debug, PartialEq, Eq)]
pub struct TxRes {
    /// The hash of the transaction.
    pub hash: String,
    /// `success`, or another word where the service rejects.
    pub status: String,
    /// What the service has to say, for the user.
    pub description: String,
}

/// How the exchange that fetches spendable outputs ended.
#[derive(Clone, Debug, PartialEq, Eq)]
pub enum FetchOutcome {
    /// The service answered, and the answer could be read.
    Response(UtxoResponse),
    /// The exchange failed in transport; the text says how.
    TransportFailure(String),
    /// The service answered with a body that could not be read as an answer.
    Unparseable(String),
}

/// How the exchange that submits a transaction ended.
#[derive(Clone, Debug, PartialEq, Eq)]
pub enum SubmitOutcome {
    /// The service answered, and the answer could be read.
    Response(TxRes),
    /// The exchange failed in transport; the text says how.
    TransportFailure(String),
    /// The service answered with a body that could not be read as an answer.
    Unparseable(String),
}

} // verus!
