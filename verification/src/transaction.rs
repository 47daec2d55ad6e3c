//! The transaction record and its assembly from an input and an output side.

use crate::amount::{value_text, Amount, DecimalValue};
use crate::hash::{digest_hex, hex_lower};
use crate::json::{
    array_text, json_array, json_member, json_object, json_quoted, member_text, object_text,
    string_text,
};
use crate::keys::{ss58_encoded, PublicKey, Signature, ADDRESS_FORMAT};
use crate::merkle::{lemma_reduce_pair, merkle_reduce, MerkleCombiner};
use crate::unspent::{output_json, output_of, Output, OutputView, Unspent, UnspentView};
use crate::utxo::{input_json, input_of, Input, InputView, Utxo, UtxoView};
use vstd::prelude::*;

verus! {

/// How many signatures a transaction asks for.
#[derive(Clone, Copy, Debug, PartialEq, Eq)]
pub enum Script {
    /// One signature.
    Single,
    /// Several signatures.
    Multi,
}

/// The name under which a script kind is written.
pub open spec fn script_name(script: Script) -> Seq<char> {
    match script {
        Script::Single => "Single"@,
        Script::Multi => "Multi"@,
    }
}

impl Script {
    /// The name under which this kind is written.
    pub fn name(&self) -> (r: &'static str)
        ensures
            r@ == script_name(*self),
    {
        match self {
            Script::Single => "Single",
            Script::Multi => "Multi",
        }
    }
}

/// A signature together with the public key of the signer.
#[derive(Clone, Copy, Debug, PartialEq, Eq)]
pub struct Sign {
    /// The signature over the transaction hash.
    pub signature: Signature,
    /// The signer's public key.
    pub key: PublicKey,
}

/// A `Sign` as plain values.
pub struct SignView {
    pub signature: Seq<u8>,
    pub key: Seq<u8>,
}

impl View for Sign {
    type V = SignView;

    open spec fn view(&self) -> SignView {
        SignView { signature: self.signature@, key: self.key@ }
    }
}

impl DeepView for Sign {
    type V = SignView;

    open spec fn deep_view(&self) -> SignView {
        self@
    }
}

/// The JSON object of a signature entry: the signature in hexadecimal, the
/// key as its address.
pub open spec fn sign_json(sign: SignView) -> Seq<char> {
    json_object(
        seq![
            json_member("signature"@, json_quoted(hex_lower(sign.signature))),
            json_member("key"@, json_quoted(ss58_encoded(sign.key, ADDRESS_FORMAT))),
        ],
    )
}

/// The JSON array of a list of signature entries.
pub open spec fn sign_list_json(signs: Seq<SignView>) -> Seq<char> {
    json_array(signs.map_values(|s: SignView| sign_json(s)))
}

impl Sign {
    /// The JSON object of this entry.
    pub fn to_json(&self) -> (r: String)
        ensures
            r@ == sign_json(self@),
    {
        let mut members: Vec<String> = Vec::new();
        members.push(
            member_text("signature", string_text(self.signature.to_hex().as_str()).as_str()),
        );
        members.push(member_text("key", string_text(self.key.to_ss58().as_str()).as_str()));
        proof {
            let s = self@;
            assert(members.deep_view() =~= seq![
                json_member("signature"@, json_quoted(hex_lower(s.signature))),
                json_member("key"@, json_quoted(ss58_encoded(s.key, ADDRESS_FORMAT))),
            ]);
        }
        object_text(&members)
    }

    /// The JSON array of `signs`.
    pub fn list_to_json(signs: &Vec<Sign>) -> (r: String)
        ensures
            r@ == sign_list_json(signs.deep_view()),
    {
        let ghost target = signs.deep_view().map_values(|s: SignView| sign_json(s));
        let mut items: Vec<String> = Vec::new();
        let mut i: usize = 0;
        while i < signs.len()
            invariant
                i <= signs.len(),
                items.len() == i,
                target == signs.deep_view().map_values(|s: SignView| sign_json(s)),
                forall|j: int| 0 <= j < i ==> (#[trigger] items[j])@ == target[j],
            decreases signs.len() - i,
        {
            let item = signs[i].to_json();
            assert(signs.deep_view()[i as int] == signs[i as int]@);
            items.push(item);
            i += 1;
        }
        assert(items.deep_view() =~= target);
        array_text(&items)
    }
}

/// The hash of a transaction: the root of the reduction over the hash of
/// its input side and the hash of its output side, in this order.
pub open spec fn transaction_hash(input_hash: Seq<char>, output_hash: Seq<char>) -> Seq<char> {
    merkle_reduce(seq![input_hash, output_hash])[0]
}

/// The transaction hash is the digest of the two hash strings written one
/// after the other, the input side's first. Worth, fee, script, signatures
/// and date have no part in it.
pub proof fn lemma_transaction_hash(input_hash: Seq<char>, output_hash: Seq<char>)
    ensures
        transaction_hash(input_hash, output_hash) == digest_hex(input_hash + output_hash),
{
    lemma_reduce_pair(input_hash, output_hash);
}

/// Builds the two sides of a transaction and derives its hash.
pub struct TransactionAssembler;

impl TransactionAssembler {
    /// The input side over `utxos`, in their order.
    pub fn build_input(utxos: Vec<Utxo>) -> (r: Input)
        ensures
            r@ == input_of(utxos.deep_view()),
    {
        Input::new(utxos)
    }

    /// The output side over `unspents`, in their order.
    pub fn build_output(unspents: Vec<Unspent>) -> (r: Output)
        ensures
            r@ == output_of(unspents.deep_view()),
    {
        Output::new(unspents)
    }

    /// The hash of the transaction with these two sides.
    pub fn derive_hash(input: &Input, output: &Output) -> (r: String)
        ensures
            r@ == transaction_hash(input@.hash, output@.hash),
            r@ == digest_hex(input@.hash + output@.hash),
    {
        let mut leaves: Vec<String> = Vec::new();
        leaves.push(input.hash().clone());
        leaves.push(output.hash().clone());
        proof {
            assert(leaves.deep_view() =~= seq![input@.hash, output@.hash]);
            lemma_transaction_hash(input@.hash, output@.hash);
            lemma_reduce_pair(input@.hash, output@.hash);
        }
        let reduced = MerkleCombiner::reduce(leaves);
        assert(reduced.deep_view()[0] == reduced[0]@);
        reduced[0].clone()
    }
}

/// A transaction: what it consumes, what it produces, and what is sent
/// along with them.
#[derive(Debug, PartialEq, Eq)]
pub struct Transaction {
    hash: String,
    input: Input,
    output: Output,
    value: Amount,
    fee: Amount,
    script: Script,
    signature: Vec<Sign>,
    date: String,
}

/// A `Transaction` as plain values.
pub struct TransactionView {
    pub hash: Seq<char>,
    pub input: InputView,
    pub output: OutputView,
    pub value: DecimalValue,
    pub fee: DecimalValue,
    pub script: Script,
    pub signature: Seq<SignView>,
    pub date: Seq<char>,
}

/// The JSON object of a transaction. Amounts are written as strings.
pub open spec fn transaction_json(t: TransactionView) -> Seq<char> {
    json_object(
        seq![
            json_member("hash"@, json_quoted(t.hash)),
            json_member("input"@, input_json(t.input)),
            json_member("output"@, output_json(t.output)),
            json_member("value"@, json_quoted(value_text(t.value))),
            json_member("fee"@, json_quoted(value_text(t.fee))),
            json_member("script"@, json_quoted(script_name(t.script))),
            json_member("signature"@, sign_list_json(t.signature)),
            json_member("date"@, json_quoted(t.date)),
        ],
    )
}

/// The unsigned single-signature transaction that consumes `utxos` and
/// produces `unspents`.
pub open spec fn unsigned_transaction(
    utxos: Seq<UtxoView>,
    unspents: Seq<UnspentView>,
    value: DecimalValue,
    fee: DecimalValue,
    date: Seq<char>,
) -> TransactionView {
    TransactionView {
        hash: transaction_hash(input_of(utxos).hash, output_of(unspents).hash),
        input: input_of(utxos),
        output: output_of(unspents),
        value,
        fee,
        script: Script::Single,
        signature: Seq::<SignView>::empty(),
        date,
    }
}

impl View for Transaction {
    type V = TransactionView;

    closed spec fn view(&self) -> TransactionView {
        TransactionView {
            hash: self.hash@,
            input: self.input@,
            output: self.output@,
            value: self.value@,
            fee: self.fee@,
            script: self.script,
            signature: self.signature.deep_view(),
            date: self.date@,
        }
    }
}

impl Clone for Transaction {
    fn clone(&self) -> (r: Transaction)
        ensures
            r@ == self@,
    {
        proof {
            use_type_invariant(self);
        }
        let mut signature: Vec<Sign> = Vec::new();
        let mut i: usize = 0;
        while i < self.signature.len()
            invariant
                i <= self.signature.len(),
                signature.len() == i,
                forall|j: int| 0 <= j < i ==> signature[j] == self.signature[j],
            decreases self.signature.len() - i,
        {
            signature.push(self.signature[i]);
            i += 1;
        }
        assert(signature.deep_view() =~= self.signature.deep_view());
        Transaction {
            hash: self.hash.clone(),
            input: self.input.clone(),
            output: self.output.clone(),
            value: self.value,
            fee: self.fee,
            script: self.script,
            signature,
            date: self.date.clone(),
        }
    }
}

impl Transaction {
    #[verifier::type_invariant]
    spec fn well_formed(self) -> bool {
        self.hash@ == transaction_hash(self.input@.hash, self.output@.hash)
    }

    /// The unsigned single-signature transaction that consumes `utxos` and
    /// produces `unspents`.
    pub fn build(
        utxos: Vec<Utxo>,
        unspents: Vec<Unspent>,
        value: Amount,
        fee: Amount,
        date: String,
    ) -> (r: Transaction)
        ensures
            r@ == unsigned_transaction(
                utxos.deep_view(),
                unspents.deep_view(),
                value@,
                fee@,
                date@,
            ),
    {
        let input = TransactionAssembler::build_input(utxos);
        let output = TransactionAssembler::build_output(unspents);
        Self::assemble(input, output, value, fee, date)
    }

    /// The unsigned single-signature transaction over the two sides.
    pub fn assemble(input: Input, output: Output, value: Amount, fee: Amount, date: String) -> (r:
        Transaction)
        ensures
            r@ == (TransactionView {
                hash: transaction_hash(input@.hash, output@.hash),
                input: input@,
                output: output@,
                value: value@,
                fee: fee@,
                script: Script::Single,
                signature: Seq::<SignView>::empty(),
                date: date@,
            }),
    {
        let hash = TransactionAssembler::derive_hash(&input, &output);
        let signature: Vec<Sign> = Vec::new();
        assert(signature.deep_view() =~= Seq::<SignView>::empty());
        Transaction { hash, input, output, value, fee, script: Script::Single, signature, date }
    }

    /// The transaction with one more signature entry. Nothing else changes:
    /// the hash does not depend on the signatures.
    pub fn signed(self, sign: Sign) -> (r: Transaction)
        ensures
            r@ == (TransactionView { signature: self@.signature.push(sign@), ..self@ }),
    {
        proof {
            use_type_invariant(&self);
        }
        let Transaction { hash, input, output, value, fee, script, signature, date } = self;
        let mut entries = signature;
        let ghost before = entries.deep_view();
        entries.push(sign);
        assert(entries.deep_view() =~= before.push(sign@));
        Transaction { hash, input, output, value, fee, script, signature: entries, date }
    }

    /// The hash. It is derived from the hashes of the two sides alone.
    pub fn hash(&self) -> (r: &String)
        ensures
            r@ == self@.hash,
            self@.hash == transaction_hash(self@.input.hash, self@.output.hash),
    {
        proof {
            use_type_invariant(self);
        }
        &self.hash
    }

    /// The input side.
    pub fn input(&self) -> (r: &Input)
        ensures
            r@ == self@.input,
    {
        &self.input
    }

    /// The output side.
    pub fn output(&self) -> (r: &Output)
        ensures
            r@ == self@.output,
    {
        &self.output
    }

    /// The worth that is transferred.
    pub fn value(&self) -> (r: Amount)
        ensures
            r@ == self@.value,
    {
        self.value
    }

    /// The fee.
    pub fn fee(&self) -> (r: Amount)
        ensures
            r@ == self@.fee,
    {
        self.fee
    }

    /// The script kind.
    pub fn script(&self) -> (r: Script)
        ensures
            r == self@.script,
    {
        self.script
    }

    /// The signature entries.
    pub fn signature(&self) -> (r: &Vec<Sign>)
        ensures
            r.deep_view() == self@.signature,
    {
        &self.signature
    }

    /// The date.
    pub fn date(&self) -> (r: &String)
        ensures
            r@ == self@.date,
    {
        &self.date
    }

    /// The JSON object of this transaction: the body that is submitted.
    pub fn to_json(&self) -> (r: String)
        ensures
            r@ == transaction_json(self@),
    {
        let mut members: Vec<String> = Vec::new();
        members.push(member_text("hash", string_text(self.hash.as_str()).as_str()));
        members.push(member_text("input", self.input.to_json().as_str()));
        members.push(member_text("output", self.output.to_json().as_str()));
        members.push(member_text("value", string_text(self.value.to_text().as_str()).as_str()));
        members.push(member_text("fee", string_text(self.fee.to_text().as_str()).as_str()));
        members.push(member_text("script", string_text(self.script.name()).as_str()));
        members.push(member_text("signature", Sign::list_to_json(&self.signature).as_str()));
        members.push(member_text("date", string_text(self.date.as_str()).as_str()));
        proof {
            let t = self@;
            assert(members.deep_view() =~= seq![
                json_member("hash"@, json_quoted(t.hash)),
                json_member("input"@, input_json(t.input)),
                json_member("output"@, output_json(t.output)),
                json_member("value"@, json_quoted(value_text(t.value))),
                json_member("fee"@, json_quoted(value_text(t.fee))),
                json_member("script"@, json_quoted(script_name(t.script))),
                json_member("signature"@, sign_list_json(t.signature)),
                json_member("date"@, json_quoted(t.date)),
            ]);
        }
        object_text(&members)
    }
}

} // verus!
