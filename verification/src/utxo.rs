//! Unspent outputs of earlier transactions, and the input side that
//! consumes them.

use crate::amount::{value_text, Amount, DecimalValue};
use crate::hash::{digest_hex, HashMaker};
use crate::json::{
    array_text, decimal_digits, json_array, json_member, json_object, json_quoted, member_text,
    number_text, object_text, string_text,
};
use vstd::prelude::*;

verus! {

/// A reference to an output that the ledger holds as not yet spent.
#[derive(Debug, PartialEq, Eq)]
pub struct Utxo {
    /// The number of the block that holds the output.
    pub block: u64,
    /// The hash of the transaction that made it.
    pub trx_hash: String,
    /// The hash of that transaction's output side.
    pub output_hash: String,
    /// The hash of the output itself.
    pub unspent_hash: String,
    /// What the output is worth.
    pub unspent: Amount,
}

/// A `Utxo` as plain values.
pub struct UtxoView {
    pub block: nat,
    pub trx_hash: Seq<char>,
    pub output_hash: Seq<char>,
    pub unspent_hash: Seq<char>,
    pub unspent: DecimalValue,
}

impl View for Utxo {
    type V = UtxoView;

    open spec fn view(&self) -> UtxoView {
        UtxoView {
            block: self.block as nat,
            trx_hash: self.trx_hash@,
            output_hash: self.output_hash@,
            unspent_hash: self.unspent_hash@,
            unspent: self.unspent@,
        }
    }
}

impl DeepView for Utxo {
    type V = UtxoView;

    open spec fn deep_view(&self) -> UtxoView {
        self@
    }
}

/// The JSON object of one UTXO. The amount is written as a string.
pub open spec fn utxo_json(u: UtxoView) -> Seq<char> {
    json_object(
        seq![
            json_member("block"@, decimal_digits(u.block)),
            json_member("trxHash"@, json_quoted(u.trx_hash)),
            json_member("outputHash"@, json_quoted(u.output_hash)),
            json_member("unspentHash"@, json_quoted(u.unspent_hash)),
            json_member("unspent"@, json_quoted(value_text(u.unspent))),
        ],
    )
}

/// The JSON array of a list of UTXOs, in the order of the list.
pub open spec fn utxo_list_json(utxos: Seq<UtxoView>) -> Seq<char> {
    json_array(utxos.map_values(|u: UtxoView| utxo_json(u)))
}

/// The hash of an input side: the digest of the JSON array of its UTXOs.
pub open spec fn input_hash(utxos: Seq<UtxoView>) -> Seq<char> {
    digest_hex(utxo_list_json(utxos))
}

impl Clone for Utxo {
    fn clone(&self) -> (r: Utxo)
        ensures
            r == *self,
    {
        Utxo {
            block: self.block,
            trx_hash: self.trx_hash.clone(),
            output_hash: self.output_hash.clone(),
            unspent_hash: self.unspent_hash.clone(),
            unspent: self.unspent,
        }
    }
}

impl Utxo {
    /// A copy of `utxos`, in their order.
    pub fn list_clone(utxos: &Vec<Utxo>) -> (r: Vec<Utxo>)
        ensures
            r@ == utxos@,
    {
        let mut copy: Vec<Utxo> = Vec::new();
        let mut i: usize = 0;
        while i < utxos.len()
            invariant
                i <= utxos.len(),
                copy.len() == i,
                forall|j: int| 0 <= j < i ==> copy[j] == utxos[j],
            decreases utxos.len() - i,
        {
            copy.push(utxos[i].clone());
            i += 1;
        }
        assert(copy@ =~= utxos@);
        copy
    }

    /// The JSON object of this UTXO.
    pub fn to_json(&self) -> (r: String)
        ensures
            r@ == utxo_json(self@),
    {
        let mut members: Vec<String> = Vec::new();
        members.push(member_text("block", number_text(self.block).as_str()));
        members.push(member_text("trxHash", string_text(self.trx_hash.as_str()).as_str()));
        members.push(member_text("outputHash", string_text(self.output_hash.as_str()).as_str()));
        members.push(
            member_text("unspentHash", string_text(self.unspent_hash.as_str()).as_str()),
        );
        members.push(
            member_text("unspent", string_text(self.unspent.to_text().as_str()).as_str()),
        );
        proof {
            let u = self@;
            assert(members.deep_view() =~= seq![
                json_member("block"@, decimal_digits(u.block)),
                json_member("trxHash"@, json_quoted(u.trx_hash)),
                json_member("outputHash"@, json_quoted(u.output_hash)),
                json_member("unspentHash"@, json_quoted(u.unspent_hash)),
                json_member("unspent"@, json_quoted(value_text(u.unspent))),
            ]);
        }
        object_text(&members)
    }

    /// The JSON array of `utxos`.
    pub fn list_to_json(utxos: &Vec<Utxo>) -> (r: String)
        ensures
            r@ == utxo_list_json(utxos.deep_view()),
    {
        let ghost target = utxos.deep_view().map_values(|u: UtxoView| utxo_json(u));
        let mut items: Vec<String> = Vec::new();
        let mut i: usize = 0;
        while i < utxos.len()
            invariant
                i <= utxos.len(),
                items.len() == i,
                target == utxos.deep_view().map_values(|u: UtxoView| utxo_json(u)),
                forall|j: int| 0 <= j < i ==> (#[trigger] items[j])@ == target[j],
            decreases utxos.len() - i,
        {
            let item = utxos[i].to_json();
            assert(utxos.deep_view()[i as int] == utxos[i as int]@);
            items.push(item);
            i += 1;
        }
        assert(items.deep_view() =~= target);
        array_text(&items)
    }
}

/// The input side of a transaction: the UTXOs it consumes, in the order in
/// which they were fetched, with their count and their hash.
#[derive(Debug, PartialEq, Eq)]
pub struct Input {
    hash: String,
    number: usize,
    utxos: Vec<Utxo>,
}

/// An `Input` as plain values.
pub struct InputView {
    pub hash: Seq<char>,
    pub number: nat,
    pub utxos: Seq<UtxoView>,
}

/// The input side that a list of UTXOs makes.
pub open spec fn input_of(utxos: Seq<UtxoView>) -> InputView {
    InputView { hash: input_hash(utxos), number: utxos.len(), utxos }
}

/// The JSON object of an input side.
pub open spec fn input_json(input: InputView) -> Seq<char> {
    json_object(
        seq![
            json_member("hash"@, json_quoted(input.hash)),
            json_member("number"@, decimal_digits(input.number)),
            json_member("utxos"@, utxo_list_json(input.utxos)),
        ],
    )
}

impl View for Input {
    type V = InputView;

    closed spec fn view(&self) -> InputView {
        InputView {
            hash: self.hash@,
            number: self.number as nat,
            utxos: self.utxos.deep_view(),
        }
    }
}

impl Clone for Input {
    fn clone(&self) -> (r: Input)
        ensures
            r@ == self@,
    {
        proof {
            use_type_invariant(self);
        }
        Input {
            hash: self.hash.clone(),
            number: self.number,
            utxos: Utxo::list_clone(&self.utxos),
        }
    }
}

impl Input {
    #[verifier::type_invariant]
    spec fn well_formed(self) -> bool {
        self@ == input_of(self.utxos.deep_view())
    }

    /// Packages `utxos`, in their order, with their count and hash.
    pub fn new(utxos: Vec<Utxo>) -> (r: Input)
        ensures
            r@ == input_of(utxos.deep_view()),
    {
        let hash = HashMaker::generate(Utxo::list_to_json(&utxos).as_str());
        Input { hash, number: utxos.len(), utxos }
    }

    /// The hash of the UTXO list. It is the digest of the list as it stands:
    /// an input side cannot hold a stale hash.
    pub fn hash(&self) -> (r: &String)
        ensures
            r@ == self@.hash,
            self@ == input_of(self@.utxos),
    {
        proof {
            use_type_invariant(self);
        }
        &self.hash
    }

    /// The number of UTXOs.
    pub fn number(&self) -> (r: usize)
        ensures
            r == self@.number,
            self@.number == self@.utxos.len(),
    {
        proof {
            use_type_invariant(self);
        }
        self.number
    }

    /// The UTXOs, in their order.
    pub fn utxos(&self) -> (r: &Vec<Utxo>)
        ensures
            r.deep_view() == self@.utxos,
    {
        &self.utxos
    }

    /// The JSON object of this input side.
    pub fn to_json(&self) -> (r: String)
        ensures
            r@ == input_json(self@),
    {
        let mut members: Vec<String> = Vec::new();
        members.push(member_text("hash", string_text(self.hash.as_str()).as_str()));
        members.push(member_text("number", number_text(self.number as u64).as_str()));
        members.push(member_text("utxos", Utxo::list_to_json(&self.utxos).as_str()));
        proof {
            let v = self@;
            assert(members.deep_view() =~= seq![
                json_member("hash"@, json_quoted(v.hash)),
                json_member("number"@, decimal_digits(v.number)),
                json_member("utxos"@, utxo_list_json(v.utxos)),
            ]);
        }
        object_text(&members)
    }
}

} // verus!
