//! Outputs that a transaction produces, and the output side that holds them.

use crate::amount::{value_text, Amount, DecimalValue};
use crate::hash::{digest_hex, HashMaker};
use crate::json::{
    array_text, decimal_digits, json_array, json_member, json_object, json_quoted, member_text,
    number_text, object_text, string_text,
};
use crate::keys::{ss58_encoded, PublicKey, ADDRESS_FORMAT};
use rand::Rng;
use vstd::prelude::*;

verus! {

/// Salts are drawn below this bound.
pub const SALT_BOUND: u32 = 10_000_000;

/// Draws a number below `bound` from `rand::thread_rng` with `gen_range`.
///
/// Trusted: the number lies below `bound`. Which number it is depends on
/// chance, so nothing more is said of it. An empty range would panic, hence
/// the demand that `bound` is positive.
#[verifier::external_body]
fn random_below(bound: u32) -> (r: u32)
    requires
        bound > 0,
    ensures
        r < bound,
{
    rand::thread_rng().gen_range(0..bound)
}

/// What an output says: who may spend it, a salt, and its worth. The salt
/// keeps two outputs of one wallet and one worth from sharing a hash.
#[derive(Clone, Copy, Debug, PartialEq, Eq)]
pub struct UnspentData {
    /// The key of the wallet that may spend the output.
    pub wallet: PublicKey,
    /// A number drawn anew for every output.
    pub salt: u32,
    /// What the output is worth.
    pub value: Amount,
}

/// An `UnspentData` as plain values.
pub struct UnspentDataView {
    pub wallet: Seq<u8>,
    pub salt: nat,
    pub value: DecimalValue,
}

impl View for UnspentData {
    type V = UnspentDataView;

    open spec fn view(&self) -> UnspentDataView {
        UnspentDataView { wallet: self.wallet@, salt: self.salt as nat, value: self.value@ }
    }
}

/// The JSON object of an output's data. The wallet is written as its
/// address, the worth as a string.
pub open spec fn unspent_data_json(data: UnspentDataView) -> Seq<char> {
    json_object(
        seq![
            json_member("wallet"@, json_quoted(ss58_encoded(data.wallet, ADDRESS_FORMAT))),
            json_member("salt"@, decimal_digits(data.salt)),
            json_member("value"@, json_quoted(value_text(data.value))),
        ],
    )
}

/// The hash of an output: the digest of the JSON object of its data.
pub open spec fn unspent_hash(data: UnspentDataView) -> Seq<char> {
    digest_hex(unspent_data_json(data))
}

impl UnspentData {
    /// The JSON object of this data.
    pub fn to_json(&self) -> (r: String)
        ensures
            r@ == unspent_data_json(self@),
    {
        let mut members: Vec<String> = Vec::new();
        members.push(member_text("wallet", string_text(self.wallet.to_ss58().as_str()).as_str()));
        members.push(member_text("salt", number_text(self.salt as u64).as_str()));
        members.push(member_text("value", string_text(self.value.to_text().as_str()).as_str()));
        proof {
            let d = self@;
            assert(members.deep_view() =~= seq![
                json_member("wallet"@, json_quoted(ss58_encoded(d.wallet, ADDRESS_FORMAT))),
                json_member("salt"@, decimal_digits(d.salt)),
                json_member("value"@, json_quoted(value_text(d.value))),
            ]);
        }
        object_text(&members)
    }
}

/// A new spendable output: its data and the hash of its data.
#[derive(Debug, PartialEq, Eq)]
pub struct Unspent {
    hash: String,
    data: UnspentData,
}

/// An `Unspent` as plain values.
pub struct UnspentView {
    pub hash: Seq<char>,
    pub data: UnspentDataView,
}

/// The output that the given data makes.
pub open spec fn unspent_of(data: UnspentDataView) -> UnspentView {
    UnspentView { hash: unspent_hash(data), data }
}

/// The output for a wallet, a salt and a worth.
pub open spec fn unspent_for(wallet: Seq<u8>, salt: nat, value: DecimalValue) -> UnspentView {
    unspent_of(UnspentDataView { wallet, salt, value })
}

/// The JSON object of an output.
pub open spec fn unspent_json(u: UnspentView) -> Seq<char> {
    json_object(
        seq![
            json_member("hash"@, json_quoted(u.hash)),
            json_member("data"@, unspent_data_json(u.data)),
        ],
    )
}

/// The JSON array of a list of outputs, in the order of the list.
pub open spec fn unspent_list_json(unspents: Seq<UnspentView>) -> Seq<char> {
    json_array(unspents.map_values(|u: UnspentView| unspent_json(u)))
}

/// The hash of an output side: the digest of the JSON array of its outputs.
pub open spec fn output_hash(unspents: Seq<UnspentView>) -> Seq<char> {
    digest_hex(unspent_list_json(unspents))
}

impl View for Unspent {
    type V = UnspentView;

    closed spec fn view(&self) -> UnspentView {
        UnspentView { hash: self.hash@, data: self.data@ }
    }
}

impl DeepView for Unspent {
    type V = UnspentView;

    open spec fn deep_view(&self) -> UnspentView {
        self@
    }
}

impl Clone for Unspent {
    fn clone(&self) -> (r: Unspent)
        ensures
            r@ == self@,
    {
        proof {
            use_type_invariant(self);
        }
        Unspent { hash: self.hash.clone(), data: self.data }
    }
}

impl Unspent {
    #[verifier::type_invariant]
    spec fn well_formed(self) -> bool {
        self@ == unspent_of(self.data@)
    }

    /// The output for `wallet` worth `value` with the given salt.
    pub fn with_salt(wallet: PublicKey, salt: u32, value: Amount) -> (r: Unspent)
        ensures
            r@ == unspent_for(wallet@, salt as nat, value@),
    {
        let data = UnspentData { wallet, salt, value };
        let hash = HashMaker::generate(data.to_json().as_str());
        Unspent { hash, data }
    }

    /// Draws a salt for one output. Every output gets a draw of its own.
    pub fn draw_salt() -> (r: u32)
        ensures
            r < SALT_BOUND,
    {
        random_below(SALT_BOUND)
    }

    /// A new output for `wallet` worth `value`, with a salt drawn for it.
    pub fn new(wallet: PublicKey, value: Amount) -> (r: Unspent)
        ensures
            r@.data.salt < SALT_BOUND,
            r@ == unspent_for(wallet@, r@.data.salt, value@),
    {
        Self::with_salt(wallet, Self::draw_salt(), value)
    }

    /// The hash of the data. It is the digest of the data as they stand.
    pub fn hash(&self) -> (r: &String)
        ensures
            r@ == self@.hash,
            self@ == unspent_of(self@.data),
    {
        proof {
            use_type_invariant(self);
        }
        &self.hash
    }

    /// The data of the output.
    pub fn data(&self) -> (r: UnspentData)
        ensures
            r@ == self@.data,
    {
        self.data
    }

    /// A copy of `unspents`, in their order.
    pub fn list_clone(unspents: &Vec<Unspent>) -> (r: Vec<Unspent>)
        ensures
            r.deep_view() == unspents.deep_view(),
    {
        let mut copy: Vec<Unspent> = Vec::new();
        let mut i: usize = 0;
        while i < unspents.len()
            invariant
                i <= unspents.len(),
                copy.len() == i,
                forall|j: int| 0 <= j < i ==> (#[trigger] copy[j])@ == unspents[j]@,
            decreases unspents.len() - i,
        {
            copy.push(unspents[i].clone());
            i += 1;
        }
        assert(copy.deep_view() =~= unspents.deep_view());
        copy
    }

    /// The JSON object of this output.
    pub fn to_json(&self) -> (r: String)
        ensures
            r@ == unspent_json(self@),
    {
        let mut members: Vec<String> = Vec::new();
        members.push(member_text("hash", string_text(self.hash.as_str()).as_str()));
        members.push(member_text("data", self.data.to_json().as_str()));
        proof {
            let u = self@;
            assert(members.deep_view() =~= seq![
                json_member("hash"@, json_quoted(u.hash)),
                json_member("data"@, unspent_data_json(u.data)),
            ]);
        }
        object_text(&members)
    }

    /// The JSON array of `unspents`.
    pub fn list_to_json(unspents: &Vec<Unspent>) -> (r: String)
        ensures
            r@ == unspent_list_json(unspents.deep_view()),
    {
        let ghost target = unspents.deep_view().map_values(|u: UnspentView| unspent_json(u));
        let mut items: Vec<String> = Vec::new();
        let mut i: usize = 0;
        while i < unspents.len()
            invariant
                i <= unspents.len(),
                items.len() == i,
                target == unspents.deep_view().map_values(|u: UnspentView| unspent_json(u)),
                forall|j: int| 0 <= j < i ==> (#[trigger] items[j])@ == target[j],
            decreases unspents.len() - i,
        {
            let item = unspents[i].to_json();
            assert(unspents.deep_view()[i as int] == unspents[i as int]@);
            items.push(item);
            i += 1;
        }
        assert(items.deep_view() =~= target);
        array_text(&items)
    }
}

/// The output side of a transaction: the outputs it produces, in order,
/// with their count and their hash.
#[derive(Debug, PartialEq, Eq)]
pub struct Output {
    hash: String,
    number: usize,
    unspents: Vec<Unspent>,
}

/// An `Output` as plain values.
pub struct OutputView {
    pub hash: Seq<char>,
    pub number: nat,
    pub unspents: Seq<UnspentView>,
}

/// The output side that a list of outputs makes.
pub open spec fn output_of(unspents: Seq<UnspentView>) -> OutputView {
    OutputView { hash: output_hash(unspents), number: unspents.len(), unspents }
}

/// The JSON object of an output side.
pub open spec fn output_json(output: OutputView) -> Seq<char> {
    json_object(
        seq![
            json_member("hash"@, json_quoted(output.hash)),
            json_member("number"@, decimal_digits(output.number)),
            json_member("unspents"@, unspent_list_json(output.unspents)),
        ],
    )
}

impl View for Output {
    type V = OutputView;

    closed spec fn view(&self) -> OutputView {
        OutputView {
            hash: self.hash@,
            number: self.number as nat,
            unspents: self.unspents.deep_view(),
        }
    }
}

impl Clone for Output {
    fn clone(&self) -> (r: Output)
        ensures
            r@ == self@,
    {
        proof {
            use_type_invariant(self);
        }
        Output {
            hash: self.hash.clone(),
            number: self.number,
            unspents: Unspent::list_clone(&self.unspents),
        }
    }
}

impl Output {
    #[verifier::type_invariant]
    spec fn well_formed(self) -> bool {
        self@ == output_of(self.unspents.deep_view())
    }

    /// Packages `unspents`, in their order, with their count and hash.
    pub fn new(unspents: Vec<Unspent>) -> (r: Output)
        ensures
            r@ == output_of(unspents.deep_view()),
    {
        let hash = HashMaker::generate(Unspent::list_to_json(&unspents).as_str());
        Output { hash, number: unspents.len(), unspents }
    }

    /// The hash of the output list. It is the digest of the list as it
    /// stands: an output side cannot hold a stale hash.
    pub fn hash(&self) -> (r: &String)
        ensures
            r@ == self@.hash,
            self@ == output_of(self@.unspents),
    {
        proof {
            use_type_invariant(self);
        }
        &self.hash
    }

    /// The number of outputs.
    pub fn number(&self) -> (r: usize)
        ensures
            r == self@.number,
            self@.number == self@.unspents.len(),
    {
        proof {
            use_type_invariant(self);
        }
        self.number
    }

    /// The outputs, in their order.
    pub fn unspents(&self) -> (r: &Vec<Unspent>)
        ensures
            r.deep_view() == self@.unspents,
    {
        &self.unspents
    }

    /// The JSON object of this output side.
    pub fn to_json(&self) -> (r: String)
        ensures
            r@ == output_json(self@),
    {
        let mut members: Vec<String> = Vec::new();
        members.push(member_text("hash", string_text(self.hash.as_str()).as_str()));
        members.push(member_text("number", number_text(self.number as u64).as_str()));
        members.push(member_text("unspents", Unspent::list_to_json(&self.unspents).as_str()));
        proof {
            let v = self@;
            assert(members.deep_view() =~= seq![
                json_member("hash"@, json_quoted(v.hash)),
                json_member("number"@, decimal_digits(v.number)),
                json_member("unspents"@, unspent_list_json(v.unspents)),
            ]);
        }
        object_text(&members)
    }
}

} // verus!
