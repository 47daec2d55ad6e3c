use centichain_tx::amount::Amount;
use centichain_tx::hash::HashMaker;
use centichain_tx::json::{array_text, member_text, number_text, object_text, string_text};
use centichain_tx::keys::PublicKey;
use centichain_tx::transaction::TransactionAssembler;
use centichain_tx::unspent::{Output, Unspent, UnspentData};
use centichain_tx::utxo::{Input, Utxo};
use centichain_tx::wire::UtxoRequest;

const ALICE: &str = "5GrwvaEF5zXb26Fz9rcQpDWS57CtERHpNehXCPcNoHGKutQY";
const BOB: &str = "5FHneW46xGXgs5mUiveU4sbTyGBzmstUspZC92UhjJM694ty";

fn sha256_hex(text: &str) -> String {
    format!("{:x}", <sha2::Sha256 as sha2::Digest>::digest(text.as_bytes()))
}

fn utxo(block: u64, tag: &str, unspent: &str) -> Utxo {
    Utxo {
        block,
        trx_hash: format!("trx{}", tag),
        output_hash: format!("out{}", tag),
        unspent_hash: format!("uns{}", tag),
        unspent: Amount::parse(unspent).unwrap(),
    }
}

#[test]
fn strings_are_quoted_and_escaped() {
    assert_eq!(string_text("plain"), "\"plain\"");
    assert_eq!(string_text(""), "\"\"");
    assert_eq!(string_text("a\"b\\c\nd\te"), "\"a\\\"b\\\\c\\nd\\te\"");
    assert_eq!(string_text("\u{1}"), "\"\\u0001\"");
    assert_eq!(string_text("caf\u{e9}"), "\"caf\u{e9}\"");
}

#[test]
fn numbers_are_written_in_decimal_digits() {
    assert_eq!(number_text(0), "0");
    assert_eq!(number_text(7), "7");
    assert_eq!(number_text(10), "10");
    assert_eq!(number_text(9_999_999), "9999999");
    assert_eq!(number_text(u64::MAX), "18446744073709551615");
}

#[test]
fn arrays_and_objects_have_no_white_space() {
    assert_eq!(array_text(&vec![]), "[]");
    assert_eq!(array_text(&vec![String::from("1")]), "[1]");
    assert_eq!(array_text(&vec![String::from("1"), String::from("2"), String::from("3")]), "[1,2,3]");
    assert_eq!(object_text(&vec![]), "{}");
    assert_eq!(member_text("a", "1"), "\"a\":1");
    assert_eq!(
        object_text(&vec![member_text("a", "1"), member_text("b", "\"x\"")]),
        "{\"a\":1,\"b\":\"x\"}"
    );
}

#[test]
fn utxo_is_written_with_its_members_in_order() {
    assert_eq!(
        utxo(3, "A", "150.000000000000").to_json(),
        "{\"block\":3,\"trxHash\":\"trxA\",\"outputHash\":\"outA\",\"unspentHash\":\"unsA\",\"unspent\":\"150.000000000000\"}"
    );
}

#[test]
fn input_hash_is_the_digest_of_the_utxo_list() {
    let utxos = vec![utxo(1, "A", "100.000000000000"), utxo(2, "B", "50.000000000000")];
    let list = format!("[{},{}]", utxos[0].to_json(), utxos[1].to_json());
    assert_eq!(Utxo::list_to_json(&utxos), list);
    let input = Input::new(utxos.clone());
    assert_eq!(input.hash(), &sha256_hex(&list));
    assert_eq!(input.number(), 2);
    assert_eq!(input.utxos(), &utxos);
    assert_eq!(
        input.to_json(),
        format!("{{\"hash\":\"{}\",\"number\":2,\"utxos\":{}}}", sha256_hex(&list), list)
    );
}

#[test]
fn input_hash_depends_on_the_order_of_the_utxos() {
    let a = utxo(1, "A", "100");
    let b = utxo(2, "B", "50");
    let forward = Input::new(vec![a.clone(), b.clone()]);
    let backward = Input::new(vec![b, a]);
    assert_ne!(forward.hash(), backward.hash());
}

#[test]
fn input_over_no_utxos_hashes_the_empty_list() {
    let input = Input::new(Vec::new());
    assert_eq!(input.number(), 0);
    assert_eq!(input.hash(), &sha256_hex("[]"));
}

#[test]
fn unspent_hash_is_the_digest_of_its_data() {
    let wallet = PublicKey::parse(ALICE).unwrap();
    let value = Amount::parse("49.00").unwrap();
    let unspent = Unspent::with_salt(wallet, 1234567, value);
    let data = format!("{{\"wallet\":\"{}\",\"salt\":1234567,\"value\":\"49.00\"}}", ALICE);
    assert_eq!(unspent.data(), UnspentData { wallet, salt: 1234567, value });
    assert_eq!(unspent.data().to_json(), data);
    assert_eq!(unspent.hash(), &sha256_hex(&data));
    assert_eq!(
        unspent.to_json(),
        format!("{{\"hash\":\"{}\",\"data\":{}}}", sha256_hex(&data), data)
    );
    assert_eq!(unspent.clone(), unspent);
}

#[test]
fn salt_tells_equal_outputs_apart() {
    let wallet = PublicKey::parse(ALICE).unwrap();
    let value = Amount::parse("1").unwrap();
    assert_ne!(
        Unspent::with_salt(wallet, 1, value).hash(),
        Unspent::with_salt(wallet, 2, value).hash()
    );
}

#[test]
fn drawn_salts_stay_below_the_bound() {
    let wallet = PublicKey::parse(ALICE).unwrap();
    let value = Amount::parse("1").unwrap();
    for _ in 0..200 {
        assert!(Unspent::draw_salt() < 10_000_000);
        let unspent = Unspent::new(wallet, value);
        assert!(unspent.data().salt < 10_000_000);
        assert_eq!(unspent, Unspent::with_salt(wallet, unspent.data().salt, value));
    }
}

#[test]
fn output_hash_is_the_digest_of_the_unspent_list() {
    let alice = PublicKey::parse(ALICE).unwrap();
    let bob = PublicKey::parse(BOB).unwrap();
    let change = Unspent::with_salt(alice, 1, Amount::parse("49").unwrap());
    let payment = Unspent::with_salt(bob, 2, Amount::parse("100").unwrap());
    let list = format!("[{},{}]", change.to_json(), payment.to_json());
    let output = Output::new(vec![change.clone(), payment.clone()]);
    assert_eq!(output.hash(), &sha256_hex(&list));
    assert_eq!(output.number(), 2);
    assert_eq!(output.unspents(), &vec![change, payment]);
    assert_eq!(
        output.to_json(),
        format!("{{\"hash\":\"{}\",\"number\":2,\"unspents\":{}}}", sha256_hex(&list), list)
    );
}

#[test]
fn transaction_hash_is_the_digest_of_the_two_hashes_in_order() {
    let alice = PublicKey::parse(ALICE).unwrap();
    let input = TransactionAssembler::build_input(vec![utxo(1, "A", "150")]);
    let output = TransactionAssembler::build_output(vec![Unspent::with_salt(
        alice,
        5,
        Amount::parse("100").unwrap(),
    )]);
    let hash = TransactionAssembler::derive_hash(&input, &output);
    assert_eq!(hash, HashMaker::generate(&format!("{}{}", input.hash(), output.hash())));
    assert_ne!(hash, HashMaker::generate(&format!("{}{}", output.hash(), input.hash())));
}

#[test]
fn utxo_question_is_written_with_its_members_in_order() {
    let request = UtxoRequest {
        public_key: String::from(ALICE),
        request: String::from("utxo"),
        value: String::from("100"),
    };
    assert_eq!(
        request.to_json(),
        format!("{{\"publicKey\":\"{}\",\"request\":\"utxo\",\"value\":\"100\"}}", ALICE)
    );
}
