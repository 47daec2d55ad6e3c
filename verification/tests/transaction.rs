use centichain_tx::amount::Amount;
use centichain_tx::keys::{PublicKey, Signature};
use centichain_tx::transaction::{Script, Sign, Transaction};
use centichain_tx::unspent::Unspent;
use centichain_tx::utxo::Utxo;

const ALICE: &str = "5GrwvaEF5zXb26Fz9rcQpDWS57CtERHpNehXCPcNoHGKutQY";
const BOB: &str = "5FHneW46xGXgs5mUiveU4sbTyGBzmstUspZC92UhjJM694ty";

fn amount(text: &str) -> Amount {
    Amount::parse(text).unwrap()
}

fn utxos() -> Vec<Utxo> {
    vec![
        Utxo {
            block: 12,
            trx_hash: String::from("aa\"quoted\""),
            output_hash: String::from("bb"),
            unspent_hash: String::from("cc"),
            unspent: amount("100.000000000000"),
        },
        Utxo {
            block: 18_446_744_073_709_551_615,
            trx_hash: String::from("dd"),
            output_hash: String::from("ee\\"),
            unspent_hash: String::from("ff"),
            unspent: amount("50.5"),
        },
    ]
}

fn unspents() -> Vec<Unspent> {
    vec![
        Unspent::with_salt(PublicKey::parse(ALICE).unwrap(), 9_999_999, amount("49.500000000000")),
        Unspent::with_salt(PublicKey::parse(BOB).unwrap(), 0, amount("100")),
    ]
}

fn signed() -> Transaction {
    let mut bytes = [0u8; 64];
    for (i, b) in bytes.iter_mut().enumerate() {
        *b = (i * 3) as u8;
    }
    Transaction::build(utxos(), unspents(), amount("100"), amount("1.00"), String::from("2024-05-01 12:00:00"))
        .signed(Sign { signature: Signature::from_bytes(bytes), key: PublicKey::parse(ALICE).unwrap() })
}

fn text(value: &serde_json::Value) -> &str {
    value.as_str().unwrap()
}

fn unhex(hex: &str) -> Vec<u8> {
    (0..hex.len() / 2).map(|i| u8::from_str_radix(&hex[2 * i..2 * i + 2], 16).unwrap()).collect()
}

#[test]
fn unsigned_transaction_is_single_and_bears_no_signature() {
    let transaction = Transaction::build(utxos(), unspents(), amount("100"), amount("1.00"), String::new());
    assert_eq!(transaction.script(), Script::Single);
    assert!(transaction.signature().is_empty());
    assert_eq!(transaction.date(), "");
}

#[test]
fn signing_changes_nothing_but_the_signatures() {
    let unsigned = Transaction::build(
        utxos(),
        unspents(),
        amount("100"),
        amount("1.00"),
        String::from("2024-05-01 12:00:00"),
    );
    let transaction = signed();
    assert_eq!(transaction.hash(), unsigned.hash());
    assert_eq!(transaction.input(), unsigned.input());
    assert_eq!(transaction.output(), unsigned.output());
    assert_eq!(transaction.value(), unsigned.value());
    assert_eq!(transaction.fee(), unsigned.fee());
    assert_eq!(transaction.script(), unsigned.script());
    assert_eq!(transaction.date(), unsigned.date());
    assert_eq!(transaction.signature().len(), 1);
}

#[test]
fn hash_does_not_depend_on_what_is_sent_along() {
    let one = Transaction::build(utxos(), unspents(), amount("100"), amount("1.00"), String::from("a"));
    let other = Transaction::build(utxos(), unspents(), amount("7"), amount("0"), String::from("b"));
    assert_eq!(one.hash(), other.hash());
}

#[test]
fn written_transaction_reads_back_field_for_field() {
    let transaction = signed();
    let read: serde_json::Value = serde_json::from_str(&transaction.to_json()).unwrap();

    assert_eq!(text(&read["hash"]), transaction.hash());
    assert_eq!(Amount::parse(text(&read["value"])), Some(transaction.value()));
    assert_eq!(Amount::parse(text(&read["fee"])), Some(transaction.fee()));
    assert_eq!(text(&read["fee"]), "1.00");
    assert_eq!(text(&read["script"]), "Single");
    assert_eq!(text(&read["date"]), transaction.date());

    let input = &read["input"];
    assert_eq!(text(&input["hash"]), transaction.input().hash());
    assert_eq!(input["number"].as_u64(), Some(2));
    let read_utxos: Vec<Utxo> = input["utxos"]
        .as_array()
        .unwrap()
        .iter()
        .map(|u| Utxo {
            block: u["block"].as_u64().unwrap(),
            trx_hash: text(&u["trxHash"]).to_string(),
            output_hash: text(&u["outputHash"]).to_string(),
            unspent_hash: text(&u["unspentHash"]).to_string(),
            unspent: Amount::parse(text(&u["unspent"])).unwrap(),
        })
        .collect();
    assert_eq!(&read_utxos, transaction.input().utxos());

    let output = &read["output"];
    assert_eq!(text(&output["hash"]), transaction.output().hash());
    assert_eq!(output["number"].as_u64(), Some(2));
    let read_unspents = output["unspents"].as_array().unwrap();
    assert_eq!(read_unspents.len(), 2);
    for (read, unspent) in read_unspents.iter().zip(transaction.output().unspents()) {
        assert_eq!(text(&read["hash"]), unspent.hash());
        let data = &read["data"];
        assert_eq!(PublicKey::parse(text(&data["wallet"])), Ok(unspent.data().wallet));
        assert_eq!(data["salt"].as_u64(), Some(unspent.data().salt as u64));
        assert_eq!(Amount::parse(text(&data["value"])), Some(unspent.data().value));
    }

    let signatures = read["signature"].as_array().unwrap();
    assert_eq!(signatures.len(), 1);
    let sign = transaction.signature()[0];
    assert_eq!(unhex(text(&signatures[0]["signature"])), sign.signature.to_bytes().to_vec());
    assert_eq!(PublicKey::parse(text(&signatures[0]["key"])), Ok(sign.key));
}

#[test]
fn written_transaction_lists_its_members_in_order() {
    let transaction = signed();
    let expected = format!(
        "{{\"hash\":\"{}\",\"input\":{},\"output\":{},\"value\":\"100\",\"fee\":\"1.00\",\"script\":\"Single\",\"signature\":[{}],\"date\":\"2024-05-01 12:00:00\"}}",
        transaction.hash(),
        transaction.input().to_json(),
        transaction.output().to_json(),
        transaction.signature()[0].to_json(),
    );
    assert_eq!(transaction.to_json(), expected);
    assert_eq!(
        transaction.signature()[0].to_json(),
        format!(
            "{{\"signature\":\"{}\",\"key\":\"{}\"}}",
            transaction.signature()[0].signature.to_hex(),
            ALICE
        )
    );
}

#[test]
fn script_kinds_are_written_by_name() {
    assert_eq!(Script::Single.name(), "Single");
    assert_eq!(Script::Multi.name(), "Multi");
}

#[test]
fn copies_are_equal_to_what_they_copy() {
    let transaction = signed();
    let copy = transaction.clone();
    assert_eq!(copy, transaction);
    assert_eq!(copy.to_json(), transaction.to_json());
    assert_eq!(transaction.input().clone(), *transaction.input());
    assert_eq!(transaction.output().clone(), *transaction.output());
    assert_eq!(Utxo::list_clone(&utxos()), utxos());
    assert_eq!(Unspent::list_clone(&unspents()), unspents());
}
