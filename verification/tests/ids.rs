use ledger_client::error::Error;
use ledger_client::id::AccountId;
use ledger_client::id::ContractId;
use ledger_client::id::EntityId;
use ledger_client::id::FileId;
use ledger_client::id::IdValue;
use ledger_client::id::TransactionId;
use ledger_client::id::normalize_account;
use ledger_client::id::normalize_contract;
use ledger_client::id::normalize_file;
use ledger_client::id::normalize_transaction;
use ledger_client::id::parse_account_text;
use ledger_client::id::parse_transaction_text;

fn text(s: &str) -> IdValue {
    IdValue::Text(String::from(s))
}

#[test]
fn parses_canonical_account_text() {
    assert_eq!(
        parse_account_text("0.0.1001"),
        Ok(AccountId { shard: 0, realm: 0, num: 1001 })
    );
    assert_eq!(
        parse_account_text("5.3.77"),
        Ok(AccountId { shard: 5, realm: 3, num: 77 })
    );
    assert_eq!(
        parse_account_text("18446744073709551615.0.1"),
        Ok(AccountId { shard: u64::MAX, realm: 0, num: 1 })
    );
}

#[test]
fn rejects_malformed_account_text() {
    for bad in [
        "", "0", "0.0", "0..1", "1.2.3.4", "a.b.c", "0.0.1a", " 0.0.1", "0.0.1 ", ".0.1", "0.0.",
        "0.-1.2", "0.0.18446744073709551616",
    ] {
        assert_eq!(parse_account_text(bad), Err(Error::Parse), "input {:?}", bad);
    }
}

#[test]
fn parses_canonical_transaction_text() {
    assert_eq!(
        parse_transaction_text("0.0.2@1568586328.848027000"),
        Ok(TransactionId {
            payer: AccountId { shard: 0, realm: 0, num: 2 },
            valid_start_seconds: 1568586328,
            valid_start_nanos: 848027000,
        })
    );
}

#[test]
fn rejects_malformed_transaction_text() {
    for bad in [
        "",
        "0.0.2",
        "0.0.2@",
        "0.0.2@1",
        "0.0.2@1.",
        "0.0.2@.5",
        "@1.5",
        "0.0@1.5",
        "0.0.2@1.1000000000",
        "0.0.2@1.5@6.7",
        "0.0.2@1.5.6",
    ] {
        assert_eq!(
            parse_transaction_text(bad),
            Err(Error::Parse),
            "input {:?}",
            bad
        );
    }
}

#[test]
fn string_and_typed_paths_agree() {
    let id = parse_account_text("0.0.1001").unwrap();
    assert_eq!(
        normalize_account(&text("0.0.1001")),
        normalize_account(&IdValue::Typed(EntityId::Account(id)))
    );
    let tx = parse_transaction_text("0.0.2@7.9").unwrap();
    assert_eq!(
        normalize_transaction(&text("0.0.2@7.9")),
        normalize_transaction(&IdValue::Typed(EntityId::Transaction(tx)))
    );
}

#[test]
fn normalize_rejects_wrong_typed_kind() {
    let account = EntityId::Account(AccountId { shard: 0, realm: 0, num: 3 });
    let file = EntityId::File(FileId { shard: 0, realm: 0, num: 4 });
    assert_eq!(
        normalize_account(&IdValue::Typed(file)),
        Err(Error::TypeMismatch)
    );
    assert_eq!(
        normalize_contract(&IdValue::Typed(account)),
        Err(Error::TypeMismatch)
    );
    assert_eq!(
        normalize_file(&IdValue::Typed(account)),
        Err(Error::TypeMismatch)
    );
    assert_eq!(
        normalize_transaction(&IdValue::Typed(account)),
        Err(Error::TypeMismatch)
    );
}

#[test]
fn normalize_rejects_malformed_text_for_every_kind() {
    assert_eq!(normalize_account(&text("nonsense")), Err(Error::Parse));
    assert_eq!(normalize_contract(&text("1.2")), Err(Error::Parse));
    assert_eq!(normalize_file(&text("1.2.3.4")), Err(Error::Parse));
    assert_eq!(normalize_transaction(&text("1.2.3")), Err(Error::Parse));
}

#[test]
fn normalize_accepts_typed_values() {
    let c = ContractId { shard: 1, realm: 2, num: 3 };
    assert_eq!(
        normalize_contract(&IdValue::Typed(EntityId::Contract(c))),
        Ok(c)
    );
    let f = FileId { shard: 4, realm: 5, num: 6 };
    assert_eq!(normalize_file(&IdValue::Typed(EntityId::File(f))), Ok(f));
}

#[test]
fn canonical_text_round_trips() {
    let id = AccountId { shard: 5, realm: 3, num: 77 };
    assert_eq!(id.canonical_text(), "5.3.77");
    assert_eq!(parse_account_text(&id.canonical_text()), Ok(id));

    let zero = AccountId { shard: 0, realm: 0, num: 0 };
    assert_eq!(zero.canonical_text(), "0.0.0");

    let top = FileId { shard: u64::MAX, realm: 0, num: 1 };
    assert_eq!(top.canonical_text(), "18446744073709551615.0.1");

    let tx = TransactionId {
        payer: AccountId { shard: 0, realm: 0, num: 2 },
        valid_start_seconds: 1568586328,
        valid_start_nanos: 848027000,
    };
    assert_eq!(tx.canonical_text(), "0.0.2@1568586328.848027000");
    assert_eq!(parse_transaction_text(&tx.canonical_text()), Ok(tx));
}
