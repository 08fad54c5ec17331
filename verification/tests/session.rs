use ledger_client::error::Error;
use ledger_client::error::Failure;
use ledger_client::file_info::FileInfo;
use ledger_client::file_info::Timestamp;
use ledger_client::handle::Client;
use ledger_client::handle::NodeValue;
use ledger_client::id::AccountId;
use ledger_client::id::EntityId;
use ledger_client::id::FileId;
use ledger_client::id::IdValue;
use ledger_client::request::NodeRef;
use ledger_client::request::RequestBody;
use ledger_client::request::SigningKey;
use ledger_client::request::TypedResponse;
use ledger_client::submit::RecordingSubmitter;

fn text(s: &str) -> IdValue {
    IdValue::Text(String::from(s))
}

fn handle() -> Client {
    Client::new(String::from("35.237.200.180:50211"))
}

#[test]
fn entering_scopes_submits_nothing() {
    let mut client = handle();
    let recorder = RecordingSubmitter::new();
    let account = client.account(text("0.0.1001")).unwrap();
    let _ = account.balance();
    let _ = account.info();
    let _ = account.update();
    let _ = account.delete();
    let claim = account.claim(vec![0xAA]);
    let _ = claim.get();
    let _ = claim.delete();
    let contract = client.contract(text("0.0.2001")).unwrap();
    let _ = contract.call();
    let _ = contract.query(500, vec![1], 256);
    let _ = contract.update();
    let file = client.file(text("0.0.2002")).unwrap();
    let _ = file.append(vec![9]);
    let _ = file.delete();
    let _ = file.info();
    let _ = file.contents();
    let tx = client.transaction(text("0.0.2@7.9")).unwrap();
    let _ = tx.receipt();
    let _ = tx.record();
    assert_eq!(recorder.count(), 0);
    assert_eq!(client.share_count(), 4);
}

#[test]
fn balance_query_reaches_submit_with_target_and_no_operator() {
    let mut client = handle();
    let mut recorder = RecordingSubmitter::new();
    let scope = client.account(text("0.0.1001")).unwrap();
    let answer = scope.balance().execute(&client, &mut recorder).unwrap();
    assert!(matches!(answer, TypedResponse::Ack));
    assert_eq!(recorder.sent.len(), 1);
    let request = &recorder.sent[0];
    assert!(request.operator.is_none());
    match &request.node {
        NodeRef::Address(a) => assert_eq!(a, "35.237.200.180:50211"),
        _ => panic!("expected the address the handle was created with"),
    }
    match &request.body {
        RequestBody::AccountBalanceQuery { account } => {
            assert_eq!(*account, AccountId { shard: 0, realm: 0, num: 1001 });
        },
        _ => panic!("expected a balance query"),
    }
}

#[test]
fn file_append_carries_identifier_and_payload() {
    let mut client = handle();
    let mut recorder = RecordingSubmitter::new();
    let scope = client.file(text("0.0.2002")).unwrap();
    scope
        .append(vec![0x01, 0x02, 0x03])
        .execute(&client, &mut recorder)
        .unwrap();
    assert_eq!(recorder.sent.len(), 1);
    match &recorder.sent[0].body {
        RequestBody::FileAppend { file, contents } => {
            assert_eq!(*file, FileId { shard: 0, realm: 0, num: 2002 });
            assert_eq!(contents, &vec![0x01, 0x02, 0x03]);
        },
        _ => panic!("expected a file append"),
    }
}

#[test]
fn claim_delete_targets_account_and_hash() {
    let mut client = handle();
    let mut recorder = RecordingSubmitter::new();
    let scope = client.account(text("0.0.50")).unwrap();
    scope
        .claim(vec![0xAA])
        .delete()
        .execute(&client, &mut recorder)
        .unwrap();
    assert_eq!(recorder.sent.len(), 1);
    match &recorder.sent[0].body {
        RequestBody::ClaimDelete { account, hash } => {
            assert_eq!(*account, AccountId { shard: 0, realm: 0, num: 50 });
            assert_eq!(hash, &vec![0xAA]);
        },
        _ => panic!("expected a claim delete"),
    }
}

#[test]
fn each_execute_submits_exactly_once() {
    let mut client = handle();
    let mut recorder = RecordingSubmitter::new();
    let scope = client.account(text("0.0.9")).unwrap();
    let balance = scope.balance();
    balance.execute(&client, &mut recorder).unwrap();
    assert_eq!(recorder.count(), 1);
    balance.execute(&client, &mut recorder).unwrap();
    assert_eq!(recorder.count(), 2);
    scope.info().execute(&client, &mut recorder).unwrap();
    assert_eq!(recorder.count(), 3);
}

#[test]
fn setter_order_does_not_change_the_request() {
    let mut client = handle();
    let scope = client.contract(text("0.0.777")).unwrap();
    let mut first = RecordingSubmitter::new();
    let mut second = RecordingSubmitter::new();
    scope
        .call()
        .gas(600)
        .amount(12)
        .parameters(vec![7, 8])
        .execute(&client, &mut first)
        .unwrap();
    scope
        .call()
        .parameters(vec![7, 8])
        .amount(12)
        .gas(600)
        .execute(&client, &mut second)
        .unwrap();
    match (&first.sent[0].body, &second.sent[0].body) {
        (
            RequestBody::ContractCall { contract: c1, gas: g1, parameters: p1, amount: a1 },
            RequestBody::ContractCall { contract: c2, gas: g2, parameters: p2, amount: a2 },
        ) => {
            assert_eq!(c1, c2);
            assert_eq!(g1, g2);
            assert_eq!(p1, p2);
            assert_eq!(a1, a2);
            assert_eq!(*g1, 600);
            assert_eq!(*a1, 12);
            assert_eq!(p1, &vec![7, 8]);
        },
        _ => panic!("expected two contract calls"),
    }
}

#[test]
fn configure_node_takes_effect_only_while_unshared() {
    let mut client = handle();
    // Unshared: the new node takes effect.
    client
        .configure_node(NodeValue::Address(String::from("10.0.0.1:50211")))
        .unwrap();
    let mut recorder = RecordingSubmitter::new();
    let scope = client.account(text("0.0.3")).unwrap();
    scope.balance().execute(&client, &mut recorder).unwrap();
    match &recorder.sent[0].node {
        NodeRef::Address(a) => assert_eq!(a, "10.0.0.1:50211"),
        _ => panic!("expected the reconfigured address"),
    }
    // Shared: the call is accepted and changes nothing.
    client
        .configure_node(NodeValue::Address(String::from("10.9.9.9:50211")))
        .unwrap();
    scope.balance().execute(&client, &mut recorder).unwrap();
    match &recorder.sent[1].node {
        NodeRef::Address(a) => assert_eq!(a, "10.0.0.1:50211"),
        _ => panic!("expected the address from before sharing"),
    }
}

#[test]
fn configure_node_accepts_a_typed_node_account() {
    let mut client = handle();
    let node = AccountId { shard: 0, realm: 0, num: 3 };
    client
        .configure_node(NodeValue::Id(IdValue::Typed(EntityId::Account(node))))
        .unwrap();
    let mut recorder = RecordingSubmitter::new();
    let scope = client.account(text("0.0.8")).unwrap();
    scope.balance().execute(&client, &mut recorder).unwrap();
    match &recorder.sent[0].node {
        NodeRef::Account(a) => assert_eq!(*a, node),
        _ => panic!("expected the node account"),
    }
}

#[test]
fn configure_node_still_rejects_bad_identifiers_when_shared() {
    let mut client = handle();
    let _scope = client.account(text("0.0.3")).unwrap();
    assert_eq!(
        client.configure_node(NodeValue::Id(text("not-an-id"))),
        Err(Error::Parse)
    );
    let file = EntityId::File(FileId { shard: 0, realm: 0, num: 4 });
    assert_eq!(
        client.configure_node(NodeValue::Id(IdValue::Typed(file))),
        Err(Error::TypeMismatch)
    );
}

#[test]
fn operator_rides_along_once_configured() {
    let mut client = handle();
    client
        .configure_operator(text("0.0.2"), SigningKey::new(vec![7; 32]))
        .unwrap();
    assert!(client.has_operator());
    let mut recorder = RecordingSubmitter::new();
    let scope = client.account(text("0.0.1001")).unwrap();
    scope.balance().execute(&client, &mut recorder).unwrap();
    let operator = recorder.sent[0].operator.as_ref().unwrap();
    assert_eq!(operator.account, AccountId { shard: 0, realm: 0, num: 2 });
    assert_eq!(operator.key.material, vec![7; 32]);
}

#[test]
fn configure_operator_is_a_noop_once_shared() {
    let mut client = handle();
    let _scope = client.account(text("0.0.3")).unwrap();
    client
        .configure_operator(text("0.0.2"), SigningKey::new(vec![7; 32]))
        .unwrap();
    assert!(!client.has_operator());
}

#[test]
fn releasing_the_last_holder_lets_configuration_through_again() {
    let mut client = handle();
    let _scope = client.account(text("0.0.3")).unwrap();
    assert_eq!(client.share_count(), 1);
    client.release();
    assert_eq!(client.share_count(), 0);
    client
        .configure_node(NodeValue::Address(String::from("10.0.0.2:50211")))
        .unwrap();
    let mut recorder = RecordingSubmitter::new();
    let scope = client.account(text("0.0.3")).unwrap();
    scope.balance().execute(&client, &mut recorder).unwrap();
    match &recorder.sent[0].node {
        NodeRef::Address(a) => assert_eq!(a, "10.0.0.2:50211"),
        _ => panic!("expected the reconfigured address"),
    }
}

#[test]
fn key_setters_coerce_only_32_byte_keys() {
    let mut client = handle();
    let account = client.account(text("0.0.10")).unwrap();
    let mut update = account.update();
    assert_eq!(update.key(vec![1; 31]), Err(Error::FieldCoercion));
    assert_eq!(update.key(vec![1; 33]), Err(Error::FieldCoercion));
    assert_eq!(update.key(vec![1; 32]), Ok(()));
    let mut recorder = RecordingSubmitter::new();
    update.execute(&client, &mut recorder).unwrap();
    match &recorder.sent[0].body {
        RequestBody::AccountUpdate { account, key } => {
            assert_eq!(*account, AccountId { shard: 0, realm: 0, num: 10 });
            assert_eq!(key.as_ref().unwrap().bytes(), &vec![1; 32]);
        },
        _ => panic!("expected an account update"),
    }

    let contract = client.contract(text("0.0.11")).unwrap();
    let mut cu = contract.update();
    assert_eq!(cu.admin_key(vec![2; 5]), Err(Error::FieldCoercion));
    assert_eq!(cu.admin_key(vec![2; 32]), Ok(()));
}

#[test]
fn claim_create_collects_keys_in_order() {
    let mut client = handle();
    let scope = client.account(text("0.0.50")).unwrap();
    let claim = scope.claim(vec![0xAA, 0xBB]);
    let mut create = claim.create();
    assert_eq!(create.add_key(vec![3; 10]), Err(Error::FieldCoercion));
    assert_eq!(create.add_key(vec![3; 32]), Ok(()));
    assert_eq!(create.add_key(vec![4; 32]), Ok(()));
    let mut recorder = RecordingSubmitter::new();
    create.execute(&client, &mut recorder).unwrap();
    match &recorder.sent[0].body {
        RequestBody::ClaimCreate { account, hash, keys } => {
            assert_eq!(*account, AccountId { shard: 0, realm: 0, num: 50 });
            assert_eq!(hash, &vec![0xAA, 0xBB]);
            assert_eq!(keys.len(), 2);
            assert_eq!(keys[0].bytes(), &vec![3; 32]);
            assert_eq!(keys[1].bytes(), &vec![4; 32]);
        },
        _ => panic!("expected a claim create"),
    }
}

#[test]
fn submission_failures_pass_through_unreinterpreted() {
    let mut client = handle();
    let mut recorder = RecordingSubmitter::failing();
    let scope = client.account(text("0.0.1001")).unwrap();
    let answer = scope.balance().execute(&client, &mut recorder);
    assert!(matches!(answer, Err(Error::Submission(Failure::Transport))));
    // The request was still handed over exactly once.
    assert_eq!(recorder.count(), 1);
}

#[test]
fn receipt_and_record_queries_target_the_transaction() {
    let mut client = handle();
    let mut recorder = RecordingSubmitter::new();
    let scope = client.transaction(text("0.0.2@100.5")).unwrap();
    scope.receipt().execute(&client, &mut recorder).unwrap();
    scope.record().execute(&client, &mut recorder).unwrap();
    match &recorder.sent[0].body {
        RequestBody::ReceiptQuery { transaction } => {
            assert_eq!(transaction.payer, AccountId { shard: 0, realm: 0, num: 2 });
            assert_eq!(transaction.valid_start_seconds, 100);
            assert_eq!(transaction.valid_start_nanos, 5);
        },
        _ => panic!("expected a receipt query"),
    }
    assert!(matches!(
        &recorder.sent[1].body,
        RequestBody::RecordQuery { .. }
    ));
}

#[test]
fn remaining_request_kinds_carry_their_targets() {
    let mut client = handle();
    let mut recorder = RecordingSubmitter::new();
    let account = client.account(text("0.0.21")).unwrap();
    account.info().execute(&client, &mut recorder).unwrap();
    account.update().execute(&client, &mut recorder).unwrap();
    account
        .delete()
        .transfer_to(AccountId { shard: 0, realm: 0, num: 98 })
        .execute(&client, &mut recorder)
        .unwrap();
    account
        .claim(vec![0xCC])
        .get()
        .execute(&client, &mut recorder)
        .unwrap();
    let contract = client.contract(text("0.0.22")).unwrap();
    contract
        .query(900, vec![5, 6], 4096)
        .execute(&client, &mut recorder)
        .unwrap();
    contract.update().execute(&client, &mut recorder).unwrap();
    let file = client.file(text("0.0.23")).unwrap();
    file.info().execute(&client, &mut recorder).unwrap();
    file.contents().execute(&client, &mut recorder).unwrap();
    file.delete().execute(&client, &mut recorder).unwrap();
    let target = AccountId { shard: 0, realm: 0, num: 21 };
    match &recorder.sent[0].body {
        RequestBody::AccountInfoQuery { account } => assert_eq!(*account, target),
        _ => panic!("expected an account information query"),
    }
    match &recorder.sent[1].body {
        RequestBody::AccountUpdate { account, key } => {
            assert_eq!(*account, target);
            assert!(key.is_none());
        },
        _ => panic!("expected an account update"),
    }
    match &recorder.sent[2].body {
        RequestBody::AccountDelete { account, transfer_to } => {
            assert_eq!(*account, target);
            assert_eq!(*transfer_to, Some(AccountId { shard: 0, realm: 0, num: 98 }));
        },
        _ => panic!("expected an account delete"),
    }
    match &recorder.sent[3].body {
        RequestBody::ClaimGetQuery { account, hash } => {
            assert_eq!(*account, target);
            assert_eq!(hash, &vec![0xCC]);
        },
        _ => panic!("expected a claim query"),
    }
    match &recorder.sent[4].body {
        RequestBody::ContractQuery { contract, gas, parameters, max_result_size } => {
            assert_eq!(contract.num, 22);
            assert_eq!(*gas, 900);
            assert_eq!(parameters, &vec![5, 6]);
            assert_eq!(*max_result_size, 4096);
        },
        _ => panic!("expected a contract query"),
    }
    match &recorder.sent[5].body {
        RequestBody::ContractUpdate { contract, admin_key } => {
            assert_eq!(contract.num, 22);
            assert!(admin_key.is_none());
        },
        _ => panic!("expected a contract update"),
    }
    assert!(matches!(
        &recorder.sent[6].body,
        RequestBody::FileInfoQuery { .. }
    ));
    assert!(matches!(
        &recorder.sent[7].body,
        RequestBody::FileContentsQuery { .. }
    ));
    match &recorder.sent[8].body {
        RequestBody::FileDelete { file } => assert_eq!(file.num, 23),
        _ => panic!("expected a file delete"),
    }
}

#[test]
fn file_info_reports_its_fields() {
    let info = FileInfo {
        file_id: FileId { shard: 0, realm: 0, num: 2002 },
        size: 1024,
        deleted: false,
        keys: vec![String::from("key-one")],
        expiration_time: Timestamp { seconds: 1_700_000_000, nanos: 17 },
    };
    assert_eq!(info.file_id(), FileId { shard: 0, realm: 0, num: 2002 });
    assert_eq!(info.file_id_text(), "0.0.2002");
    assert_eq!(info.size(), 1024);
    assert!(!info.deleted());
    assert_eq!(info.keys(), &vec![String::from("key-one")]);
    assert_eq!(
        info.expiration_time(),
        Timestamp { seconds: 1_700_000_000, nanos: 17 }
    );
}
