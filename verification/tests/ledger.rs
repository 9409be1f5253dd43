use kiss::ledger::client::{
    init_database, ImmuLedger, LedgerCall, LedgerProvider, LedgerReply, LedgerRequest,
};
use kiss::ledger::rows::{map_row_to_contract, map_row_to_verification_claim};
use kiss::ledger::statements::{
    account_of, claims_of, contract_of, contracts_of, create_contract, create_verified_claim,
    decrease_reputation, get_all_contracts, get_contracts, get_previous_verified, get_reputation,
    get_staked, increase_reputation, reputation_of, schema, stake_reputation, staked_of,
    unstake_reputation, Statement,
};
use kiss::util::errors::ErrorKind;
use kiss::util::types::{Peer, SqlValue};

fn some_peer() -> String {
    libp2p_identity::PeerId::random().to_base58()
}

fn contract_row(peer: &str) -> Vec<SqlValue> {
    vec![
        SqlValue::S("contract".to_string()),
        SqlValue::S(peer.to_string()),
        SqlValue::S("file".to_string()),
        SqlValue::S("hash".to_string()),
        SqlValue::N(11),
        SqlValue::N(6000),
        SqlValue::Bs(vec![1, 2]),
        SqlValue::Bs(vec![3]),
        SqlValue::N(56),
        SqlValue::N(1),
    ]
}

fn names(statement: &Statement) -> Vec<String> {
    statement.params.iter().map(|p| p.name.clone()).collect()
}

fn integer(statement: &Statement, name: &str) -> i64 {
    for p in statement.params.iter() {
        if p.name == name {
            if let SqlValue::N(x) = p.value {
                return x;
            }
        }
    }
    panic!("no integer parameter {}", name)
}

fn headers(request: &LedgerRequest) -> Vec<(String, String)> {
    request.headers.iter().map(|h| (h.name.clone(), h.value.clone())).collect()
}

fn pair(name: &str, value: &str) -> (String, String) {
    (name.to_string(), value.to_string())
}

#[test]
fn contract_is_read_from_its_row() {
    let peer = some_peer();
    let contract = map_row_to_contract(contract_row(&peer)).unwrap();
    assert_eq!(contract.contract_uuid, "contract");
    assert_eq!(contract.peer_id.to_base58(), peer);
    assert_eq!(contract.file_uuid, "file");
    assert_eq!(contract.file_hash, "hash");
    assert_eq!(contract.upload_date, 11);
    assert_eq!(contract.ttl, 6000);
    assert_eq!(contract.secret_n, vec![1, 2]);
    assert_eq!(contract.secret_m, vec![3]);
    assert_eq!(contract.rows, 56);
    assert_eq!(contract.cols, 1);
}

#[test]
fn row_with_a_missing_column_is_invalid() {
    let peer = some_peer();
    for keep in 0..10 {
        let mut row = contract_row(&peer);
        row.truncate(keep);
        match map_row_to_contract(row) {
            Err(ErrorKind::InvalidSqlRow(given)) => assert_eq!(given.len(), keep),
            _ => panic!("a row of {} columns was read", keep),
        }
    }
    assert!(matches!(map_row_to_contract(Vec::new()), Err(ErrorKind::InvalidSqlRow(_))));
}

#[test]
fn row_with_a_value_of_another_type_is_invalid() {
    let peer = some_peer();
    for column in 0..10 {
        let mut row = contract_row(&peer);
        row[column] = SqlValue::B(true);
        assert!(matches!(map_row_to_contract(row), Err(ErrorKind::InvalidSqlRow(_))));
        let mut row = contract_row(&peer);
        row[column] = SqlValue::Null;
        assert!(matches!(map_row_to_contract(row), Err(ErrorKind::InvalidSqlRow(_))));
    }
}

#[test]
fn row_with_a_broken_peer_is_an_invalid_peer() {
    assert!(matches!(
        map_row_to_contract(contract_row("no peer")),
        Err(ErrorKind::InvalidPeerId)
    ));
    let mut row = contract_row("no peer");
    row[0] = SqlValue::N(1);
    assert!(matches!(map_row_to_contract(row), Err(ErrorKind::InvalidSqlRow(_))));
    let mut row = contract_row("no peer");
    row[9] = SqlValue::Null;
    assert!(matches!(map_row_to_contract(row), Err(ErrorKind::InvalidPeerId)));
}

#[test]
fn claim_is_read_from_its_row() {
    let peer = some_peer();
    let row = vec![
        SqlValue::S("contract".to_string()),
        SqlValue::S(peer.clone()),
        SqlValue::N(1234),
        SqlValue::B(true),
    ];
    let claim = map_row_to_verification_claim(row).unwrap();
    assert_eq!(claim.contract_uuid, "contract");
    assert_eq!(claim.verified_by_id.to_base58(), peer);
    assert_eq!(claim.verification_time, 1234);
    assert!(claim.succeeded);
    let short = vec![SqlValue::S("contract".to_string()), SqlValue::S(peer), SqlValue::N(1)];
    assert!(matches!(map_row_to_verification_claim(short), Err(ErrorKind::InvalidSqlRow(_))));
    let broken = vec![
        SqlValue::S("contract".to_string()),
        SqlValue::S("x".to_string()),
        SqlValue::N(1234),
        SqlValue::B(true),
    ];
    assert!(matches!(map_row_to_verification_claim(broken), Err(ErrorKind::InvalidPeerId)));
}

#[test]
fn replies_are_read_row_by_row() {
    let a = some_peer();
    let b = some_peer();
    let contracts = contracts_of(vec![contract_row(&a), contract_row(&b)]).unwrap();
    assert_eq!(contracts.len(), 2);
    assert_eq!(contracts[0].peer_id.to_base58(), a);
    assert_eq!(contracts[1].peer_id.to_base58(), b);
    assert_eq!(contracts_of(Vec::new()).unwrap().len(), 0);
    assert!(matches!(
        contracts_of(vec![contract_row(&a), contract_row("x"), Vec::new()]),
        Err(ErrorKind::InvalidPeerId)
    ));
    assert!(matches!(
        contracts_of(vec![contract_row(&a), Vec::new(), contract_row("x")]),
        Err(ErrorKind::InvalidSqlRow(_))
    ));
    assert_eq!(contract_of(vec![contract_row(&a), contract_row(&b)]).unwrap().peer_id.to_base58(), a);
    assert!(matches!(contract_of(Vec::new()), Err(ErrorKind::InvalidSql)));
    assert!(matches!(contract_of(vec![Vec::new()]), Err(ErrorKind::InvalidSqlRow(_))));
    assert_eq!(claims_of(Vec::new()).unwrap().len(), 0);
    assert!(matches!(claims_of(vec![Vec::new()]), Err(ErrorKind::InvalidSqlRow(_))));
}

#[test]
fn contract_statement_names_all_ten_columns() {
    let peer = Peer::new("peer".to_string());
    let statement = create_contract(
        "c".to_string(),
        &peer,
        "f".to_string(),
        "h".to_string(),
        7,
        6000,
        vec![1],
        vec![2],
        56,
        1,
    );
    assert!(statement.sql.starts_with("UPSERT"));
    assert!(statement.sql.contains("INTO contracts(contract_uuid, peer_id, file_uuid, file_hash, upload_date, ttl, secret_n, secret_m, rows, cols)"));
    assert_eq!(
        names(&statement),
        vec![
            "contract_uuid",
            "peer_id",
            "file_uuid",
            "file_hash",
            "upload_date",
            "ttl",
            "secret_n",
            "secret_m",
            "rows",
            "cols"
        ]
    );
    assert!(matches!(&statement.params[1].value, SqlValue::S(x) if x == "peer"));
    assert_eq!(integer(&statement, "upload_date"), 7);
    assert_eq!(integer(&statement, "ttl"), 6000);
    assert!(matches!(&statement.params[6].value, SqlValue::Bs(x) if *x == vec![1]));
    assert!(matches!(&statement.params[7].value, SqlValue::Bs(x) if *x == vec![2]));
    assert_eq!(integer(&statement, "rows"), 56);
    assert_eq!(integer(&statement, "cols"), 1);
}

#[test]
fn claim_statement_names_its_four_columns() {
    let peer = Peer::new("peer".to_string());
    let statement = create_verified_claim("c".to_string(), &peer, 99, false);
    assert!(statement.sql.contains("INTO verifications(contract_uuid, verified_by_id, verification_time, succeeded)"));
    assert_eq!(
        names(&statement),
        vec!["contract_uuid", "verified_by_id", "verification_time", "succeeded"]
    );
    assert_eq!(integer(&statement, "verification_time"), 99);
    assert!(matches!(statement.params[3].value, SqlValue::B(false)));
}

#[test]
fn queries_name_their_key() {
    let peer = Peer::new("peer".to_string());
    let q = get_reputation(&peer);
    assert_eq!(q.sql, "SELECT reputation FROM reputation WHERE peer_id = @peer_id;");
    assert_eq!(names(&q), vec!["peer_id"]);
    let q = get_staked(&peer);
    assert_eq!(q.sql, "SELECT staked FROM reputation WHERE peer_id = @peer_id;");
    let q = get_contracts("f".to_string());
    assert_eq!(q.sql, "SELECT * FROM contracts WHERE file_uuid = @file_uuid;");
    assert!(matches!(&q.params[0].value, SqlValue::S(x) if x == "f"));
    let q = get_all_contracts();
    assert_eq!(q.sql, "SELECT * FROM contracts;");
    assert!(q.params.is_empty());
    let q = get_previous_verified("c".to_string());
    assert_eq!(q.sql, "SELECT * FROM verifications WHERE contract_uuid = @contract_uuid;");
    assert_eq!(names(&q), vec!["contract_uuid"]);
}

#[test]
fn schema_creates_three_tables() {
    let statements = schema();
    assert_eq!(statements.len(), 3);
    assert!(statements[0].sql.starts_with("CREATE TABLE IF NOT EXISTS contracts ("));
    assert!(statements[0].sql.contains("PRIMARY KEY (file_uuid)"));
    assert!(statements[1].sql.starts_with("CREATE TABLE IF NOT EXISTS reputation ("));
    assert!(statements[1].sql.contains("PRIMARY KEY (peer_id)"));
    assert!(statements[2].sql.starts_with("CREATE TABLE IF NOT EXISTS verifications ("));
    assert!(statements[2].sql.contains("PRIMARY KEY (contract_uuid, verified_by_id)"));
    assert!(statements.iter().all(|s| s.params.is_empty()));
}

#[test]
fn balances_are_read_from_the_first_row() {
    assert_eq!(reputation_of(&Vec::new()), 0);
    assert_eq!(reputation_of(&vec![vec![SqlValue::N(7)], vec![SqlValue::N(9)]]), 7);
    assert_eq!(reputation_of(&vec![vec![SqlValue::S("7".to_string())]]), 0);
    assert_eq!(reputation_of(&vec![Vec::new()]), 0);
    assert!(matches!(staked_of(&Vec::new()), Err(ErrorKind::InvalidSql)));
    assert!(matches!(staked_of(&vec![vec![SqlValue::N(3)]]), Ok(3)));
    assert!(matches!(staked_of(&vec![vec![SqlValue::Null]]), Ok(0)));
    let row = vec![SqlValue::S("p".to_string()), SqlValue::N(10), SqlValue::N(4)];
    assert_eq!(account_of(&vec![row]), (10, 4));
    assert_eq!(account_of(&Vec::new()), (0, 0));
    assert_eq!(account_of(&vec![vec![SqlValue::S("p".to_string()), SqlValue::N(10)]]), (10, 0));
}

#[test]
fn reputation_is_raised_and_lowered() {
    let peer = Peer::new("peer".to_string());
    let up = increase_reputation(&peer, 10, 4, 5);
    assert!(up.sql.contains("INTO reputation(peer_id, reputation, staked)"));
    assert_eq!(names(&up), vec!["peer_id", "reputation", "staked"]);
    assert_eq!(integer(&up, "reputation"), 15);
    assert_eq!(integer(&up, "staked"), 4);
    let down = decrease_reputation(&peer, 3, 4, 5);
    assert_eq!(integer(&down, "reputation"), -2);
    assert_eq!(integer(&down, "staked"), 4);
}

#[test]
fn stake_needs_enough_reputation() {
    let peer = Peer::new("peer".to_string());
    assert!(matches!(
        stake_reputation(&peer, 4, 5),
        Err(ErrorKind::InsufficientReputationToStake)
    ));
    assert!(matches!(
        stake_reputation(&peer, -5, i64::MAX),
        Err(ErrorKind::InsufficientReputationToStake)
    ));
    assert!(matches!(
        stake_reputation(&peer, i64::MIN, i64::MAX),
        Err(ErrorKind::InsufficientReputationToStake)
    ));
    assert!(matches!(
        stake_reputation(&peer, 0, 1),
        Err(ErrorKind::InsufficientReputationToStake)
    ));
    assert!(matches!(
        unstake_reputation(&peer, i64::MAX, -5, i64::MAX),
        Err(ErrorKind::InsufficientReputationToUnstake)
    ));
    assert!(matches!(
        unstake_reputation(&peer, i64::MIN, i64::MIN, i64::MAX),
        Err(ErrorKind::InsufficientReputationToUnstake)
    ));
    let none = stake_reputation(&peer, 0, 0).unwrap();
    assert_eq!(integer(&none, "rep"), 0);
    assert_eq!(integer(&none, "staked"), 0);
    let staked = stake_reputation(&peer, 5, 5).unwrap();
    assert_eq!(names(&staked), vec!["peer_id", "rep", "staked"]);
    assert_eq!(integer(&staked, "rep"), 0);
    assert_eq!(integer(&staked, "staked"), 10);
    assert!(matches!(
        unstake_reputation(&peer, 4, 2, 3),
        Err(ErrorKind::InsufficientReputationToUnstake)
    ));
    let back = unstake_reputation(&peer, 4, 3, 3).unwrap();
    assert_eq!(integer(&back, "rep"), 7);
    assert_eq!(integer(&back, "staked"), 0);
}

#[test]
fn requests_carry_the_token() {
    let mut ledger = ImmuLedger::new("t0".to_string());
    let request = ledger.sql_execute(get_all_contracts());
    assert_eq!(headers(&request), vec![pair("authorization", "Bearer t0")]);
    assert!(matches!(request.call, LedgerCall::SqlExec { .. }));
    let request = ledger.query_execute(get_all_contracts());
    assert_eq!(headers(&request), vec![pair("authorization", "Bearer t0")]);
    assert!(matches!(request.call, LedgerCall::SqlQuery { .. }));
    let request = ledger.set("k".to_string(), vec![1]);
    assert!(matches!(request.call, LedgerCall::SetValue { key, value } if key == b"k" && value == vec![1]));
    let request = ledger.get("k".to_string());
    assert!(matches!(request.call, LedgerCall::GetValue { key } if key == b"k"));
    ledger.database_selected("t1".to_string());
    let request = ledger.use_database("db".to_string());
    assert_eq!(headers(&request), vec![pair("authorization", "Bearer t1")]);
    assert!(matches!(request.call, LedgerCall::UseDatabase { name } if name == "db"));
    let request = ledger.sql_execute_tx(get_all_contracts(), "s", "x");
    assert_eq!(
        headers(&request),
        vec![pair("authorization", "Bearer t1"), pair("sessionid", "s"), pair("transactionid", "x")]
    );
    let request = ledger.query_execute_tx(get_all_contracts(), "s", "x");
    assert_eq!(headers(&request).len(), 3);
    let login = ImmuLedger::login("u", "p");
    assert!(login.headers.is_empty());
    assert!(matches!(login.call, LedgerCall::Login { user, password } if user == b"u" && password == b"p"));
}

#[test]
fn database_is_set_up_in_order() {
    let (mut ledger, requests) = LedgerProvider.invoke("t".to_string());
    assert_eq!(requests.len(), 2);
    assert!(matches!(&requests[0].call, LedgerCall::CreateDatabase { name } if name == kiss::util::consts::DATABASE_NAME));
    assert!(matches!(&requests[1].call, LedgerCall::UseDatabase { name } if name == kiss::util::consts::DATABASE_NAME));
    assert_eq!(headers(&requests[1]), vec![pair("authorization", "Bearer t")]);
    ledger.database_selected("t2".to_string());
    let tables = init_database(&ledger);
    assert_eq!(tables.len(), 3);
    for (request, table) in tables.iter().zip(["contracts", "reputation", "verifications"]) {
        assert_eq!(headers(request), vec![pair("authorization", "Bearer t2")]);
        match &request.call {
            LedgerCall::SqlExec { statement } => {
                assert!(statement.sql.starts_with(&format!("CREATE TABLE IF NOT EXISTS {} (", table)));
                assert!(statement.params.is_empty());
            }
            _ => panic!("a table is created by something else than a statement"),
        }
    }
}

#[test]
fn reputation_update_runs_through_its_six_requests() {
    let ledger = ImmuLedger::new("t".to_string());
    let mut update = ledger.increase_reputation(Peer::new("peer".to_string()), 5);
    assert!(!update.is_done());

    let request = update.request(&ledger).unwrap();
    assert_eq!(headers(&request), vec![pair("authorization", "Bearer t")]);
    match request.call {
        LedgerCall::OpenSession { username, password, database_name } => {
            assert_eq!(username, b"immudb");
            assert_eq!(password, b"immudb");
            assert_eq!(database_name, kiss::util::consts::DATABASE_NAME);
        }
        _ => panic!("the update does not begin with a session"),
    }
    assert!(!update.accepts(&LedgerReply::Committed));
    let reply = LedgerReply::SessionOpened { session_id: "s".to_string() };
    assert!(update.accepts(&reply));
    update.advance(reply);

    let request = update.request(&ledger).unwrap();
    assert_eq!(
        headers(&request),
        vec![pair("authorization", "Bearer t"), pair("sessionid", "s")]
    );
    assert!(matches!(request.call, LedgerCall::NewTx));
    update.advance(LedgerReply::TransactionBegun { transaction_id: "x".to_string() });

    let all_three =
        vec![pair("authorization", "Bearer t"), pair("sessionid", "s"), pair("transactionid", "x")];
    let request = update.request(&ledger).unwrap();
    assert_eq!(headers(&request), all_three);
    match request.call {
        LedgerCall::SqlQuery { statement } => {
            assert_eq!(statement.sql, "SELECT * FROM reputation WHERE peer_id = @peer_id;");
            assert!(matches!(&statement.params[0].value, SqlValue::S(x) if x == "peer"));
        }
        _ => panic!("the account is not read"),
    }
    let too_much = LedgerReply::Rows {
        rows: vec![vec![SqlValue::S("peer".to_string()), SqlValue::N(i64::MAX), SqlValue::N(0)]],
    };
    assert!(!update.accepts(&too_much));
    let reply = LedgerReply::Rows {
        rows: vec![vec![SqlValue::S("peer".to_string()), SqlValue::N(10), SqlValue::N(4)]],
    };
    assert!(update.accepts(&reply));
    update.advance(reply);

    let request = update.request(&ledger).unwrap();
    assert_eq!(headers(&request), all_three);
    match request.call {
        LedgerCall::SqlExec { statement } => {
            assert_eq!(integer(&statement, "reputation"), 15);
            assert_eq!(integer(&statement, "staked"), 4);
        }
        _ => panic!("the account is not written"),
    }
    assert!(!update.accepts(&LedgerReply::Committed));
    update.advance(LedgerReply::Executed);

    let request = update.request(&ledger).unwrap();
    assert_eq!(headers(&request), all_three);
    assert!(matches!(request.call, LedgerCall::Commit));
    update.advance(LedgerReply::Committed);

    let request = update.request(&ledger).unwrap();
    assert_eq!(
        headers(&request),
        vec![pair("authorization", "Bearer t"), pair("sessionid", "s")]
    );
    assert!(matches!(request.call, LedgerCall::CloseSession));
    update.advance(LedgerReply::SessionClosed);

    assert!(update.is_done());
    assert!(!update.has_failed());
    assert!(update.request(&ledger).is_none());
    assert!(!update.accepts(&LedgerReply::SessionClosed));
    assert!(!update.accepts(&LedgerReply::Failed { error: ErrorKind::IoError }));
    assert!(matches!(update.into_result(), Some(Ok(()))));
}

fn update_at(ledger: &ImmuLedger, stage: usize) -> kiss::ledger::client::ReputationTx {
    let replies = vec![
        LedgerReply::SessionOpened { session_id: "s".to_string() },
        LedgerReply::TransactionBegun { transaction_id: "x".to_string() },
        LedgerReply::Rows {
            rows: vec![vec![SqlValue::S("peer".to_string()), SqlValue::N(10), SqlValue::N(4)]],
        },
        LedgerReply::Executed,
        LedgerReply::Committed,
        LedgerReply::SessionClosed,
    ];
    let mut update = ledger.increase_reputation(Peer::new("peer".to_string()), 5);
    for reply in replies.into_iter().take(stage) {
        assert!(update.accepts(&reply));
        update.advance(reply);
    }
    update
}

#[test]
fn refused_write_ends_the_update_with_its_error() {
    let ledger = ImmuLedger::new("t".to_string());
    let mut update = update_at(&ledger, 3);
    assert!(matches!(update.request(&ledger).unwrap().call, LedgerCall::SqlExec { .. }));
    let refused = LedgerReply::Failed { error: ErrorKind::FailedTonicRequest };
    assert!(update.accepts(&refused));
    update.advance(refused);
    assert!(update.has_failed());
    assert!(!update.is_done());
    assert!(update.request(&ledger).is_none());
    assert!(!update.accepts(&LedgerReply::Committed));
    assert!(!update.accepts(&LedgerReply::Executed));
    assert!(matches!(update.into_result(), Some(Err(ErrorKind::FailedTonicRequest))));
}

#[test]
fn failure_at_any_stage_ends_the_update() {
    let ledger = ImmuLedger::new("t".to_string());
    for stage in 0..6 {
        let mut update = update_at(&ledger, stage);
        assert!(!update.is_done());
        assert!(!update.has_failed());
        assert!(update.request(&ledger).is_some());
        update.advance(LedgerReply::Failed { error: ErrorKind::Generic(format!("at {}", stage)) });
        assert!(update.has_failed());
        assert!(!update.is_done());
        assert!(update.request(&ledger).is_none());
        match update.into_result() {
            Some(Err(ErrorKind::Generic(text))) => assert_eq!(text, format!("at {}", stage)),
            _ => panic!("the failure is not handed on"),
        }
    }
    assert!(matches!(update_at(&ledger, 6).into_result(), Some(Ok(()))));
    assert!(update_at(&ledger, 5).into_result().is_none());
    assert!(update_at(&ledger, 0).into_result().is_none());
}

#[test]
fn update_takes_only_the_reply_it_waits_for() {
    let ledger = ImmuLedger::new("t".to_string());
    let expected = |stage: usize, reply: &LedgerReply| match reply {
        LedgerReply::SessionOpened { .. } => stage == 0,
        LedgerReply::TransactionBegun { .. } => stage == 1,
        LedgerReply::Rows { .. } => stage == 2,
        LedgerReply::Executed => stage == 3,
        LedgerReply::Committed => stage == 4,
        LedgerReply::SessionClosed => stage == 5,
        LedgerReply::Failed { .. } => stage < 6,
    };
    for stage in 0..7 {
        let update = update_at(&ledger, stage);
        for reply in [
            LedgerReply::SessionOpened { session_id: "s".to_string() },
            LedgerReply::TransactionBegun { transaction_id: "x".to_string() },
            LedgerReply::Rows { rows: Vec::new() },
            LedgerReply::Executed,
            LedgerReply::Committed,
            LedgerReply::SessionClosed,
            LedgerReply::Failed { error: ErrorKind::IoError },
        ] {
            assert_eq!(update.accepts(&reply), expected(stage, &reply));
        }
    }
}

fn committed(ledger: &ImmuLedger, account: (i64, i64), peer: &str, amount: i64, raise: bool) -> (i64, i64) {
    let mut update = if raise {
        ledger.increase_reputation(Peer::new(peer.to_string()), amount)
    } else {
        ledger.decrease_reputation(Peer::new(peer.to_string()), amount)
    };
    update.advance(LedgerReply::SessionOpened { session_id: "s".to_string() });
    update.advance(LedgerReply::TransactionBegun { transaction_id: "x".to_string() });
    let reply = LedgerReply::Rows {
        rows: vec![vec![
            SqlValue::S(peer.to_string()),
            SqlValue::N(account.0),
            SqlValue::N(account.1),
        ]],
    };
    assert!(update.accepts(&reply));
    update.advance(reply);
    match update.request(ledger).unwrap().call {
        LedgerCall::SqlExec { statement } => {
            (integer(&statement, "reputation"), integer(&statement, "staked"))
        }
        _ => panic!("the account is not written"),
    }
}

#[test]
fn updates_of_two_peers_add_up_in_any_order() {
    let ledger = ImmuLedger::new("t".to_string());
    let (a, b, c) = (11, 7, 4);
    let orders: [[usize; 3]; 6] =
        [[0, 1, 2], [0, 2, 1], [1, 0, 2], [1, 2, 0], [2, 0, 1], [2, 1, 0]];
    for order in orders {
        let mut p = (100, 3);
        let mut q = (-20, 0);
        for step in order {
            match step {
                0 => p = committed(&ledger, p, "p", a, true),
                1 => q = committed(&ledger, q, "q", b, true),
                _ => p = committed(&ledger, p, "p", c, false),
            }
        }
        assert_eq!(p, (100 + a - c, 3));
        assert_eq!(q, (-20 + b, 0));
    }
}

#[test]
fn two_hundred_interleaved_updates_add_up() {
    let ledger = ImmuLedger::new("t".to_string());
    let initial = 40;
    let mut account = (initial, 9);
    for round in 0..100 {
        if round % 3 == 0 {
            account = committed(&ledger, account, "p", 7, true);
            account = committed(&ledger, account, "p", 5, true);
        } else {
            account = committed(&ledger, account, "p", 5, true);
            account = committed(&ledger, account, "p", 7, true);
        }
    }
    assert_eq!(account, (initial + 1200, 9));
}

#[test]
fn penalty_may_drive_the_reputation_negative() {
    let ledger = ImmuLedger::new("t".to_string());
    assert_eq!(committed(&ledger, (2, 0), "p", 5, false), (-3, 0));
    assert_eq!(committed(&ledger, (0, 0), "p", 1, true), (1, 0));
}
