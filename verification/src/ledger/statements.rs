//! The statements that the ledger client sends: their text and their
//! parameters.

use vstd::prelude::*;
use crate::ledger::rows::{integer_in, map_row_to_contract, map_row_to_verification_claim, contract_of_row, claim_of_row, reports, RowFault};
use crate::util::errors::ErrorKind;
use crate::util::types::{Contract, ContractView, Peer, SqlValue, SqlValueView, VerificationClaim, VerificationClaimView, row_view};

verus! {

pub const CREATE_CONTRACTS_TABLE: &'static str = "CREATE TABLE IF NOT EXISTS contracts (
            contract_uuid   VARCHAR[36],
            peer_id         VARCHAR[53],
            file_uuid       VARCHAR[36],
            file_hash       VARCHAR[1024],
            upload_date     INTEGER,
            ttl             INTEGER,
            secret_n        BLOB,
            secret_m        BLOB,
            rows            INTEGER,
            cols            INTEGER,
            PRIMARY KEY (file_uuid)
        );";

pub const CREATE_REPUTATION_TABLE: &'static str = "CREATE TABLE IF NOT EXISTS reputation (
            peer_id         VARCHAR[53],
            reputation      INTEGER,
            staked          INTEGER,
            PRIMARY KEY (peer_id)
        );";

pub const CREATE_VERIFICATIONS_TABLE: &'static str = "CREATE TABLE IF NOT EXISTS verifications (
            contract_uuid     VARCHAR[36],
            verified_by_id    VARCHAR[53],
            verification_time INTEGER,
            succeeded         BOOLEAN,
            PRIMARY KEY (contract_uuid, verified_by_id)
        );";

pub const UPSERT_CONTRACT: &'static str = "UPSERT
                INTO contracts(contract_uuid, peer_id, file_uuid, file_hash, upload_date, ttl, secret_n, secret_m, rows, cols)
                VALUES (@contract_uuid, @peer_id, @file_uuid, @file_hash, @upload_date, @ttl, @secret_n, @secret_m, @rows, @cols);";

pub const UPSERT_VERIFICATION: &'static str = "UPSERT
                INTO verifications(contract_uuid, verified_by_id, verification_time, succeeded)
                VALUES (@contract_uuid, @verified_by_id, @verification_time, @succeeded);";

pub const UPSERT_REPUTATION: &'static str = "
            UPSERT
            INTO reputation(peer_id, reputation, staked)
            VALUES (@peer_id, @reputation, @staked)";

pub const UPSERT_STAKE: &'static str = "
                UPSERT
                INTO reputation(peer_id, reputation, staked)
                VALUES (@peer_id, @rep, @amount)";

pub const UPSERT_UNSTAKE: &'static str = "
                UPSERT
                INTO reputation(peer_id, reputation, staked)
                VALUES (@peer_id, @rep, @staked)";

pub const SELECT_REPUTATION: &'static str = "SELECT reputation FROM reputation WHERE peer_id = @peer_id;";

pub const SELECT_STAKED: &'static str = "SELECT staked FROM reputation WHERE peer_id = @peer_id;";

pub const SELECT_ACCOUNT: &'static str = "SELECT * FROM reputation WHERE peer_id = @peer_id;";

pub const SELECT_CONTRACTS_OF_FILE: &'static str = "SELECT * FROM contracts WHERE file_uuid = @file_uuid;";

pub const SELECT_ALL_CONTRACTS: &'static str = "SELECT * FROM contracts;";

pub const SELECT_VERIFICATIONS: &'static str = "SELECT * FROM verifications WHERE contract_uuid = @contract_uuid;";

/// A parameter of a statement: the name by which the text refers to it, and
/// its value.
#[derive(Debug)]
pub struct NamedParam {
    pub name: String,
    pub value: SqlValue,
}

impl View for NamedParam {
    type V = (Seq<char>, SqlValueView);

    open spec fn view(&self) -> (Seq<char>, SqlValueView) {
        (self.name@, self.value@)
    }
}

/// A statement with its parameters.
#[derive(Debug)]
pub struct Statement {
    pub sql: String,
    pub params: Vec<NamedParam>,
}

/// What the parameters of a statement hold.
pub open spec fn params_view(params: Seq<NamedParam>) -> Seq<(Seq<char>, SqlValueView)> {
    Seq::new(params.len(), |k: int| params[k]@)
}

impl Statement {
    /// Whether the statement has the given text and parameters.
    pub open spec fn is(&self, sql: Seq<char>, params: Seq<(Seq<char>, SqlValueView)>) -> bool {
        self.sql@ == sql && params_view(self.params@) == params
    }
}

/// What the rows of a reply hold.
pub open spec fn rows_view(rows: Seq<Vec<SqlValue>>) -> Seq<Seq<SqlValueView>> {
    Seq::new(rows.len(), |k: int| row_view(rows[k]@))
}

/// A parameter with the given name and value.
fn param(name: &str, value: SqlValue) -> (p: NamedParam)
    ensures
        p@ == (name@, value@),
{
    NamedParam { name: name.to_string(), value }
}

/// A text parameter that holds a peer's identifier.
fn peer_param(name: &str, peer: &Peer) -> (p: NamedParam)
    ensures
        p@ == (name@, SqlValueView::S(peer@)),
{
    param(name, SqlValue::S(peer.to_base58()))
}

/// A statement without parameters.
fn bare(sql: &str) -> (statement: Statement)
    ensures
        statement.is(sql@, seq![]),
{
    let statement = Statement { sql: sql.to_string(), params: Vec::new() };
    assert(params_view(statement.params@) =~= seq![]);
    statement
}

/// A statement with one parameter.
fn with_one(sql: &str, p: NamedParam) -> (statement: Statement)
    ensures
        statement.is(sql@, seq![p@]),
{
    let mut params: Vec<NamedParam> = Vec::new();
    params.push(p);
    let statement = Statement { sql: sql.to_string(), params };
    assert(params_view(statement.params@) =~= seq![p@]);
    statement
}

/// A statement that writes a peer's account.
fn account_write(sql: &str, peer: &Peer, second: NamedParam, third: NamedParam) -> (statement:
    Statement)
    ensures
        statement.is(sql@, seq![("peer_id"@, SqlValueView::S(peer@)), second@, third@]),
{
    let mut params: Vec<NamedParam> = Vec::new();
    params.push(peer_param("peer_id", peer));
    params.push(second);
    params.push(third);
    let statement = Statement { sql: sql.to_string(), params };
    assert(params_view(statement.params@) =~= seq![
        ("peer_id"@, SqlValueView::S(peer@)),
        second@,
        third@,
    ]);
    statement
}

/// The three statements that create the tables, in the order in which they
/// are run.
pub fn schema() -> (statements: Vec<Statement>)
    ensures
        statements@.len() == 3,
        statements@[0].is(CREATE_CONTRACTS_TABLE@, seq![]),
        statements@[1].is(CREATE_REPUTATION_TABLE@, seq![]),
        statements@[2].is(CREATE_VERIFICATIONS_TABLE@, seq![]),
{
    let mut statements: Vec<Statement> = Vec::new();
    statements.push(bare(CREATE_CONTRACTS_TABLE));
    statements.push(bare(CREATE_REPUTATION_TABLE));
    statements.push(bare(CREATE_VERIFICATIONS_TABLE));
    statements
}

/// The statement that writes a contract. `contract_uuid` is the fresh
/// identifier of the contract and `now` the upload date in seconds since the
/// Unix epoch.
pub fn create_contract(
    contract_uuid: String,
    peer_id: &Peer,
    file_uuid: String,
    file_hash: String,
    now: i64,
    ttl: i64,
    secret_n: Vec<u8>,
    secret_m: Vec<u8>,
    rows: i64,
    cols: i64,
) -> (statement: Statement)
    ensures
        statement.is(
            UPSERT_CONTRACT@,
            seq![
                ("contract_uuid"@, SqlValueView::S(contract_uuid@)),
                ("peer_id"@, SqlValueView::S(peer_id@)),
                ("file_uuid"@, SqlValueView::S(file_uuid@)),
                ("file_hash"@, SqlValueView::S(file_hash@)),
                ("upload_date"@, SqlValueView::N(now)),
                ("ttl"@, SqlValueView::N(ttl)),
                ("secret_n"@, SqlValueView::Bs(secret_n@)),
                ("secret_m"@, SqlValueView::Bs(secret_m@)),
                ("rows"@, SqlValueView::N(rows)),
                ("cols"@, SqlValueView::N(cols)),
            ],
        ),
{
    let mut params: Vec<NamedParam> = Vec::new();
    params.push(param("contract_uuid", SqlValue::S(contract_uuid)));
    params.push(peer_param("peer_id", peer_id));
    params.push(param("file_uuid", SqlValue::S(file_uuid)));
    params.push(param("file_hash", SqlValue::S(file_hash)));
    params.push(param("upload_date", SqlValue::N(now)));
    params.push(param("ttl", SqlValue::N(ttl)));
    params.push(param("secret_n", SqlValue::Bs(secret_n)));
    params.push(param("secret_m", SqlValue::Bs(secret_m)));
    params.push(param("rows", SqlValue::N(rows)));
    params.push(param("cols", SqlValue::N(cols)));
    let statement = Statement { sql: UPSERT_CONTRACT.to_string(), params };
    assert(params_view(statement.params@) =~= seq![
        ("contract_uuid"@, SqlValueView::S(contract_uuid@)),
        ("peer_id"@, SqlValueView::S(peer_id@)),
        ("file_uuid"@, SqlValueView::S(file_uuid@)),
        ("file_hash"@, SqlValueView::S(file_hash@)),
        ("upload_date"@, SqlValueView::N(now)),
        ("ttl"@, SqlValueView::N(ttl)),
        ("secret_n"@, SqlValueView::Bs(secret_n@)),
        ("secret_m"@, SqlValueView::Bs(secret_m@)),
        ("rows"@, SqlValueView::N(rows)),
        ("cols"@, SqlValueView::N(cols)),
    ]);
    statement
}

/// The statement that writes the claim of a verifier about a contract.
/// `now` is the time of the audit in milliseconds since the Unix epoch.
pub fn create_verified_claim(
    contract_uuid: String,
    verified_by_id: &Peer,
    now: i64,
    succeeded: bool,
) -> (statement: Statement)
    ensures
        statement.is(
            UPSERT_VERIFICATION@,
            seq![
                ("contract_uuid"@, SqlValueView::S(contract_uuid@)),
                ("verified_by_id"@, SqlValueView::S(verified_by_id@)),
                ("verification_time"@, SqlValueView::N(now)),
                ("succeeded"@, SqlValueView::B(succeeded)),
            ],
        ),
{
    let mut params: Vec<NamedParam> = Vec::new();
    params.push(param("contract_uuid", SqlValue::S(contract_uuid)));
    params.push(peer_param("verified_by_id", verified_by_id));
    params.push(param("verification_time", SqlValue::N(now)));
    params.push(param("succeeded", SqlValue::B(succeeded)));
    let statement = Statement { sql: UPSERT_VERIFICATION.to_string(), params };
    assert(params_view(statement.params@) =~= seq![
        ("contract_uuid"@, SqlValueView::S(contract_uuid@)),
        ("verified_by_id"@, SqlValueView::S(verified_by_id@)),
        ("verification_time"@, SqlValueView::N(now)),
        ("succeeded"@, SqlValueView::B(succeeded)),
    ]);
    statement
}

/// The query for a peer's reputation.
pub fn get_reputation(peer_id: &Peer) -> (statement: Statement)
    ensures
        statement.is(SELECT_REPUTATION@, seq![("peer_id"@, SqlValueView::S(peer_id@))]),
{
    with_one(SELECT_REPUTATION, peer_param("peer_id", peer_id))
}

/// The query for a peer's staked reputation.
pub fn get_staked(peer_id: &Peer) -> (statement: Statement)
    ensures
        statement.is(SELECT_STAKED@, seq![("peer_id"@, SqlValueView::S(peer_id@))]),
{
    with_one(SELECT_STAKED, peer_param("peer_id", peer_id))
}

/// The query for a peer's whole account, as a reputation update reads it.
pub fn get_account(peer_id: &Peer) -> (statement: Statement)
    ensures
        statement.is(SELECT_ACCOUNT@, seq![("peer_id"@, SqlValueView::S(peer_id@))]),
{
    with_one(SELECT_ACCOUNT, peer_param("peer_id", peer_id))
}

/// The query for the contracts of a file.
pub fn get_contracts(file_uuid: String) -> (statement: Statement)
    ensures
        statement.is(SELECT_CONTRACTS_OF_FILE@, seq![("file_uuid"@, SqlValueView::S(file_uuid@))]),
{
    with_one(SELECT_CONTRACTS_OF_FILE, param("file_uuid", SqlValue::S(file_uuid)))
}

/// The query for all contracts.
pub fn get_all_contracts() -> (statement: Statement)
    ensures
        statement.is(SELECT_ALL_CONTRACTS@, seq![]),
{
    bare(SELECT_ALL_CONTRACTS)
}

/// The query for the claims that verifiers have made about a contract.
pub fn get_previous_verified(contract_uuid: String) -> (statement: Statement)
    ensures
        statement.is(
            SELECT_VERIFICATIONS@,
            seq![("contract_uuid"@, SqlValueView::S(contract_uuid@))],
        ),
{
    with_one(SELECT_VERIFICATIONS, param("contract_uuid", SqlValue::S(contract_uuid)))
}

/// The integer in column `k` of the first row, and zero where there is no
/// row or the column holds no integer.
pub open spec fn first_integer(rows: Seq<Seq<SqlValueView>>, k: int) -> i64 {
    if rows.len() == 0 {
        0
    } else {
        match integer_in(rows[0], k) {
            Some(x) => x,
            None => 0,
        }
    }
}

/// The integer in column `k` of the first row of a reply.
fn first_integer_of(rows: &Vec<Vec<SqlValue>>, k: usize) -> (x: i64)
    ensures
        x == first_integer(rows_view(rows@), k as int),
{
    if rows.len() == 0 {
        0
    } else {
        let row = &rows[0];
        if k < row.len() {
            match &row[k] {
                SqlValue::N(x) => *x,
                _ => 0,
            }
        } else {
            0
        }
    }
}

/// The reputation that the reply to `get_reputation` reports: the integer in
/// the first column of the first row, and zero where there is none.
pub fn reputation_of(rows: &Vec<Vec<SqlValue>>) -> (reputation: i64)
    ensures
        reputation == first_integer(rows_view(rows@), 0),
{
    first_integer_of(rows, 0)
}

/// The staked reputation that the reply to `get_staked` reports. A reply
/// without a row gives `InvalidSql`.
pub fn staked_of(rows: &Vec<Vec<SqlValue>>) -> (r: Result<i64, ErrorKind>)
    ensures
        match r {
            Ok(staked) => rows@.len() > 0 && staked == first_integer(rows_view(rows@), 0),
            Err(e) => rows@.len() == 0 && e is InvalidSql,
        },
{
    if rows.len() == 0 {
        Err(ErrorKind::InvalidSql)
    } else {
        Ok(first_integer_of(rows, 0))
    }
}

/// The reputation and the staked reputation that the reply to `get_account`
/// reports: the integers in the second and third column of the first row,
/// each zero where there is none.
pub fn account_of(rows: &Vec<Vec<SqlValue>>) -> (account: (i64, i64))
    ensures
        account.0 == first_integer(rows_view(rows@), 1),
        account.1 == first_integer(rows_view(rows@), 2),
{
    (first_integer_of(rows, 1), first_integer_of(rows, 2))
}

/// The statement with which a reputation update writes the account back:
/// the reputation raised by `amount`, the staked reputation as it was.
pub fn increase_reputation(peer_id: &Peer, reputation: i64, staked: i64, amount: i64) -> (statement:
    Statement)
    requires
        i64::MIN <= reputation + amount <= i64::MAX,
    ensures
        statement.is(
            UPSERT_REPUTATION@,
            seq![
                ("peer_id"@, SqlValueView::S(peer_id@)),
                ("reputation"@, SqlValueView::N((reputation + amount) as i64)),
                ("staked"@, SqlValueView::N(staked)),
            ],
        ),
{
    account_write(
        UPSERT_REPUTATION,
        peer_id,
        param("reputation", SqlValue::N(reputation + amount)),
        param("staked", SqlValue::N(staked)),
    )
}

/// The statement with which a reputation update lowers the reputation by
/// `amount`: an increase by the negated amount.
pub fn decrease_reputation(peer_id: &Peer, reputation: i64, staked: i64, amount: i64) -> (statement:
    Statement)
    requires
        i64::MIN <= reputation - amount <= i64::MAX,
        amount > i64::MIN,
    ensures
        statement.is(
            UPSERT_REPUTATION@,
            seq![
                ("peer_id"@, SqlValueView::S(peer_id@)),
                ("reputation"@, SqlValueView::N((reputation - amount) as i64)),
                ("staked"@, SqlValueView::N(staked)),
            ],
        ),
{
    increase_reputation(peer_id, reputation, staked, -amount)
}

/// The statement that stakes `amount` of a peer's reputation `rep`. A peer
/// with less reputation than that gets `InsufficientReputationToStake` and
/// nothing is written.
pub fn stake_reputation(peer_id: &Peer, rep: i64, amount: i64) -> (r: Result<
    Statement,
    ErrorKind,
>)
    requires
        rep >= amount ==> rep - amount <= i64::MAX && i64::MIN <= rep + amount <= i64::MAX,
    ensures
        match r {
            Ok(statement) => rep >= amount && statement.is(
                UPSERT_STAKE@,
                seq![
                    ("peer_id"@, SqlValueView::S(peer_id@)),
                    ("rep"@, SqlValueView::N((rep - amount) as i64)),
                    ("staked"@, SqlValueView::N((rep + amount) as i64)),
                ],
            ),
            Err(e) => rep < amount && e is InsufficientReputationToStake,
        },
{
    if rep < amount {
        return Err(ErrorKind::InsufficientReputationToStake);
    }
    Ok(
        account_write(
            UPSERT_STAKE,
            peer_id,
            param("rep", SqlValue::N(rep - amount)),
            param("staked", SqlValue::N(rep + amount)),
        ),
    )
}

/// The statement that takes `amount` back from a peer's staked reputation.
/// A peer that has staked less than that gets
/// `InsufficientReputationToUnstake` and nothing is written.
pub fn unstake_reputation(peer_id: &Peer, rep: i64, staked: i64, amount: i64) -> (r: Result<
    Statement,
    ErrorKind,
>)
    requires
        staked >= amount ==> staked - amount <= i64::MAX && i64::MIN <= rep + amount
            <= i64::MAX,
    ensures
        match r {
            Ok(statement) => staked >= amount && statement.is(
                UPSERT_UNSTAKE@,
                seq![
                    ("peer_id"@, SqlValueView::S(peer_id@)),
                    ("rep"@, SqlValueView::N((rep + amount) as i64)),
                    ("staked"@, SqlValueView::N((staked - amount) as i64)),
                ],
            ),
            Err(e) => staked < amount && e is InsufficientReputationToUnstake,
        },
{
    if staked < amount {
        return Err(ErrorKind::InsufficientReputationToUnstake);
    }
    Ok(
        account_write(
            UPSERT_UNSTAKE,
            peer_id,
            param("rep", SqlValue::N(rep + amount)),
            param("staked", SqlValue::N(staked - amount)),
        ),
    )
}

/// The first row that cannot be read as a contract, if there is one.
pub open spec fn first_bad_contract(rows: Seq<Seq<SqlValueView>>, k: int) -> bool {
    &&& 0 <= k < rows.len()
    &&& contract_of_row(rows[k]) is Err
    &&& forall|j: int| 0 <= j < k ==> contract_of_row(rows[j]) is Ok
}

/// The first row that cannot be read as a claim, if there is one.
pub open spec fn first_bad_claim(rows: Seq<Seq<SqlValueView>>, k: int) -> bool {
    &&& 0 <= k < rows.len()
    &&& claim_of_row(rows[k]) is Err
    &&& forall|j: int| 0 <= j < k ==> claim_of_row(rows[j]) is Ok
}

/// The contracts that the rows of a reply stand for, in their order. The
/// first row that cannot be read decides the error.
pub fn contracts_of(rows: Vec<Vec<SqlValue>>) -> (r: Result<Vec<Contract>, ErrorKind>)
    ensures
        match r {
            Ok(contracts) => contracts@.len() == rows@.len() && forall|k: int|
                0 <= k < rows@.len() ==> contract_of_row(rows_view(rows@)[k]) == Ok::<
                    ContractView,
                    RowFault,
                >(#[trigger] contracts@[k]@),
            Err(e) => exists|k: int|
                first_bad_contract(rows_view(rows@), k) && reports(
                    e,
                    contract_of_row(rows_view(rows@)[k])->Err_0,
                    rows_view(rows@)[k],
                ),
        },
{
    let mut contracts: Vec<Contract> = Vec::new();
    let ghost all = rows_view(rows@);
    let ghost given = rows@;
    for row in it: rows
        invariant
            it.seq() == given,
            all == rows_view(given),
            contracts@.len() == it.index(),
            forall|t: int|
                0 <= t < it.index() ==> contract_of_row(all[t]) == Ok::<ContractView, RowFault>(
                    #[trigger] contracts@[t]@,
                ),
    {
        assert(row_view(row@) == all[it.index() as int]);
        match map_row_to_contract(row) {
            Ok(contract) => {
                contracts.push(contract);
            },
            Err(e) => {
                assert forall|j: int| 0 <= j < it.index() implies contract_of_row(
                    all[j],
                ) is Ok by {
                    let _ = contracts@[j]@;
                }
                assert(first_bad_contract(all, it.index() as int));
                return Err(e);
            },
        }
    }
    Ok(contracts)
}

/// The contract that the reply to a query for one file's contract stands
/// for: that of the first row. A reply without a row gives `InvalidSql`.
pub fn contract_of(rows: Vec<Vec<SqlValue>>) -> (r: Result<Contract, ErrorKind>)
    ensures
        match r {
            Ok(contract) => rows@.len() > 0 && contract_of_row(rows_view(rows@)[0]) == Ok::<
                ContractView,
                RowFault,
            >(contract@),
            Err(e) => if rows@.len() == 0 {
                e is InvalidSql
            } else {
                contract_of_row(rows_view(rows@)[0]) matches Err(fault) && reports(
                    e,
                    fault,
                    rows_view(rows@)[0],
                )
            },
        },
{
    let mut rows = rows;
    if rows.len() == 0 {
        return Err(ErrorKind::InvalidSql);
    }
    let ghost first = row_view(rows@[0]@);
    let row = rows.swap_remove(0);
    assert(row_view(row@) == first);
    map_row_to_contract(row)
}

/// The claims that the rows of a reply stand for, in their order. The first
/// row that cannot be read decides the error.
pub fn claims_of(rows: Vec<Vec<SqlValue>>) -> (r: Result<Vec<VerificationClaim>, ErrorKind>)
    ensures
        match r {
            Ok(claims) => claims@.len() == rows@.len() && forall|k: int|
                0 <= k < rows@.len() ==> claim_of_row(rows_view(rows@)[k]) == Ok::<
                    VerificationClaimView,
                    RowFault,
                >(#[trigger] claims@[k]@),
            Err(e) => exists|k: int|
                first_bad_claim(rows_view(rows@), k) && reports(
                    e,
                    claim_of_row(rows_view(rows@)[k])->Err_0,
                    rows_view(rows@)[k],
                ),
        },
{
    let mut claims: Vec<VerificationClaim> = Vec::new();
    let ghost all = rows_view(rows@);
    let ghost given = rows@;
    for row in it: rows
        invariant
            it.seq() == given,
            all == rows_view(given),
            claims@.len() == it.index(),
            forall|t: int|
                0 <= t < it.index() ==> claim_of_row(all[t]) == Ok::<
                    VerificationClaimView,
                    RowFault,
                >(#[trigger] claims@[t]@),
    {
        assert(row_view(row@) == all[it.index() as int]);
        match map_row_to_verification_claim(row) {
            Ok(claim) => {
                claims.push(claim);
            },
            Err(e) => {
                assert forall|j: int| 0 <= j < it.index() implies claim_of_row(all[j]) is Ok by {
                    let _ = claims@[j]@;
                }
                assert(first_bad_claim(all, it.index() as int));
                return Err(e);
            },
        }
    }
    Ok(claims)
}

} // verus!
