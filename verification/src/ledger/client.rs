//! The ledger client: the requests that it sends, with their headers, and
//! the sequence of requests that makes up a reputation update.

use vstd::prelude::*;
use vstd::string::*;
use vstd::utf8::encode_utf8;
use crate::ledger::reputation::{account, increased, Account, Book};
use crate::ledger::statements::{
    account_of, first_integer, get_account, increase_reputation, rows_view, schema, params_view,
    Statement, SELECT_ACCOUNT, UPSERT_REPUTATION,
};
use crate::util::consts::DATABASE_NAME;
use crate::util::errors::ErrorKind;
use crate::util::text::bytes_of_text;
use crate::util::types::{Peer, SqlValue, SqlValueView};

verus! {

/// The name of the header that carries the token.
pub const AUTHORIZATION: &'static str = "authorization";

/// The name of the header that carries the session.
pub const SESSION_ID: &'static str = "sessionid";

/// The name of the header that carries the transaction.
pub const TRANSACTION_ID: &'static str = "transactionid";

/// What precedes the token in the authorization header.
pub const BEARER: &'static str = "Bearer ";

/// The user as which a reputation update opens its session.
pub const SESSION_USER: &'static str = "immudb";

/// A header of a request.
#[derive(Debug)]
pub struct Header {
    pub name: String,
    pub value: String,
}

impl View for Header {
    type V = (Seq<char>, Seq<char>);

    open spec fn view(&self) -> (Seq<char>, Seq<char>) {
        (self.name@, self.value@)
    }
}

/// What the headers hold.
pub open spec fn headers_view(headers: Seq<Header>) -> Seq<(Seq<char>, Seq<char>)> {
    Seq::new(headers.len(), |k: int| headers[k]@)
}

/// What the ledger is asked to do.
#[derive(Debug)]
pub enum LedgerCall {
    Login { user: Vec<u8>, password: Vec<u8> },
    /// Creates the database unless it exists.
    CreateDatabase { name: String },
    UseDatabase { name: String },
    OpenSession { username: Vec<u8>, password: Vec<u8>, database_name: String },
    /// Begins a read-write transaction.
    NewTx,
    SqlExec { statement: Statement },
    SqlQuery { statement: Statement },
    Commit,
    CloseSession,
    SetValue { key: Vec<u8>, value: Vec<u8> },
    GetValue { key: Vec<u8> },
}

/// A request to the ledger.
#[derive(Debug)]
pub struct LedgerRequest {
    pub headers: Vec<Header>,
    pub call: LedgerCall,
}

/// The headers of a request outside a session.
pub open spec fn plain_headers(token: Seq<char>) -> Seq<(Seq<char>, Seq<char>)> {
    seq![(AUTHORIZATION@, BEARER@ + token)]
}

/// The headers of a request in a session.
pub open spec fn session_headers(token: Seq<char>, session_id: Seq<char>) -> Seq<
    (Seq<char>, Seq<char>),
> {
    seq![(AUTHORIZATION@, BEARER@ + token), (SESSION_ID@, session_id)]
}

/// The headers of a request in a transaction.
pub open spec fn transaction_headers(
    token: Seq<char>,
    session_id: Seq<char>,
    transaction_id: Seq<char>,
) -> Seq<(Seq<char>, Seq<char>)> {
    seq![
        (AUTHORIZATION@, BEARER@ + token),
        (SESSION_ID@, session_id),
        (TRANSACTION_ID@, transaction_id),
    ]
}

/// The client's state: the token that the ledger gave it.
#[derive(Debug)]
pub struct ImmuLedger {
    token: String,
}

impl ImmuLedger {
    /// The token that the requests carry.
    pub closed spec fn token(&self) -> Seq<char> {
        self.token@
    }

    /// A client that was logged in with the given token.
    pub fn new(token: String) -> (ledger: ImmuLedger)
        ensures
            ledger.token() == token@,
    {
        ImmuLedger { token }
    }

    /// The request that logs a user in. It carries no header.
    pub fn login(username: &str, password: &str) -> (request: LedgerRequest)
        ensures
            request.headers@.len() == 0,
            request.call matches LedgerCall::Login { user, password: word } && user@
                == encode_utf8(username@) && word@ == encode_utf8(password@),
    {
        LedgerRequest {
            headers: Vec::new(),
            call: LedgerCall::Login {
                user: bytes_of_text(username),
                password: bytes_of_text(password),
            },
        }
    }

    /// The authorization header.
    fn authorization(&self) -> (header: Header)
        ensures
            header@ == (AUTHORIZATION@, BEARER@ + self.token()),
    {
        let mut value = BEARER.to_string();
        value.append(self.token.as_str());
        Header { name: AUTHORIZATION.to_string(), value }
    }

    /// The headers of a request outside a session.
    fn plain(&self) -> (headers: Vec<Header>)
        ensures
            headers_view(headers@) == plain_headers(self.token()),
    {
        let mut headers: Vec<Header> = Vec::new();
        headers.push(self.authorization());
        assert(headers_view(headers@) =~= plain_headers(self.token()));
        headers
    }

    /// The headers of a request in a session.
    fn in_session(&self, session_id: &str) -> (headers: Vec<Header>)
        ensures
            headers_view(headers@) == session_headers(self.token(), session_id@),
    {
        let mut headers: Vec<Header> = Vec::new();
        headers.push(self.authorization());
        headers.push(Header { name: SESSION_ID.to_string(), value: session_id.to_string() });
        assert(headers_view(headers@) =~= session_headers(self.token(), session_id@));
        headers
    }

    /// The headers of a request in a transaction.
    fn in_transaction(&self, session_id: &str, transaction_id: &str) -> (headers: Vec<Header>)
        ensures
            headers_view(headers@) == transaction_headers(
                self.token(),
                session_id@,
                transaction_id@,
            ),
    {
        let mut headers: Vec<Header> = Vec::new();
        headers.push(self.authorization());
        headers.push(Header { name: SESSION_ID.to_string(), value: session_id.to_string() });
        headers.push(
            Header { name: TRANSACTION_ID.to_string(), value: transaction_id.to_string() },
        );
        assert(headers_view(headers@) =~= transaction_headers(
            self.token(),
            session_id@,
            transaction_id@,
        ));
        headers
    }

    /// The request that stores a value under a key.
    pub fn set(&self, key: String, value: Vec<u8>) -> (request: LedgerRequest)
        ensures
            headers_view(request.headers@) == plain_headers(self.token()),
            request.call matches LedgerCall::SetValue { key: k, value: v } && k@ == encode_utf8(key@)
                && v == value,
    {
        LedgerRequest {
            headers: self.plain(),
            call: LedgerCall::SetValue { key: bytes_of_text(key.as_str()), value },
        }
    }

    /// The request that reads the value under a key.
    pub fn get(&self, key: String) -> (request: LedgerRequest)
        ensures
            headers_view(request.headers@) == plain_headers(self.token()),
            request.call matches LedgerCall::GetValue { key: k } && k@ == encode_utf8(key@),
    {
        LedgerRequest {
            headers: self.plain(),
            call: LedgerCall::GetValue { key: bytes_of_text(key.as_str()) },
        }
    }

    /// The request that creates a database unless it exists.
    pub fn create_database(&self, name: String) -> (request: LedgerRequest)
        ensures
            headers_view(request.headers@) == plain_headers(self.token()),
            request.call matches LedgerCall::CreateDatabase { name: n } && n == name,
    {
        LedgerRequest { headers: self.plain(), call: LedgerCall::CreateDatabase { name } }
    }

    /// The request that switches to a database.
    pub fn use_database(&self, name: String) -> (request: LedgerRequest)
        ensures
            headers_view(request.headers@) == plain_headers(self.token()),
            request.call matches LedgerCall::UseDatabase { name: n } && n == name,
    {
        LedgerRequest { headers: self.plain(), call: LedgerCall::UseDatabase { name } }
    }

    /// Takes over the token that the ledger gave for the database it
    /// switched to.
    pub fn database_selected(&mut self, token: String)
        ensures
            final(self).token() == token@,
    {
        self.token = token;
    }

    /// The request that runs a statement outside a transaction.
    pub fn sql_execute(&self, statement: Statement) -> (request: LedgerRequest)
        ensures
            headers_view(request.headers@) == plain_headers(self.token()),
            request.call matches LedgerCall::SqlExec { statement: s } && s == statement,
    {
        LedgerRequest { headers: self.plain(), call: LedgerCall::SqlExec { statement } }
    }

    /// The request that runs a statement in a transaction.
    pub fn sql_execute_tx(&self, statement: Statement, session_id: &str, transaction_id: &str)
        -> (request: LedgerRequest)
        ensures
            headers_view(request.headers@) == transaction_headers(
                self.token(),
                session_id@,
                transaction_id@,
            ),
            request.call matches LedgerCall::SqlExec { statement: s } && s == statement,
    {
        LedgerRequest {
            headers: self.in_transaction(session_id, transaction_id),
            call: LedgerCall::SqlExec { statement },
        }
    }

    /// The request that runs a query outside a transaction.
    pub fn query_execute(&self, statement: Statement) -> (request: LedgerRequest)
        ensures
            headers_view(request.headers@) == plain_headers(self.token()),
            request.call matches LedgerCall::SqlQuery { statement: s } && s == statement,
    {
        LedgerRequest { headers: self.plain(), call: LedgerCall::SqlQuery { statement } }
    }

    /// The request that runs a query in a transaction.
    pub fn query_execute_tx(&self, statement: Statement, session_id: &str, transaction_id: &str)
        -> (request: LedgerRequest)
        ensures
            headers_view(request.headers@) == transaction_headers(
                self.token(),
                session_id@,
                transaction_id@,
            ),
            request.call matches LedgerCall::SqlQuery { statement: s } && s == statement,
    {
        LedgerRequest {
            headers: self.in_transaction(session_id, transaction_id),
            call: LedgerCall::SqlQuery { statement },
        }
    }

    /// The request that opens the session of a reputation update.
    pub fn open_session(&self) -> (request: LedgerRequest)
        ensures
            headers_view(request.headers@) == plain_headers(self.token()),
            request.call matches LedgerCall::OpenSession { username, password, database_name }
                && username@ == encode_utf8(SESSION_USER@) && password@ == encode_utf8(
                SESSION_USER@,
            ) && database_name@ == DATABASE_NAME@,
    {
        LedgerRequest {
            headers: self.plain(),
            call: LedgerCall::OpenSession {
                username: bytes_of_text(SESSION_USER),
                password: bytes_of_text(SESSION_USER),
                database_name: DATABASE_NAME.to_string(),
            },
        }
    }

    /// The request that begins a read-write transaction in a session.
    pub fn new_tx(&self, session_id: &str) -> (request: LedgerRequest)
        ensures
            headers_view(request.headers@) == session_headers(self.token(), session_id@),
            request.call is NewTx,
    {
        LedgerRequest { headers: self.in_session(session_id), call: LedgerCall::NewTx }
    }

    /// The request that commits a transaction.
    pub fn commit(&self, session_id: &str, transaction_id: &str) -> (request: LedgerRequest)
        ensures
            headers_view(request.headers@) == transaction_headers(
                self.token(),
                session_id@,
                transaction_id@,
            ),
            request.call is Commit,
    {
        LedgerRequest {
            headers: self.in_transaction(session_id, transaction_id),
            call: LedgerCall::Commit,
        }
    }

    /// The request that closes a session.
    pub fn close_session(&self, session_id: &str) -> (request: LedgerRequest)
        ensures
            headers_view(request.headers@) == session_headers(self.token(), session_id@),
            request.call is CloseSession,
    {
        LedgerRequest { headers: self.in_session(session_id), call: LedgerCall::CloseSession }
    }

    /// Begins a reputation update: the update in its first stage.
    pub fn increase_reputation(&self, peer_id: Peer, amount: i64) -> (update: ReputationTx)
        ensures
            update.stage() is Opening,
            update.peer() == peer_id,
            update.amount() == amount,
            update.wf(),
    {
        ReputationTx { peer_id, amount, stage: Stage::Opening }
    }

    /// Begins a reputation update that lowers the reputation: an increase by
    /// the negated amount.
    pub fn decrease_reputation(&self, peer_id: Peer, amount: i64) -> (update: ReputationTx)
        requires
            amount > i64::MIN,
        ensures
            update.stage() is Opening,
            update.peer() == peer_id,
            update.amount() == -amount,
            update.wf(),
    {
        self.increase_reputation(peer_id, -amount)
    }
}

/// How far a reputation update has come. From `Committing` on the stage
/// keeps the account as it was read: the reputation and the staked
/// reputation before the update.
#[derive(Debug)]
pub enum Stage {
    /// The session is to be opened.
    Opening,
    /// The transaction is to be begun.
    Beginning { session_id: String },
    /// The account is to be read.
    Reading { session_id: String, transaction_id: String },
    /// The account was read and is to be written back.
    Writing { session_id: String, transaction_id: String, reputation: i64, staked: i64 },
    /// The ledger took the write; the transaction is to be committed.
    Committing { session_id: String, transaction_id: String, reputation: i64, staked: i64 },
    /// The transaction is committed; the session is to be closed.
    Closing { session_id: String, reputation: i64, staked: i64 },
    /// The update is committed and the session closed.
    Done { reputation: i64, staked: i64 },
    /// A request failed and the update has ended with its error. `committed`
    /// is the account as it was read if the transaction was committed
    /// before the failure, and nothing if it was not.
    Failed { error: ErrorKind, committed: Option<(i64, i64)> },
}

/// What the ledger answered.
#[derive(Debug)]
pub enum LedgerReply {
    SessionOpened { session_id: String },
    TransactionBegun { transaction_id: String },
    Rows { rows: Vec<Vec<SqlValue>> },
    /// The ledger took a statement.
    Executed,
    Committed,
    SessionClosed,
    /// The request failed: the ledger refused it or could not be reached.
    Failed { error: ErrorKind },
}

/// A reputation update: the read-modify-write of one peer's account in a
/// transaction of its own.
#[derive(Debug)]
pub struct ReputationTx {
    peer_id: Peer,
    amount: i64,
    stage: Stage,
}

impl ReputationTx {
    /// The peer whose account is updated.
    pub closed spec fn peer(&self) -> Peer {
        self.peer_id
    }

    /// The amount that is added to the reputation.
    pub closed spec fn amount(&self) -> i64 {
        self.amount
    }

    /// How far the update has come.
    pub closed spec fn stage(&self) -> Stage {
        self.stage
    }

    /// Whether the update has ended, well or with an error.
    pub open spec fn ended(&self) -> bool {
        self.stage() is Done || self.stage() is Failed
    }

    /// Whether a reply is one that the current stage takes: the answer that
    /// it waits for or a failure. Where the answer brings the account, the
    /// new reputation must fit. An update that has ended takes nothing.
    pub open spec fn takes(&self, reply: LedgerReply) -> bool {
        match self.stage() {
            Stage::Opening => reply is SessionOpened || reply is Failed,
            Stage::Beginning { .. } => reply is TransactionBegun || reply is Failed,
            Stage::Reading { .. } => reply is Failed || (reply matches LedgerReply::Rows { rows }
                && i64::MIN <= first_integer(rows_view(rows@), 1) + self.amount() <= i64::MAX),
            Stage::Writing { .. } => reply is Executed || reply is Failed,
            Stage::Committing { .. } => reply is Committed || reply is Failed,
            Stage::Closing { .. } => reply is SessionClosed || reply is Failed,
            Stage::Done { .. } => false,
            Stage::Failed { .. } => false,
        }
    }

    /// The account as it was read, if the transaction that writes it back
    /// with the raised reputation has been committed.
    pub open spec fn committed(&self) -> Option<(i64, i64)> {
        match self.stage() {
            Stage::Closing { reputation, staked, .. } => Some((reputation, staked)),
            Stage::Done { reputation, staked } => Some((reputation, staked)),
            Stage::Failed { committed, .. } => committed,
            _ => None,
        }
    }

    /// The stage that follows the current one on a reply. A failure ends
    /// the update, at whatever stage it comes: a write that the ledger
    /// refused is not committed.
    pub open spec fn next_stage(&self, reply: LedgerReply) -> Stage {
        match (self.stage(), reply) {
            (Stage::Done { reputation, staked }, _) => Stage::Done { reputation, staked },
            (Stage::Failed { error, committed }, _) => Stage::Failed { error, committed },
            (_, LedgerReply::Failed { error }) => Stage::Failed {
                error,
                committed: self.committed(),
            },
            (Stage::Opening, LedgerReply::SessionOpened { session_id }) => Stage::Beginning {
                session_id,
            },
            (
                Stage::Beginning { session_id },
                LedgerReply::TransactionBegun { transaction_id },
            ) => Stage::Reading { session_id, transaction_id },
            (Stage::Reading { session_id, transaction_id }, LedgerReply::Rows { rows }) => Stage::Writing {
                session_id,
                transaction_id,
                reputation: first_integer(rows_view(rows@), 1),
                staked: first_integer(rows_view(rows@), 2),
            },
            (
                Stage::Writing { session_id, transaction_id, reputation, staked },
                LedgerReply::Executed,
            ) => Stage::Committing { session_id, transaction_id, reputation, staked },
            (
                Stage::Committing { session_id, reputation, staked, .. },
                LedgerReply::Committed,
            ) => Stage::Closing { session_id, reputation, staked },
            (Stage::Closing { reputation, staked, .. }, LedgerReply::SessionClosed) => Stage::Done {
                reputation,
                staked,
            },
            _ => self.stage(),
        }
    }

    /// Whether the update has ended well: the account is written, the
    /// transaction committed and the session closed.
    pub fn is_done(&self) -> (done: bool)
        ensures
            done == self.stage() is Done,
    {
        match &self.stage {
            Stage::Done { .. } => true,
            _ => false,
        }
    }

    /// Whether the update has ended with an error.
    pub fn has_failed(&self) -> (failed: bool)
        ensures
            failed == self.stage() is Failed,
    {
        match &self.stage {
            Stage::Failed { .. } => true,
            _ => false,
        }
    }

    /// What the caller of the update gets: nothing while the update is
    /// under way, success once it is done, and the error of the failed
    /// request, unchanged, if one failed. Success means that the write was
    /// taken and committed.
    pub fn into_result(self) -> (r: Option<Result<(), ErrorKind>>)
        ensures
            r == match self.stage() {
                Stage::Done { .. } => Some(Ok::<(), ErrorKind>(())),
                Stage::Failed { error, .. } => Some(Err::<(), ErrorKind>(error)),
                _ => None,
            },
            r == Some(Ok::<(), ErrorKind>(())) ==> self.committed() is Some,
    {
        match self.stage {
            Stage::Done { .. } => Some(Ok(())),
            Stage::Failed { error, .. } => Some(Err(error)),
            _ => None,
        }
    }

    /// Whether a reply can be handed to `advance`.
    pub fn accepts(&self, reply: &LedgerReply) -> (ok: bool)
        ensures
            ok == self.takes(*reply),
    {
        match (&self.stage, reply) {
            (Stage::Done { .. }, _) => false,
            (Stage::Failed { .. }, _) => false,
            (_, LedgerReply::Failed { .. }) => true,
            (Stage::Opening, LedgerReply::SessionOpened { .. }) => true,
            (Stage::Beginning { .. }, LedgerReply::TransactionBegun { .. }) => true,
            (Stage::Reading { .. }, LedgerReply::Rows { rows }) => {
                let (reputation, _) = account_of(rows);
                reputation.checked_add(self.amount).is_some()
            },
            (Stage::Writing { .. }, LedgerReply::Executed) => true,
            (Stage::Committing { .. }, LedgerReply::Committed) => true,
            (Stage::Closing { .. }, LedgerReply::SessionClosed) => true,
            _ => false,
        }
    }

    /// Takes the ledger's reply to the request of the current stage and
    /// moves on to the next stage, or to the end if the request failed.
    pub fn advance(&mut self, reply: LedgerReply)
        requires
            old(self).takes(reply),
            old(self).wf(),
        ensures
            final(self).stage() == old(self).next_stage(reply),
            final(self).peer() == old(self).peer(),
            final(self).amount() == old(self).amount(),
            final(self).wf(),
    {
        let mut stage = Stage::Opening;
        std::mem::swap(&mut self.stage, &mut stage);
        let next = match (stage, reply) {
            (Stage::Closing { reputation, staked, .. }, LedgerReply::Failed { error }) => Stage::Failed {
                error,
                committed: Some((reputation, staked)),
            },
            (_, LedgerReply::Failed { error }) => Stage::Failed { error, committed: None },
            (Stage::Opening, LedgerReply::SessionOpened { session_id }) => Stage::Beginning {
                session_id,
            },
            (
                Stage::Beginning { session_id },
                LedgerReply::TransactionBegun { transaction_id },
            ) => Stage::Reading { session_id, transaction_id },
            (Stage::Reading { session_id, transaction_id }, LedgerReply::Rows { rows }) => {
                let (reputation, staked) = account_of(&rows);
                Stage::Writing { session_id, transaction_id, reputation, staked }
            },
            (
                Stage::Writing { session_id, transaction_id, reputation, staked },
                LedgerReply::Executed,
            ) => Stage::Committing { session_id, transaction_id, reputation, staked },
            (
                Stage::Committing { session_id, reputation, staked, .. },
                LedgerReply::Committed,
            ) => Stage::Closing { session_id, reputation, staked },
            (Stage::Closing { reputation, staked, .. }, LedgerReply::SessionClosed) => Stage::Done {
                reputation,
                staked,
            },
            (stage, _) => stage,
        };
        self.stage = next;
    }

    /// Whether a request is the one that a stage sends.
    pub open spec fn is_request_of(
        request: LedgerRequest,
        stage: Stage,
        peer: Peer,
        amount: i64,
        token: Seq<char>,
    ) -> bool {
        match stage {
            Stage::Opening => {
                &&& headers_view(request.headers@) == plain_headers(token)
                &&& request.call matches LedgerCall::OpenSession {
                    username,
                    password,
                    database_name,
                } && username@ == encode_utf8(SESSION_USER@) && password@ == encode_utf8(
                    SESSION_USER@,
                ) && database_name@ == DATABASE_NAME@
            },
            Stage::Beginning { session_id } => headers_view(request.headers@) == session_headers(
                token,
                session_id@,
            ) && request.call is NewTx,
            Stage::Reading { session_id, transaction_id } => {
                &&& headers_view(request.headers@) == transaction_headers(
                    token,
                    session_id@,
                    transaction_id@,
                )
                &&& request.call matches LedgerCall::SqlQuery { statement } && statement.is(
                    SELECT_ACCOUNT@,
                    seq![("peer_id"@, SqlValueView::S(peer@))],
                )
            },
            Stage::Writing { session_id, transaction_id, reputation, staked } => {
                &&& headers_view(request.headers@) == transaction_headers(
                    token,
                    session_id@,
                    transaction_id@,
                )
                &&& request.call matches LedgerCall::SqlExec { statement } && statement.is(
                    UPSERT_REPUTATION@,
                    seq![
                        ("peer_id"@, SqlValueView::S(peer@)),
                        ("reputation"@, SqlValueView::N((reputation + amount) as i64)),
                        ("staked"@, SqlValueView::N(staked)),
                    ],
                )
            },
            Stage::Committing { session_id, transaction_id, .. } => headers_view(
                request.headers@,
            ) == transaction_headers(token, session_id@, transaction_id@)
                && request.call is Commit,
            Stage::Closing { session_id, .. } => headers_view(request.headers@)
                == session_headers(token, session_id@) && request.call is CloseSession,
            Stage::Done { .. } => false,
            Stage::Failed { .. } => false,
        }
    }

    /// The account as it was read, from the stage at which it is known.
    pub open spec fn account_read(&self) -> Option<(i64, i64)> {
        match self.stage() {
            Stage::Writing { reputation, staked, .. } => Some((reputation, staked)),
            Stage::Committing { reputation, staked, .. } => Some((reputation, staked)),
            _ => self.committed(),
        }
    }

    /// The new reputation fits where the account has been read.
    pub open spec fn wf(&self) -> bool {
        self.account_read() matches Some(read) ==> i64::MIN <= read.0 + self.amount()
            <= i64::MAX
    }

    /// The reputation table after the update, as far as the update has
    /// come: with the peer's account written back, its reputation raised by
    /// the amount, if the transaction has been committed, and as it was if
    /// not.
    pub open spec fn table_after(&self, book: Book) -> Book {
        match self.committed() {
            Some(read) => book.insert(
                self.peer()@,
                Account { reputation: read.0 + self.amount(), staked: read.1 as int },
            ),
            None => book,
        }
    }

    /// The request of the current stage, or nothing once the update has
    /// ended. In order the stages open a session, begin a transaction, read
    /// the account, write it back with the reputation raised by the amount,
    /// commit, and close the session.
    pub fn request(&self, ledger: &ImmuLedger) -> (r: Option<LedgerRequest>)
        requires
            self.wf(),
        ensures
            match r {
                Some(request) => ReputationTx::is_request_of(
                    request,
                    self.stage(),
                    self.peer(),
                    self.amount(),
                    ledger.token(),
                ),
                None => self.ended(),
            },
    {
        match &self.stage {
            Stage::Opening => Some(ledger.open_session()),
            Stage::Beginning { session_id } => Some(ledger.new_tx(session_id.as_str())),
            Stage::Reading { session_id, transaction_id } => Some(
                ledger.query_execute_tx(
                    get_account(&self.peer_id),
                    session_id.as_str(),
                    transaction_id.as_str(),
                ),
            ),
            Stage::Writing { session_id, transaction_id, reputation, staked } => Some(
                ledger.sql_execute_tx(
                    increase_reputation(&self.peer_id, *reputation, *staked, self.amount),
                    session_id.as_str(),
                    transaction_id.as_str(),
                ),
            ),
            Stage::Committing { session_id, transaction_id, .. } => Some(
                ledger.commit(session_id.as_str(), transaction_id.as_str()),
            ),
            Stage::Closing { session_id, .. } => Some(ledger.close_session(session_id.as_str())),
            Stage::Done { .. } => None,
            Stage::Failed { .. } => None,
        }
    }
}

/// The account that a written statement leaves in the table is the one
/// that a committed increase leaves: a reputation update that reads a
/// peer's account from the table and writes it back raises the reputation
/// by the amount and keeps what is staked.
pub proof fn law_update_writes_increase(
    book: Book,
    peer: Seq<char>,
    reputation: i64,
    staked: i64,
    amount: i64,
)
    requires
        account(book, peer) == (Account { reputation: reputation as int, staked: staked as int }),
        i64::MIN <= reputation + amount <= i64::MAX,
    ensures
        account(increased(book, peer, amount as int), peer) == (Account {
            reputation: ((reputation + amount) as i64) as int,
            staked: staked as int,
        }),
{
}

/// An update whose transaction was committed, and which had read the
/// peer's account from the table, leaves the table that an increase of the
/// peer's reputation by the amount leaves.
pub proof fn law_committed_update_is_an_increase(update: ReputationTx, book: Book)
    requires
        update.committed() matches Some(read) && account(book, update.peer()@) == (Account {
            reputation: read.0 as int,
            staked: read.1 as int,
        }),
    ensures
        update.table_after(book) == increased(book, update.peer()@, update.amount() as int),
{
}

/// An update that was not committed leaves the table as it was. This holds
/// of every update that failed before or at the commit, a refused write
/// among them, and of every update that is still under way before the
/// commit.
pub proof fn law_uncommitted_update_changes_nothing(update: ReputationTx, book: Book)
    requires
        update.committed() is None,
    ensures
        update.table_after(book) == book,
{
}

/// A failure ends an update at whatever stage it comes, with the error that
/// came: the update asks for nothing more, and is not done. A failure
/// before the transaction is committed leaves nothing committed.
pub proof fn law_failure_ends_the_update(update: ReputationTx, error: ErrorKind)
    requires
        !update.ended(),
    ensures
        update.takes(LedgerReply::Failed { error }),
        update.next_stage(LedgerReply::Failed { error }) == (Stage::Failed {
            error,
            committed: update.committed(),
        }),
        !(update.stage() is Closing) ==> update.committed() is None,
{
}

/// An update is done only through a write that the ledger took and a
/// commit: the one stage from which a reply leads to `Done` is `Closing`,
/// which is reached from `Committing` by `Committed` alone, which is reached
/// from `Writing` by `Executed` alone.
pub proof fn law_done_only_after_commit(update: ReputationTx, reply: LedgerReply)
    requires
        update.takes(reply),
    ensures
        update.next_stage(reply) is Done ==> update.stage() is Closing && reply is SessionClosed,
        update.next_stage(reply) is Closing ==> update.stage() is Committing
            && reply is Committed,
        update.next_stage(reply) is Committing ==> update.stage() is Writing
            && reply is Executed,
{
}

/// Builds the ledger client from its login.
pub struct LedgerProvider;

impl LedgerProvider {
    /// The client for the token that the login gave, and the requests that
    /// set the database up, in the order in which they are sent: create the
    /// database, switch to it, and create the three tables. The request
    /// that creates the database and the one that switches to it carry the
    /// login's token; the token that the switch gives is taken over with
    /// `database_selected` before the tables are created.
    pub fn invoke(&mut self, token: String) -> (r: (ImmuLedger, Vec<LedgerRequest>))
        ensures
            r.0.token() == token@,
            r.1@.len() == 2,
            r.1@[0].call matches LedgerCall::CreateDatabase { name } && name@ == DATABASE_NAME@,
            r.1@[1].call matches LedgerCall::UseDatabase { name } && name@ == DATABASE_NAME@,
            forall|k: int|
                0 <= k < 2 ==> headers_view(#[trigger] r.1@[k].headers@) == plain_headers(token@),
    {
        let ledger = ImmuLedger::new(token);
        let mut requests: Vec<LedgerRequest> = Vec::new();
        requests.push(ledger.create_database(DATABASE_NAME.to_string()));
        requests.push(ledger.use_database(DATABASE_NAME.to_string()));
        (ledger, requests)
    }
}

/// The requests that create the three tables once the database is
/// selected, in the order in which they are sent.
pub fn init_database(ledger: &ImmuLedger) -> (requests: Vec<LedgerRequest>)
    ensures
        requests@.len() == 3,
        forall|k: int|
            0 <= k < 3 ==> headers_view(#[trigger] requests@[k].headers@) == plain_headers(
                ledger.token(),
            ) && requests@[k].call is SqlExec,
        requests@[0].call->SqlExec_statement.sql@
            == crate::ledger::statements::CREATE_CONTRACTS_TABLE@,
        requests@[1].call->SqlExec_statement.sql@
            == crate::ledger::statements::CREATE_REPUTATION_TABLE@,
        requests@[2].call->SqlExec_statement.sql@
            == crate::ledger::statements::CREATE_VERIFICATIONS_TABLE@,
        forall|k: int|
            0 <= k < 3 ==> params_view(#[trigger] requests@[k].call->SqlExec_statement.params@)
                == Seq::<(Seq<char>, SqlValueView)>::empty(),
{
    let mut statements = schema();
    let verifications = statements.pop().unwrap();
    let reputation = statements.pop().unwrap();
    let contracts = statements.pop().unwrap();
    let mut requests: Vec<LedgerRequest> = Vec::new();
    requests.push(ledger.sql_execute(contracts));
    requests.push(ledger.sql_execute(reputation));
    requests.push(ledger.sql_execute(verifications));
    requests
}

} // verus!
