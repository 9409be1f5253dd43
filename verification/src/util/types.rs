//! The plain data that the ledger, the swarm and the auditor exchange.

use vstd::prelude::*;

verus! {

pub type Bytes = Vec<u8>;

/// The identity of a peer, held as the base-58 text of its identifier.
#[derive(Debug)]
pub struct Peer {
    id: String,
}

impl View for Peer {
    type V = Seq<char>;

    closed spec fn view(&self) -> Seq<char> {
        self.id@
    }
}

impl Clone for Peer {
    fn clone(&self) -> (copy: Self)
        ensures
            copy == *self,
    {
        Peer { id: self.id.clone() }
    }
}

impl Peer {
    /// The peer with the given identifier text. The text is taken as it is.
    pub fn new(id: String) -> (peer: Peer)
        ensures
            peer@ == id@,
    {
        Peer { id }
    }

    /// The base-58 text of the identifier.
    pub fn to_base58(&self) -> (text: String)
        ensures
            text@ == self@,
    {
        self.id.clone()
    }

    /// Whether two values name the same peer.
    pub fn same(&self, other: &Peer) -> (eq: bool)
        ensures
            eq == (self@ == other@),
    {
        self.id == other.id
    }
}

/// One value of a ledger row or of a statement's parameters.
#[derive(Debug)]
pub enum SqlValue {
    /// No value.
    Null,
    /// An integer.
    N(i64),
    /// A text.
    S(String),
    /// A truth value.
    B(bool),
    /// A byte string.
    Bs(Vec<u8>),
    /// A value of a type that this library does not read.
    Other,
}

/// What a ledger value holds.
pub enum SqlValueView {
    Null,
    N(i64),
    S(Seq<char>),
    B(bool),
    Bs(Seq<u8>),
    Other,
}

impl View for SqlValue {
    type V = SqlValueView;

    open spec fn view(&self) -> SqlValueView {
        match self {
            SqlValue::Null => SqlValueView::Null,
            SqlValue::N(x) => SqlValueView::N(*x),
            SqlValue::S(x) => SqlValueView::S(x@),
            SqlValue::B(x) => SqlValueView::B(*x),
            SqlValue::Bs(x) => SqlValueView::Bs(x@),
            SqlValue::Other => SqlValueView::Other,
        }
    }
}

/// What the rows of a query hold.
pub open spec fn row_view(row: Seq<SqlValue>) -> Seq<SqlValueView> {
    Seq::new(row.len(), |k: int| row[k]@)
}

/// The custody of one file by one peer, with the secret to audit it.
#[derive(Debug)]
pub struct Contract {
    pub contract_uuid: String,
    pub peer_id: Peer,
    pub file_uuid: String,
    pub file_hash: String,
    pub upload_date: i64,
    pub ttl: i64,
    pub secret_n: Vec<u8>,
    pub secret_m: Vec<u8>,
    pub rows: i64,
    pub cols: i64,
}

/// What a contract holds.
pub struct ContractView {
    pub contract_uuid: Seq<char>,
    pub peer_id: Seq<char>,
    pub file_uuid: Seq<char>,
    pub file_hash: Seq<char>,
    pub upload_date: i64,
    pub ttl: i64,
    pub secret_n: Seq<u8>,
    pub secret_m: Seq<u8>,
    pub rows: i64,
    pub cols: i64,
}

impl View for Contract {
    type V = ContractView;

    open spec fn view(&self) -> ContractView {
        ContractView {
            contract_uuid: self.contract_uuid@,
            peer_id: self.peer_id@,
            file_uuid: self.file_uuid@,
            file_hash: self.file_hash@,
            upload_date: self.upload_date,
            ttl: self.ttl,
            secret_n: self.secret_n@,
            secret_m: self.secret_m@,
            rows: self.rows,
            cols: self.cols,
        }
    }
}

/// The outcome of one audit of a contract, as one verifier recorded it.
#[derive(Debug)]
pub struct VerificationClaim {
    pub contract_uuid: String,
    pub verified_by_id: Peer,
    /// When the audit was made, in milliseconds since the Unix epoch.
    pub verification_time: i64,
    pub succeeded: bool,
}

/// What a claim holds.
pub struct VerificationClaimView {
    pub contract_uuid: Seq<char>,
    pub verified_by_id: Seq<char>,
    pub verification_time: i64,
    pub succeeded: bool,
}

impl View for VerificationClaim {
    type V = VerificationClaimView;

    open spec fn view(&self) -> VerificationClaimView {
        VerificationClaimView {
            contract_uuid: self.contract_uuid@,
            verified_by_id: self.verified_by_id@,
            verification_time: self.verification_time,
            succeeded: self.succeeded,
        }
    }
}

/// A record of the distributed hash table.
#[derive(Debug)]
pub struct Record {
    /// The key: the text of the file's identifier.
    pub key: Vec<u8>,
    /// The blob.
    pub value: Vec<u8>,
    /// The peer that published the record, if it is known.
    pub publisher: Option<Peer>,
    /// The expiry, if the record has one, as a span of time relative to the
    /// moment at which the record is written to the store or read from it.
    pub expires: Option<Span>,
}

/// A span of time: whole seconds and the nanoseconds beyond them.
#[derive(Debug, Clone, Copy, PartialEq, Eq, Structural)]
pub struct Span {
    pub secs: u64,
    pub nanos: u32,
}

/// A challenge on its way to a custodian.
#[derive(Debug)]
pub struct VerificationRequest {
    pub file_name: String,
    pub challenge_vector: Vec<u64>,
}

/// A custodian's answer to a challenge.
#[derive(Debug)]
pub struct VerificationResponse {
    pub file_name: String,
    pub response_vector: Vec<u64>,
}

/// A record as a query of the distributed hash table found it.
#[derive(Debug)]
pub struct QueryGetResponse {
    pub file: Vec<u8>,
    pub origin_peer_id: Peer,
}

} // verus!
