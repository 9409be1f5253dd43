//! The errors of the library, grouped by the part of the system they come from.

use vstd::prelude::*;
use crate::util::types::SqlValue;

verus! {

/// What went wrong.
#[derive(Debug)]
pub enum ErrorKind {
    /// The docker socket could not be reached.
    DockerConnectionFailed,
    /// The local object store could not be opened.
    LocalStorageFail,
    /// A record could not be written to the store.
    StoragePutFailed,
    /// A record could not be read from the store.
    StorageGetFailed,
    /// A record could not be put into its stored form.
    StoragePutSerdeError(EnvelopeError),
    /// A stored record could not be read back.
    StorageGetSerdeError(EnvelopeError),
    /// The name of a record is not valid UTF-8.
    Utf8Error,
    /// The swarm could not store a record.
    SwarmPutRecordError,
    /// The swarm could not find a record.
    SwarmGetRecordError,
    /// The swarm answered a record query with something other than a record.
    SwarmGetRecordUnknownError,
    /// The swarm could not look up the providers of a key.
    SwarmGetProvidersError,
    /// The swarm could not look up the peers closest to a key.
    SwarmGetClosestPeersError,
    /// The swarm could not announce this peer as a provider.
    SwarmStartProvidingError,
    /// A provider query ended without a provider.
    NoProvidersFound,
    /// A query ended that no caller waits for, or that a caller of another
    /// kind waits for.
    InvalidResponseChannel(u64),
    /// A request ended that no caller waits for.
    InvalidResponseChannelForRequest(u64),
    /// The command channel was closed.
    MissingInstruction,
    /// An inbound verification request failed.
    RequestInboundFailure,
    /// An outbound verification request failed.
    RequestOutboundFailure,
    /// A row of the ledger lacks a column or holds a value of another type.
    InvalidSqlRow(Vec<SqlValue>),
    /// A query of the ledger gave no row where one was needed.
    InvalidSql,
    /// A peer identifier could not be parsed.
    InvalidPeerId,
    /// The ledger client is not connected.
    MutexIsNotMutable,
    /// A peer tried to stake more reputation than it has.
    InsufficientReputationToStake,
    /// A peer tried to take back more reputation than it has staked.
    InsufficientReputationToUnstake,
    /// The keypair of the configuration is not valid base64.
    KeypairBase64DecodeError,
    /// The keypair of the configuration is not a valid encoded keypair.
    KeypairBase64DecodingError,
    /// The configuration could not be loaded.
    ConfigErr,
    /// A moment lies after the moment it was compared with.
    SystemTimeError,
    /// The channel to an RPC server could not be set up.
    TonicTransportError,
    /// An RPC call failed.
    FailedTonicRequest,
    /// Reading or writing failed.
    IoError,
    /// Another failure, with its description.
    Generic(String),
}

/// What is wrong with the stored form of a record.
#[derive(Debug, Clone, Copy, PartialEq, Eq, Structural)]
pub enum EnvelopeError {
    /// The field `key` occurs twice.
    DuplicateKey,
    /// The field `publisher` occurs twice.
    DuplicatePublisher,
    /// The field `expires` occurs twice.
    DuplicateExpires,
    /// The field `value` occurs twice.
    DuplicateValue,
    /// The field `key` is missing.
    MissingKey,
    /// The field `value` is missing.
    MissingValue,
    /// The publisher is no peer identifier.
    InvalidPublisher,
}

pub type Res<T> = Result<T, ErrorKind>;

impl ErrorKind {
    /// The exit code of a process that ends with this error: always 1.
    pub fn code(&self) -> (c: i32)
        ensures
            c == 1,
    {
        1
    }

    /// The hint shown with the error.
    pub open spec fn help_text(&self) -> Seq<char> {
        match self {
            ErrorKind::DockerConnectionFailed => "Is Docker running?"@,
            ErrorKind::LocalStorageFail => "Does the directory exist?"@,
            _ => "No help available for this error"@,
        }
    }

    /// A hint on how to mend what went wrong, for the errors that have one.
    pub fn help(&self) -> (hint: String)
        ensures
            hint@ == self.help_text(),
    {
        match self {
            ErrorKind::DockerConnectionFailed => "Is Docker running?".to_string(),
            ErrorKind::LocalStorageFail => "Does the directory exist?".to_string(),
            _ => "No help available for this error".to_string(),
        }
    }

    /// The words that say what went wrong.
    pub open spec fn description(&self) -> Seq<char> {
        match self {
            ErrorKind::DockerConnectionFailed => "could not connect to docker unix socket"@,
            ErrorKind::LocalStorageFail => "local storage failure"@,
            ErrorKind::StoragePutFailed => "storing file failed"@,
            ErrorKind::StorageGetFailed => "retrieving file failed"@,
            ErrorKind::StoragePutSerdeError(_) => "storing file failed due to serde"@,
            ErrorKind::StorageGetSerdeError(_) => "getting file failed due to serde"@,
            ErrorKind::Utf8Error => "failed converting from utf-8"@,
            ErrorKind::SwarmPutRecordError => "putting record to swarm failed"@,
            ErrorKind::SwarmGetRecordError => "getting record from swarm failed"@,
            ErrorKind::SwarmGetRecordUnknownError => "getting record from swarm failed: unexpected GetRecord result"@,
            ErrorKind::SwarmGetProvidersError => "getting providers failed"@,
            ErrorKind::SwarmGetClosestPeersError => "get closest peers failed"@,
            ErrorKind::SwarmStartProvidingError => "add provider failed"@,
            ErrorKind::NoProvidersFound => "no providers found"@,
            ErrorKind::InvalidResponseChannel(_) => "invalid response channel for query id"@,
            ErrorKind::InvalidResponseChannelForRequest(_) => "invalid response channel for request id"@,
            ErrorKind::MissingInstruction => "no instruction provided"@,
            ErrorKind::RequestInboundFailure => "inbound failure"@,
            ErrorKind::RequestOutboundFailure => "outbound failure"@,
            ErrorKind::InvalidSqlRow(_) => "invalid sql row"@,
            ErrorKind::InvalidSql => "invalid sql"@,
            ErrorKind::InvalidPeerId => "invalid peer id"@,
            ErrorKind::MutexIsNotMutable => "mutex not initialized correctly and is not mutable"@,
            ErrorKind::InsufficientReputationToStake => "insufficient reputation to stake"@,
            ErrorKind::InsufficientReputationToUnstake => "insufficient reputation to unstake"@,
            ErrorKind::KeypairBase64DecodeError => "keypair decode error"@,
            ErrorKind::KeypairBase64DecodingError => "keypair decoding error"@,
            ErrorKind::ConfigErr => "loading config failed"@,
            ErrorKind::SystemTimeError => "system time error"@,
            ErrorKind::TonicTransportError => "tonic transport error"@,
            ErrorKind::FailedTonicRequest => "failed tonic request"@,
            ErrorKind::IoError => "io error"@,
            ErrorKind::Generic(text) => text@,
        }
    }

    /// The words that say what went wrong.
    pub fn describe(&self) -> (text: String)
        ensures
            text@ == self.description(),
    {
        match self {
            ErrorKind::DockerConnectionFailed => "could not connect to docker unix socket".to_string(),
            ErrorKind::LocalStorageFail => "local storage failure".to_string(),
            ErrorKind::StoragePutFailed => "storing file failed".to_string(),
            ErrorKind::StorageGetFailed => "retrieving file failed".to_string(),
            ErrorKind::StoragePutSerdeError(_) => "storing file failed due to serde".to_string(),
            ErrorKind::StorageGetSerdeError(_) => "getting file failed due to serde".to_string(),
            ErrorKind::Utf8Error => "failed converting from utf-8".to_string(),
            ErrorKind::SwarmPutRecordError => "putting record to swarm failed".to_string(),
            ErrorKind::SwarmGetRecordError => "getting record from swarm failed".to_string(),
            ErrorKind::SwarmGetRecordUnknownError => "getting record from swarm failed: unexpected GetRecord result".to_string(),
            ErrorKind::SwarmGetProvidersError => "getting providers failed".to_string(),
            ErrorKind::SwarmGetClosestPeersError => "get closest peers failed".to_string(),
            ErrorKind::SwarmStartProvidingError => "add provider failed".to_string(),
            ErrorKind::NoProvidersFound => "no providers found".to_string(),
            ErrorKind::InvalidResponseChannel(_) => "invalid response channel for query id".to_string(),
            ErrorKind::InvalidResponseChannelForRequest(_) => "invalid response channel for request id".to_string(),
            ErrorKind::MissingInstruction => "no instruction provided".to_string(),
            ErrorKind::RequestInboundFailure => "inbound failure".to_string(),
            ErrorKind::RequestOutboundFailure => "outbound failure".to_string(),
            ErrorKind::InvalidSqlRow(_) => "invalid sql row".to_string(),
            ErrorKind::InvalidSql => "invalid sql".to_string(),
            ErrorKind::InvalidPeerId => "invalid peer id".to_string(),
            ErrorKind::MutexIsNotMutable => "mutex not initialized correctly and is not mutable".to_string(),
            ErrorKind::InsufficientReputationToStake => "insufficient reputation to stake".to_string(),
            ErrorKind::InsufficientReputationToUnstake => "insufficient reputation to unstake".to_string(),
            ErrorKind::KeypairBase64DecodeError => "keypair decode error".to_string(),
            ErrorKind::KeypairBase64DecodingError => "keypair decoding error".to_string(),
            ErrorKind::ConfigErr => "loading config failed".to_string(),
            ErrorKind::SystemTimeError => "system time error".to_string(),
            ErrorKind::TonicTransportError => "tonic transport error".to_string(),
            ErrorKind::FailedTonicRequest => "failed tonic request".to_string(),
            ErrorKind::IoError => "io error".to_string(),
            ErrorKind::Generic(text) => text.clone(),
        }
    }
}

} // verus!
