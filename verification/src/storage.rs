//! The stored form of a record: an envelope of four fields, of which the
//! value is base64 text.

use vstd::prelude::*;
use vstd::utf8::{decode_utf8, encode_utf8, valid_utf8};
use crate::p2p::peer_id::peer_id_text;
use crate::p2p::store::key_to_path;
use crate::settings::Storage;
use crate::util::encoding::{
    base64_standard, base64_standard_decoded, decode_standard, encode_standard,
};
use crate::util::errors::{EnvelopeError, ErrorKind};
use crate::util::text::{bytes_of_text, string_from_utf8};
use crate::util::types::{Peer, Record, Span};

verus! {

/// The envelope of a record as it is stored.
#[derive(Debug)]
pub struct Envelope {
    pub key: String,
    pub publisher: Option<String>,
    pub expires: Option<Span>,
    pub value: String,
}

/// One field of a stored envelope, in the order in which the stored form
/// gives them.
#[derive(Debug)]
pub enum Field {
    Key(String),
    Publisher(Option<String>),
    Expires(Option<Span>),
    Value(String),
}

/// The fields read so far.
pub struct Slots {
    pub key: Option<String>,
    pub publisher: Option<Option<String>>,
    pub expires: Option<Option<Span>>,
    pub value: Option<String>,
}

impl Slots {
    /// Nothing read yet.
    pub open spec fn empty() -> Slots {
        Slots { key: None, publisher: None, expires: None, value: None }
    }

    /// The slots after one more field. A field that was read before is an
    /// error.
    pub open spec fn with(self, field: Field) -> Result<Slots, EnvelopeError> {
        match field {
            Field::Key(text) => if self.key is Some {
                Err(EnvelopeError::DuplicateKey)
            } else {
                Ok(Slots { key: Some(text), ..self })
            },
            Field::Publisher(text) => if self.publisher is Some {
                Err(EnvelopeError::DuplicatePublisher)
            } else {
                Ok(Slots { publisher: Some(text), ..self })
            },
            Field::Expires(span) => if self.expires is Some {
                Err(EnvelopeError::DuplicateExpires)
            } else {
                Ok(Slots { expires: Some(span), ..self })
            },
            Field::Value(text) => if self.value is Some {
                Err(EnvelopeError::DuplicateValue)
            } else {
                Ok(Slots { value: Some(text), ..self })
            },
        }
    }

    /// The slots after the first `n` fields, or the error of the first
    /// field that is read twice.
    pub open spec fn scanned(fields: Seq<Field>, n: nat) -> Result<Slots, EnvelopeError>
        decreases n,
    {
        if n == 0 {
            Ok(Slots::empty())
        } else {
            match Slots::scanned(fields, (n - 1) as nat) {
                Err(e) => Err(e),
                Ok(slots) => slots.with(fields[n - 1]),
            }
        }
    }

    /// The publisher's text, if one was read and is not null.
    pub open spec fn publisher_text(self) -> Option<String> {
        match self.publisher {
            Some(Some(text)) => Some(text),
            _ => None,
        }
    }

    /// The record that the slots stand for. A missing key comes first among
    /// the errors, then a publisher that is no peer identifier, then a
    /// missing value. A value that is no base64 is read as empty.
    pub open spec fn assembled(self) -> Result<RecordContent, EnvelopeError> {
        if self.key is None {
            Err(EnvelopeError::MissingKey)
        } else if self.publisher_text() matches Some(text) && peer_id_text(text@) is None {
            Err(EnvelopeError::InvalidPublisher)
        } else if self.value is None {
            Err(EnvelopeError::MissingValue)
        } else {
            Ok(
                RecordContent {
                    key: encode_utf8(self.key->Some_0@),
                    publisher: match self.publisher_text() {
                        Some(text) => peer_id_text(text@),
                        None => None,
                    },
                    expires: match self.expires {
                        Some(span) => span,
                        None => None,
                    },
                    value: match base64_standard_decoded(self.value->Some_0@) {
                        Some(bytes) => bytes,
                        None => Seq::<u8>::empty(),
                    },
                },
            )
        }
    }
}

/// What a record holds.
pub struct RecordContent {
    pub key: Seq<u8>,
    pub publisher: Option<Seq<char>>,
    pub expires: Option<Span>,
    pub value: Seq<u8>,
}

/// What a record holds.
pub open spec fn content(record: Record) -> RecordContent {
    RecordContent {
        key: record.key@,
        publisher: match record.publisher {
            Some(peer) => Some(peer@),
            None => None,
        },
        expires: record.expires,
        value: record.value@,
    }
}

/// The record that a sequence of stored fields stands for.
pub open spec fn record_of_fields(fields: Seq<Field>) -> Result<RecordContent, EnvelopeError> {
    match Slots::scanned(fields, fields.len()) {
        Err(e) => Err(e),
        Ok(slots) => slots.assembled(),
    }
}

/// A record on its way to or from the store.
#[derive(Debug)]
pub struct RecordWrapper(pub Record);

impl RecordWrapper {
    /// The envelope of the record: the key as text, empty where it is no
    /// UTF-8; the publisher's identifier; the expiry; and the value in
    /// base64.
    pub fn serialize(&self) -> (envelope: Envelope)
        ensures
            envelope.key@ == if valid_utf8(self.0.key@) {
                decode_utf8(self.0.key@)
            } else {
                Seq::<char>::empty()
            },
            envelope.value@ == base64_standard(self.0.value@),
            match envelope.publisher {
                Some(text) => self.0.publisher matches Some(peer) && text@ == peer@,
                None => self.0.publisher is None,
            },
            envelope.expires == self.0.expires,
    {
        let key = match string_from_utf8(self.0.key.clone()) {
            Some(text) => text,
            None => String::new(),
        };
        let value = encode_standard(&self.0.value);
        let publisher = match &self.0.publisher {
            Some(peer) => Some(peer.to_base58()),
            None => None,
        };
        Envelope { key, publisher, expires: self.0.expires, value }
    }

    /// Reads a record from the fields of its stored form. A field that
    /// occurs twice is an error, as is a missing key, a publisher that is no
    /// peer identifier, and a missing value; a missing publisher or expiry
    /// is none.
    pub fn deserialize(fields: Vec<Field>) -> (r: Result<RecordWrapper, EnvelopeError>)
        ensures
            match r {
                Ok(wrapper) => record_of_fields(fields@) == Ok::<RecordContent, EnvelopeError>(
                    content(wrapper.0),
                ),
                Err(e) => record_of_fields(fields@) == Err::<RecordContent, EnvelopeError>(e),
            },
    {
        let mut key: Option<String> = None;
        let mut publisher: Option<Option<String>> = None;
        let mut expires: Option<Option<Span>> = None;
        let mut value: Option<String> = None;
        let ghost given = fields@;
        for field in it: fields
            invariant
                it.seq() == given,
                Slots::scanned(given, it.index() as nat) == Ok::<Slots, EnvelopeError>(
                    Slots { key, publisher, expires, value },
                ),
        {
            let ghost before = Slots { key, publisher, expires, value };
            assert(Slots::scanned(given, (it.index() + 1) as nat) == before.with(field));
            match field {
                Field::Key(text) => {
                    if key.is_some() {
                        proof {
                            lemma_scan_fails(given, (it.index() + 1) as nat, given.len());
                        }
                        return Err(EnvelopeError::DuplicateKey);
                    }
                    key = Some(text);
                },
                Field::Publisher(text) => {
                    if publisher.is_some() {
                        proof {
                            lemma_scan_fails(given, (it.index() + 1) as nat, given.len());
                        }
                        return Err(EnvelopeError::DuplicatePublisher);
                    }
                    publisher = Some(text);
                },
                Field::Expires(span) => {
                    if expires.is_some() {
                        proof {
                            lemma_scan_fails(given, (it.index() + 1) as nat, given.len());
                        }
                        return Err(EnvelopeError::DuplicateExpires);
                    }
                    expires = Some(span);
                },
                Field::Value(text) => {
                    if value.is_some() {
                        proof {
                            lemma_scan_fails(given, (it.index() + 1) as nat, given.len());
                        }
                        return Err(EnvelopeError::DuplicateValue);
                    }
                    value = Some(text);
                },
            }
        }
        let ghost slots = Slots { key, publisher, expires, value };
        let key = match key {
            Some(text) => bytes_of_text(text.as_str()),
            None => return Err(EnvelopeError::MissingKey),
        };
        let publisher = match publisher {
            Some(Some(text)) => match Peer::parse(text.as_str()) {
                Ok(peer) => Some(peer),
                Err(_) => return Err(EnvelopeError::InvalidPublisher),
            },
            _ => None,
        };
        let expires = match expires {
            Some(span) => span,
            None => None,
        };
        let value = match value {
            Some(text) => match decode_standard(text.as_str()) {
                Some(bytes) => bytes,
                None => Vec::new(),
            },
            None => return Err(EnvelopeError::MissingValue),
        };
        Ok(RecordWrapper(Record { key, publisher, expires, value }))
    }
}

/// A scan that has failed stays failed, with the same error.
pub proof fn lemma_scan_fails(fields: Seq<Field>, n: nat, m: nat)
    requires
        n <= m,
        Slots::scanned(fields, n) is Err,
    ensures
        Slots::scanned(fields, m) == Slots::scanned(fields, n),
    decreases m,
{
    if n < m {
        lemma_scan_fails(fields, n, (m - 1) as nat);
    }
}

/// The local record storage: what is written for a record, and what a
/// stored form is read as.
pub struct LocalStorage {
    /// The directory under which the records are kept.
    pub prefix: String,
}

/// Builds the record storage.
pub struct StorageProvider;

/// What it takes to open the record storage.
pub struct StorageSetup {
    pub storage: LocalStorage,
    /// Whether the directory is created if it does not exist.
    pub create: bool,
}

impl StorageProvider {
    /// The storage that the configuration names. Only local storage can be
    /// had.
    pub fn invoke(&mut self, settings: Storage) -> (setup: StorageSetup)
        requires
            settings is Local,
        ensures
            setup.storage.prefix == settings->path,
            setup.create == settings->create,
    {
        match settings {
            Storage::Local { path, create } => StorageSetup {
                storage: LocalStorage::new(path),
                create,
            },
            Storage::Docker => vstd::pervasive::unreached(),
        }
    }
}

impl LocalStorage {
    /// The storage under a directory.
    pub fn new(prefix: String) -> (storage: Self)
        ensures
            storage.prefix == prefix,
    {
        LocalStorage { prefix }
    }

    /// What is written for a record: the path, which is the key read as
    /// UTF-8, and the envelope. A key that is no UTF-8 gives `Utf8Error`.
    pub fn put(&self, data: Record) -> (r: Result<(String, Envelope), ErrorKind>)
        ensures
            match r {
                Ok(written) => valid_utf8(data.key@) && written.0@ == decode_utf8(data.key@)
                    && written.1.key@ == written.0@ && written.1.value@ == base64_standard(
                    data.value@,
                ) && written.1.expires == data.expires && match written.1.publisher {
                    Some(text) => data.publisher matches Some(peer) && text@ == peer@,
                    None => data.publisher is None,
                },
                Err(e) => !valid_utf8(data.key@) && e is Utf8Error,
            },
    {
        let path = match key_to_path(&data.key) {
            Ok(path) => path,
            Err(e) => return Err(e),
        };
        let envelope = RecordWrapper(data).serialize();
        Ok((path, envelope))
    }

    /// The record that the fields of a stored form stand for. A stored form
    /// that cannot be read gives `StorageGetSerdeError` with the reason.
    pub fn get(&self, fields: Vec<Field>) -> (r: Result<Record, ErrorKind>)
        ensures
            match r {
                Ok(record) => record_of_fields(fields@) == Ok::<RecordContent, EnvelopeError>(
                    content(record),
                ),
                Err(e) => e matches ErrorKind::StorageGetSerdeError(reason) && record_of_fields(
                    fields@,
                ) == Err::<RecordContent, EnvelopeError>(reason),
            },
    {
        match RecordWrapper::deserialize(fields) {
            Ok(wrapper) => Ok(wrapper.0),
            Err(e) => Err(ErrorKind::StorageGetSerdeError(e)),
        }
    }
}

} // verus!
