//! The rules of the record store behind the distributed hash table.

use vstd::prelude::*;
use vstd::utf8::{decode_utf8, valid_utf8};
use crate::util::errors::ErrorKind;
use crate::util::text::string_from_utf8;
use crate::util::types::Record;

verus! {

/// The size of a bucket of the routing table, and with it the default
/// number of providers kept for a key.
pub const K_VALUE: usize = 20;

/// The limits of a record store.
#[derive(Debug, Clone, Copy)]
pub struct LocalStoreConfig {
    /// The maximum number of records.
    pub max_records: usize,
    /// The maximum size of record values, in bytes.
    pub max_value_bytes: usize,
    /// The maximum number of providers stored for a key.
    pub max_providers_per_key: usize,
    /// The maximum number of provider records for which the local node is
    /// the provider.
    pub max_provided_keys: usize,
}

impl Default for LocalStoreConfig {
    fn default() -> (config: Self)
        ensures
            config.max_records == 1024,
            config.max_value_bytes == 65 * 1024,
            config.max_provided_keys == 1024,
            config.max_providers_per_key == K_VALUE,
    {
        Self {
            max_records: 1024,
            max_value_bytes: 65 * 1024,
            max_provided_keys: 1024,
            max_providers_per_key: K_VALUE,
        }
    }
}

/// Why the store refuses a record.
#[derive(Debug, Clone, Copy, PartialEq, Eq, Structural)]
pub enum StoreError {
    /// The value is as large as the limit or larger.
    ValueTooLarge,
    /// The record could not be written. The store reports it as an
    /// exhausted record count.
    MaxRecords,
}

/// The record store of one peer.
pub struct LocalStore {
    pub config: LocalStoreConfig,
}

impl LocalStore {
    /// A store with the given limits.
    pub fn with_config(config: LocalStoreConfig) -> (store: Self)
        ensures
            store.config == config,
    {
        LocalStore { config }
    }

    /// Whether the store takes a record: its value must be smaller than the
    /// limit.
    pub fn admits(&self, record: &Record) -> (r: Result<(), StoreError>)
        ensures
            r is Ok <==> record.value@.len() < self.config.max_value_bytes,
            r is Err ==> r == Err::<(), StoreError>(StoreError::ValueTooLarge),
    {
        if record.value.len() >= self.config.max_value_bytes {
            return Err(StoreError::ValueTooLarge);
        }
        Ok(())
    }

    /// What the store reports of a record that it took, once the storage
    /// has written it or failed to.
    pub fn put(&self, record: &Record, written: bool) -> (r: Result<(), StoreError>)
        ensures
            r == if record.value@.len() >= self.config.max_value_bytes {
                Err::<(), StoreError>(StoreError::ValueTooLarge)
            } else if written {
                Ok::<(), StoreError>(())
            } else {
                Err::<(), StoreError>(StoreError::MaxRecords)
            },
    {
        match self.admits(record) {
            Err(e) => Err(e),
            Ok(()) => if written {
                Ok(())
            } else {
                Err(StoreError::MaxRecords)
            },
        }
    }
}

impl LocalStore {
    /// Where the record with a key is looked up or removed: at the path of
    /// the key. For a key that is no UTF-8 there is no such place: nothing
    /// is found and nothing is removed.
    pub fn record_path(&self, key: &Vec<u8>) -> (r: Option<String>)
        ensures
            match r {
                Some(path) => valid_utf8(key@) && path@ == decode_utf8(key@),
                None => !valid_utf8(key@),
            },
    {
        match key_to_path(key) {
            Ok(path) => Some(path),
            Err(_) => None,
        }
    }
}

/// The path under which the record with a key is stored: the key read as
/// UTF-8. A key that is no UTF-8 gives `Utf8Error`.
pub fn key_to_path(key: &Vec<u8>) -> (r: Result<String, ErrorKind>)
    ensures
        match r {
            Ok(path) => valid_utf8(key@) && path@ == decode_utf8(key@),
            Err(e) => !valid_utf8(key@) && e is Utf8Error,
        },
{
    match string_from_utf8(key.clone()) {
        Some(path) => Ok(path),
        None => Err(ErrorKind::Utf8Error),
    }
}

} // verus!
