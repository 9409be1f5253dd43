//! Reading the rows of the ledger's tables.

use vstd::prelude::*;
use crate::p2p::peer_id::peer_id_text;
use crate::util::errors::ErrorKind;
use crate::util::types::{
    Contract, ContractView, Peer, SqlValue, SqlValueView, VerificationClaim,
    VerificationClaimView, row_view,
};

verus! {

/// Why a row cannot be read.
pub enum RowFault {
    /// A column is missing or holds a value of another type.
    Shape,
    /// The column of the peer holds no peer identifier.
    Peer,
}

/// The text in column `k`, if the row has that column and it holds a text.
pub open spec fn text_in(row: Seq<SqlValueView>, k: int) -> Option<Seq<char>> {
    if 0 <= k < row.len() && row[k] is S {
        Some(row[k]->S_0)
    } else {
        None
    }
}

/// The integer in column `k`, if the row has that column and it holds one.
pub open spec fn integer_in(row: Seq<SqlValueView>, k: int) -> Option<i64> {
    if 0 <= k < row.len() && row[k] is N {
        Some(row[k]->N_0)
    } else {
        None
    }
}

/// The byte string in column `k`, if the row has that column and it holds
/// one.
pub open spec fn bytes_in(row: Seq<SqlValueView>, k: int) -> Option<Seq<u8>> {
    if 0 <= k < row.len() && row[k] is Bs {
        Some(row[k]->Bs_0)
    } else {
        None
    }
}

/// The truth value in column `k`, if the row has that column and it holds
/// one.
pub open spec fn flag_in(row: Seq<SqlValueView>, k: int) -> Option<bool> {
    if 0 <= k < row.len() && row[k] is B {
        Some(row[k]->B_0)
    } else {
        None
    }
}

/// The contract that a row of the table `contracts` stands for. The columns
/// are read in their order, and the first one that cannot be read decides
/// the fault.
pub open spec fn contract_of_row(row: Seq<SqlValueView>) -> Result<ContractView, RowFault> {
    if text_in(row, 0) is None || text_in(row, 1) is None {
        Err(RowFault::Shape)
    } else if peer_id_text(text_in(row, 1)->Some_0) is None {
        Err(RowFault::Peer)
    } else if text_in(row, 2) is None || text_in(row, 3) is None || integer_in(row, 4) is None
        || integer_in(row, 5) is None || bytes_in(row, 6) is None || bytes_in(row, 7) is None
        || integer_in(row, 8) is None || integer_in(row, 9) is None {
        Err(RowFault::Shape)
    } else {
        Ok(
            ContractView {
                contract_uuid: text_in(row, 0)->Some_0,
                peer_id: peer_id_text(text_in(row, 1)->Some_0)->Some_0,
                file_uuid: text_in(row, 2)->Some_0,
                file_hash: text_in(row, 3)->Some_0,
                upload_date: integer_in(row, 4)->Some_0,
                ttl: integer_in(row, 5)->Some_0,
                secret_n: bytes_in(row, 6)->Some_0,
                secret_m: bytes_in(row, 7)->Some_0,
                rows: integer_in(row, 8)->Some_0,
                cols: integer_in(row, 9)->Some_0,
            },
        )
    }
}

/// The claim that a row of the table `verifications` stands for.
pub open spec fn claim_of_row(row: Seq<SqlValueView>) -> Result<VerificationClaimView, RowFault> {
    if text_in(row, 0) is None || text_in(row, 1) is None {
        Err(RowFault::Shape)
    } else if peer_id_text(text_in(row, 1)->Some_0) is None {
        Err(RowFault::Peer)
    } else if integer_in(row, 2) is None || flag_in(row, 3) is None {
        Err(RowFault::Shape)
    } else {
        Ok(
            VerificationClaimView {
                contract_uuid: text_in(row, 0)->Some_0,
                verified_by_id: peer_id_text(text_in(row, 1)->Some_0)->Some_0,
                verification_time: integer_in(row, 2)->Some_0,
                succeeded: flag_in(row, 3)->Some_0,
            },
        )
    }
}

/// Whether an error reports the given fault of the given row.
pub open spec fn reports(e: ErrorKind, fault: RowFault, row: Seq<SqlValueView>) -> bool {
    match fault {
        RowFault::Shape => e matches ErrorKind::InvalidSqlRow(r) && row_view(r@) == row,
        RowFault::Peer => e is InvalidPeerId,
    }
}

/// The text in column `k`.
fn text_column(row: &Vec<SqlValue>, k: usize) -> (r: Option<String>)
    ensures
        match r {
            Some(x) => text_in(row_view(row@), k as int) == Some(x@),
            None => text_in(row_view(row@), k as int) is None,
        },
{
    if k < row.len() {
        match &row[k] {
            SqlValue::S(x) => Some(x.clone()),
            _ => None,
        }
    } else {
        None
    }
}

/// The integer in column `k`.
fn integer_column(row: &Vec<SqlValue>, k: usize) -> (r: Option<i64>)
    ensures
        r == integer_in(row_view(row@), k as int),
{
    if k < row.len() {
        match &row[k] {
            SqlValue::N(x) => Some(*x),
            _ => None,
        }
    } else {
        None
    }
}

/// The byte string in column `k`.
fn bytes_column(row: &Vec<SqlValue>, k: usize) -> (r: Option<Vec<u8>>)
    ensures
        match r {
            Some(x) => bytes_in(row_view(row@), k as int) == Some(x@),
            None => bytes_in(row_view(row@), k as int) is None,
        },
{
    if k < row.len() {
        match &row[k] {
            SqlValue::Bs(x) => Some(x.clone()),
            _ => None,
        }
    } else {
        None
    }
}

/// The truth value in column `k`.
fn flag_column(row: &Vec<SqlValue>, k: usize) -> (r: Option<bool>)
    ensures
        r == flag_in(row_view(row@), k as int),
{
    if k < row.len() {
        match &row[k] {
            SqlValue::B(x) => Some(*x),
            _ => None,
        }
    } else {
        None
    }
}

/// Reads a row of the table `contracts`. A missing column or a value of
/// another type gives `InvalidSqlRow` with the row; a peer column that holds
/// no peer identifier gives `InvalidPeerId`.
pub fn map_row_to_contract(row: Vec<SqlValue>) -> (r: Result<Contract, ErrorKind>)
    ensures
        match r {
            Ok(contract) => contract_of_row(row_view(row@)) == Ok::<ContractView, RowFault>(
                contract@,
            ),
            Err(e) => contract_of_row(row_view(row@)) matches Err(fault) && reports(
                e,
                fault,
                row_view(row@),
            ),
        },
{
    let contract_uuid = match text_column(&row, 0) {
        Some(x) => x,
        None => return Err(ErrorKind::InvalidSqlRow(row)),
    };
    let peer_text = match text_column(&row, 1) {
        Some(x) => x,
        None => return Err(ErrorKind::InvalidSqlRow(row)),
    };
    let peer_id = match Peer::parse(peer_text.as_str()) {
        Ok(peer) => peer,
        Err(e) => return Err(e),
    };
    let file_uuid = match text_column(&row, 2) {
        Some(x) => x,
        None => return Err(ErrorKind::InvalidSqlRow(row)),
    };
    let file_hash = match text_column(&row, 3) {
        Some(x) => x,
        None => return Err(ErrorKind::InvalidSqlRow(row)),
    };
    let upload_date = match integer_column(&row, 4) {
        Some(x) => x,
        None => return Err(ErrorKind::InvalidSqlRow(row)),
    };
    let ttl = match integer_column(&row, 5) {
        Some(x) => x,
        None => return Err(ErrorKind::InvalidSqlRow(row)),
    };
    let secret_n = match bytes_column(&row, 6) {
        Some(x) => x,
        None => return Err(ErrorKind::InvalidSqlRow(row)),
    };
    let secret_m = match bytes_column(&row, 7) {
        Some(x) => x,
        None => return Err(ErrorKind::InvalidSqlRow(row)),
    };
    let rows = match integer_column(&row, 8) {
        Some(x) => x,
        None => return Err(ErrorKind::InvalidSqlRow(row)),
    };
    let cols = match integer_column(&row, 9) {
        Some(x) => x,
        None => return Err(ErrorKind::InvalidSqlRow(row)),
    };
    Ok(
        Contract {
            contract_uuid,
            peer_id,
            file_uuid,
            file_hash,
            upload_date,
            ttl,
            secret_n,
            secret_m,
            rows,
            cols,
        },
    )
}

/// Reads a row of the table `verifications`, with the same faults as
/// `map_row_to_contract`.
pub fn map_row_to_verification_claim(row: Vec<SqlValue>) -> (r: Result<
    VerificationClaim,
    ErrorKind,
>)
    ensures
        match r {
            Ok(claim) => claim_of_row(row_view(row@)) == Ok::<VerificationClaimView, RowFault>(
                claim@,
            ),
            Err(e) => claim_of_row(row_view(row@)) matches Err(fault) && reports(
                e,
                fault,
                row_view(row@),
            ),
        },
{
    let contract_uuid = match text_column(&row, 0) {
        Some(x) => x,
        None => return Err(ErrorKind::InvalidSqlRow(row)),
    };
    let peer_text = match text_column(&row, 1) {
        Some(x) => x,
        None => return Err(ErrorKind::InvalidSqlRow(row)),
    };
    let verified_by_id = match Peer::parse(peer_text.as_str()) {
        Ok(peer) => peer,
        Err(e) => return Err(e),
    };
    let verification_time = match integer_column(&row, 2) {
        Some(x) => x,
        None => return Err(ErrorKind::InvalidSqlRow(row)),
    };
    let succeeded = match flag_column(&row, 3) {
        Some(x) => x,
        None => return Err(ErrorKind::InvalidSqlRow(row)),
    };
    Ok(VerificationClaim { contract_uuid, verified_by_id, verification_time, succeeded })
}

} // verus!
