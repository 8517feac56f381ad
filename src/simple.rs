//! The try-lock front end: a pool hands out its slots without ever waiting.
use vstd::prelude::*;

use crate::lock::GroupLockU64;
use crate::slots::TABLE_BITS;

verus! {

/// Why a pool could not be built.
#[derive(Debug, PartialEq, Eq, Structural)]
pub enum PoolCreationError {
    /// More values were given than the table word has bits.
    TooManyValues,
}

/// The slot table of a pool that holds `len` values, or `TooManyValues` when
/// `len` exceeds the width of the table word.
pub fn table_for(len: usize) -> (r: Result<GroupLockU64, PoolCreationError>)
    ensures
        r is Err <==> len > TABLE_BITS,
        r matches Err(e) ==> e == PoolCreationError::TooManyValues,
        r matches Ok(t) ==> t.spec_capacity() == len,
{
    match GroupLockU64::create(len) {
        Some(table) => Ok(table),
        None => Err(PoolCreationError::TooManyValues),
    }
}

} // verus!
