//! Where identifiers and timestamps come from.

use crate::common::types::{Timestamp, Timeuuid};
use vstd::prelude::*;

verus! {

/// The node this process stamps into the identifiers it generates.
pub fn node_id() -> (node: [u8; 6])
    ensures
        node@ == seq![1u8, 2u8, 3u8, 4u8, 5u8, 6u8],
{
    let node: [u8; 6] = [1, 2, 3, 4, 5, 6];
    assert(node@ =~= seq![1u8, 2u8, 3u8, 4u8, 5u8, 6u8]);
    node
}

/// A fresh time-ordered identifier, from `charybdis::types::Timeuuid::now_v1`
/// and `Timeuuid::as_u128`, which hand on to `uuid::Uuid::now_v1` and
/// `uuid::Uuid::as_u128`. The value depends on the clock and on a counter
/// seeded at random, so all that is claimed is that it is a version 1
/// identifier: the encoder sets bits 76 to 79 of the value to 1.
#[verifier::external_body]
pub(crate) fn now_timeuuid(node: &[u8; 6]) -> (id: Timeuuid)
    ensures
        id.version() == 1,
{
    Timeuuid(charybdis::types::Timeuuid::now_v1(node).as_u128())
}

/// The current time, from `chrono::Utc::now` and
/// `chrono::DateTime::timestamp_millis`. Nothing is claimed of it.
#[verifier::external_body]
pub(crate) fn utc_now() -> (now: Timestamp) {
    Timestamp(chrono::Utc::now().timestamp_millis())
}

/// A version 1 identifier is never the nil identifier.
pub proof fn lemma_version_one_not_nil(id: Timeuuid)
    requires
        id.version() == 1,
    ensures
        id.0 != 0,
{
    let value = id.0;
    assert((value >> 76) & 0xf == 1 ==> value != 0) by (bit_vector);
}

} // verus!
