//! The statements that the request builders of this library send.

use vstd::prelude::*;

verus! {

/// Inserts one transaction with all its fields.
pub const INSERT_TX_QUERY: &'static str =
    "INSERT INTO tangle.transaction (hash, payload, address, value, obsolete_tag, timestamp, current_index, last_index, bundle, trunk, branch, tag, attachment_timestamp, attachment_timestamp_lower, attachment_timestamp_upper, nonce, milestone) VALUES (?,?,?,?,?,?,?,?,?,?,?,?,?,?,?,?,?);";

/// Selects the transactions that approve a given one, through either of its
/// two parent links.
pub const SELECT_APPROVEES_QUERY: &'static str =
    "SELECT tx FROM tangle.edge WHERE vertex = ? AND kind in ['trunk','branch']";

} // verus!
