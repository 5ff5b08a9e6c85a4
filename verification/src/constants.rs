//! Names and limits that are fixed.

use vstd::prelude::*;

verus! {

/// Name of the collection that holds searchable mail.
pub const SEARCHABLE_MAIL_COLLECTION_NAME: &'static str = "mail";

/// Largest number of results that one list request may ask for.
pub const MAXIMUM_MESSAGE_LIST_RESULTS: u32 = 500;

} // verus!
