//! Naming of the local key-value stores and what counts as a healthy one.

use vstd::prelude::*;
use vstd::string::*;
use crate::failure::{ErrorKind, Failure, Step};
use crate::records::StoreMetadata;
use crate::wire::texts_view;

verus! {

/// The file that holds a store.
pub open spec fn store_file_name(store_id: Seq<char>) -> Seq<char> {
    store_id + ".store"@
}

/// The file that holds a named backup of a store.
pub open spec fn backup_file_name(store_id: Seq<char>, backup_name: Seq<char>) -> Seq<char> {
    store_id + "_backup_"@ + backup_name + ".store"@
}

/// Computes `store_file_name`.
pub fn store_file(store_id: &str) -> (r: String)
    ensures
        r@ == store_file_name(store_id@),
{
    let mut name = String::from_str(store_id);
    name.append(".store");
    name
}

/// Computes `backup_file_name`.
pub fn backup_file(store_id: &str, backup_name: &str) -> (r: String)
    ensures
        r@ == backup_file_name(store_id@, backup_name@),
{
    let mut name = String::from_str(store_id);
    name.append("_backup_");
    name.append(backup_name);
    name.append(".store");
    name
}

/// The stores that the application knows.
pub open spec fn known_stores() -> Seq<Seq<char>> {
    seq!["session"@, "app_data"@, "app_config"@, "ui_state"@, "api_cache"@]
}

/// Lists the stores that the application knows.
pub fn store_list() -> (stores: Vec<String>)
    ensures
        texts_view(stores@) == known_stores(),
{
    let mut stores: Vec<String> = Vec::new();
    stores.push(String::from_str("session"));
    stores.push(String::from_str("app_data"));
    stores.push(String::from_str("app_config"));
    stores.push(String::from_str("ui_state"));
    stores.push(String::from_str("api_cache"));
    assert(texts_view(stores@) =~= known_stores());
    stores
}

/// A store is valid when it holds data and the time of its last update.
pub fn store_validate(has_data: bool, has_timestamp: bool) -> (r: bool)
    ensures
        r == (has_data && has_timestamp),
{
    has_data && has_timestamp
}

/// The metadata of a store: a missing update time counts as 0, a missing
/// version as 1, missing data as size 0.
pub fn store_get_metadata(
    store_id: String,
    last_updated: Option<u64>,
    version: Option<u64>,
    data_size: Option<usize>,
) -> (r: StoreMetadata)
    ensures
        r.store_id == store_id,
        r.last_updated == (match last_updated {
            Some(t) => t,
            None => 0,
        }),
        r.version == (match version {
            Some(v) => v as u32,
            None => 1u32,
        }),
        r.size == (match data_size {
            Some(n) => n,
            None => 0,
        }),
{
    StoreMetadata {
        store_id,
        last_updated: match last_updated {
            Some(t) => t,
            None => 0,
        },
        size: match data_size {
            Some(n) => n,
            None => 0,
        },
        version: match version {
            Some(v) => #[verifier::truncate]
            (v as u32),
            None => 1,
        },
    }
}

/// A backup can be restored only if it holds data.
pub fn store_restore(backup_has_data: bool) -> (r: Result<(), Failure>)
    ensures
        backup_has_data ==> r is Ok,
        !backup_has_data ==> (r matches Err(f) && f.is(
            ErrorKind::NotFound,
            Step::LoadRecords,
            None,
            Seq::empty(),
        )),
{
    if backup_has_data {
        Ok(())
    } else {
        Err(Failure::rule(ErrorKind::NotFound, Step::LoadRecords))
    }
}

} // verus!
