//! The request handlers' decision logic: each handler runs one store
//! operation and wraps the outcome in a response envelope with its status
//! code. The transport hands in plain values (the path identifier and the
//! decoded body) and sends the returned status and envelope back; it calls
//! [`storage_lock_error`] when the store's shared lock cannot be acquired.

use vstd::prelude::*;

use crate::response::ApiResponse;
use crate::storage::{UserStorage, is_listing};
use crate::user::User;

verus! {

/// Status of a reply whose operation succeeded.
pub const STATUS_OK: u16 = 200;

/// Status of a reply whose identifier was not found.
pub const STATUS_NOT_FOUND: u16 = 404;

/// Status of a reply that failed on the store's lock.
pub const STATUS_INTERNAL_ERROR: u16 = 500;

/// Relies on `uuid::Uuid::now_v7` and its `Display` form: a version-7 UUID
/// freshly generated from the current time, rendered as the 36-character
/// hyphenated string.
#[verifier::external_body]
fn generate_id() -> (r: String)
    ensures
        r@.len() == 36,
{
    uuid::Uuid::now_v7().to_string()
}

/// Handles a create request: assigns a freshly generated identifier to the
/// submitted record, stores the record under it, and returns the stored
/// record in a success envelope. Any identifier on the submitted record is
/// discarded.
pub fn create_user(storage: &mut UserStorage, user: User) -> (r: (u16, ApiResponse<User>))
    requires
        old(storage).wf(),
    ensures
        final(storage).wf(),
        r.0 == STATUS_OK,
        r.1.message@ == "success"@,
        r.1.data matches Option::Some(u) && {
            &&& u@.name == user@.name
            &&& u@.email == user@.email
            &&& u@.id matches Option::Some(id) && id.len() == 36 && final(storage)@ == old(
                storage,
            )@.insert(id, u@)
        },
{
    let mut record = user;
    record.id = Option::Some(generate_id());
    let stored = record.clone();
    storage.create(record);
    (STATUS_OK, ApiResponse::success(stored))
}

/// Handles a get request: returns the record stored under `id` in a
/// success envelope, or a not-found error when no record is stored
/// under `id`.
pub fn get_user(storage: &UserStorage, id: &str) -> (r: (u16, ApiResponse<User>))
    requires
        storage.wf(),
    ensures
        storage@.contains_key(id@) ==> r.0 == STATUS_OK && r.1.message@ == "success"@ && (
        r.1.data matches Option::Some(u) && u@ == storage@[id@]),
        !storage@.contains_key(id@) ==> r.0 == STATUS_NOT_FOUND && r.1.message@
            == "user not found"@ && r.1.data is None,
{
    match storage.get_by_id(id) {
        Option::Some(u) => (STATUS_OK, ApiResponse::success(u.clone())),
        Option::None => (STATUS_NOT_FOUND, ApiResponse::error("user not found".to_owned())),
    }
}

/// Handles a list request: returns one copy of every stored record,
/// in no particular order, in a success envelope.
pub fn fetch_user(storage: &UserStorage) -> (r: (u16, ApiResponse<Vec<User>>))
    requires
        storage.wf(),
    ensures
        r.0 == STATUS_OK,
        r.1.message@ == "success"@,
        r.1.data matches Option::Some(list) && is_listing(storage@, list@) && storage@.dom().finite()
            && list@.len() == storage@.dom().len(),
{
    let users = storage.fetch();
    (STATUS_OK, ApiResponse::success(users))
}

/// Handles an update request: replaces the name and email of the record
/// stored under `id`, keeps its identifier, and returns the updated record
/// in a success envelope; returns a not-found error and changes nothing
/// when no record is stored under `id`.
pub fn update_user(storage: &mut UserStorage, id: &str, user: User) -> (r: (
    u16,
    ApiResponse<User>,
))
    requires
        old(storage).wf(),
    ensures
        final(storage).wf(),
        old(storage)@.contains_key(id@) ==> {
            let v = crate::user::UserView {
                id: Option::Some(id@),
                name: user.name@,
                email: user.email@,
            };
            &&& r.0 == STATUS_OK
            &&& r.1.message@ == "success"@
            &&& r.1.data matches Option::Some(u) && u@ == v
            &&& final(storage)@ == old(storage)@.insert(id@, v)
        },
        !old(storage)@.contains_key(id@) ==> r.0 == STATUS_NOT_FOUND && r.1.message@
            == "user not found"@ && r.1.data is None && *final(storage) == *old(storage),
{
    match storage.update(id, user) {
        Option::Some(updated) => (STATUS_OK, ApiResponse::success(updated)),
        Option::None => (STATUS_NOT_FOUND, ApiResponse::error("user not found".to_owned())),
    }
}

/// Handles a delete request: removes the record stored under `id` and
/// returns a copy of it in a success envelope; returns a not-found error
/// and changes nothing when no record is stored under `id`.
pub fn delete_user(storage: &mut UserStorage, id: &str) -> (r: (u16, ApiResponse<User>))
    requires
        old(storage).wf(),
    ensures
        final(storage).wf(),
        old(storage)@.contains_key(id@) ==> {
            &&& r.0 == STATUS_OK
            &&& r.1.message@ == "success"@
            &&& r.1.data matches Option::Some(u) && u@ == old(storage)@[id@]
            &&& final(storage)@ == old(storage)@.remove(id@)
        },
        !old(storage)@.contains_key(id@) ==> r.0 == STATUS_NOT_FOUND && r.1.message@
            == "user not found"@ && r.1.data is None && *final(storage) == *old(storage),
{
    match storage.delete(id) {
        Option::Some(removed) => (STATUS_OK, ApiResponse::success(removed)),
        Option::None => (STATUS_NOT_FOUND, ApiResponse::error("user not found".to_owned())),
    }
}

/// The reply sent when the store's shared lock cannot be acquired: a fixed
/// internal-error envelope with no data.
pub fn storage_lock_error<T>() -> (r: (u16, ApiResponse<T>))
    ensures
        r.0 == STATUS_INTERNAL_ERROR,
        r.1.message@ == "Storage lock error"@,
        r.1.data is None,
{
    (STATUS_INTERNAL_ERROR, ApiResponse::error("Storage lock error".to_owned()))
}

} // verus!
