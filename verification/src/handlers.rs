//! The five operations of the service, run against the record
//! collection: each issues one storage operation and maps its outcome
//! to a reply, as the corresponding request handler does.
use vstd::prelude::*;
use crate::ids::dec_str;
use crate::service::{
    delete_reply, find_reply, list_reply, update_reply, DeleteOutcome, FindAllOutcome,
    FindOneOutcome, Reply, UpdateOutcome,
};
use crate::store::{first_match, views_of, UserStore};
use crate::user::UserView;

verus! {

/// Create a user: store the payload, let the store assign the
/// identifier (any caller-supplied one is ignored), and reply 200 with
/// the created record.
pub fn create_user(store: &mut UserStore, name: String, email: String) -> (r: Reply)
    requires
        old(store).issued() < u64::MAX,
    ensures
        r matches Reply::OkUser(u) && u@ == (UserView {
            id: Some(dec_str(old(store).issued() as nat)),
            name: name@,
            email: email@,
        }) && final(store).records() == old(store).records().push(u@),
        dec_str(old(store).issued() as nat).len() >= 1,
        final(store).issued() == old(store).issued() + 1,
{
    let u = store.insert_user(name, email);
    Reply::OkUser(u)
}

/// List all users: reply 200 with every record, in insertion order.
pub fn get_all_users(store: &UserStore) -> (r: Reply)
    ensures
        r matches Reply::OkUsers(v) && views_of(v@) == store.records(),
{
    list_reply(FindAllOutcome::Found(store.all_users()))
}

/// Fetch a user by email: reply 200 with the first matching record, or
/// 404 when no record matches.
pub fn get_user_by_email(store: &UserStore, email: &String) -> (r: Reply)
    ensures
        match first_match(store.records(), email@) {
            None => r == Reply::NotFound,
            Some(i) => r matches Reply::OkUser(u) && u@ == store.records()[i],
        },
{
    match store.find_user_by_email(email) {
        Some(u) => find_reply(FindOneOutcome::Found(u)),
        None => find_reply(FindOneOutcome::Missing),
    }
}

/// Rename a user by email: reply 200 when a record matched and its name
/// was replaced, or 404 — with the collection unchanged — when none did.
pub fn update_name(store: &mut UserStore, email: &String, new_name: String) -> (r: Reply)
    ensures
        final(store).issued() == old(store).issued(),
        match first_match(old(store).records(), email@) {
            None => r == Reply::NotFound && final(store).records() == old(store).records(),
            Some(i) => r == Reply::OkUpdated && final(store).records() == old(
                store,
            ).records().update(i, (UserView { name: new_name@, ..old(store).records()[i] })),
        },
{
    let matched = store.set_name_by_email(email, new_name);
    let count: u64 = if matched {
        1
    } else {
        0
    };
    update_reply(UpdateOutcome::Matched(count))
}

/// Delete a user by email: reply 200 when a record matched and was
/// removed, or 404 — with the collection unchanged — when none did.
pub fn delete_user_by_email(store: &mut UserStore, email: &String) -> (r: Reply)
    ensures
        final(store).issued() == old(store).issued(),
        match first_match(old(store).records(), email@) {
            None => r == Reply::NotFound && final(store).records() == old(store).records(),
            Some(i) => r == Reply::OkDeleted && final(store).records() == old(
                store,
            ).records().remove(i),
        },
{
    let deleted = store.remove_by_email(email);
    let count: u64 = if deleted {
        1
    } else {
        0
    };
    delete_reply(DeleteOutcome::Deleted(count))
}

} // verus!
