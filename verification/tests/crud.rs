use user_service::handlers::{
    create_user, delete_user_by_email, get_all_users, get_user_by_email, update_name,
};
use user_service::ids::u64_to_dec_string;
use user_service::service::{
    create_reply, delete_reply, find_reply, list_reply, update_reply, DeleteOutcome,
    FindAllOutcome, FindOneOutcome, InsertOutcome, Reply, UpdateOutcome,
};
use user_service::store::UserStore;
use user_service::user::User;

fn created_record(r: Reply) -> User {
    match r {
        Reply::OkUser(u) => u,
        _ => panic!("expected a record in the reply"),
    }
}

fn listed_records(r: Reply) -> Vec<User> {
    match r {
        Reply::OkUsers(v) => v,
        _ => panic!("expected records in the reply"),
    }
}

#[test]
fn create_then_fetch_returns_created_record() {
    let mut store = UserStore::new();
    let r = create_user(&mut store, "Alice".to_owned(), "a@x.com".to_owned());
    assert_eq!(r.status(), 200);
    let u = created_record(r);
    assert_eq!(u.name, "Alice");
    assert_eq!(u.email, "a@x.com");
    let id = u.id.expect("an identifier must be assigned");
    assert!(!id.is_empty());

    let fetched = get_user_by_email(&store, &"a@x.com".to_owned());
    assert_eq!(fetched.status(), 200);
    let f = created_record(fetched);
    assert_eq!(f.name, "Alice");
    assert_eq!(f.email, "a@x.com");
    assert_eq!(f.id, Some(id));
}

#[test]
fn listing_contains_every_created_record() {
    let mut store = UserStore::new();
    let emails = ["a@x.com", "b@x.com", "c@x.com"];
    for (n, email) in emails.iter().enumerate() {
        let r = create_user(&mut store, format!("user{}", n), (*email).to_owned());
        assert_eq!(r.status(), 200);
    }
    let listed = listed_records(get_all_users(&store));
    assert_eq!(listed.len(), 3);
    for email in emails.iter() {
        assert!(listed.iter().any(|u| u.email == *email));
    }
}

#[test]
fn listing_an_empty_store_succeeds_with_no_records() {
    let store = UserStore::new();
    let r = get_all_users(&store);
    assert_eq!(r.status(), 200);
    assert!(listed_records(r).is_empty());
}

#[test]
fn fetching_a_nonexistent_email_is_not_found() {
    let mut store = UserStore::new();
    let r = create_user(&mut store, "Alice".to_owned(), "a@x.com".to_owned());
    assert_eq!(r.status(), 200);
    let missing = get_user_by_email(&store, &"nobody@x.com".to_owned());
    assert_eq!(missing.status(), 404);
    assert_ne!(missing.status(), 200);
    assert_ne!(missing.status(), 500);
}

#[test]
fn updating_an_existing_email_renames_the_record() {
    let mut store = UserStore::new();
    create_user(&mut store, "Alice".to_owned(), "a@x.com".to_owned());
    let updated = update_name(&mut store, &"a@x.com".to_owned(), "Alicia".to_owned());
    assert_eq!(updated.status(), 200);
    let fetched = created_record(get_user_by_email(&store, &"a@x.com".to_owned()));
    assert_eq!(fetched.name, "Alicia");
    assert_eq!(fetched.email, "a@x.com");
}

#[test]
fn updating_a_nonexistent_email_is_not_found_and_creates_nothing() {
    let mut store = UserStore::new();
    create_user(&mut store, "Alice".to_owned(), "a@x.com".to_owned());
    let updated = update_name(&mut store, &"nobody@x.com".to_owned(), "Nobody".to_owned());
    assert_eq!(updated.status(), 404);
    let listed = listed_records(get_all_users(&store));
    assert_eq!(listed.len(), 1);
    assert_eq!(listed[0].name, "Alice");
}

#[test]
fn deleting_an_existing_email_removes_the_record() {
    let mut store = UserStore::new();
    create_user(&mut store, "Alice".to_owned(), "a@x.com".to_owned());
    create_user(&mut store, "Bob".to_owned(), "b@x.com".to_owned());
    let deleted = delete_user_by_email(&mut store, &"a@x.com".to_owned());
    assert_eq!(deleted.status(), 200);
    assert_eq!(get_user_by_email(&store, &"a@x.com".to_owned()).status(), 404);
    assert_eq!(get_user_by_email(&store, &"b@x.com".to_owned()).status(), 200);
}

#[test]
fn deleting_a_nonexistent_email_is_not_found_not_an_error() {
    let mut store = UserStore::new();
    let deleted = delete_user_by_email(&mut store, &"nobody@x.com".to_owned());
    assert_eq!(deleted.status(), 404);
    assert_ne!(deleted.status(), 500);
}

#[test]
fn full_scenario_create_fetch_rename_delete() {
    let mut store = UserStore::new();

    let created = create_user(&mut store, "Alice".to_owned(), "a@x.com".to_owned());
    assert_eq!(created.status(), 200);
    let u = created_record(created);
    let id = u.id.clone().expect("an identifier must be assigned");
    assert!(!id.is_empty());

    let fetched = created_record(get_user_by_email(&store, &"a@x.com".to_owned()));
    assert_eq!(fetched.id, Some(id));
    assert_eq!(fetched.name, "Alice");
    assert_eq!(fetched.email, "a@x.com");

    assert_eq!(update_name(&mut store, &"a@x.com".to_owned(), "Alicia".to_owned()).status(), 200);
    let renamed = created_record(get_user_by_email(&store, &"a@x.com".to_owned()));
    assert_eq!(renamed.name, "Alicia");

    assert_eq!(delete_user_by_email(&mut store, &"a@x.com".to_owned()).status(), 200);
    assert_eq!(get_user_by_email(&store, &"a@x.com".to_owned()).status(), 404);
}

#[test]
fn assigned_identifiers_are_distinct_decimal_strings() {
    let mut store = UserStore::new();
    let first = created_record(create_user(&mut store, "A".to_owned(), "a@x.com".to_owned()));
    let second = created_record(create_user(&mut store, "B".to_owned(), "b@x.com".to_owned()));
    assert_eq!(first.id, Some("0".to_owned()));
    assert_eq!(second.id, Some("1".to_owned()));
}

#[test]
fn decimal_formatting_is_exact() {
    assert_eq!(u64_to_dec_string(0), "0");
    assert_eq!(u64_to_dec_string(7), "7");
    assert_eq!(u64_to_dec_string(10), "10");
    assert_eq!(u64_to_dec_string(90210), "90210");
    assert_eq!(u64_to_dec_string(u64::MAX), "18446744073709551615");
}

#[test]
fn create_reply_carries_the_assigned_identifier() {
    let r = create_reply(
        "Alice".to_owned(),
        "a@x.com".to_owned(),
        InsertOutcome::Inserted("abc123".to_owned()),
    );
    assert_eq!(r.status(), 200);
    let u = created_record(r);
    assert_eq!(u.id, Some("abc123".to_owned()));
    assert_eq!(u.name, "Alice");
    assert_eq!(u.email, "a@x.com");
}

#[test]
fn storage_failures_map_to_server_errors() {
    let r = create_reply("A".to_owned(), "a@x.com".to_owned(), InsertOutcome::StoreFailed);
    assert_eq!(r.status(), 500);
    let r = create_reply("A".to_owned(), "a@x.com".to_owned(), InsertOutcome::NoIdAssigned);
    assert_eq!(r.status(), 500);
    assert_eq!(list_reply(FindAllOutcome::StoreFailed).status(), 500);
    assert_eq!(find_reply(FindOneOutcome::StoreFailed).status(), 500);
    assert_eq!(update_reply(UpdateOutcome::StoreFailed).status(), 500);
    assert_eq!(delete_reply(DeleteOutcome::StoreFailed).status(), 500);
}

#[test]
fn misses_map_to_not_found() {
    assert_eq!(find_reply(FindOneOutcome::Missing).status(), 404);
    assert_eq!(update_reply(UpdateOutcome::Matched(0)).status(), 404);
    assert_eq!(delete_reply(DeleteOutcome::Deleted(0)).status(), 404);
}

#[test]
fn matches_map_to_success() {
    let listed = list_reply(FindAllOutcome::Found(Vec::new()));
    assert_eq!(listed.status(), 200);
    assert!(listed_records(listed).is_empty());
    assert_eq!(update_reply(UpdateOutcome::Matched(1)).status(), 200);
    assert_eq!(update_reply(UpdateOutcome::Matched(3)).status(), 200);
    assert_eq!(delete_reply(DeleteOutcome::Deleted(1)).status(), 200);
}

#[test]
fn undecodable_bodies_map_to_bad_request() {
    assert_eq!(Reply::BadRequest.status(), 400);
}
