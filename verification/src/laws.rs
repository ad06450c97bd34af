//! End-to-end properties of the service, stated over the record model
//! that the operations' contracts speak of and proved once for all
//! inputs.
use vstd::prelude::*;
use crate::service::Reply;
use crate::store::{first_match, lemma_first_match_at, lemma_first_match_none,
    lemma_first_match_props};
use crate::user::UserView;

verus! {

/// Creating a record and then fetching its email finds exactly the
/// created record, name and email intact — provided no earlier record
/// already carried the email (uniqueness of emails is assumed by the
/// service, never enforced).
pub proof fn lemma_create_then_fetch(s: Seq<UserView>, u: UserView)
    requires
        forall|j: int| 0 <= j < s.len() ==> s[j].email != u.email,
    ensures
        first_match(s.push(u), u.email) == Some(s.len() as int),
        s.push(u)[s.len() as int] == u,
{
    let s2 = s.push(u);
    assert forall|j: int| 0 <= j < s.len() as int implies s2[j].email != u.email by {
        assert(s2[j] == s[j]);
    }
    lemma_first_match_at(s2, u.email, s.len() as int);
}

/// Creating a record grows the listing by one and loses nothing: the
/// listing still contains every earlier record, and the created one.
pub proof fn lemma_create_keeps_listing(s: Seq<UserView>, u: UserView)
    ensures
        s.push(u).len() == s.len() + 1,
        s.push(u).contains(u),
        forall|v: UserView| s.contains(v) ==> s.push(u).contains(v),
{
    assert(s.push(u)[s.len() as int] == u);
    assert forall|v: UserView| s.contains(v) implies s.push(u).contains(v) by {
        let j = choose|j: int| 0 <= j < s.len() && s[j] == v;
        assert(s.push(u)[j] == v);
    }
}

/// Fetching an email that no record carries misses, and the reply to a
/// miss is 404 — not 200 and not 500.
pub proof fn lemma_fetch_nonexistent(s: Seq<UserView>, email: Seq<char>)
    requires
        forall|j: int| 0 <= j < s.len() ==> s[j].email != email,
    ensures
        first_match(s, email) is None,
        Reply::NotFound.spec_status() == 404,
{
    lemma_first_match_none(s, email);
}

/// Renaming the record an email addresses and then fetching that email
/// finds the same record with the new name; its identifier and email
/// are kept, and every other record is untouched.
pub proof fn lemma_update_then_fetch(s: Seq<UserView>, i: int, email: Seq<char>, name: Seq<char>)
    requires
        first_match(s, email) == Some(i),
    ensures
        0 <= i < s.len(),
        ({
            let s2 = s.update(i, (UserView { name: name, ..s[i] }));
            first_match(s2, email) == Some(i) && s2[i].name == name && s2[i].email == s[i].email
                && s2[i].id == s[i].id && (forall|j: int|
                0 <= j < s.len() && j != i ==> s2[j] == s[j])
        }),
{
    lemma_first_match_props(s, email);
    let s2 = s.update(i, (UserView { name: name, ..s[i] }));
    assert forall|j: int| 0 <= j < i implies s2[j].email != email by {
        assert(s2[j] == s[j]);
    }
    lemma_first_match_at(s2, email, i);
}

/// Deleting the record an email addresses removes it: a later fetch of
/// that email misses — provided the email addressed only that record
/// (uniqueness of emails is assumed by the service, never enforced).
pub proof fn lemma_delete_then_fetch(s: Seq<UserView>, i: int, email: Seq<char>)
    requires
        first_match(s, email) == Some(i),
        forall|j: int| 0 <= j < s.len() && s[j].email == email ==> j == i,
    ensures
        0 <= i < s.len(),
        first_match(s.remove(i), email) is None,
{
    lemma_first_match_props(s, email);
    let s2 = s.remove(i);
    assert forall|j: int| 0 <= j < s2.len() implies s2[j].email != email by {
        if j < i {
            assert(s2[j] == s[j]);
        } else {
            assert(s2[j] == s[j + 1]);
        }
    }
    lemma_first_match_none(s2, email);
}

} // verus!
