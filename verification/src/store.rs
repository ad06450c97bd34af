//! The collection of user records, modelled as a sequence in insertion
//! order. Lookup, update and removal address the first record whose
//! email matches, as the backing store's single-document operations do.
use vstd::prelude::*;
use crate::ids::{dec_str, lemma_dec_str_nonempty, u64_to_dec_string};
use crate::user::{User, UserView};

verus! {

/// Index of the first record at or after `from` whose email is `email`.
pub open spec fn first_match_from(s: Seq<UserView>, email: Seq<char>, from: int) -> Option<int>
    decreases s.len() - from,
{
    if from < 0 || from >= s.len() {
        None
    } else if s[from].email == email {
        Some(from)
    } else {
        first_match_from(s, email, from + 1)
    }
}

/// Index of the first record whose email is `email`.
pub open spec fn first_match(s: Seq<UserView>, email: Seq<char>) -> Option<int> {
    first_match_from(s, email, 0)
}

/// The views of a sequence of records.
pub open spec fn views_of(s: Seq<User>) -> Seq<UserView> {
    Seq::new(s.len(), |i: int| s[i]@)
}

proof fn lemma_first_match_from_props(s: Seq<UserView>, email: Seq<char>, from: int)
    requires
        0 <= from <= s.len(),
    ensures
        match first_match_from(s, email, from) {
            None => forall|j: int| from <= j < s.len() ==> s[j].email != email,
            Some(i) => from <= i < s.len() && s[i].email == email && (forall|j: int|
                from <= j < i ==> s[j].email != email),
        },
    decreases s.len() - from,
{
    if from < s.len() && s[from].email != email {
        lemma_first_match_from_props(s, email, from + 1);
    }
}

/// What a first-match index means: it points at a matching record and
/// nothing before it matches; absence means nothing matches at all.
pub proof fn lemma_first_match_props(s: Seq<UserView>, email: Seq<char>)
    ensures
        match first_match(s, email) {
            None => forall|j: int| 0 <= j < s.len() ==> s[j].email != email,
            Some(i) => 0 <= i < s.len() && s[i].email == email && (forall|j: int|
                0 <= j < i ==> s[j].email != email),
        },
{
    lemma_first_match_from_props(s, email, 0);
}

proof fn lemma_first_match_from_none(s: Seq<UserView>, email: Seq<char>, from: int)
    requires
        0 <= from <= s.len(),
        forall|j: int| from <= j < s.len() ==> s[j].email != email,
    ensures
        first_match_from(s, email, from) is None,
    decreases s.len() - from,
{
    if from < s.len() {
        lemma_first_match_from_none(s, email, from + 1);
    }
}

/// When no record carries the email, there is no first match.
pub proof fn lemma_first_match_none(s: Seq<UserView>, email: Seq<char>)
    requires
        forall|j: int| 0 <= j < s.len() ==> s[j].email != email,
    ensures
        first_match(s, email) is None,
{
    lemma_first_match_from_none(s, email, 0);
}

proof fn lemma_first_match_from_at(s: Seq<UserView>, email: Seq<char>, from: int, i: int)
    requires
        0 <= from <= i < s.len(),
        s[i].email == email,
        forall|j: int| from <= j < i ==> s[j].email != email,
    ensures
        first_match_from(s, email, from) == Some(i),
    decreases i - from,
{
    if from < i {
        lemma_first_match_from_at(s, email, from + 1, i);
    }
}

/// A matching record before which nothing matches is the first match.
pub proof fn lemma_first_match_at(s: Seq<UserView>, email: Seq<char>, i: int)
    requires
        0 <= i < s.len(),
        s[i].email == email,
        forall|j: int| 0 <= j < i ==> s[j].email != email,
    ensures
        first_match(s, email) == Some(i),
{
    lemma_first_match_from_at(s, email, 0, i);
}

/// The collection of user records together with the identifier counter.
pub struct UserStore {
    users: Vec<User>,
    next_id: u64,
}

impl UserStore {
    /// The records currently held, in insertion order.
    pub closed spec fn records(&self) -> Seq<UserView> {
        views_of(self.users@)
    }

    /// How many identifiers the store has assigned so far.
    pub closed spec fn issued(&self) -> u64 {
        self.next_id
    }

    /// An empty store that has assigned no identifier yet.
    pub fn new() -> (s: UserStore)
        ensures
            s.records() == Seq::<UserView>::empty(),
            s.issued() == 0,
    {
        let s = UserStore { users: Vec::new(), next_id: 0 };
        proof {
            assert(s.records() =~= Seq::<UserView>::empty());
        }
        s
    }

    /// Insert one record; the store assigns the identifier, ignoring any
    /// identifier the caller may hold, and returns the created record.
    pub fn insert_user(&mut self, name: String, email: String) -> (r: User)
        requires
            old(self).issued() < u64::MAX,
        ensures
            r@ == (UserView {
                id: Some(dec_str(old(self).issued() as nat)),
                name: name@,
                email: email@,
            }),
            r@.id matches Some(id) && id.len() >= 1,
            final(self).records() == old(self).records().push(r@),
            final(self).issued() == old(self).issued() + 1,
    {
        proof {
            lemma_dec_str_nonempty(self.next_id as nat);
        }
        let id = u64_to_dec_string(self.next_id);
        let u = User { id: Some(id), name, email };
        let r = u.clone();
        self.users.push(u);
        self.next_id = self.next_id + 1;
        proof {
            assert(self.records() =~= old(self).records().push(r@));
        }
        r
    }

    /// Every record, in insertion order.
    pub fn all_users(&self) -> (r: Vec<User>)
        ensures
            views_of(r@) == self.records(),
    {
        let mut out: Vec<User> = Vec::new();
        let mut i: usize = 0;
        while i < self.users.len()
            invariant
                i <= self.users.len(),
                out@.len() == i as int,
                forall|j: int| 0 <= j < i as int ==> out@[j]@ == self.users@[j]@,
            decreases self.users.len() - i,
        {
            out.push(self.users[i].clone());
            i = i + 1;
        }
        proof {
            assert(views_of(out@) =~= self.records());
        }
        out
    }

    fn index_of_email(users: &Vec<User>, email: &String) -> (r: Option<usize>)
        ensures
            match r {
                None => first_match(views_of(users@), email@) is None,
                Some(i) => i < users@.len() && first_match(views_of(users@), email@) == Some(
                    i as int,
                ),
            },
    {
        let mut i: usize = 0;
        while i < users.len()
            invariant
                i <= users.len(),
                forall|j: int| 0 <= j < i as int ==> views_of(users@)[j].email != email@,
            decreases users.len() - i,
        {
            if users[i].email == *email {
                proof {
                    lemma_first_match_at(views_of(users@), email@, i as int);
                }
                return Some(i);
            }
            i = i + 1;
        }
        proof {
            lemma_first_match_none(views_of(users@), email@);
        }
        None
    }

    /// The first record whose email matches, if any.
    pub fn find_user_by_email(&self, email: &String) -> (r: Option<User>)
        ensures
            match r {
                None => first_match(self.records(), email@) is None,
                Some(u) => first_match(self.records(), email@) matches Some(i) && u@
                    == self.records()[i],
            },
    {
        match Self::index_of_email(&self.users, email) {
            Some(i) => Some(self.users[i].clone()),
            None => None,
        }
    }

    /// Rename the first record whose email matches; reports whether a
    /// record matched. Identifier and email of the record are kept, and
    /// no other record changes.
    pub fn set_name_by_email(&mut self, email: &String, name: String) -> (r: bool)
        ensures
            final(self).issued() == old(self).issued(),
            match first_match(old(self).records(), email@) {
                None => r == false && final(self).records() == old(self).records(),
                Some(i) => r == true && final(self).records() == old(self).records().update(
                    i,
                    (UserView { name: name@, ..old(self).records()[i] }),
                ),
            },
    {
        match Self::index_of_email(&self.users, email) {
            Some(i) => {
                let id = self.users[i].id.clone();
                let kept_email = self.users[i].email.clone();
                self.users.set(i, User { id, name, email: kept_email });
                proof {
                    assert(self.records() =~= old(self).records().update(
                        i as int,
                        (UserView { name: name@, ..old(self).records()[i as int] }),
                    ));
                }
                true
            },
            None => false,
        }
    }

    /// Remove the first record whose email matches; reports whether a
    /// record matched. No other record changes.
    pub fn remove_by_email(&mut self, email: &String) -> (r: bool)
        ensures
            final(self).issued() == old(self).issued(),
            match first_match(old(self).records(), email@) {
                None => r == false && final(self).records() == old(self).records(),
                Some(i) => r == true && final(self).records() == old(self).records().remove(i),
            },
    {
        match Self::index_of_email(&self.users, email) {
            Some(i) => {
                self.users.remove(i);
                proof {
                    assert(self.records() =~= old(self).records().remove(
                        first_match(old(self).records(), email@)->Some_0,
                    ));
                }
                true
            },
            None => false,
        }
    }
}

} // verus!
