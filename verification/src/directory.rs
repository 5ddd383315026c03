//! Reading what the presence directory holds.
//!
//! The directory itself is a remote service. This module holds what the
//! client makes of a fetch: a failed fetch counts as an empty directory, and
//! the records are searched for the one that calls us, or for one by name.

use crate::error::DirectoryError;
use crate::user::{User, UserView};
use vstd::prelude::*;

verus! {

/// The records of a fetch as plain values, in the order fetched.
pub open spec fn records(users: Seq<User>) -> Seq<UserView> {
    Seq::new(users.len(), |i: int| users[i]@)
}

/// The record says that its owner is calling `name`. An empty field says
/// nothing, so it calls nobody.
pub open spec fn is_calling(record: UserView, name: Seq<char>) -> bool {
    record.sending_call.len() > 0 && record.sending_call == name
}

/// The place of the first record at or after `from` whose owner is calling
/// `name`.
pub open spec fn first_caller_from(all: Seq<UserView>, name: Seq<char>, from: int) -> Option<int>
    decreases all.len() - from,
{
    if from < 0 || from >= all.len() {
        None
    } else if is_calling(all[from], name) {
        Some(from)
    } else {
        first_caller_from(all, name, from + 1)
    }
}

/// The place of the first record whose owner is calling `name`.
pub open spec fn first_caller(all: Seq<UserView>, name: Seq<char>) -> Option<int> {
    first_caller_from(all, name, 0)
}

/// The place of the first record at or after `from` that belongs to `name`.
pub open spec fn first_named_from(all: Seq<UserView>, name: Seq<char>, from: int) -> Option<int>
    decreases all.len() - from,
{
    if from < 0 || from >= all.len() {
        None
    } else if all[from].name == name {
        Some(from)
    } else {
        first_named_from(all, name, from + 1)
    }
}

/// The place of the first record that belongs to `name`.
pub open spec fn first_named(all: Seq<UserView>, name: Seq<char>) -> Option<int> {
    first_named_from(all, name, 0)
}

/// What `first_caller_from` finds is a caller, nothing before it is, and it
/// finds nothing only where there is no caller.
pub proof fn lemma_first_caller(all: Seq<UserView>, name: Seq<char>, from: int)
    requires
        0 <= from,
    ensures
        match first_caller_from(all, name, from) {
            Some(i) => from <= i < all.len() && is_calling(all[i], name) && forall|j: int|
                from <= j < i ==> !is_calling(#[trigger] all[j], name),
            None => forall|j: int| from <= j < all.len() ==> !is_calling(#[trigger] all[j], name),
        },
    decreases all.len() - from,
{
    if from < all.len() && !is_calling(all[from], name) {
        lemma_first_caller(all, name, from + 1);
    }
}

/// What `first_named_from` finds bears the name, nothing before it does,
/// and it finds nothing only where no record bears the name.
pub proof fn lemma_first_named(all: Seq<UserView>, name: Seq<char>, from: int)
    requires
        0 <= from,
    ensures
        match first_named_from(all, name, from) {
            Some(i) => from <= i < all.len() && all[i].name == name && forall|j: int|
                from <= j < i ==> (#[trigger] all[j]).name != name,
            None => forall|j: int| from <= j < all.len() ==> (#[trigger] all[j]).name != name,
        },
    decreases all.len() - from,
{
    if from < all.len() && all[from].name != name {
        lemma_first_named(all, name, from + 1);
    }
}

/// The outcome of a fetch as the client sees it: the records where the
/// fetch succeeded, no records where it failed.
pub fn users_or_empty(fetched: Result<Vec<User>, DirectoryError>) -> (users: Vec<User>)
    ensures
        match fetched {
            Ok(all) => users == all,
            Err(_) => users@.len() == 0,
        },
{
    match fetched {
        Ok(all) => all,
        Err(_) => Vec::new(),
    }
}

/// The names in a fetch, in the order fetched.
pub fn usernames(users: &Vec<User>) -> (names: Vec<String>)
    ensures
        names@.len() == users@.len(),
        forall|i: int| 0 <= i < users@.len() ==> names@[i]@ == users@[i].name@,
{
    let mut names: Vec<String> = Vec::new();
    let mut i: usize = 0;
    while i < users.len()
        invariant
            i <= users.len(),
            names@.len() == i,
            forall|k: int| 0 <= k < i ==> names@[k]@ == users@[k].name@,
        decreases users.len() - i,
    {
        names.push(users[i].name.clone());
        i += 1;
    }
    names
}

/// Finds the first record whose owner is calling `name`.
pub fn find_caller(users: &Vec<User>, name: &String) -> (found: Option<usize>)
    ensures
        match found {
            Some(i) => i < users@.len() && first_caller(records(users@), name@) == Some(i as int),
            None => first_caller(records(users@), name@) is None,
        },
{
    let mut i: usize = 0;
    while i < users.len()
        invariant
            i <= users.len(),
            first_caller(records(users@), name@) == first_caller_from(
                records(users@),
                name@,
                i as int,
            ),
        decreases users.len() - i,
    {
        if !users[i].sending_call.as_str().is_empty() && users[i].sending_call == *name {
            return Some(i);
        }
        i += 1;
    }
    None
}

/// Finds the first record that belongs to `name`.
pub fn find_user(users: &Vec<User>, name: &String) -> (found: Option<usize>)
    ensures
        match found {
            Some(i) => i < users@.len() && first_named(records(users@), name@) == Some(i as int),
            None => first_named(records(users@), name@) is None,
        },
{
    let mut i: usize = 0;
    while i < users.len()
        invariant
            i <= users.len(),
            first_named(records(users@), name@) == first_named_from(
                records(users@),
                name@,
                i as int,
            ),
        decreases users.len() - i,
    {
        if users[i].name == *name {
            return Some(i);
        }
        i += 1;
    }
    None
}

} // verus!
