//! The user directory and the first-login provisioning hook.
//!
//! Users are never created by a client request: the external auth
//! collaborator calls [`create_user_if_missing`] with the verified username
//! after a successful first login. The check-then-insert runs against a
//! `&mut Store`, so no second provisioning call can interleave with it.

use vstd::prelude::*;

use crate::account::{default_color_theme, default_theme_spec};
use crate::error::Error;
use crate::store::{unix_now, Store};

verus! {

/// A public user-directory entry.
#[derive(Debug, Clone, PartialEq, Eq)]
pub struct User {
    pub username: String,

    /// Unix timestamp of when this user was first provisioned.
    pub created_at: u64,
}

/// The effect of provisioning `name` at time `now`: an existing row is kept
/// as it is, otherwise a fresh row with the default theme is added.
pub open spec fn provision_spec(
    m: Map<Seq<char>, (u64, Seq<char>)>,
    name: Seq<char>,
    now: u64,
) -> Map<Seq<char>, (u64, Seq<char>)> {
    if m.contains_key(name) {
        m
    } else {
        m.insert(name, (now, default_theme_spec()))
    }
}

/// Whether a user row for `username` exists.
pub fn user_exists(store: &Store, username: &str) -> (r: Result<bool, Error>)
    requires
        store.wf(),
    ensures
        match r {
            Ok(b) => b == store.users().contains_key(username@),
            Err(e) => e == Error::InternalError,
        },
{
    match store.q_user(username) {
        Ok(opt) => Ok(opt.is_some()),
        Err(e) => Err(e),
    }
}

/// Fetches the directory entry for `username`.
pub fn get_user_by_username(store: &Store, username: &str) -> (r: Result<User, Error>)
    requires
        store.wf(),
    ensures
        match r {
            Ok(u) => store.users().contains_key(username@) && u.username@ == username@
                && u.created_at == store.users()[username@].0,
            Err(e) => match e {
                Error::NotFound => !store.users().contains_key(username@),
                Error::InternalError => true,
                _ => false,
            },
        },
{
    match store.q_user(username) {
        Ok(opt) => match opt {
            Option::Some(t) => Ok(User { username: username.to_owned(), created_at: t.0 }),
            Option::None => Err(Error::NotFound),
        },
        Err(e) => Err(e),
    }
}

/// Fetches every directory entry, in store order.
pub fn get_all(store: &Store) -> (r: Result<Vec<User>, Error>)
    requires
        store.wf(),
    ensures
        match r {
            Ok(v) => {
                &&& v@.len() == store.users().len()
                &&& forall|i: int|
                    0 <= i < v@.len() ==> store.users().contains_key((#[trigger] v@[i]).username@)
                        && store.users()[v@[i].username@].0 == v@[i].created_at
                &&& forall|i: int, j: int|
                    0 <= i < j < v@.len() ==> (#[trigger] v@[i]).username@ != (
                    #[trigger] v@[j]).username@
                &&& forall|k: Seq<char>|
                    #[trigger] store.users().contains_key(k) ==> exists|i: int|
                        0 <= i < v@.len() && (#[trigger] v@[i]).username@ == k
            },
            Err(e) => e == Error::InternalError,
        },
{
    let rows = match store.q_all_users() {
        Ok(rows) => rows,
        Err(e) => {
            return Err(e);
        },
    };
    let mut out: Vec<User> = Vec::new();
    let mut idx: usize = 0;
    while idx < rows.len()
        invariant
            idx <= rows@.len(),
            out@.len() == idx,
            forall|j: int|
                0 <= j < idx ==> (#[trigger] out@[j]).username@ == rows@[j].0@ && out@[j].created_at
                    == rows@[j].1,
        decreases rows@.len() - idx,
    {
        let row = &rows[idx];
        out.push(User { username: row.0.clone(), created_at: row.1 });
        idx = idx + 1;
    }
    proof {
        assert forall|k: Seq<char>| #[trigger] store.users().contains_key(k) implies exists|i: int|
            0 <= i < out@.len() && (#[trigger] out@[i]).username@ == k by {
            let i = choose|i: int| 0 <= i < rows@.len() && (#[trigger] rows@[i]).0@ == k;
            assert(out@[i].username@ == k);
        }
    }
    Ok(out)
}

/// Creates the user row for `name` with creation time `now` if it is absent;
/// an existing row is left exactly as it is.
pub fn create_user_if_missing_at(store: &mut Store, name: &str, now: u64) -> (r: Result<
    (),
    Error,
>)
    requires
        old(store).wf(),
    ensures
        final(store).wf(),
        final(store).aliases() == old(store).aliases(),
        final(store).types() == old(store).types(),
        match r {
            Ok(()) => final(store).users() == provision_spec(old(store).users(), name@, now),
            Err(e) => e == Error::InternalError && final(store).users() == old(store).users(),
        },
{
    let present = match store.q_user(name) {
        Ok(opt) => opt.is_some(),
        Err(e) => {
            return Err(e);
        },
    };
    if present {
        return Ok(());
    }
    store.x_insert_user(name, now, default_color_theme())
}

/// The provisioning hook the external auth collaborator invokes after a
/// successful first login. Idempotent: a second call for the same username
/// leaves the store unchanged, whatever time the clock reads.
pub fn create_user_if_missing(store: &mut Store, name: &str) -> (r: Result<(), Error>)
    requires
        old(store).wf(),
    ensures
        final(store).wf(),
        final(store).aliases() == old(store).aliases(),
        final(store).types() == old(store).types(),
        match r {
            Ok(()) => {
                &&& final(store).users().contains_key(name@)
                &&& old(store).users().contains_key(name@) ==> final(store).users() == old(
                    store,
                ).users()
                &&& exists|t: u64|
                    final(store).users() == #[trigger] provision_spec(
                        old(store).users(),
                        name@,
                        t,
                    )
            },
            Err(e) => e == Error::InternalError && final(store).users() == old(store).users(),
        },
{
    let now = unix_now();
    create_user_if_missing_at(store, name, now)
}

} // verus!
