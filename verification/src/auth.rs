//! The authorization boundary: a verified principal and granted capabilities.
//!
//! The identity provider's cookie/JWT handling is an external collaborator;
//! the library only consumes the context it yields and performs the single
//! capability check every gated endpoint needs.

use vstd::prelude::*;

use crate::error::Error;
use crate::util::str_eq;

verus! {

/// What the external auth layer yields for an authenticated request: the
/// verified principal name and the set of capabilities granted to it.
#[derive(Debug, Clone)]
pub struct AuthContext {
    pub principal: String,
    pub capabilities: Vec<String>,
}

/// Whether the capability set grants `cap`.
pub open spec fn has_cap_spec(caps: Seq<String>, cap: Seq<char>) -> bool {
    exists|i: int| 0 <= i < caps.len() && caps[i]@ == cap
}

/// Whether the context grants the capability `cap`.
pub fn has_capability(ctx: &AuthContext, cap: &str) -> (r: bool)
    ensures
        r == has_cap_spec(ctx.capabilities@, cap@),
{
    let mut i: usize = 0;
    while i < ctx.capabilities.len()
        invariant
            i <= ctx.capabilities@.len(),
            forall|j: int| 0 <= j < i ==> (#[trigger] ctx.capabilities@[j])@ != cap@,
        decreases ctx.capabilities@.len() - i,
    {
        if str_eq(ctx.capabilities[i].as_str(), cap) {
            return true;
        }
        i = i + 1;
    }
    false
}

/// Grants the request if the context carries every required capability;
/// fails with `Forbidden` otherwise.
pub fn authorize(ctx: &AuthContext, required: &Vec<&str>) -> (r: Result<(), Error>)
    ensures
        match r {
            Ok(()) => forall|i: int|
                0 <= i < required@.len() ==> has_cap_spec(
                    ctx.capabilities@,
                    (#[trigger] required@[i])@,
                ),
            Err(e) => e == Error::Forbidden && exists|i: int|
                0 <= i < required@.len() && !has_cap_spec(
                    ctx.capabilities@,
                    (#[trigger] required@[i])@,
                ),
        },
{
    let mut i: usize = 0;
    while i < required.len()
        invariant
            i <= required@.len(),
            forall|j: int|
                0 <= j < i ==> has_cap_spec(ctx.capabilities@, (#[trigger] required@[j])@),
        decreases required@.len() - i,
    {
        if !has_capability(ctx, required[i]) {
            return Err(Error::Forbidden);
        }
        i = i + 1;
    }
    Ok(())
}

} // verus!
