//! A minimal host-side implementation of the kind the generated bindings
//! delegate to: a request context, a user record, and a query type whose
//! `me` field yields the user. The tests generate bindings for a schema
//! with exactly this shape.

use vstd::prelude::*;

verus! {

/// The request-scoped context value threaded through delegating methods.
pub struct Context;

/// The host type standing for the schema's `User` object type.
pub struct User;

/// The host type standing for the schema's `Query` object type.
pub struct Query;

impl Query {
    /// The resolver the generated `me` delegate forwards to: always
    /// yields a user.
    pub fn me(&self, _ctx: &Context) -> (r: Option<User>)
        ensures
            r is Some,
    {
        Some(User)
    }
}

} // verus!
