//! The HTTP method of a request, as far as the service tells methods apart.

use vstd::prelude::*;
use crate::text::text_eq;

verus! {

/// The value of the `Allow` header of a rejection: the methods that are let through.
pub const ALLOWED_METHODS: &'static str = "GET, HEAD, POST, PUT, DELETE";

/// A request method. The five that the service lets through are told apart;
/// every other token is `Other`.
#[derive(Clone, Copy, Debug, PartialEq, Eq, Structural)]
pub enum Method {
    Get,
    Head,
    Post,
    Put,
    Delete,
    Other,
}

impl Method {
    /// The method that a request-line token names. Tokens are case-sensitive.
    pub open spec fn of(token: Seq<char>) -> Method {
        if token == "GET"@ {
            Method::Get
        } else if token == "HEAD"@ {
            Method::Head
        } else if token == "POST"@ {
            Method::Post
        } else if token == "PUT"@ {
            Method::Put
        } else if token == "DELETE"@ {
            Method::Delete
        } else {
            Method::Other
        }
    }

    /// Whether the method is let through.
    pub open spec fn allowed(self) -> bool {
        self != Method::Other
    }

    /// Reads a method from its request-line token.
    pub fn from_token(token: &str) -> (method: Method)
        ensures
            method == Method::of(token@),
    {
        if text_eq(token, "GET") {
            Method::Get
        } else if text_eq(token, "HEAD") {
            Method::Head
        } else if text_eq(token, "POST") {
            Method::Post
        } else if text_eq(token, "PUT") {
            Method::Put
        } else if text_eq(token, "DELETE") {
            Method::Delete
        } else {
            Method::Other
        }
    }

    /// Whether the method is let through: `true` for exactly GET, HEAD,
    /// POST, PUT and DELETE.
    pub fn is_allowed(&self) -> (yes: bool)
        ensures
            yes == self.allowed(),
    {
        match self {
            Method::Other => false,
            _ => true,
        }
    }
}

/// Each of the five tokens names its own method.
pub proof fn lemma_method_tokens()
    ensures
        Method::of("GET"@) == Method::Get,
        Method::of("HEAD"@) == Method::Head,
        Method::of("POST"@) == Method::Post,
        Method::of("PUT"@) == Method::Put,
        Method::of("DELETE"@) == Method::Delete,
{
    reveal_strlit("GET");
    reveal_strlit("HEAD");
    reveal_strlit("POST");
    reveal_strlit("PUT");
    reveal_strlit("DELETE");
    assert("HEAD"@.len() != "GET"@.len());
    assert("POST"@.len() != "GET"@.len());
    assert("POST"@[0] != "HEAD"@[0]);
    assert("PUT"@[0] != "GET"@[0]);
    assert("PUT"@.len() != "HEAD"@.len());
    assert("PUT"@.len() != "POST"@.len());
    assert("DELETE"@.len() != "GET"@.len());
    assert("DELETE"@.len() != "HEAD"@.len());
    assert("DELETE"@.len() != "POST"@.len());
    assert("DELETE"@.len() != "PUT"@.len());
}

} // verus!
