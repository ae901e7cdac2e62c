//! Token and context extraction for HTTP requests.
//!
//! [`ExtensionBiscuit`] is a concrete extractor for `http::Request` values:
//! the caller-supplied context hook is expected to locate and parse the
//! bearer token, cache it in the request's extensions, and append any
//! request-derived facts; [`ExtensionBiscuit::auth_token`] then hands back
//! the cached token, or a missing-token error if none was cached.

use vstd::prelude::*;

verus! {

use crate::{AuthConfig, AuthExtract, BiscuitAuthError};
use biscuit_auth::{Authorizer, Biscuit};
use std::marker::PhantomData;

#[verifier::external_type_specification]
#[verifier::external_body]
#[verifier::reject_recursive_types(T)]
pub struct ExRequest<T>(http::Request<T>);

#[verifier::external_type_specification]
#[verifier::external_body]
pub struct ExExtensions(http::Extensions);

/// Relies on the `Clone` of `std::marker::PhantomData`, a unit type: the
/// clone is the same value.
pub assume_specification<T: std::marker::PointeeSized>[ <std::marker::PhantomData<T> as Clone>::clone ](
    p: &std::marker::PhantomData<T>,
) -> (r: std::marker::PhantomData<T>)
    ensures
        r == *p,
;

/// Relies on `http::Request::extensions`: the request-scoped typed
/// storage of this request.
#[verifier::external_body]
fn request_extensions<T>(req: &http::Request<T>) -> &http::Extensions {
    req.extensions()
}

/// Relies on `http::Extensions::get`: the token a context hook cached in
/// this request's extensions, if one is there.
#[verifier::external_body]
fn cached_biscuit(extensions: &http::Extensions) -> Option<Biscuit> {
    extensions.get::<Biscuit>().cloned()
}

/// Relies on the caller-supplied context callback; nothing is assumed of
/// what it does to the request's extensions or to the authorizer.
#[verifier::external_body]
fn apply_context_hook<T, F: Fn(&http::Request<T>, &AuthConfig, &mut Authorizer<'_>) -> Result<
    (),
    BiscuitAuthError,
>>(
    hook: &F,
    req: &http::Request<T>,
    config: &AuthConfig,
    authorizer: &mut Authorizer<'_>,
) -> Result<(), BiscuitAuthError> {
    hook(req, config, authorizer)
}

/// An extractor for HTTP requests built around a context hook.
///
/// The hook should do two things:
///  1. Add the biscuit to the request's extensions if it is not already
///     there.
///  2. Add any required facts or checks to the authorizer.
///
/// This extractor performs no sanitization: a hook that splices
/// request-derived text into generated policy source must allow-list it
/// first (see [`fact_value_is_safe`]) or use the engine's parameterized
/// facts.
#[derive(Clone)]
pub struct ExtensionBiscuit<T, F> {
    context: F,
    phantom: PhantomData<T>,
}

impl<T, F> ExtensionBiscuit<T, F> where
    F: Fn(&http::Request<T>, &AuthConfig, &mut Authorizer<'_>) -> Result<(), BiscuitAuthError>,
 {
    /// The hook this extractor runs as its context-extraction stage.
    pub closed spec fn spec_context(self) -> F {
        self.context
    }

    pub fn new(context: F) -> (r: Self)
        ensures
            r.spec_context() == context,
    {
        Self { context, phantom: PhantomData }
    }
}

impl<T, F> AuthExtract<http::Request<T>> for ExtensionBiscuit<T, F> where
    F: Fn(&http::Request<T>, &AuthConfig, &mut Authorizer<'_>) -> Result<(), BiscuitAuthError>,
 {
    /// The token a prior run of the context hook cached in the request's
    /// extensions; this extractor does not itself parse headers.  An
    /// uncached token is exactly the missing-token outcome.
    fn auth_token(&self, req: &http::Request<T>, _config: &AuthConfig) -> (r: Result<
        Biscuit,
        BiscuitAuthError,
    >)
        ensures
            r matches Err(e) ==> e is MissingBiscuit,
    {
        match cached_biscuit(request_extensions(req)) {
            Some(biscuit) => Ok(biscuit),
            None => Err(BiscuitAuthError::MissingBiscuit),
        }
    }

    /// Delegates to the supplied context hook.
    fn extract_context(
        &self,
        req: &http::Request<T>,
        config: &AuthConfig,
        authorizer: &mut Authorizer<'_>,
    ) -> Result<(), BiscuitAuthError> {
        apply_context_hook(&self.context, req, config, authorizer)
    }
}

/// A character that may be spliced verbatim into a quoted string of
/// generated policy source: letters, digits, `_` and `-`.
pub open spec fn spec_safe_fact_char(c: char) -> bool {
    ('a' <= c && c <= 'z') || ('A' <= c && c <= 'Z') || ('0' <= c && c <= '9') || c == '_' || c
        == '-'
}

/// Every character of the string is safe to splice.
pub open spec fn spec_safe_fact_value(s: Seq<char>) -> bool {
    forall|i: int| 0 <= i < s.len() ==> spec_safe_fact_char(s[i])
}

/// The allow-list gate for request-derived values: true iff every
/// character is a letter, a digit, `_` or `-`, so the value cannot break
/// out of a quoted string in generated policy source.  A context hook
/// must pass any request-derived text through this gate (or use the
/// engine's parameterized facts) before embedding it.
pub fn fact_value_is_safe(s: &str) -> (r: bool)
    ensures
        r == spec_safe_fact_value(s@),
{
    let len = s.unicode_len();
    let mut i: usize = 0;
    while i < len
        invariant
            len == s@.len(),
            0 <= i <= len,
            forall|j: int| 0 <= j < i ==> spec_safe_fact_char(s@[j]),
        decreases len - i,
    {
        let c = s.get_char(i);
        let safe = ('a' <= c && c <= 'z') || ('A' <= c && c <= 'Z') || ('0' <= c && c <= '9') || c
            == '_' || c == '-';
        if !safe {
            return false;
        }
        i += 1;
    }
    true
}

} // verus!
