//! Trusted surface of the external token-verification and authorization
//! engine.
//!
//! The engine's types are opaque to the verifier: a token, a verification
//! key, an authorizer and the engine's error carry no visible structure
//! here.  Each item below names the engine function it relies on; every
//! proof in this crate that involves the engine rests on these contracts.

use vstd::prelude::*;

verus! {

use crate::RootKeys;
use biscuit_auth::error::Token;
use biscuit_auth::{Authorizer, Biscuit, PublicKey};

#[verifier::external_type_specification]
#[verifier::external_body]
pub struct ExPublicKey(PublicKey);

#[verifier::external_type_specification]
#[verifier::external_body]
pub struct ExBiscuit(Biscuit);

#[verifier::external_type_specification]
#[verifier::external_body]
pub struct ExToken(Token);

#[verifier::external_type_specification]
#[verifier::external_body]
pub struct ExAuthorizer<'a>(Authorizer<'a>);

/// Relies on the derived `Clone` of `biscuit_auth::PublicKey`, a `Copy`
/// type: the clone is the same key.
pub assume_specification[ <PublicKey as Clone>::clone ](k: &PublicKey) -> (r: PublicKey)
    ensures
        r == *k,
;

/// Relies on the derived `Clone` of `biscuit_auth::Authorizer`: it
/// duplicates the engine into an independent copy sharing no evaluation
/// state.  Nothing is assumed of the copy.
pub assume_specification<'t>[ <Authorizer<'t> as Clone>::clone ](a: &Authorizer<'t>) -> (r:
    Authorizer<'t>);

/// What the engine's verification returns for the given token bytes
/// under the given root key set: deserialization plus signature
/// verification is a function of the bytes and the key material alone,
/// so the outcome carries a name; what it is on given values only the
/// engine decides.
pub uninterp spec fn spec_verified(token: Seq<u8>, keys: RootKeys) -> Result<Biscuit, Token>;

/// Relies on `biscuit_auth::Biscuit::from`: it deserializes a token and
/// verifies its outermost signature against the key that the root key
/// set resolves for the token's embedded key identifier.  No clock or
/// randomness is on this path, hence the named result.
#[verifier::external_body]
pub(crate) fn verify_token(token: &[u8], keys: &RootKeys) -> (r: Result<Biscuit, Token>)
    ensures
        r == spec_verified(token@, *keys),
{
    Biscuit::from(token, |id| keys.resolve(id))
}

/// Relies on `biscuit_auth::Authorizer::add_token`: it merges the verified
/// token's facts and rules into the engine, and fails if the engine
/// already holds a token.
pub assume_specification<'t>[ Authorizer::<'t>::add_token ](a: &mut Authorizer<'t>, token: &'t Biscuit) -> (r: Result<(), Token>);

/// Relies on `biscuit_auth::Authorizer::authorize`: it evaluates the
/// combined fact set against the engine's checks and policies; `Ok` is the
/// index of the policy that matched, `Err` carries the engine's failure
/// detail.  The decision is the engine's; nothing is assumed of it.
pub assume_specification<'t>[ Authorizer::<'t>::authorize ](a: &mut Authorizer<'t>) -> (r: Result<
    usize,
    Token,
>);

/// Relies on `biscuit_auth::Biscuit::revocation_identifiers`: one opaque
/// identifier per signed block, in block order.
pub assume_specification[ Biscuit::revocation_identifiers ](b: &Biscuit) -> (r: Vec<Vec<u8>>);

/// The diagnostic text of an engine failure: the rendering is a function
/// of the error value alone, so it carries a name; what it reads on a
/// given error only the engine decides.
pub uninterp spec fn spec_token_text(t: Token) -> Seq<char>;

/// Relies on the `Display` implementation of `biscuit_auth::error::Token`
/// for the diagnostic text of an engine failure.
#[verifier::external_body]
pub(crate) fn token_message(t: &Token) -> (r: String)
    ensures
        r@ == spec_token_text(*t),
{
    format!("{t}")
}

} // verus!
