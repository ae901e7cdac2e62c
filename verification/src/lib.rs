//! Biscuit-based authorization middleware with verified decision logic.
//!
//! A bearer capability token ("biscuit") is verified and evaluated against
//! a locally configured policy by an external engine; this crate wires the
//! engine into a request-filtering pipeline.  It manages root-key material,
//! hot-reloadable configuration, multi-tenant registries with revocation
//! tracking, and controls how much diagnostic detail an authorization
//! failure discloses to the caller.

use vstd::prelude::*;

mod auth_handles;
mod engine;
pub mod http;

pub use auth_handles::{
    lemma_expired_entries_do_not_veto, lemma_revocation_vetoes, lemma_sweep_clean_is_noop,
    lemma_sweep_idempotent, lemma_sweep_is_expiry_filter, spec_active, spec_ids, spec_live,
    spec_no_revocations, spec_not_revoked, spec_swept, AuthHandles,
};
pub use engine::{spec_token_text, spec_verified};

verus! {

broadcast use
    vstd::laws_cmp::group_laws_cmp,
    vstd::std_specs::btree::group_btree_axioms,
;

use biscuit_auth::error::Token;
use biscuit_auth::{Authorizer, Biscuit, PublicKey};
use std::collections::BTreeMap;

/// How much detail an authorization failure discloses to the caller.
///
/// *Secure* failures carry no underlying detail; *verbose* failures carry
/// the engine's verification or policy diagnostics.  Attached per
/// configuration; effective from the next load.
#[derive(Clone, Copy, Debug)]
pub enum ErrorMode {
    Secure,
    Verbose,
}

/// The outcome of a failed authorization check.
#[derive(Debug)]
pub enum BiscuitAuthError {
    /// The disclosure-gated umbrella shown in secure mode in place of
    /// verification or policy detail.
    Unknown,
    /// The extractor located no token at all.  Surfaced distinctly
    /// regardless of the disclosure mode.
    MissingBiscuit,
    /// The extractor found something token-shaped but failed to process
    /// it; carries a rendering of the cause.
    Other(String),
    /// Signature, format or policy evaluation failed; carries the
    /// engine's detail.
    Failure(Token),
}

/// What [`BiscuitAuthError::gated`] returns: in verbose mode the error
/// passes unchanged; in secure mode engine detail is replaced by the
/// opaque outcome, while a missing token and extractor failures pass
/// through.
pub open spec fn spec_gated(mode: ErrorMode, e: BiscuitAuthError) -> BiscuitAuthError {
    match mode {
        ErrorMode::Verbose => e,
        ErrorMode::Secure => match e {
            BiscuitAuthError::Failure(_) => BiscuitAuthError::Unknown,
            _ => e,
        },
    }
}

/// The engine detail carried by an error, if any.
pub open spec fn spec_auth_error(e: BiscuitAuthError) -> Option<Token> {
    match e {
        BiscuitAuthError::Failure(t) => Some(t),
        _ => None,
    }
}

impl BiscuitAuthError {
    /// The engine's failure detail, present exactly when this error is a
    /// verification or policy failure.
    pub fn auth_error(&self) -> (r: Option<&Token>)
        ensures
            r matches Some(t) ==> spec_auth_error(*self) == Some(*t),
            r is None ==> spec_auth_error(*self) is None,
    {
        match self {
            Self::Failure(token) => Some(token),
            _ => None,
        }
    }

    /// Applies the disclosure mode at the single choke point of the check
    /// pipeline, so no call site can leak engine diagnostics in secure
    /// mode.
    pub fn gated(self, mode: ErrorMode) -> (r: Self)
        ensures
            r == spec_gated(mode, self),
    {
        match mode {
            ErrorMode::Verbose => self,
            ErrorMode::Secure => match self {
                BiscuitAuthError::Failure(_) => BiscuitAuthError::Unknown,
                other => other,
            },
        }
    }

    /// A textual rendering of the error, suitable as a rejection body:
    /// the exact text for each variant, with an engine failure carrying
    /// the engine's own rendering, [`spec_token_text`], after the fixed
    /// prefix.
    pub fn message(&self) -> (r: String)
        ensures
            self is Unknown ==> r@ == "unauthorized"@,
            self is MissingBiscuit ==> r@ == "missing biscuit"@,
            self matches BiscuitAuthError::Other(s) ==> r@ == "other error: "@ + s@,
            self matches BiscuitAuthError::Failure(t) ==> r@ == "verification failure: "@
                + spec_token_text(*t),
    {
        match self {
            Self::Unknown => String::from_str("unauthorized"),
            Self::MissingBiscuit => String::from_str("missing biscuit"),
            Self::Other(s) => String::from_str("other error: ").concat(s.as_str()),
            Self::Failure(t) => String::from_str("verification failure: ").concat(
                engine::token_message(t).as_str(),
            ),
        }
    }
}

impl From<Token> for BiscuitAuthError {
    /// An engine failure classifies as [`BiscuitAuthError::Failure`].
    fn from(err: Token) -> (r: Self) {
        Self::Failure(err)
    }
}

impl vstd::std_specs::convert::FromSpecImpl<Token> for BiscuitAuthError {
    open spec fn obeys_from_spec() -> bool {
        true
    }

    open spec fn from_spec(v: Token) -> Self {
        BiscuitAuthError::Failure(v)
    }
}

/// Verbose mode discloses every failure unchanged: a denial carries the
/// underlying detail exactly as produced.
pub proof fn lemma_verbose_mode_discloses_detail(e: BiscuitAuthError)
    ensures
        spec_gated(ErrorMode::Verbose, e) == e,
{
}

/// Secure mode never discloses engine detail: whatever failed, the gated
/// error's detail accessor comes back absent.
pub proof fn lemma_secure_mode_hides_detail(e: BiscuitAuthError)
    ensures
        spec_auth_error(spec_gated(ErrorMode::Secure, e)) is None,
{
}

/// In secure mode a verification or policy failure is replaced by the
/// opaque outcome.
pub proof fn lemma_secure_mode_opaque(t: Token)
    ensures
        spec_gated(ErrorMode::Secure, BiscuitAuthError::Failure(t)) == BiscuitAuthError::Unknown,
{
}

/// A missing token is reported as such under both disclosure modes, never
/// downgraded to the opaque outcome.
pub proof fn lemma_missing_token_never_downgraded(mode: ErrorMode)
    ensures
        spec_gated(mode, BiscuitAuthError::MissingBiscuit) == BiscuitAuthError::MissingBiscuit,
{
}

/// The decimal digit character for a value below ten.
pub open spec fn spec_digit_char(d: nat) -> char {
    if d == 0 {
        '0'
    } else if d == 1 {
        '1'
    } else if d == 2 {
        '2'
    } else if d == 3 {
        '3'
    } else if d == 4 {
        '4'
    } else if d == 5 {
        '5'
    } else if d == 6 {
        '6'
    } else if d == 7 {
        '7'
    } else if d == 8 {
        '8'
    } else {
        '9'
    }
}

/// The decimal rendering of a natural number, most significant digit
/// first, without leading zeros (zero itself renders as one digit).
pub open spec fn spec_decimal(n: nat) -> Seq<char>
    decreases n,
{
    if n < 10 {
        seq![spec_digit_char(n)]
    } else {
        spec_decimal(n / 10).push(spec_digit_char(n % 10))
    }
}

fn digit_str(d: u64) -> (r: &'static str)
    requires
        d < 10,
    ensures
        r@ == seq![spec_digit_char(d as nat)],
{
    if d == 0 {
        proof {
            reveal_strlit("0");
            assert("0"@ =~= seq![spec_digit_char(0 as nat)]);
        }
        "0"
    } else if d == 1 {
        proof {
            reveal_strlit("1");
            assert("1"@ =~= seq![spec_digit_char(1 as nat)]);
        }
        "1"
    } else if d == 2 {
        proof {
            reveal_strlit("2");
            assert("2"@ =~= seq![spec_digit_char(2 as nat)]);
        }
        "2"
    } else if d == 3 {
        proof {
            reveal_strlit("3");
            assert("3"@ =~= seq![spec_digit_char(3 as nat)]);
        }
        "3"
    } else if d == 4 {
        proof {
            reveal_strlit("4");
            assert("4"@ =~= seq![spec_digit_char(4 as nat)]);
        }
        "4"
    } else if d == 5 {
        proof {
            reveal_strlit("5");
            assert("5"@ =~= seq![spec_digit_char(5 as nat)]);
        }
        "5"
    } else if d == 6 {
        proof {
            reveal_strlit("6");
            assert("6"@ =~= seq![spec_digit_char(6 as nat)]);
        }
        "6"
    } else if d == 7 {
        proof {
            reveal_strlit("7");
            assert("7"@ =~= seq![spec_digit_char(7 as nat)]);
        }
        "7"
    } else if d == 8 {
        proof {
            reveal_strlit("8");
            assert("8"@ =~= seq![spec_digit_char(8 as nat)]);
        }
        "8"
    } else {
        proof {
            reveal_strlit("9");
            assert("9"@ =~= seq![spec_digit_char(9 as nat)]);
        }
        "9"
    }
}

fn decimal_string(n: u64) -> (r: String)
    ensures
        r@ == spec_decimal(n as nat),
    decreases n,
{
    if n < 10 {
        String::from_str(digit_str(n))
    } else {
        let rest = decimal_string(n / 10);
        let r = rest.concat(digit_str(n % 10));
        proof {
            assert(r@ =~= spec_decimal(n as nat));
        }
        r
    }
}

/// Root key material: a base verification key plus a mapping from integer
/// key identifier to verification key.
///
/// Lookup by an absent or unknown identifier always resolves to the base
/// key, so single-key deployments stay trivial while rotation via an
/// embedded key id remains possible.
#[derive(Clone, Debug)]
pub struct RootKeys {
    base: PublicKey,
    by_id: BTreeMap<u32, PublicKey>,
}

/// The key that a root key set resolves for a token's embedded key
/// identifier: the mapped key for a known identifier, the base key
/// otherwise.
pub open spec fn spec_resolve(keys: RootKeys, id: Option<u32>) -> PublicKey {
    match id {
        None => keys.spec_base(),
        Some(i) => if keys.spec_by_id().contains_key(i) {
            keys.spec_by_id()[i]
        } else {
            keys.spec_base()
        },
    }
}

impl RootKeys {
    /// The base verification key.
    pub closed spec fn spec_base(self) -> PublicKey {
        self.base
    }

    /// The identified keys, as a map from key identifier to key.
    pub closed spec fn spec_by_id(self) -> Map<u32, PublicKey> {
        self.by_id@
    }

    /// A key set holding only the base key: every lookup resolves to it.
    pub fn new(base: PublicKey) -> (r: Self)
        ensures
            r.spec_base() == base,
            r.spec_by_id() == Map::<u32, PublicKey>::empty(),
    {
        Self { base, by_id: BTreeMap::new() }
    }

    /// Registers `key` under `id`; a later lookup with this identifier
    /// resolves to `key` instead of the base key.
    pub fn add_key(&mut self, id: u32, key: PublicKey)
        ensures
            final(self).spec_base() == old(self).spec_base(),
            final(self).spec_by_id() == old(self).spec_by_id().insert(id, key),
    {
        self.by_id.insert(id, key);
    }

    /// How many identified keys are registered beside the base key.
    pub fn key_count(&self) -> (r: usize)
        ensures
            r == self.spec_by_id().len(),
    {
        self.by_id.len()
    }

    /// Resolves the verification key for an embedded key identifier: the
    /// mapped key for a known identifier, the base key for an absent or
    /// unknown one.  Never fails.
    pub fn resolve(&self, id: Option<u32>) -> (r: PublicKey)
        ensures
            r == spec_resolve(*self, id),
    {
        match id {
            None => self.base,
            Some(id) => match self.by_id.get(&id) {
                Some(key) => *key,
                None => self.base,
            },
        }
    }
}

/// With no identified keys, every lookup — no key id or any key id at all
/// — resolves to the base key.
pub proof fn lemma_base_key_fallback(keys: RootKeys, id: Option<u32>)
    requires
        keys.spec_by_id() == Map::<u32, PublicKey>::empty(),
    ensures
        spec_resolve(keys, id) == keys.spec_base(),
{
}

/// An immutable bundle of root keys, a policy engine pre-seeded with the
/// base policy, and the disclosure mode.
///
/// This instance is never evaluated directly: every check clones the
/// engine first, so concurrent checks share no evaluation state.
#[derive(Clone)]
pub struct AuthConfig {
    pub root_pubkeys: RootKeys,
    pub authorizer: Authorizer<'static>,
    pub error_mode: ErrorMode,
}

impl AuthConfig {
    pub fn new(pubkey: RootKeys, authorizer: Authorizer<'static>, error_mode: ErrorMode) -> (r:
        Self)
        ensures
            r.root_pubkeys == pubkey,
            r.authorizer == authorizer,
            r.error_mode == error_mode,
    {
        Self { root_pubkeys: pubkey, authorizer, error_mode }
    }

    /// Verifies and parses raw token bytes against this configuration's
    /// root key set; the embedded key identifier selects the key via
    /// [`Self::pubkey_by_id`].  The engine's verification is a function of
    /// the bytes and the key material alone, named [`spec_verified`]: the
    /// call returns `Ok` exactly on the bytes that verify under the
    /// resolved key, and every failure classifies as
    /// [`BiscuitAuthError::Failure`], carrying the engine's detail.
    pub fn biscuit(&self, token: &[u8]) -> (r: Result<Biscuit, BiscuitAuthError>)
        ensures
            r matches Ok(b) ==> spec_verified(token@, self.root_pubkeys) == Ok::<Biscuit, Token>(
                b,
            ),
            r matches Err(e) ==> (e matches BiscuitAuthError::Failure(t) && spec_verified(
                token@,
                self.root_pubkeys,
            ) == Err::<Biscuit, Token>(t)),
    {
        match engine::verify_token(token, &self.root_pubkeys) {
            Ok(b) => Ok(b),
            Err(t) => Err(BiscuitAuthError::Failure(t)),
        }
    }

    /// Resolves the verification key for a token's embedded key
    /// identifier, via [`RootKeys::resolve`].  Never fails: an absent or
    /// unknown identifier is a designed fallback to the base key, not an
    /// error.
    pub fn pubkey_by_id(&self, id: Option<u32>) -> (r: PublicKey)
        ensures
            r == spec_resolve(self.root_pubkeys, id),
    {
        self.root_pubkeys.resolve(id)
    }

    /// A diagnostic rendering of this configuration: the number of
    /// identified keys and the disclosure mode.  Its contract pins the
    /// whole text to [`spec_config_text`], a function of the root key set
    /// and the mode alone, so the policy engine cannot leak through it.
    pub fn debug_message(&self) -> (r: String)
        ensures
            r@ == spec_config_text(self.root_pubkeys, self.error_mode),
    {
        let mut out = String::from_str("AuthConfig { identified_keys: ");
        let count = self.root_pubkeys.key_count();
        let digits = decimal_string(count as u64);
        out.append(digits.as_str());
        out.append(", error_mode: ");
        match self.error_mode {
            ErrorMode::Secure => out.append("Secure"),
            ErrorMode::Verbose => out.append("Verbose"),
        }
        out.append(" }");
        out
    }

    /// The full check pipeline against this configuration snapshot: obtain
    /// the token from the extractor, merge its facts into a fresh clone of
    /// the policy engine, run the extractor's context hook, and evaluate.
    /// Whether the engine admits the combined fact set is the engine's
    /// decision; what this function guarantees is the disclosure gate:
    /// every failure passes through [`BiscuitAuthError::gated`] with this
    /// snapshot's mode, so in secure mode no engine detail ever escapes.
    pub fn check<R, E: AuthExtract<R>>(&self, request: &R, extractor: &E) -> (r: Result<
        (),
        BiscuitAuthError,
    >)
        ensures
            self.error_mode is Secure ==> !(r matches Err(BiscuitAuthError::Failure(_))),
    {
        let mode = self.error_mode;
        let token = match extractor.auth_token(request, self) {
            Ok(t) => t,
            Err(e) => {
                return Err(e.gated(mode));
            },
        };
        let mut authorizer = self.authorizer.clone();
        match authorizer.add_token(&token) {
            Ok(()) => (),
            Err(t) => {
                return Err(BiscuitAuthError::Failure(t).gated(mode));
            },
        }
        match extractor.extract_context(request, self, &mut authorizer) {
            Ok(()) => (),
            Err(e) => {
                return Err(e.gated(mode));
            },
        }
        match authorizer.authorize() {
            Ok(_) => Ok(()),
            Err(t) => Err(BiscuitAuthError::Failure(t).gated(mode)),
        }
    }
}

/// The rendering of a disclosure mode's name.
pub open spec fn spec_mode_text(mode: ErrorMode) -> Seq<char> {
    match mode {
        ErrorMode::Secure => "Secure"@,
        ErrorMode::Verbose => "Verbose"@,
    }
}

/// What [`AuthConfig::debug_message`] renders: a function of the root key
/// set and the disclosure mode alone — the policy engine does not flow
/// into it.
pub open spec fn spec_config_text(keys: RootKeys, mode: ErrorMode) -> Seq<char> {
    "AuthConfig { identified_keys: "@ + spec_decimal(keys.spec_by_id().len()) + ", error_mode: "@
        + spec_mode_text(mode) + " }"@
}

/// Hot-swappable cell holding the current configuration.
///
/// Wraps an `arc_swap::ArcSwap` behind a reference-counted handle.  The
/// cell's strategy type cannot be named outside that crate, so the whole
/// cell stays opaque to the verifier and all access goes through the
/// trusted methods below.  Replacement is a single atomic pointer swap:
/// every load returns some complete, previously stored configuration,
/// never a partially updated one — but under concurrent updates nothing
/// ties a load to a particular store, so no contract is assumed here.
#[verifier::external_body]
struct ConfigCell {
    cell: std::sync::Arc<arc_swap::ArcSwap<AuthConfig>>,
}

impl Clone for ConfigCell {
    /// Relies on `Arc::clone`: the copy shares the same cell, so an
    /// update through either handle is seen by both.
    #[verifier::external_body]
    fn clone(&self) -> Self {
        Self { cell: std::sync::Arc::clone(&self.cell) }
    }
}

impl ConfigCell {
    /// Relies on `arc_swap::ArcSwap::from_pointee` to build a cell that
    /// initially holds `config`.
    #[verifier::external_body]
    fn new(config: AuthConfig) -> Self {
        Self { cell: std::sync::Arc::new(arc_swap::ArcSwap::from_pointee(config)) }
    }

    /// Relies on `arc_swap::ArcSwapAny::load`: returns a clone of some
    /// complete, previously stored configuration.
    #[verifier::external_body]
    fn load(&self) -> AuthConfig {
        self.cell.load().as_ref().clone()
    }

    /// Relies on `arc_swap::ArcSwapAny::store`: atomically replaces the
    /// held configuration; loads already made keep their snapshot.
    #[verifier::external_body]
    fn store(&self, config: AuthConfig) {
        self.cell.store(std::sync::Arc::new(config))
    }
}

/// Shared authorization state: a reference-counted, atomically swappable
/// holder of one [`AuthConfig`].
///
/// Clones share the same underlying cell, so a single [`SharedAuth::update`]
/// reconfigures every predicate built from any clone.  A check loads one
/// snapshot and runs entirely against it; checks already in flight when an
/// update lands legitimately finish against their stale but consistent
/// snapshot.
#[derive(Clone)]
pub struct SharedAuth {
    auth_config: ConfigCell,
}

impl SharedAuth {
    pub fn new(auth_info: AuthConfig) -> Self {
        Self { auth_config: ConfigCell::new(auth_info) }
    }

    /// Atomically replaces the configuration; affects subsequent loads and
    /// checks only, not checks already in progress.
    pub fn update(&self, auth_info: AuthConfig) {
        self.auth_config.store(auth_info)
    }

    /// A clone of the current configuration, for read-modify-write
    /// reconfiguration.
    pub fn to_auth_info(&self) -> AuthConfig {
        self.auth_config.load()
    }

    /// Wraps this shared state and an extractor into a request-filtering
    /// predicate.
    pub fn into_predicate<E>(self, extractor: E) -> (r: AuthPredicate<E>)
        ensures
            r.spec_shared() == self,
            r.spec_extractor() == extractor,
    {
        AuthPredicate { shared_auth: self, extractor }
    }

    /// Checks one request: loads the current configuration snapshot once
    /// and runs the whole pipeline of [`AuthConfig::check`] against it.
    /// The per-snapshot guarantees — disclosure gating above all — are
    /// stated there; which snapshot a concurrent load observes cannot be
    /// pinned down here.
    pub fn check<R, E: AuthExtract<R>>(&self, request: &R, extractor: &E) -> Result<
        (),
        BiscuitAuthError,
    > {
        let auth_config = self.auth_config.load();
        auth_config.check(request, extractor)
    }
}

/// An authorization predicate: shared state plus an extractor, usable as a
/// request-filtering middleware stage.
///
/// Stateless beyond these references; many instances may share one
/// underlying [`SharedAuth`], so one update reconfigures every guarded
/// route simultaneously.
#[derive(Clone)]
pub struct AuthPredicate<E> {
    shared_auth: SharedAuth,
    extractor: E,
}

impl<E> AuthPredicate<E> {
    /// The shared state this predicate checks against.
    pub closed spec fn spec_shared(self) -> SharedAuth {
        self.shared_auth
    }

    /// The extractor this predicate consults.
    pub closed spec fn spec_extractor(self) -> E {
        self.extractor
    }

    /// The filtering contract: on success the original request passes
    /// downstream unchanged; on failure the caller's error handler turns
    /// the disclosure-gated error into a protocol-level rejection.  The
    /// adaptation of the underlying outcome is [`forward_check_outcome`],
    /// whose contract also pins the failure side: the error comes through
    /// untouched.
    pub fn check<R>(&self, request: R) -> (r: Result<R, BiscuitAuthError>) where E: AuthExtract<R>
        ensures
            r matches Ok(passed) ==> passed == request,
    {
        forward_check_outcome(self.shared_auth.check(&request, &self.extractor), request)
    }
}

/// Adapts a check outcome to the filtering contract: an admitted request
/// passes through unchanged, and a rejection carries the check's error
/// untouched — the predicate neither invents nor alters errors.
pub fn forward_check_outcome<R>(outcome: Result<(), BiscuitAuthError>, request: R) -> (r: Result<
    R,
    BiscuitAuthError,
>)
    ensures
        outcome is Ok ==> r == Ok::<R, BiscuitAuthError>(request),
        outcome matches Err(e) ==> r == Err::<R, BiscuitAuthError>(e),
{
    match outcome {
        Ok(()) => Ok(request),
        Err(e) => Err(e),
    }
}

/// The pluggable strategy for obtaining a token, and request-specific
/// policy facts, from an arbitrary request representation.
pub trait AuthExtract<Req> {
    /// How to find the parsed token for this request under the given
    /// configuration; a request carrying no token at all reports
    /// [`BiscuitAuthError::MissingBiscuit`].
    fn auth_token(&self, req: &Req, config: &AuthConfig) -> Result<Biscuit, BiscuitAuthError>;

    /// Use the information in the request to add any relevant facts to
    /// the authorizer, such as whether the request reads or writes, or
    /// the specific resource it tries to access.  Default: none.
    fn extract_context(
        &self,
        _req: &Req,
        _config: &AuthConfig,
        _authorizer: &mut Authorizer<'_>,
    ) -> Result<(), BiscuitAuthError> {
        Ok(())
    }
}

/// Marker for extractor-supplied request context.
pub struct AuthContext {}

} // verus!
