//! Bearer-credential verification: one credential moves through header
//! decoding, key selection by its declared key id, a cryptographic
//! signature check under the key's own algorithm, and the claim checks
//! (expiry, audience, subject), with a distinct failure at every stage.
//! Verified claims are produced by this pipeline and nowhere else.

use vstd::prelude::*;
use vstd::string::StrSliceExecFns;

use crate::errors::AuthError;
use crate::keys::KeySet;
use crate::keys::SigningKeyView;
use crate::keys::spec_find_key;

verus! {

/// The standard claims the verifier reads out of a credential's payload.
pub ghost struct ClaimsView {
    pub subject: Option<Seq<char>>,
    pub audiences: Seq<Seq<char>>,
    pub expires_at: Option<i64>,
}

/// The standard claims as plain values: the subject, every audience the
/// credential names, and the expiry as seconds since the epoch.
#[derive(Debug)]
pub struct RawClaims {
    pub subject: Option<String>,
    pub audiences: Vec<String>,
    pub expires_at: Option<i64>,
}

impl View for RawClaims {
    type V = ClaimsView;

    open spec fn view(&self) -> ClaimsView {
        ClaimsView {
            subject: match self.subject {
                Some(s) => Some(s@),
                None => None,
            },
            audiences: self.audiences@.map_values(|a: String| a@),
            expires_at: self.expires_at,
        }
    }
}

/// The outcome of the cryptographic check of one credential under one
/// key.
pub enum SigOutcome {
    /// The signature verifies under the key and its declared algorithm;
    /// the claim set's JSON text is carried along.
    Valid(String),
    /// The credential's header names a different algorithm than the key
    /// declares, or one outside the key's family.
    AlgorithmMismatch,
    /// The key's material or declared algorithm is itself unusable.
    UnusableKey,
    /// The signature does not verify, or the credential is structurally
    /// broken.
    Invalid,
}

pub ghost enum SigOutcomeView {
    Valid(Seq<char>),
    AlgorithmMismatch,
    UnusableKey,
    Invalid,
}

impl View for SigOutcome {
    type V = SigOutcomeView;

    open spec fn view(&self) -> SigOutcomeView {
        match self {
            SigOutcome::Valid(payload) => SigOutcomeView::Valid(payload@),
            SigOutcome::AlgorithmMismatch => SigOutcomeView::AlgorithmMismatch,
            SigOutcome::UnusableKey => SigOutcomeView::UnusableKey,
            SigOutcome::Invalid => SigOutcomeView::Invalid,
        }
    }
}

/// What a credential's structural header carries: nothing when the header
/// cannot be decoded, else its optional key id.
pub uninterp spec fn jwt_header_kid(token: Seq<char>) -> Option<Option<Seq<char>>>;

/// Relies on jsonwebtoken::decode_header: a structurally well-formed
/// credential yields its header, whose key id is optional; anything else
/// is refused. No signature or claim is checked here.
#[verifier::external_body]
fn decode_header_kid(token: &str) -> (r: Option<Option<String>>)
    ensures
        match r {
            Some(Some(kid)) => jwt_header_kid(token@) == Some(Some(kid@)),
            Some(None) => jwt_header_kid(token@) == Some(None::<Seq<char>>),
            None => jwt_header_kid(token@) is None,
        },
{
    match jsonwebtoken::decode_header(token) {
        Ok(h) => Some(h.kid),
        Err(_) => None,
    }
}

/// What verifying one credential under one RSA key yields. The outcome
/// is a function of the credential and the key material alone.
pub uninterp spec fn rsa_decode(
    token: Seq<char>,
    modulus: Seq<char>,
    exponent: Seq<char>,
    algorithm: Seq<char>,
) -> SigOutcomeView;

/// Relies on jsonwebtoken::decode with DecodingKey::from_rsa_components,
/// restricted to the signature itself (expiry and audience are checked by
/// verified code afterwards): only the named algorithm is accepted, a
/// header naming another one is refused as a mismatch, and a valid
/// signature yields the claim set's JSON text.
#[verifier::external_body]
fn check_signature(token: &str, modulus: &str, exponent: &str, algorithm: &str) -> (r: SigOutcome)
    ensures
        r@ == rsa_decode(token@, modulus@, exponent@, algorithm@),
{
    let components = jsonwebtoken::DecodingKey::from_rsa_components(modulus, exponent);
    let parsed_alg = <jsonwebtoken::Algorithm as core::str::FromStr>::from_str(algorithm);
    let (key, alg) = match (components, parsed_alg) {
        (Ok(k), Ok(a)) => (k, a),
        _ => return SigOutcome::UnusableKey,
    };
    let mut validation = jsonwebtoken::Validation::new(alg);
    validation.validate_exp = false;
    validation.validate_aud = false;
    validation.required_spec_claims = std::collections::HashSet::new();
    match jsonwebtoken::decode::<serde_json::Value>(token, &key, &validation) {
        Ok(data) => SigOutcome::Valid(data.claims.to_string()),
        Err(e) if matches!(e.kind(), jsonwebtoken::errors::ErrorKind::InvalidAlgorithm) => SigOutcome::AlgorithmMismatch,
        Err(_) => SigOutcome::Invalid,
    }
}

/// The standard claims a claim-set JSON text denotes, or nothing when it
/// is not a JSON object.
pub uninterp spec fn claims_of(payload: Seq<char>) -> Option<ClaimsView>;

/// Relies on serde_json::from_str and the Value accessors: reads the
/// subject, the audience (a string or an array of strings), and the
/// numeric expiry out of a claim-set object.
#[verifier::external_body]
fn parse_claims(payload: &str) -> (r: Option<RawClaims>)
    ensures
        match r {
            Some(c) => claims_of(payload@) == Some(c@),
            None => claims_of(payload@) is None,
        },
{
    let v: serde_json::Value = match serde_json::from_str(payload) {
        Ok(v) => v,
        Err(_) => return None,
    };
    let subject = v.get("sub").and_then(|x| x.as_str()).map(|s| s.to_string());
    let expires_at = v.get("exp").and_then(|x| x.as_i64());
    let audiences = match v.get("aud") {
        Some(serde_json::Value::String(s)) => vec![s.clone()],
        Some(serde_json::Value::Array(items)) => items.iter().map(
            |x| x.as_str().unwrap_or("").to_string(),
        ).collect(),
        _ => Vec::new(),
    };
    Some(RawClaims { subject, audiences, expires_at })
}

/// The asymmetric algorithms this verifier accepts a key to declare.
pub open spec fn spec_alg_supported(a: Seq<char>) -> bool {
    a == "RS256"@ || a == "RS384"@ || a == "RS512"@ || a == "PS256"@ || a == "PS384"@
        || a == "PS512"@
}

/// A key the verifier can use: an accepted asymmetric algorithm and RSA
/// material present.
pub open spec fn key_usable(k: SigningKeyView) -> bool {
    &&& k.algorithm matches Some(a) && spec_alg_supported(a)
    &&& k.modulus is Some
    &&& k.exponent is Some
}

/// The claim checks, after the signature stands: the expiry claim must be
/// present and in the future, the expected audience must be among the
/// credential's audiences, and a subject must be present.
pub open spec fn spec_check_claims(c: ClaimsView, audience: Seq<char>, now: i64) -> Result<
    ClaimsView,
    AuthError,
> {
    if !(c.expires_at matches Some(exp) && exp > now) {
        Err(AuthError::ExpiredToken)
    } else if !c.audiences.contains(audience) {
        Err(AuthError::AudienceMismatch)
    } else if c.subject is None {
        Err(AuthError::MalformedToken)
    } else {
        Ok(c)
    }
}

/// The whole verification pipeline over one credential and one key set:
/// header decoded, key selected by key id, signature checked under the
/// key's own algorithm, claims checked. Exactly one outcome per stage.
pub open spec fn spec_verify(
    token: Seq<char>,
    keys: Seq<SigningKeyView>,
    audience: Seq<char>,
    now: i64,
) -> Result<ClaimsView, AuthError> {
    match jwt_header_kid(token) {
        None => Err(AuthError::MalformedToken),
        Some(None) => Err(AuthError::KeyNotFound),
        Some(Some(kid)) => match spec_find_key(keys, kid) {
            None => Err(AuthError::KeyNotFound),
            Some(key) => if !key_usable(key) {
                Err(AuthError::UnsupportedAlgorithm)
            } else {
                match rsa_decode(
                    token,
                    key.modulus.unwrap(),
                    key.exponent.unwrap(),
                    key.algorithm.unwrap(),
                ) {
                    SigOutcomeView::AlgorithmMismatch => Err(AuthError::UnsupportedAlgorithm),
                    SigOutcomeView::UnusableKey => Err(AuthError::UnsupportedAlgorithm),
                    SigOutcomeView::Invalid => Err(AuthError::InvalidSignature),
                    SigOutcomeView::Valid(payload) => match claims_of(payload) {
                        None => Err(AuthError::MalformedToken),
                        Some(c) => spec_check_claims(c, audience, now),
                    },
                }
            },
        },
    }
}

/// A verified claim set. Values of this type exist only as the outcome of
/// successful verification: no partial or degraded trust state is ever
/// produced.
#[derive(Debug)]
pub struct VerifiedClaims {
    subject: String,
    audience: String,
    expires_at: i64,
}

impl VerifiedClaims {
    pub closed spec fn spec_subject(self) -> Seq<char> {
        self.subject@
    }

    pub closed spec fn spec_audience(self) -> Seq<char> {
        self.audience@
    }

    pub closed spec fn spec_expires_at(self) -> i64 {
        self.expires_at
    }

    /// The stable external identifier of the caller.
    pub fn subject(&self) -> (r: &String)
        ensures
            r@ == self.spec_subject(),
    {
        &self.subject
    }

    /// The audience the credential was verified against.
    pub fn audience(&self) -> (r: &String)
        ensures
            r@ == self.spec_audience(),
    {
        &self.audience
    }

    /// The expiry claim, seconds since the epoch; in the future at the
    /// time of verification.
    pub fn expires_at(&self) -> (r: i64)
        ensures
            r == self.spec_expires_at(),
    {
        self.expires_at
    }
}

fn is_supported_algorithm(alg: &String) -> (r: bool)
    ensures
        r == spec_alg_supported(alg@),
{
    *alg == "RS256".to_owned() || *alg == "RS384".to_owned() || *alg == "RS512".to_owned() || *alg
        == "PS256".to_owned() || *alg == "PS384".to_owned() || *alg == "PS512".to_owned()
}

/// The claim checks over an already-signature-checked claim set.
pub fn check_claims(claims: RawClaims, audience: &str, now: i64) -> (r: Result<
    VerifiedClaims,
    AuthError,
>)
    ensures
        r matches Ok(vc) ==> spec_check_claims(claims@, audience@, now) == Ok::<
            ClaimsView,
            AuthError,
        >(claims@) && claims@.subject == Some(vc.spec_subject()) && Some(vc.spec_expires_at())
            == claims@.expires_at && vc.spec_audience() == audience@,
        r matches Err(e) ==> spec_check_claims(claims@, audience@, now) == Err::<
            ClaimsView,
            AuthError,
        >(e),
{
    let exp = match claims.expires_at {
        Some(exp) => {
            if exp <= now {
                return Err(AuthError::ExpiredToken);
            }
            exp
        },
        None => {
            return Err(AuthError::ExpiredToken);
        },
    };
    let audience_owned: String = audience.to_owned();
    let mut found = false;
    let mut i: usize = 0;
    while i < claims.audiences.len()
        invariant
            i <= claims.audiences@.len(),
            audience_owned@ == audience@,
            found <==> exists|j: int|
                0 <= j < i && (#[trigger] claims.audiences@[j])@ == audience@,
        decreases claims.audiences@.len() - i,
    {
        if claims.audiences[i] == audience_owned {
            found = true;
        }
        i = i + 1;
    }
    proof {
        if found {
            let j = choose|j: int|
                0 <= j < claims.audiences@.len() && (#[trigger] claims.audiences@[j])@ == audience@;
            assert(claims@.audiences[j] == audience@);
        } else {
            assert forall|j: int|
                0 <= j < claims@.audiences.len() implies (#[trigger] claims@.audiences[j])
                != audience@ by {
                assert((claims.audiences@[j])@ == claims@.audiences[j]);
            }
        }
    }
    if !found {
        return Err(AuthError::AudienceMismatch);
    }
    match claims.subject {
        Some(subject) => Ok(
            VerifiedClaims { subject, audience: audience_owned, expires_at: exp },
        ),
        None => Err(AuthError::MalformedToken),
    }
}

/// Verifies one bearer credential against the key set: the outcome is
/// exactly what the verification pipeline prescribes for this credential,
/// key set, expected audience and current time, stage by stage.
pub fn verify_token(token: &str, keys: &KeySet, audience: &str, now: i64) -> (r: Result<
    VerifiedClaims,
    AuthError,
>)
    ensures
        r matches Ok(vc) ==> (spec_verify(token@, keys@, audience@, now) matches Ok(c)
            && c.subject == Some(vc.spec_subject()) && Some(vc.spec_expires_at()) == c.expires_at
            && vc.spec_audience() == audience@),
        r matches Err(e) ==> spec_verify(token@, keys@, audience@, now) == Err::<
            ClaimsView,
            AuthError,
        >(e),
{
    let kid: String = match decode_header_kid(token) {
        None => {
            return Err(AuthError::MalformedToken);
        },
        Some(None) => {
            return Err(AuthError::KeyNotFound);
        },
        Some(Some(kid)) => kid,
    };
    let key = match keys.find(kid.as_str()) {
        Some(k) => k,
        None => {
            return Err(AuthError::KeyNotFound);
        },
    };
    let alg = match &key.algorithm {
        Some(a) => a,
        None => {
            return Err(AuthError::UnsupportedAlgorithm);
        },
    };
    if !is_supported_algorithm(alg) {
        return Err(AuthError::UnsupportedAlgorithm);
    }
    let modulus = match &key.modulus {
        Some(m) => m,
        None => {
            return Err(AuthError::UnsupportedAlgorithm);
        },
    };
    let exponent = match &key.exponent {
        Some(e) => e,
        None => {
            return Err(AuthError::UnsupportedAlgorithm);
        },
    };
    match check_signature(token, modulus.as_str(), exponent.as_str(), alg.as_str()) {
        SigOutcome::Valid(payload) => {
            let claims = match parse_claims(payload.as_str()) {
                Some(c) => c,
                None => {
                    return Err(AuthError::MalformedToken);
                },
            };
            check_claims(claims, audience, now)
        },
        SigOutcome::AlgorithmMismatch => Err(AuthError::UnsupportedAlgorithm),
        SigOutcome::UnusableKey => Err(AuthError::UnsupportedAlgorithm),
        SigOutcome::Invalid => Err(AuthError::InvalidSignature),
    }
}

/// What a credential header carries: the token after the `Bearer ` scheme
/// prefix, or nothing when the prefix is absent.
pub open spec fn spec_bearer(header: Seq<char>) -> Option<Seq<char>> {
    if header.len() >= 7 && header.subrange(0, 7) == "Bearer "@ {
        Some(header.skip(7))
    } else {
        None
    }
}

/// Reads the token out of an `Authorization: Bearer <token>` header
/// value; a header without the scheme prefix is rejected before
/// verification begins.
pub fn bearer_token(header: &str) -> (r: Option<&str>)
    ensures
        match r {
            Some(t) => spec_bearer(header@) == Some(t@),
            None => spec_bearer(header@) is None,
        },
{
    proof {
        reveal_strlit("Bearer ");
    }
    let len = header.unicode_len();
    if len < 7 {
        return None;
    }
    let prefix_ok = header.get_char(0) == 'B' && header.get_char(1) == 'e' && header.get_char(2)
        == 'a' && header.get_char(3) == 'r' && header.get_char(4) == 'e' && header.get_char(5)
        == 'r' && header.get_char(6) == ' ';
    if !prefix_ok {
        proof {
            let pre = header@.subrange(0, 7);
            assert(pre[0] == header@[0] && pre[1] == header@[1] && pre[2] == header@[2] && pre[3]
                == header@[3] && pre[4] == header@[4] && pre[5] == header@[5] && pre[6]
                == header@[6]);
            assert("Bearer "@[0] == 'B' && "Bearer "@[1] == 'e' && "Bearer "@[2] == 'a'
                && "Bearer "@[3] == 'r' && "Bearer "@[4] == 'e' && "Bearer "@[5] == 'r'
                && "Bearer "@[6] == ' ');
            assert(pre != "Bearer "@);
        }
        return None;
    }
    proof {
        assert(header@.subrange(0, 7) =~= "Bearer "@);
    }
    let token = header.substring_char(7, len);
    proof {
        assert(token@ =~= header@.skip(7));
    }
    Some(token)
}

/// Verifies the credential and hands back the caller's stable external
/// subject identifier, as the request middleware consumes it.
pub fn extract_user_provider_id(token: &str, keys: &KeySet, audience: &str, now: i64) -> (r:
    Result<String, AuthError>)
    ensures
        r matches Ok(sub) ==> (spec_verify(token@, keys@, audience@, now) matches Ok(c) && c.subject
            == Some(sub@)),
        r matches Err(e) ==> spec_verify(token@, keys@, audience@, now) == Err::<
            ClaimsView,
            AuthError,
        >(e),
{
    match verify_token(token, keys, audience, now) {
        Ok(vc) => Ok(vc.subject),
        Err(e) => Err(e),
    }
}

/// One step of the bearer-credential driver around the key cache.
pub enum AuthStep {
    /// Verification has a final outcome.
    Complete(Result<VerifiedClaims, AuthError>),
    /// The key id is unknown to the current key set and no refresh has
    /// been spent yet: fetch the key set once more, then run the step
    /// again with `refresh_used` set.
    RefreshKeys,
}

pub ghost enum AuthStepView {
    Complete(Result<ClaimsView, AuthError>),
    RefreshKeys,
}

/// What the driver decides: an unknown key id spends the one refresh if
/// it is still available; every other outcome, and every outcome after
/// the refresh, is final.
pub open spec fn spec_auth_step(
    token: Seq<char>,
    keys: Seq<SigningKeyView>,
    audience: Seq<char>,
    now: i64,
    refresh_used: bool,
) -> AuthStepView {
    if !refresh_used && spec_verify(token, keys, audience, now) == Err::<ClaimsView, AuthError>(
        AuthError::KeyNotFound,
    ) {
        AuthStepView::RefreshKeys
    } else {
        AuthStepView::Complete(spec_verify(token, keys, audience, now))
    }
}

/// One step of credential verification with at most one key refresh: the
/// caller runs this with `refresh_used == false`, performs the one fetch
/// if asked to, and runs it once more with `refresh_used == true`, which
/// always completes.
pub fn authenticate_step(
    token: &str,
    keys: &KeySet,
    audience: &str,
    now: i64,
    refresh_used: bool,
) -> (r: AuthStep)
    ensures
        r is RefreshKeys <==> spec_auth_step(token@, keys@, audience@, now, refresh_used)
            is RefreshKeys,
        r matches AuthStep::Complete(out) ==> (spec_auth_step(token@, keys@, audience@, now, refresh_used)
            matches AuthStepView::Complete(s) && (match out {
            Ok(vc) => s matches Ok(c) && c.subject == Some(vc.spec_subject()) && Some(
                vc.spec_expires_at(),
            ) == c.expires_at && vc.spec_audience() == audience@,
            Err(e) => s == Err::<ClaimsView, AuthError>(e),
        })),
{
    let outcome = verify_token(token, keys, audience, now);
    match &outcome {
        Err(e) => {
            if !refresh_used && matches!(e, AuthError::KeyNotFound) {
                return AuthStep::RefreshKeys;
            }
        },
        Ok(_) => {},
    }
    AuthStep::Complete(outcome)
}

/// A token referencing an unknown key id triggers at most one refresh:
/// the step run after the refresh never asks for another, and if the key
/// id is still absent it completes with `KeyNotFound`.
pub proof fn lemma_at_most_one_refresh(
    token: Seq<char>,
    keys_after: Seq<SigningKeyView>,
    audience: Seq<char>,
    now: i64,
)
    ensures
        spec_auth_step(token, keys_after, audience, now, true) is Complete,
        spec_verify(token, keys_after, audience, now) == Err::<ClaimsView, AuthError>(
            AuthError::KeyNotFound,
        ) ==> spec_auth_step(token, keys_after, audience, now, true) == AuthStepView::Complete(
            Err::<ClaimsView, AuthError>(AuthError::KeyNotFound),
        ),
{
}

/// For every token signed by a usable key present in the key set, with an
/// unexpired expiry, an audience naming the expected one, and a subject,
/// verification succeeds and the claims carry that subject.
pub proof fn lemma_valid_token_verifies(
    token: Seq<char>,
    keys: Seq<SigningKeyView>,
    audience: Seq<char>,
    now: i64,
    kid: Seq<char>,
    key: SigningKeyView,
    payload: Seq<char>,
    c: ClaimsView,
)
    requires
        jwt_header_kid(token) == Some(Some(kid)),
        spec_find_key(keys, kid) == Some(key),
        key_usable(key),
        rsa_decode(token, key.modulus.unwrap(), key.exponent.unwrap(), key.algorithm.unwrap())
            == SigOutcomeView::Valid(payload),
        claims_of(payload) == Some(c),
        c.expires_at matches Some(exp) && exp > now,
        c.audiences.contains(audience),
        c.subject is Some,
    ensures
        spec_verify(token, keys, audience, now) == Ok::<ClaimsView, AuthError>(c),
{
}

/// Every credential whose expiry claim is absent or not in the future is
/// rejected as expired once its signature stands, whatever its other
/// claims hold. (A credential that fails an earlier stage — a malformed
/// header, an unknown key id, an invalid signature — fails with that
/// stage's error instead, so nothing is learned from its claims at all.)
pub proof fn lemma_expired_token_rejected(
    token: Seq<char>,
    keys: Seq<SigningKeyView>,
    audience: Seq<char>,
    now: i64,
    kid: Seq<char>,
    key: SigningKeyView,
    payload: Seq<char>,
    c: ClaimsView,
)
    requires
        jwt_header_kid(token) == Some(Some(kid)),
        spec_find_key(keys, kid) == Some(key),
        key_usable(key),
        rsa_decode(token, key.modulus.unwrap(), key.exponent.unwrap(), key.algorithm.unwrap())
            == SigOutcomeView::Valid(payload),
        claims_of(payload) == Some(c),
        !(c.expires_at matches Some(exp) && exp > now),
    ensures
        spec_verify(token, keys, audience, now) == Err::<ClaimsView, AuthError>(
            AuthError::ExpiredToken,
        ),
{
}

} // verus!
