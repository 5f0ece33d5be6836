//! The remote key set and the time-bounded cache that serves it: public
//! signing keys fetched from an issuer's discovery endpoint, held per
//! issuer with a TTL and an idle deadline, and never served stale.

use vstd::prelude::*;

use crate::errors::ResolveError;

verus! {

/// One public signing key as the provider's discovery payload carries
/// it. What the verifier does not understand stays optional and opaque;
/// all policy over these fields lives in verified code.
#[derive(Clone, Debug)]
pub struct SigningKey {
    /// The key id the provider rotates on, `kid`.
    pub key_id: Option<String>,
    /// The declared algorithm, e.g. `RS256`. Only the algorithm bound to
    /// a key is ever accepted for it.
    pub algorithm: Option<String>,
    /// The RSA modulus, base64url; absent for non-RSA keys.
    pub modulus: Option<String>,
    /// The RSA public exponent, base64url; absent for non-RSA keys.
    pub exponent: Option<String>,
}

pub ghost struct SigningKeyView {
    pub key_id: Option<Seq<char>>,
    pub algorithm: Option<Seq<char>>,
    pub modulus: Option<Seq<char>>,
    pub exponent: Option<Seq<char>>,
}

pub open spec fn view_of_opt_string(s: Option<String>) -> Option<Seq<char>> {
    match s {
        Some(v) => Some(v@),
        None => None,
    }
}

impl View for SigningKey {
    type V = SigningKeyView;

    open spec fn view(&self) -> SigningKeyView {
        SigningKeyView {
            key_id: view_of_opt_string(self.key_id),
            algorithm: view_of_opt_string(self.algorithm),
            modulus: view_of_opt_string(self.modulus),
            exponent: view_of_opt_string(self.exponent),
        }
    }
}

/// The set of keys an issuer currently signs with.
#[derive(Clone, Debug)]
pub struct KeySet {
    pub keys: Vec<SigningKey>,
}

impl View for KeySet {
    type V = Seq<SigningKeyView>;

    open spec fn view(&self) -> Seq<SigningKeyView> {
        self.keys@.map_values(|k: SigningKey| k@)
    }
}

/// The first key declaring the given key id, as the provider's own lookup
/// selects it.
pub open spec fn spec_find_key(keys: Seq<SigningKeyView>, kid: Seq<char>) -> Option<SigningKeyView>
    decreases keys.len(),
{
    if keys.len() == 0 {
        None
    } else if keys[0].key_id == Some(kid) {
        Some(keys[0])
    } else {
        spec_find_key(keys.drop_first(), kid)
    }
}

impl KeySet {
    /// Selects the key whose declared key id matches, if any.
    pub fn find(&self, kid: &str) -> (r: Option<&SigningKey>)
        ensures
            match r {
                Some(k) => spec_find_key(self@, kid@) == Some(k@),
                None => spec_find_key(self@, kid@) is None,
            },
    {
        let kid_owned: String = kid.to_owned();
        let mut i: usize = 0;
        proof {
            assert(self@.skip(0) =~= self@);
        }
        while i < self.keys.len()
            invariant
                i <= self.keys@.len(),
                self@.len() == self.keys@.len(),
                kid_owned@ == kid@,
                forall|j: int| 0 <= j < self@.len() ==> #[trigger] self@[j] == self.keys@[j]@,
                spec_find_key(self@, kid@) == spec_find_key(self@.skip(i as int), kid@),
            decreases self.keys@.len() - i,
        {
            proof {
                assert(self@.skip(i as int).drop_first() =~= self@.skip(i + 1));
                assert(self@.skip(i as int)[0] == self@[i as int]);
            }
            let matched = match &self.keys[i].key_id {
                Some(id) => *id == kid_owned,
                None => false,
            };
            if matched {
                return Some(&self.keys[i]);
            }
            i = i + 1;
        }
        None
    }
}

/// What the discovery payload denotes: the keys in order, or nothing when
/// the payload is not a well-formed key set.
pub uninterp spec fn jwks_of(body: Seq<char>) -> Option<Seq<SigningKeyView>>;

/// Relies on serde_json::from_str::<jsonwebtoken::jwk::JwkSet>: parses the
/// discovery payload and carries each key's id, declared algorithm, and
/// RSA components over verbatim, one entry per key, in order.
#[verifier::external_body]
fn parse_jwks_raw(body: &str) -> (r: Option<Vec<SigningKey>>)
    ensures
        match r {
            Some(keys) => jwks_of(body@) == Some(keys@.map_values(|k: SigningKey| k@)),
            None => jwks_of(body@) is None,
        },
{
    let parsed: jsonwebtoken::jwk::JwkSet = match serde_json::from_str(body) {
        Ok(s) => s,
        Err(_) => return None,
    };
    let mut keys: Vec<SigningKey> = Vec::new();
    for k in parsed.keys.iter() {
        let (modulus, exponent) = match &k.algorithm {
            jsonwebtoken::jwk::AlgorithmParameters::RSA(rsa) => (Some(rsa.n.clone()), Some(rsa.e.clone())),
            _ => (None, None),
        };
        let algorithm = k.common.key_algorithm.map(|a| a.to_string());
        keys.push(SigningKey { key_id: k.common.key_id.clone(), algorithm, modulus, exponent });
    }
    Some(keys)
}

/// Parses a fetched discovery payload into a key set; a malformed payload
/// is an infrastructure fault, never a silent fallback.
pub fn parse_key_set(body: &str) -> (r: Result<KeySet, ResolveError>)
    ensures
        match r {
            Ok(ks) => jwks_of(body@) == Some(ks@),
            Err(e) => e == ResolveError::ProviderUnavailable && jwks_of(body@) is None,
        },
{
    match parse_jwks_raw(body) {
        Some(keys) => Ok(KeySet { keys }),
        None => Err(ResolveError::ProviderUnavailable),
    }
}

} // verus!
