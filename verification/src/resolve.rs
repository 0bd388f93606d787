//! Input resolution: turning configuration fields into the concrete values a
//! deployment needs. Everything here is pure; reading the referenced files is
//! the surrounding binary's work.

use vstd::prelude::*;
use vstd::string::StrSliceExecFns;
use crate::model::{KeyPair, Signer};

verus! {

/// The view of an optional borrowed string.
pub open spec fn view_opt_str(o: Option<&str>) -> Option<Seq<char>> {
    match o {
        Some(s) => Some(s@),
        None => None,
    }
}

/// The view of an optional owned string.
pub open spec fn view_opt_string(o: Option<String>) -> Option<Seq<char>> {
    match o {
        Some(s) => Some(s@),
        None => None,
    }
}

/// Whether a string holds the structural marker of inline JSON.
pub fn contains_brace(s: &str) -> (r: bool)
    ensures
        r == s@.contains('{'),
{
    let n: usize = s.unicode_len();
    let mut i: usize = 0;
    while i < n
        invariant
            n == s@.len(),
            0 <= i <= n,
            forall|j: int| 0 <= j < i ==> s@[j] != '{',
        decreases n - i,
    {
        if s.get_char(i) == '{' {
            assert(s@.contains('{')) by {
                assert(s@[i as int] == '{');
            }
            return true;
        }
        i = i + 1;
    }
    proof {
        if s@.contains('{') {
            let j = choose|j: int| 0 <= j < s@.len() && s@[j] == '{';
            assert(false);
        }
    }
    false
}

/// Resolves the ABI location from its configuration field: the path when the
/// field is present, and otherwise the error the run reports.
pub fn load_abi(abi_path: Option<&str>) -> (r: Result<String, String>)
    ensures
        abi_path matches Some(p) ==> (r matches Ok(s) && s@ == p@),
        abi_path is None ==> (r matches Err(e) && e@
            == "ABI file is not defined. Supply it in the config.json."@),
{
    match abi_path {
        Some(p) => Ok(p.to_owned()),
        None => Err("ABI file is not defined. Supply it in the config.json.".to_owned()),
    }
}

/// Where the constructor parameters come from: the field itself when it is
/// inline JSON, or the file it names.
#[derive(Debug, Clone)]
pub enum ParamsSource {
    /// The field holds the JSON text itself.
    Inline { text: String },
    /// The field names a file whose contents are the JSON text.
    FromFile { path: String },
}

/// Classifies the parameters field: a string with a `{` is inline JSON, and
/// one without is a path to a file to read.
pub fn params_source(params: &str) -> (r: ParamsSource)
    ensures
        params@.contains('{') ==> (r matches ParamsSource::Inline { text } && text@ == params@),
        !params@.contains('{') ==> (r matches ParamsSource::FromFile { path } && path@ == params@),
{
    if contains_brace(params) {
        ParamsSource::Inline { text: params.to_owned() }
    } else {
        ParamsSource::FromFile { path: params.to_owned() }
    }
}

/// Assembles the key pair from the two configuration fields: present exactly
/// when both the public and the secret key are given.
pub fn load_keypair(public_key: Option<&str>, secret_key: Option<&str>) -> (r: Option<KeyPair>)
    ensures
        r is Some <==> (public_key is Some && secret_key is Some),
        r matches Some(k) ==> {
            &&& public_key matches Some(p)
            &&& k.public@ == p@
            &&& secret_key matches Some(s)
            &&& k.secret@ == s@
        },
{
    if let (Some(p), Some(s)) = (public_key, secret_key) {
        Some(KeyPair { public: p.to_owned(), secret: s.to_owned() })
    } else {
        None
    }
}

/// What the signer of an address computation must be, given the key fields:
/// the external public key when a full key pair is configured, and unsigned
/// when the secret (or both keys) is absent.
pub open spec fn address_signer_ok(
    public_key: Option<Seq<char>>,
    secret_key: Option<Seq<char>>,
    s: Signer,
) -> bool {
    &&& (s is External <==> (public_key is Some && secret_key is Some))
    &&& s matches Signer::External { public_key: pk } ==> (public_key matches Some(p) && pk@ == p)
    &&& !(public_key is Some && secret_key is Some) ==> s is Unsigned
}

/// What the signer of the deployment message must be, given the key fields:
/// the full key pair when both keys are configured, and unsigned otherwise.
pub open spec fn message_signer_ok(
    public_key: Option<Seq<char>>,
    secret_key: Option<Seq<char>>,
    s: Signer,
) -> bool {
    &&& (s is WithKeys <==> (public_key is Some && secret_key is Some))
    &&& s matches Signer::WithKeys { keys } ==> {
        &&& public_key matches Some(p)
        &&& keys.public@ == p
        &&& secret_key matches Some(sc)
        &&& keys.secret@ == sc
    }
    &&& !(public_key is Some && secret_key is Some) ==> s is Unsigned
}

/// The signer used to compute the deployment address. A configuration with
/// only a public key, or with neither key, routes to an unsigned signer:
/// address computation never needs the secret.
pub fn address_signer(public_key: Option<&str>, secret_key: Option<&str>) -> (r: Signer)
    ensures
        address_signer_ok(view_opt_str(public_key), view_opt_str(secret_key), r),
{
    match load_keypair(public_key, secret_key) {
        Some(k) => Signer::External { public_key: k.public },
        None => Signer::Unsigned,
    }
}

/// The signer of the deployment message itself: the configured key pair, or
/// unsigned when it is absent.
pub fn message_signer(public_key: Option<&str>, secret_key: Option<&str>) -> (r: Signer)
    ensures
        message_signer_ok(view_opt_str(public_key), view_opt_str(secret_key), r),
{
    match load_keypair(public_key, secret_key) {
        Some(k) => Signer::WithKeys { keys: k },
        None => Signer::Unsigned,
    }
}

} // verus!
