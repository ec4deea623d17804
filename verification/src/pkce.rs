//! The secrets of one sign-in: the anti-forgery state, the PKCE verifier and
//! the challenge derived from it.

use base64::engine::general_purpose::URL_SAFE_NO_PAD;
use base64::Engine;
use rand::distributions::Alphanumeric;
use rand::Rng;
use sha2::Digest;
use sha2::Sha256;
use vstd::prelude::*;
use vstd::string::*;
use vstd::utf8::encode_utf8;

verus! {

/// The number of characters of a generated state.
pub const STATE_LENGTH: usize = 32;

/// The number of characters of a generated code verifier.
pub const VERIFIER_LENGTH: usize = 96;

/// The SHA-256 digest of `data`.
pub uninterp spec fn sha256(data: Seq<u8>) -> Seq<u8>;

/// The base64 text of `data` in the URL-safe alphabet, without padding.
pub uninterp spec fn base64url_no_pad(data: Seq<u8>) -> Seq<char>;

/// Whether `c` is an ASCII letter or digit.
pub open spec fn is_alphanumeric(c: char) -> bool {
    let n = c as u32;
    ||| 0x30 <= n <= 0x39
    ||| 0x41 <= n <= 0x5A
    ||| 0x61 <= n <= 0x7A
}

/// Whether `text` consists of ASCII letters and digits.
pub open spec fn all_alphanumeric(text: Seq<char>) -> bool {
    forall|i: int| 0 <= i < text.len() ==> is_alphanumeric(#[trigger] text[i])
}

/// The PKCE challenge that belongs to `verifier`: the unpadded URL-safe
/// base64 text of the SHA-256 digest of its bytes.
pub open spec fn code_challenge_of(verifier: Seq<char>) -> Seq<char> {
    base64url_no_pad(sha256(encode_utf8(verifier)))
}

/// Calls `Sha256::digest` of the `sha2` crate: the result is the SHA-256
/// digest of `data`, which has 32 bytes.
#[verifier::external_body]
fn sha256_digest(data: &[u8]) -> (digest: Vec<u8>)
    ensures
        digest@ == sha256(data@),
        digest@.len() == 32,
{
    Sha256::digest(data).to_vec()
}

/// Calls `encode` of the `base64` crate's `URL_SAFE_NO_PAD` engine: the
/// result is the base64 text of `data` in the URL-safe alphabet, without
/// padding. It panics where the encoded length cannot be computed or
/// allocated, so inputs of more than a quarter of the address space are
/// left out.
#[verifier::external_body]
fn base64url_encode(data: &[u8]) -> (text: String)
    requires
        data@.len() <= usize::MAX / 4,
    ensures
        text@ == base64url_no_pad(data@),
{
    URL_SAFE_NO_PAD.encode(data)
}

/// Draws `len` samples of the `rand` crate's `Alphanumeric` distribution
/// from the thread's generator. Which characters come is left open: each is
/// an ASCII letter or digit, and there are `len` of them.
#[verifier::external_body]
fn random_alphanumeric(len: usize) -> (text: String)
    ensures
        text@.len() == len,
        all_alphanumeric(text@),
{
    rand::thread_rng().sample_iter(&Alphanumeric).take(len).map(char::from).collect()
}

/// Derives the PKCE challenge of `verifier`.
pub fn derive_challenge(verifier: &str) -> (challenge: String)
    ensures
        challenge@ == code_challenge_of(verifier@),
{
    let digest = sha256_digest(verifier.as_bytes());
    base64url_encode(digest.as_slice())
}

/// The secrets of one sign-in. They live for one exchange and are neither
/// stored nor logged.
#[derive(Debug, Clone, PartialEq, Eq)]
pub struct PkceMaterial {
    /// The anti-forgery token that the redirect must bring back.
    pub state: String,
    /// The secret that the token request proves possession of.
    pub code_verifier: String,
    /// The challenge sent with the authorization request.
    pub code_challenge: String,
}

/// A [`PkceMaterial`] with its texts as character sequences.
pub struct PkceMaterialView {
    pub state: Seq<char>,
    pub code_verifier: Seq<char>,
    pub code_challenge: Seq<char>,
}

impl View for PkceMaterial {
    type V = PkceMaterialView;

    open spec fn view(&self) -> PkceMaterialView {
        PkceMaterialView {
            state: self.state@,
            code_verifier: self.code_verifier@,
            code_challenge: self.code_challenge@,
        }
    }
}

impl PkceMaterial {
    /// The challenge is the one that belongs to the verifier.
    pub open spec fn well_formed(&self) -> bool {
        self.code_challenge@ == code_challenge_of(self.code_verifier@)
    }

    /// State and verifier are long enough for every provider and hold
    /// letters and digits only.
    pub open spec fn is_strong(&self) -> bool {
        &&& self.state@.len() >= 32
        &&& self.code_verifier@.len() >= 96
        &&& all_alphanumeric(self.state@)
        &&& all_alphanumeric(self.code_verifier@)
    }

    /// Builds the material from a state and a verifier, deriving the
    /// challenge.
    pub fn from_secrets(state: String, code_verifier: String) -> (pkce: PkceMaterial)
        ensures
            pkce.state@ == state@,
            pkce.code_verifier@ == code_verifier@,
            pkce.well_formed(),
    {
        let code_challenge = derive_challenge(code_verifier.as_str());
        PkceMaterial { state, code_verifier, code_challenge }
    }

    /// Draws a fresh state and verifier and derives the challenge.
    pub fn generate() -> (pkce: PkceMaterial)
        ensures
            pkce.well_formed(),
            pkce.is_strong(),
            pkce.state@.len() == STATE_LENGTH,
            pkce.code_verifier@.len() == VERIFIER_LENGTH,
    {
        let state = random_alphanumeric(STATE_LENGTH);
        let code_verifier = random_alphanumeric(VERIFIER_LENGTH);
        PkceMaterial::from_secrets(state, code_verifier)
    }
}

/// The challenge is a function of the verifier: two well-formed materials
/// with the same verifier carry the same challenge.
pub proof fn challenge_is_determined_by_verifier(a: PkceMaterial, b: PkceMaterial)
    requires
        a.well_formed(),
        b.well_formed(),
        a.code_verifier@ == b.code_verifier@,
    ensures
        a.code_challenge@ == b.code_challenge@,
{
}

} // verus!
