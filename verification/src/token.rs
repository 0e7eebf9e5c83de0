//! The token codec: symmetric, authenticated encryption of a 16-byte session
//! identifier into an opaque bearer token, and the reverse.
//!
//! A bearer token is the URL-safe base64 encoding of an authenticated
//! ciphertext of the identifier under a process-wide secret. Decoding failure
//! of any kind — malformed base64, failed decryption, wrong plaintext length —
//! collapses to the single `Unauthorized` outcome, so the crypto layer cannot
//! be probed through distinct errors.

use vstd::prelude::*;

use crate::api_error::ApiErrorType;

verus! {

/// What base64's URL-safe padded engine encodes a byte string to.
pub uninterp spec fn b64_encode_of(b: Seq<u8>) -> Seq<char>;

/// What base64's URL-safe padded engine decodes a string to, if anything.
pub uninterp spec fn b64_decode_of(s: Seq<char>) -> Option<Seq<u8>>;

/// The characters URL-safe padded base64 output is drawn from: the URL-safe
/// alphabet and the padding character.
pub open spec fn is_b64_url_char(c: char) -> bool {
    ||| ('A' <= c && c <= 'Z')
    ||| ('a' <= c && c <= 'z')
    ||| ('0' <= c && c <= '9')
    ||| c == '-'
    ||| c == '_'
    ||| c == '='
}

/// Relies on base64's `URL_SAFE` engine `encode`: the encoding depends on the
/// input bytes alone, its length is `4 * ceil(n / 3)`, it stays within the
/// URL-safe alphabet plus padding, and `decode` inverts it.
#[verifier::external_body]
fn b64_encode(b: &Vec<u8>) -> (r: String)
    requires
        b@.len() <= usize::MAX / 4,
    ensures
        r@ == b64_encode_of(b@),
        r@.len() == ((b@.len() + 2) / 3) * 4,
        forall|i: int| 0 <= i < r@.len() ==> is_b64_url_char(#[trigger] r@[i]),
        b64_decode_of(r@) == Some(b@),
{
    base64::Engine::encode(&base64::engine::general_purpose::URL_SAFE, b.as_slice())
}

/// Relies on base64's `URL_SAFE` engine `decode`: decoding depends on the
/// input characters alone, and rejects exactly the strings that are not
/// canonical padded URL-safe base64.
#[verifier::external_body]
fn b64_decode(s: &str) -> (r: Option<Vec<u8>>)
    ensures
        match r {
            Some(v) => b64_decode_of(s@) == Some(v@),
            None => b64_decode_of(s@) is None,
        },
{
    match base64::Engine::decode(&base64::engine::general_purpose::URL_SAFE, s) {
        Ok(v) => Some(v),
        Err(_) => None,
    }
}

/// What simple_crypt's `decrypt` recovers from a ciphertext blob under a
/// secret, if anything: the key-derivation salt and the nonce travel inside
/// the blob, so the result depends on the blob and the secret alone.
pub uninterp spec fn decrypt_of(secret: Seq<u8>, ct: Seq<u8>) -> Option<Seq<u8>>;

/// Relies on simple_crypt's `encrypt`: on success the returned blob decrypts
/// back to the plaintext under the same secret, and is non-empty (it carries
/// a nonce and a salt). The blob itself is randomized, so nothing else is
/// promised of it.
#[verifier::external_body]
fn encrypt_bytes(data: &Vec<u8>, secret: &Vec<u8>) -> (r: Option<Vec<u8>>)
    ensures
        r matches Some(ct) ==> decrypt_of(secret@, ct@) == Some(data@) && ct@.len() > 0,
{
    match simple_crypt::encrypt(data.as_slice(), secret.as_slice()) {
        Ok(v) => Some(v),
        Err(_) => None,
    }
}

/// Relies on simple_crypt's `decrypt`: authenticated decryption, a function
/// of the blob and the secret alone, failing on any tampered or foreign blob.
#[verifier::external_body]
fn decrypt_bytes(data: &Vec<u8>, secret: &Vec<u8>) -> (r: Option<Vec<u8>>)
    ensures
        match r {
            Some(v) => decrypt_of(secret@, data@) == Some(v@),
            None => decrypt_of(secret@, data@) is None,
        },
{
    match simple_crypt::decrypt(data.as_slice(), secret.as_slice()) {
        Ok(v) => Some(v),
        Err(_) => None,
    }
}

/// Relies on uuid's `Uuid::new_v4`: a freshly generated identifier is 16
/// bytes; nothing more can be promised of a random value.
#[verifier::external_body]
fn random_id_bytes() -> (r: Vec<u8>)
    ensures
        r@.len() == 16,
{
    uuid::Uuid::new_v4().as_bytes().to_vec()
}

/// Compares two byte strings by content.
pub fn bytes_eq(a: &Vec<u8>, b: &Vec<u8>) -> (r: bool)
    ensures
        r == (a@ == b@),
{
    if a.len() != b.len() {
        return false;
    }
    let n = a.len();
    let mut i: usize = 0;
    while i < n
        invariant
            i <= n,
            n == a@.len() == b@.len(),
            forall|j: int| 0 <= j < i ==> a@[j] == b@[j],
        decreases n - i,
    {
        if a[i] != b[i] {
            return false;
        }
        i = i + 1;
    }
    proof {
        assert(a@ =~= b@);
    }
    true
}

/// A 128-bit session identifier, held as its 16 bytes.
#[derive(Debug)]
pub struct SessionId {
    bytes: Vec<u8>,
}

impl View for SessionId {
    type V = Seq<u8>;

    closed spec fn view(&self) -> Seq<u8> {
        self.bytes@
    }
}

impl SessionId {
    /// A session identifier is exactly 16 bytes.
    pub open spec fn wf(&self) -> bool {
        self@.len() == 16
    }

    /// Accepts exactly the 16-byte strings; anything else is `Unauthorized`,
    /// as for every other structural defect of a token.
    pub fn from_bytes(bytes: Vec<u8>) -> (r: Result<SessionId, ApiErrorType>)
        ensures
            match r {
                Ok(id) => id@ == bytes@ && id.wf(),
                Err(e) => bytes@.len() != 16 && e is Unauthorized,
            },
    {
        if bytes.len() == 16 {
            Ok(SessionId { bytes })
        } else {
            Err(ApiErrorType::Unauthorized)
        }
    }

    /// Generates a fresh random identifier.
    pub fn generate() -> (r: SessionId)
        ensures
            r.wf(),
    {
        SessionId { bytes: random_id_bytes() }
    }

    /// The identifier's bytes.
    pub fn as_bytes(&self) -> (r: &Vec<u8>)
        ensures
            r@ == self@,
    {
        &self.bytes
    }

    /// An owned copy of this identifier.
    pub fn duplicate(&self) -> (r: SessionId)
        ensures
            r@ == self@,
    {
        SessionId { bytes: self.bytes.clone() }
    }

    /// Content equality of identifiers.
    pub fn same_as(&self, other: &SessionId) -> (r: bool)
        ensures
            r == (self@ == other@),
    {
        bytes_eq(&self.bytes, &other.bytes)
    }
}

/// A 128-bit account identifier: the request-scoped identity a validated
/// session attaches to the request.
#[derive(Debug)]
pub struct DBId {
    bytes: Vec<u8>,
}

impl View for DBId {
    type V = Seq<u8>;

    closed spec fn view(&self) -> Seq<u8> {
        self.bytes@
    }
}

impl DBId {
    /// An account identifier is exactly 16 bytes.
    pub open spec fn wf(&self) -> bool {
        self@.len() == 16
    }

    /// Builds an identifier from its 16 bytes.
    pub fn from_bytes(bytes: Vec<u8>) -> (r: Result<DBId, ApiErrorType>)
        ensures
            match r {
                Ok(id) => id@ == bytes@ && id.wf(),
                Err(e) => bytes@.len() != 16 && e is Unauthorized,
            },
    {
        if bytes.len() == 16 {
            Ok(DBId { bytes })
        } else {
            Err(ApiErrorType::Unauthorized)
        }
    }

    /// The identifier's bytes.
    pub fn as_bytes(&self) -> (r: &Vec<u8>)
        ensures
            r@ == self@,
    {
        &self.bytes
    }

    /// An owned copy of this identifier.
    pub fn duplicate(&self) -> (r: DBId)
        ensures
            r@ == self@,
    {
        DBId { bytes: self.bytes.clone() }
    }

    /// Content equality of identifiers.
    pub fn same_as(&self, other: &DBId) -> (r: bool)
        ensures
            r == (self@ == other@),
    {
        bytes_eq(&self.bytes, &other.bytes)
    }
}

/// The plaintext a bearer token resolves to under `secret`, if any: base64
/// decoding followed by authenticated decryption.
pub open spec fn token_plaintext(secret: Seq<u8>, tok: Seq<char>) -> Option<Seq<u8>> {
    match b64_decode_of(tok) {
        Some(ct) => decrypt_of(secret, ct),
        None => None,
    }
}

/// The session identifier a bearer token resolves to under `secret`, if any:
/// the plaintext must be exactly 16 bytes.
pub open spec fn token_session_id(secret: Seq<u8>, tok: Seq<char>) -> Option<Seq<u8>> {
    match token_plaintext(secret, tok) {
        Some(p) => if p.len() == 16 {
            Some(p)
        } else {
            None
        },
        None => None,
    }
}

/// The symmetric codec between session identifiers and opaque bearer tokens,
/// parameterized by the process-wide secret injected at construction.
pub struct TokenCodec {
    secret: Vec<u8>,
}

impl View for TokenCodec {
    type V = Seq<u8>;

    closed spec fn view(&self) -> Seq<u8> {
        self.secret@
    }
}

impl TokenCodec {
    /// Builds a codec over the given secret.
    pub fn new(secret: Vec<u8>) -> (r: TokenCodec)
        ensures
            r@ == secret@,
    {
        TokenCodec { secret }
    }

    /// Encrypts a session identifier into a bearer token. On success the
    /// token is non-empty, stays within the URL-safe base64 alphabet (so it
    /// is fit for a header line), and resolves back to exactly the
    /// identifier that went in; encryption failure collapses to
    /// `Unauthorized`.
    pub fn encrypt(&self, id: &SessionId) -> (r: Result<String, ApiErrorType>)
        requires
            id.wf(),
        ensures
            match r {
                Ok(t) => {
                    &&& token_session_id(self@, t@) == Some(id@)
                    &&& t@.len() > 0
                    &&& forall|i: int| 0 <= i < t@.len() ==> is_b64_url_char(#[trigger] t@[i])
                },
                Err(e) => e is Unauthorized,
            },
    {
        match encrypt_bytes(id.as_bytes(), &self.secret) {
            Some(ct) => {
                if ct.len() <= usize::MAX / 4 {
                    Ok(b64_encode(&ct))
                } else {
                    Err(ApiErrorType::Unauthorized)
                }
            },
            None => Err(ApiErrorType::Unauthorized),
        }
    }

    /// Decrypts a bearer token back to a session identifier. Malformed
    /// base64, failed decryption and a plaintext of the wrong length all
    /// collapse to the same `Unauthorized` outcome.
    pub fn decrypt(&self, token: &str) -> (r: Result<SessionId, ApiErrorType>)
        ensures
            match r {
                Ok(id) => token_session_id(self@, token@) == Some(id@) && id.wf(),
                Err(e) => e is Unauthorized && token_session_id(self@, token@) is None,
            },
    {
        match b64_decode(token) {
            Some(ct) => {
                match decrypt_bytes(&ct, &self.secret) {
                    Some(plain) => SessionId::from_bytes(plain),
                    None => Err(ApiErrorType::Unauthorized),
                }
            },
            None => Err(ApiErrorType::Unauthorized),
        }
    }
}

} // verus!
