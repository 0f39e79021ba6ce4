//! Electronic signatures: request tokens, verification codes, evidence hashes and the signing flow.
use vstd::prelude::*;
use vstd::utf8::encode_utf8;
use rand::RngCore;
use sha2::Digest;
use crate::ids::{hex_lower, uuid_text, uuid_to_text};
use crate::text::{owned, push_char, str_eq};

verus! {

/// How a participant signs.
#[derive(Clone, Copy, Debug, PartialEq, Eq, Structural)]
pub enum SignatureType {
    Handdrawn,
    DigitalCertificate,
    Otp,
    Biometric,
}

impl SignatureType {
    /// The name of the value in the database and on the wire.
    pub open spec fn spec_code(self) -> Seq<char> {
        match self {
            SignatureType::Handdrawn => "HANDDRAWN"@,
            SignatureType::DigitalCertificate => "DIGITAL_CERTIFICATE"@,
            SignatureType::Otp => "OTP"@,
            SignatureType::Biometric => "BIOMETRIC"@,
        }
    }

    /// The name of the value in the database and on the wire.
    pub fn code(&self) -> (r: &'static str)
        ensures
            r@ == self.spec_code(),
    {
        match self {
            SignatureType::Handdrawn => "HANDDRAWN",
            SignatureType::DigitalCertificate => "DIGITAL_CERTIFICATE",
            SignatureType::Otp => "OTP",
            SignatureType::Biometric => "BIOMETRIC",
        }
    }

    /// The value with the given name, if any.
    pub fn from_code(s: &str) -> (r: Option<Self>)
        ensures
            r matches Some(v) ==> v.spec_code() == s@,
            r is None ==> forall|v: Self| v.spec_code() != s@,
            forall|v: Self| #[trigger] v.spec_code() == s@ ==> r == Some(v),
    {
        let r = if str_eq(s, "HANDDRAWN") {
            Some(SignatureType::Handdrawn)
        } else if str_eq(s, "DIGITAL_CERTIFICATE") {
            Some(SignatureType::DigitalCertificate)
        } else if str_eq(s, "OTP") {
            Some(SignatureType::Otp)
        } else if str_eq(s, "BIOMETRIC") {
            Some(SignatureType::Biometric)
        } else {
            None
        };
        proof {
            assert forall|v: Self| #[trigger] v.spec_code() == s@ implies r == Some(v) by {
                if let Some(w) = r {
                    Self::lemma_code_injective(v, w);
                }
            }
        }
        r
    }

    /// Distinct values have distinct names.
    pub proof fn lemma_code_injective(a: Self, b: Self)
        ensures
            a.spec_code() == b.spec_code() ==> a == b,
    {
        reveal_strlit("HANDDRAWN");
        reveal_strlit("DIGITAL_CERTIFICATE");
        reveal_strlit("OTP");
        reveal_strlit("BIOMETRIC");
        match (a, b) {
            (SignatureType::Handdrawn, SignatureType::DigitalCertificate) => assert(a.spec_code().len() != b.spec_code().len()),
            (SignatureType::Handdrawn, SignatureType::Otp) => assert(a.spec_code().len() != b.spec_code().len()),
            (SignatureType::Handdrawn, SignatureType::Biometric) => assert(a.spec_code()[0] != b.spec_code()[0]),
            (SignatureType::DigitalCertificate, SignatureType::Handdrawn) => assert(a.spec_code().len() != b.spec_code().len()),
            (SignatureType::DigitalCertificate, SignatureType::Otp) => assert(a.spec_code().len() != b.spec_code().len()),
            (SignatureType::DigitalCertificate, SignatureType::Biometric) => assert(a.spec_code().len() != b.spec_code().len()),
            (SignatureType::Otp, SignatureType::Handdrawn) => assert(a.spec_code().len() != b.spec_code().len()),
            (SignatureType::Otp, SignatureType::DigitalCertificate) => assert(a.spec_code().len() != b.spec_code().len()),
            (SignatureType::Otp, SignatureType::Biometric) => assert(a.spec_code().len() != b.spec_code().len()),
            (SignatureType::Biometric, SignatureType::Handdrawn) => assert(a.spec_code()[0] != b.spec_code()[0]),
            (SignatureType::Biometric, SignatureType::DigitalCertificate) => assert(a.spec_code().len() != b.spec_code().len()),
            (SignatureType::Biometric, SignatureType::Otp) => assert(a.spec_code().len() != b.spec_code().len()),
            _ => {},
        }
    }
}

/// State of a request to sign a contract.
#[derive(Clone, Copy, Debug, PartialEq, Eq, Structural)]
pub enum SignatureRequestStatus {
    Pending,
    Opened,
    Viewed,
    Signed,
    Rejected,
    Expired,
    Cancelled,
}

impl SignatureRequestStatus {
    /// The name of the value in the database and on the wire.
    pub open spec fn spec_code(self) -> Seq<char> {
        match self {
            SignatureRequestStatus::Pending => "PENDING"@,
            SignatureRequestStatus::Opened => "OPENED"@,
            SignatureRequestStatus::Viewed => "VIEWED"@,
            SignatureRequestStatus::Signed => "SIGNED"@,
            SignatureRequestStatus::Rejected => "REJECTED"@,
            SignatureRequestStatus::Expired => "EXPIRED"@,
            SignatureRequestStatus::Cancelled => "CANCELLED"@,
        }
    }

    /// The name of the value in the database and on the wire.
    pub fn code(&self) -> (r: &'static str)
        ensures
            r@ == self.spec_code(),
    {
        match self {
            SignatureRequestStatus::Pending => "PENDING",
            SignatureRequestStatus::Opened => "OPENED",
            SignatureRequestStatus::Viewed => "VIEWED",
            SignatureRequestStatus::Signed => "SIGNED",
            SignatureRequestStatus::Rejected => "REJECTED",
            SignatureRequestStatus::Expired => "EXPIRED",
            SignatureRequestStatus::Cancelled => "CANCELLED",
        }
    }

    /// The value with the given name, if any.
    pub fn from_code(s: &str) -> (r: Option<Self>)
        ensures
            r matches Some(v) ==> v.spec_code() == s@,
            r is None ==> forall|v: Self| v.spec_code() != s@,
            forall|v: Self| #[trigger] v.spec_code() == s@ ==> r == Some(v),
    {
        let r = if str_eq(s, "PENDING") {
            Some(SignatureRequestStatus::Pending)
        } else if str_eq(s, "OPENED") {
            Some(SignatureRequestStatus::Opened)
        } else if str_eq(s, "VIEWED") {
            Some(SignatureRequestStatus::Viewed)
        } else if str_eq(s, "SIGNED") {
            Some(SignatureRequestStatus::Signed)
        } else if str_eq(s, "REJECTED") {
            Some(SignatureRequestStatus::Rejected)
        } else if str_eq(s, "EXPIRED") {
            Some(SignatureRequestStatus::Expired)
        } else if str_eq(s, "CANCELLED") {
            Some(SignatureRequestStatus::Cancelled)
        } else {
            None
        };
        proof {
            assert forall|v: Self| #[trigger] v.spec_code() == s@ implies r == Some(v) by {
                if let Some(w) = r {
                    Self::lemma_code_injective(v, w);
                }
            }
        }
        r
    }

    /// Distinct values have distinct names.
    pub proof fn lemma_code_injective(a: Self, b: Self)
        ensures
            a.spec_code() == b.spec_code() ==> a == b,
    {
        reveal_strlit("PENDING");
        reveal_strlit("OPENED");
        reveal_strlit("VIEWED");
        reveal_strlit("SIGNED");
        reveal_strlit("REJECTED");
        reveal_strlit("EXPIRED");
        reveal_strlit("CANCELLED");
        match (a, b) {
            (SignatureRequestStatus::Pending, SignatureRequestStatus::Opened) => assert(a.spec_code().len() != b.spec_code().len()),
            (SignatureRequestStatus::Pending, SignatureRequestStatus::Viewed) => assert(a.spec_code().len() != b.spec_code().len()),
            (SignatureRequestStatus::Pending, SignatureRequestStatus::Signed) => assert(a.spec_code().len() != b.spec_code().len()),
            (SignatureRequestStatus::Pending, SignatureRequestStatus::Rejected) => assert(a.spec_code().len() != b.spec_code().len()),
            (SignatureRequestStatus::Pending, SignatureRequestStatus::Expired) => assert(a.spec_code()[0] != b.spec_code()[0]),
            (SignatureRequestStatus::Pending, SignatureRequestStatus::Cancelled) => assert(a.spec_code().len() != b.spec_code().len()),
            (SignatureRequestStatus::Opened, SignatureRequestStatus::Pending) => assert(a.spec_code().len() != b.spec_code().len()),
            (SignatureRequestStatus::Opened, SignatureRequestStatus::Viewed) => assert(a.spec_code()[0] != b.spec_code()[0]),
            (SignatureRequestStatus::Opened, SignatureRequestStatus::Signed) => assert(a.spec_code()[0] != b.spec_code()[0]),
            (SignatureRequestStatus::Opened, SignatureRequestStatus::Rejected) => assert(a.spec_code().len() != b.spec_code().len()),
            (SignatureRequestStatus::Opened, SignatureRequestStatus::Expired) => assert(a.spec_code().len() != b.spec_code().len()),
            (SignatureRequestStatus::Opened, SignatureRequestStatus::Cancelled) => assert(a.spec_code().len() != b.spec_code().len()),
            (SignatureRequestStatus::Viewed, SignatureRequestStatus::Pending) => assert(a.spec_code().len() != b.spec_code().len()),
            (SignatureRequestStatus::Viewed, SignatureRequestStatus::Opened) => assert(a.spec_code()[0] != b.spec_code()[0]),
            (SignatureRequestStatus::Viewed, SignatureRequestStatus::Signed) => assert(a.spec_code()[0] != b.spec_code()[0]),
            (SignatureRequestStatus::Viewed, SignatureRequestStatus::Rejected) => assert(a.spec_code().len() != b.spec_code().len()),
            (SignatureRequestStatus::Viewed, SignatureRequestStatus::Expired) => assert(a.spec_code().len() != b.spec_code().len()),
            (SignatureRequestStatus::Viewed, SignatureRequestStatus::Cancelled) => assert(a.spec_code().len() != b.spec_code().len()),
            (SignatureRequestStatus::Signed, SignatureRequestStatus::Pending) => assert(a.spec_code().len() != b.spec_code().len()),
            (SignatureRequestStatus::Signed, SignatureRequestStatus::Opened) => assert(a.spec_code()[0] != b.spec_code()[0]),
            (SignatureRequestStatus::Signed, SignatureRequestStatus::Viewed) => assert(a.spec_code()[0] != b.spec_code()[0]),
            (SignatureRequestStatus::Signed, SignatureRequestStatus::Rejected) => assert(a.spec_code().len() != b.spec_code().len()),
            (SignatureRequestStatus::Signed, SignatureRequestStatus::Expired) => assert(a.spec_code().len() != b.spec_code().len()),
            (SignatureRequestStatus::Signed, SignatureRequestStatus::Cancelled) => assert(a.spec_code().len() != b.spec_code().len()),
            (SignatureRequestStatus::Rejected, SignatureRequestStatus::Pending) => assert(a.spec_code().len() != b.spec_code().len()),
            (SignatureRequestStatus::Rejected, SignatureRequestStatus::Opened) => assert(a.spec_code().len() != b.spec_code().len()),
            (SignatureRequestStatus::Rejected, SignatureRequestStatus::Viewed) => assert(a.spec_code().len() != b.spec_code().len()),
            (SignatureRequestStatus::Rejected, SignatureRequestStatus::Signed) => assert(a.spec_code().len() != b.spec_code().len()),
            (SignatureRequestStatus::Rejected, SignatureRequestStatus::Expired) => assert(a.spec_code().len() != b.spec_code().len()),
            (SignatureRequestStatus::Rejected, SignatureRequestStatus::Cancelled) => assert(a.spec_code().len() != b.spec_code().len()),
            (SignatureRequestStatus::Expired, SignatureRequestStatus::Pending) => assert(a.spec_code()[0] != b.spec_code()[0]),
            (SignatureRequestStatus::Expired, SignatureRequestStatus::Opened) => assert(a.spec_code().len() != b.spec_code().len()),
            (SignatureRequestStatus::Expired, SignatureRequestStatus::Viewed) => assert(a.spec_code().len() != b.spec_code().len()),
            (SignatureRequestStatus::Expired, SignatureRequestStatus::Signed) => assert(a.spec_code().len() != b.spec_code().len()),
            (SignatureRequestStatus::Expired, SignatureRequestStatus::Rejected) => assert(a.spec_code().len() != b.spec_code().len()),
            (SignatureRequestStatus::Expired, SignatureRequestStatus::Cancelled) => assert(a.spec_code().len() != b.spec_code().len()),
            (SignatureRequestStatus::Cancelled, SignatureRequestStatus::Pending) => assert(a.spec_code().len() != b.spec_code().len()),
            (SignatureRequestStatus::Cancelled, SignatureRequestStatus::Opened) => assert(a.spec_code().len() != b.spec_code().len()),
            (SignatureRequestStatus::Cancelled, SignatureRequestStatus::Viewed) => assert(a.spec_code().len() != b.spec_code().len()),
            (SignatureRequestStatus::Cancelled, SignatureRequestStatus::Signed) => assert(a.spec_code().len() != b.spec_code().len()),
            (SignatureRequestStatus::Cancelled, SignatureRequestStatus::Rejected) => assert(a.spec_code().len() != b.spec_code().len()),
            (SignatureRequestStatus::Cancelled, SignatureRequestStatus::Expired) => assert(a.spec_code().len() != b.spec_code().len()),
            _ => {},
        }
    }
}

/// Answer to a submitted signature.
pub struct SubmitSignatureResponseDto {
    pub success: bool,
    pub message: String,
}

/// Answer to an accepted signature.
pub fn signature_recorded() -> (r: SubmitSignatureResponseDto)
    ensures
        r.success,
        r.message@ == "Firma registrada exitosamente"@,
{
    SubmitSignatureResponseDto { success: true, message: owned("Firma registrada exitosamente") }
}

/// A request for one participant's signature.
pub struct CreateSignatureRequestDto {
    pub participant_id: u128,
    pub signature_order: i32,
    pub required_signature: bool,
    pub signature_type: Option<SignatureType>,
}

/// The signature requests to create for a contract.
pub struct InitSignaturesDto {
    pub requests: Vec<CreateSignatureRequestDto>,
}

/// A created signature request as reported to its creator (`expires_at` in milliseconds since
/// the Unix epoch).
pub struct SignatureRequestResponseDto {
    pub id: u128,
    pub contract_id: u128,
    pub participant_id: u128,
    pub status: SignatureRequestStatus,
    pub signature_order: i32,
    pub required_signature: bool,
    pub expires_at: Option<i64>,
    pub link: Option<String>,
}

/// What a signer sees of a request before signing (`contract_snapshot` is the snapshot's JSON text).
pub struct PublicSignatureInfoDto {
    pub contract_id: u128,
    pub participant_id: u128,
    pub status: SignatureRequestStatus,
    pub expires_at: Option<i64>,
    pub contract_snapshot: Option<String>,
}

/// A submitted signature: the image (base64) and the signer's device and position.
pub struct SubmitSignatureDto {
    pub signature_base64: String,
    pub browser: Option<String>,
    pub operating_system: Option<String>,
    pub ip: Option<String>,
    pub user_agent: Option<String>,
    pub latitude: Option<crate::money::Amount>,
    pub longitude: Option<crate::money::Amount>,
}

/// The result of checking a verification code.
pub struct VerificationResponseDto {
    pub valid: bool,
    pub contract_id: u128,
    pub signature_sha256: Option<String>,
    pub pdf_sha256: Option<String>,
    pub signed_at: Option<i64>,
    pub status: SignatureRequestStatus,
    pub participants_signed: usize,
    pub total_participants: usize,
}

/// The report of a newly created request: pending, with the request's order and requirement,
/// its expiry, and the signing link of its token.
pub fn request_response(
    id: u128,
    contract_id: u128,
    req: &CreateSignatureRequestDto,
    expires_at: i64,
    token: &str,
) -> (r: SignatureRequestResponseDto)
    ensures
        r.id == id,
        r.contract_id == contract_id,
        r.participant_id == req.participant_id,
        r.status == SignatureRequestStatus::Pending,
        r.signature_order == req.signature_order,
        r.required_signature == req.required_signature,
        r.expires_at == Some(expires_at),
        r.link matches Some(l) && l@ == "https://inmonea.agentech.ar/s/"@ + token@,
{
    SignatureRequestResponseDto {
        id,
        contract_id,
        participant_id: req.participant_id,
        status: SignatureRequestStatus::Pending,
        signature_order: req.signature_order,
        required_signature: req.required_signature,
        expires_at: Some(expires_at),
        link: Some(signing_link(token)),
    }
}

/// Data-access operations of the signature tables.
pub struct SignatureRepository;

/// Signature requests: tokens, codes and the steps of signing.
pub struct SignatureService;

// ---------------------------------------------------------------------------
// Hashes, hex text and random values
// ---------------------------------------------------------------------------

/// The SHA-256 digest of `data` (sha2's `Sha256`).
pub uninterp spec fn sha256_digest(data: Seq<u8>) -> Seq<u8>;

/// SHA-256 of `data` (sha2's `Sha256::digest`). The digest is 32 bytes long; its value is left
/// to the name `sha256_digest`, as the hash function is not restated here.
#[verifier::external_body]
fn sha256(data: &[u8]) -> (r: Vec<u8>)
    ensures
        r@ == sha256_digest(data@),
        r.len() == 32,
{
    sha2::Sha256::digest(data).to_vec()
}

/// Lower-case hexadecimal text of `bytes`, two digits per byte, high digit first.
pub open spec fn hex_text(bytes: Seq<u8>) -> Seq<char> {
    Seq::new(
        2 * bytes.len(),
        |i: int|
            if i % 2 == 0 {
                hex_lower(bytes[i / 2] as int / 16)
            } else {
                hex_lower(bytes[i / 2] as int % 16)
            },
    )
}

/// Hexadecimal text of `data` (hex's `encode`, which writes lower-case digits).
#[verifier::external_body]
fn hex_encode(data: &[u8]) -> (r: String)
    ensures
        r@ == hex_text(data@),
{
    hex::encode(data)
}

/// `n` bytes from the operating system's random source (rand's `OsRng::fill_bytes`). Nothing is
/// stated of their values; the source panics only when the operating system cannot supply them.
#[verifier::external_body]
fn random_bytes(n: usize) -> (r: Vec<u8>)
    ensures
        r.len() == n,
{
    let mut buf = vec![0u8; n];
    rand::rngs::OsRng.fill_bytes(&mut buf);
    buf
}

/// What base64's `decode` (standard alphabet, with padding) makes of a text: the bytes, or the
/// text of the error.
pub uninterp spec fn base64_decoding(s: Seq<char>) -> Result<Seq<u8>, Seq<char>>;

/// Decodes standard base64 with padding (base64's `decode`); the error is given as its text.
/// The decoding itself is left to the name `base64_decoding`.
#[verifier::external_body]
#[allow(deprecated)]
fn base64_decode(s: &str) -> (r: Result<Vec<u8>, String>)
    ensures
        match r {
            Ok(v) => base64_decoding(s@) == Ok::<Seq<u8>, Seq<char>>(v@),
            Err(e) => base64_decoding(s@) == Err::<Seq<u8>, Seq<char>>(e@),
        },
{
    base64::decode(s).map_err(|e| e.to_string())
}

/// Text of lower-case hexadecimal digits.
pub open spec fn is_lower_hex(t: Seq<char>) -> bool {
    forall|i: int| 0 <= i < t.len() ==> ('0' <= #[trigger] t[i] && t[i] <= '9') || ('a' <= t[i] && t[i] <= 'f')
}

/// Text of upper-case hexadecimal digits.
pub open spec fn is_upper_hex(t: Seq<char>) -> bool {
    forall|i: int| 0 <= i < t.len() ==> ('0' <= #[trigger] t[i] && t[i] <= '9') || ('A' <= t[i] && t[i] <= 'F')
}

/// Upper-case form of a hexadecimal digit.
pub open spec fn upper_digit(c: char) -> char {
    if 'a' <= c && c <= 'f' { ((c as u32) - 32) as char } else { c }
}

proof fn lemma_hex_text_lower(bytes: Seq<u8>)
    ensures
        is_lower_hex(hex_text(bytes)),
        hex_text(bytes).len() == 2 * bytes.len(),
{
    let t = hex_text(bytes);
    assert forall|i: int| 0 <= i < t.len() implies ('0' <= #[trigger] t[i] && t[i] <= '9') || ('a' <= t[i] && t[i] <= 'f') by {
        let b = bytes[i / 2] as int;
        assert(0 <= b / 16 < 16);
        assert(0 <= b % 16 < 16);
    }
}

/// Upper-case form of a text of hexadecimal digits (std's `str::to_uppercase` on such a text).
fn hex_to_upper(s: &str) -> (r: String)
    requires
        is_lower_hex(s@),
    ensures
        r@.len() == s@.len(),
        forall|i: int| 0 <= i < s@.len() ==> #[trigger] r@[i] == upper_digit(s@[i]),
        is_upper_hex(r@),
{
    let v = crate::text::chars_of(s);
    let mut r = String::new();
    let mut i: usize = 0;
    while i < v.len()
        invariant
            v@ == s@,
            is_lower_hex(s@),
            i <= v.len(),
            r@.len() == i,
            forall|k: int| 0 <= k < i ==> #[trigger] r@[k] == upper_digit(s@[k]),
            is_upper_hex(r@),
        decreases v.len() - i,
    {
        let c = v[i];
        assert(('0' <= s@[i as int] && s@[i as int] <= '9') || ('a' <= s@[i as int] && s@[i as int] <= 'f'));
        let u = if 'a' <= c && c <= 'f' {
            char_minus_32(c)
        } else {
            c
        };
        push_char(&mut r, u);
        i += 1;
    }
    r
}

fn char_minus_32(c: char) -> (r: char)
    requires
        'a' <= c && c <= 'f',
    ensures
        r == ((c as u32) - 32) as char,
        'A' <= r && r <= 'F',
{
    match c {
        'a' => 'A',
        'b' => 'B',
        'c' => 'C',
        'd' => 'D',
        'e' => 'E',
        _ => 'F',
    }
}

/// The stored hash of a signing token: hex text of the SHA-256 of the token's UTF-8 bytes.
pub open spec fn token_hash_spec(token: Seq<char>) -> Seq<char> {
    hex_text(sha256_digest(encode_utf8(token)))
}

impl SignatureService {
    /// A fresh signing token and its hash: the token is the hex text of 32 random bytes, and the
    /// hash is what `hash_token` computes of it.
    pub fn generate_secure_token() -> (r: (String, String))
        ensures
            r.0@.len() == 64,
            is_lower_hex(r.0@),
            r.1@ == token_hash_spec(r.0@),
            r.1@.len() == 64,
            is_lower_hex(r.1@),
    {
        let key = random_bytes(32);
        let plain = hex_encode(key.as_slice());
        proof {
            lemma_hex_text_lower(key@);
        }
        let hash = Self::hash_token(plain.as_str());
        (plain, hash)
    }

    /// A fresh verification code: eight upper-case hexadecimal digits of 4 random bytes.
    pub fn generate_verification_code() -> (r: String)
        ensures
            r@.len() == 8,
            is_upper_hex(r@),
    {
        let key = random_bytes(4);
        let lower = hex_encode(key.as_slice());
        proof {
            lemma_hex_text_lower(key@);
        }
        hex_to_upper(lower.as_str())
    }

    /// Hex text of the SHA-256 of `content`.
    pub fn hash_content(content: &[u8]) -> (r: String)
        ensures
            r@ == hex_text(sha256_digest(content@)),
            r@.len() == 64,
            is_lower_hex(r@),
    {
        let digest = sha256(content);
        proof {
            lemma_hex_text_lower(digest@);
        }
        hex_encode(digest.as_slice())
    }

    /// Hash under which a signing token is stored and looked up.
    pub fn hash_token(token: &str) -> (r: String)
        ensures
            r@ == token_hash_spec(token@),
            r@.len() == 64,
            is_lower_hex(r@),
    {
        Self::hash_content(token.as_bytes())
    }

    /// The evidence hash of a submitted signature: hex text of the SHA-256 of its decoded image,
    /// or the decoding error.
    pub fn signature_sha256(signature_base64: &str) -> (r: Result<String, String>)
        ensures
            match base64_decoding(signature_base64@) {
                Ok(bytes) => r matches Ok(h) && h@ == hex_text(sha256_digest(bytes)) && h@.len() == 64,
                Err(e) => r matches Err(m) && m@ == e,
            },
    {
        match Self::decode_signature(signature_base64) {
            Ok(bytes) => Ok(Self::hash_content(bytes.as_slice())),
            Err(e) => Err(e),
        }
    }

    /// The image bytes of a submitted signature, decoded from base64.
    pub fn decode_signature(signature_base64: &str) -> (r: Result<Vec<u8>, String>)
        ensures
            match r {
                Ok(v) => base64_decoding(signature_base64@) == Ok::<Seq<u8>, Seq<char>>(v@),
                Err(e) => base64_decoding(signature_base64@) == Err::<Seq<u8>, Seq<char>>(e@),
            },
    {
        base64_decode(signature_base64)
    }
}

// ---------------------------------------------------------------------------
// Paths, links and the signing flow
// ---------------------------------------------------------------------------

/// Storage path of a signature image: `tenant/contract/signatures/request.png`.
pub fn signature_image_path(tenant_id: u128, contract_id: u128, request_id: u128) -> (r: String)
    ensures
        r@ == uuid_text(tenant_id) + "/"@ + uuid_text(contract_id) + "/signatures/"@ + uuid_text(
            request_id,
        ) + ".png"@,
{
    let mut r = uuid_to_text(tenant_id);
    r.append("/");
    let c = uuid_to_text(contract_id);
    r.append(c.as_str());
    r.append("/signatures/");
    let q = uuid_to_text(request_id);
    r.append(q.as_str());
    r.append(".png");
    r
}

/// Storage path of a contract PDF: `tenant/contract/<file>`.
fn contract_pdf_path(tenant_id: u128, contract_id: u128, file: &str) -> (r: String)
    ensures
        r@ == uuid_text(tenant_id) + "/"@ + uuid_text(contract_id) + "/"@ + file@,
{
    let mut r = uuid_to_text(tenant_id);
    r.append("/");
    let c = uuid_to_text(contract_id);
    r.append(c.as_str());
    r.append("/");
    r.append(file);
    r
}

/// Storage path of the unsigned contract PDF.
pub fn original_pdf_path(tenant_id: u128, contract_id: u128) -> (r: String)
    ensures
        r@ == uuid_text(tenant_id) + "/"@ + uuid_text(contract_id) + "/"@ + "original.pdf"@,
{
    contract_pdf_path(tenant_id, contract_id, "original.pdf")
}

/// Storage path of the fully signed contract PDF.
pub fn final_pdf_path(tenant_id: u128, contract_id: u128) -> (r: String)
    ensures
        r@ == uuid_text(tenant_id) + "/"@ + uuid_text(contract_id) + "/"@ + "final_signed.pdf"@,
{
    contract_pdf_path(tenant_id, contract_id, "final_signed.pdf")
}

/// Link that a participant opens to sign.
pub fn signing_link(token: &str) -> (r: String)
    ensures
        r@ == "https://inmonea.agentech.ar/s/"@ + token@,
{
    let mut r = owned("https://inmonea.agentech.ar/s/");
    r.append(token);
    r
}

/// Signature type of a request that names none: hand-drawn.
pub fn requested_signature_type(t: Option<SignatureType>) -> (r: SignatureType)
    ensures
        r == (match t { Some(x) => x, None => SignatureType::Handdrawn }),
{
    match t {
        Some(x) => x,
        None => SignatureType::Handdrawn,
    }
}

/// Days that a signing link stays valid.
pub const SIGNING_LINK_DAYS: i64 = 7;

/// A request that was signed already cannot be signed again.
pub fn check_not_signed(status: SignatureRequestStatus) -> (r: Result<(), String>)
    ensures
        status == SignatureRequestStatus::Signed ==> (r matches Err(e) && e@ == "Ya fue firmado"@),
        status != SignatureRequestStatus::Signed ==> r is Ok,
{
    match status {
        SignatureRequestStatus::Signed => Err(owned("Ya fue firmado")),
        _ => Ok(()),
    }
}

/// What the completion check reads of each signature request of a contract.
#[derive(Clone, Copy)]
pub struct RequestState {
    pub id: u128,
    pub required_signature: bool,
    pub status: SignatureRequestStatus,
}

/// Every required request is signed, counting `just_signed` as signed.
pub open spec fn all_required_signed_spec(reqs: Seq<RequestState>, just_signed: u128) -> bool {
    forall|i: int| 0 <= i < reqs.len() && (#[trigger] reqs[i]).required_signature ==> reqs[i].id
        == just_signed || reqs[i].status == SignatureRequestStatus::Signed
}

/// Whether the contract is fully signed once `just_signed` has been signed.
pub fn all_required_signed(reqs: &Vec<RequestState>, just_signed: u128) -> (r: bool)
    ensures
        r == all_required_signed_spec(reqs@, just_signed),
{
    let mut i: usize = 0;
    while i < reqs.len()
        invariant
            i <= reqs.len(),
            forall|k: int| 0 <= k < i && (#[trigger] reqs@[k]).required_signature ==> reqs@[k].id
                == just_signed || reqs@[k].status == SignatureRequestStatus::Signed,
        decreases reqs.len() - i,
    {
        let q = reqs[i];
        if q.required_signature && !(q.id == just_signed || q.status == SignatureRequestStatus::Signed) {
            return false;
        }
        i += 1;
    }
    true
}

/// A contract is not complete while any required request other than the one just signed is
/// still unsigned (pending, opened or viewed): one such request makes the check false.
pub proof fn lemma_unsigned_required_request_blocks_completion(reqs: Seq<RequestState>, just_signed: u128, i: int)
    requires
        0 <= i < reqs.len(),
        reqs[i].required_signature,
        reqs[i].id != just_signed,
        reqs[i].status != SignatureRequestStatus::Signed,
    ensures
        !all_required_signed_spec(reqs, just_signed),
{
    assert(reqs[i].required_signature);
}

/// Once every required request other than the one just signed is signed, the contract is
/// complete, whatever the optional requests' statuses.
pub proof fn lemma_all_required_signed_completes(reqs: Seq<RequestState>, just_signed: u128)
    requires
        forall|i: int| 0 <= i < reqs.len() && (#[trigger] reqs[i]).required_signature && reqs[i].id != just_signed
            ==> reqs[i].status == SignatureRequestStatus::Signed,
    ensures
        all_required_signed_spec(reqs, just_signed),
{
}

/// Optional requests never hold a contract back: changing the status of a request that is not
/// required leaves the completion check as it was.
pub proof fn lemma_optional_requests_ignored(reqs: Seq<RequestState>, just_signed: u128, i: int, status: SignatureRequestStatus)
    requires
        0 <= i < reqs.len(),
        !reqs[i].required_signature,
    ensures
        all_required_signed_spec(reqs.update(i, RequestState { status, ..reqs[i] }), just_signed)
            == all_required_signed_spec(reqs, just_signed),
{
    let u = reqs.update(i, RequestState { status, ..reqs[i] });
    if all_required_signed_spec(reqs, just_signed) {
        assert forall|k: int| 0 <= k < u.len() && (#[trigger] u[k]).required_signature implies u[k].id
            == just_signed || u[k].status == SignatureRequestStatus::Signed by {
            assert(reqs[k].required_signature);
        }
    }
    if all_required_signed_spec(u, just_signed) {
        assert forall|k: int| 0 <= k < reqs.len() && (#[trigger] reqs[k]).required_signature implies reqs[k].id
            == just_signed || reqs[k].status == SignatureRequestStatus::Signed by {
            assert(u[k].required_signature);
        }
    }
}

/// Contract status after a signature: `ACTIVE` when all required signatures are in, else `SIGNING`.
pub fn status_after_signature(all_signed: bool) -> (r: &'static str)
    ensures
        r@ == (if all_signed { "ACTIVE"@ } else { "SIGNING"@ }),
{
    if all_signed {
        "ACTIVE"
    } else {
        "SIGNING"
    }
}

/// Contract status once signatures have been requested: a draft (`DRAFT`) becomes
/// `READY_FOR_SIGNATURE`; a contract in any other status keeps it (`None`).
pub fn status_when_requested(current: &str) -> (r: Option<&'static str>)
    ensures
        current@ == "DRAFT"@ ==> (r matches Some(s) && s@ == "READY_FOR_SIGNATURE"@),
        current@ != "DRAFT"@ ==> r is None,
{
    if str_eq(current, "DRAFT") {
        Some("READY_FOR_SIGNATURE")
    } else {
        None
    }
}

impl SignatureRepository {
    /// The statement that moves a request to `status`, stamping the time it was first opened,
    /// first viewed, or signed.
    pub fn update_request_status_sql(status: SignatureRequestStatus) -> (r: String)
        ensures
            r@ == "UPDATE contract_signature_requests SET status = $1, updated_at = CURRENT_TIMESTAMP"@
                + (match status {
                SignatureRequestStatus::Opened => ", opened_at = COALESCE(opened_at, CURRENT_TIMESTAMP)"@,
                SignatureRequestStatus::Viewed => ", viewed_at = COALESCE(viewed_at, CURRENT_TIMESTAMP)"@,
                SignatureRequestStatus::Signed => ", signed_at = CURRENT_TIMESTAMP"@,
                _ => Seq::<char>::empty(),
            }) + " WHERE id = $2"@,
    {
        let mut q = owned("UPDATE contract_signature_requests SET status = $1, updated_at = CURRENT_TIMESTAMP");
        match status {
            SignatureRequestStatus::Opened => q.append(", opened_at = COALESCE(opened_at, CURRENT_TIMESTAMP)"),
            SignatureRequestStatus::Viewed => q.append(", viewed_at = COALESCE(viewed_at, CURRENT_TIMESTAMP)"),
            SignatureRequestStatus::Signed => q.append(", signed_at = CURRENT_TIMESTAMP"),
            _ => {},
        }
        let ghost mid = q@;
        q.append(" WHERE id = $2");
        proof {
            let tail = match status {
                SignatureRequestStatus::Opened => ", opened_at = COALESCE(opened_at, CURRENT_TIMESTAMP)"@,
                SignatureRequestStatus::Viewed => ", viewed_at = COALESCE(viewed_at, CURRENT_TIMESTAMP)"@,
                SignatureRequestStatus::Signed => ", signed_at = CURRENT_TIMESTAMP"@,
                _ => Seq::<char>::empty(),
            };
            assert(mid =~= "UPDATE contract_signature_requests SET status = $1, updated_at = CURRENT_TIMESTAMP"@ + tail);
        }
        q
    }
}

// ---------------------------------------------------------------------------
// The signing sequence
// ---------------------------------------------------------------------------

/// Where a signature submission stands.
#[derive(Clone, Copy, Debug, PartialEq, Eq, Structural)]
pub enum SigningStage {
    /// The request of the token is being looked up.
    LookingUp,
    /// The signature image is being stored.
    Uploading,
    /// The signature, the request's new status and the `SIGNED` event are being written.
    Recording,
    /// The contract's requests are being read to see whether all required ones are signed.
    Checking,
    /// The contract is being completed or marked as being signed.
    Finishing,
    /// The signature is registered.
    Done,
    /// The submission was refused.
    Failed,
}

/// A submission in progress: its stage and the request, contract and tenant it concerns.
#[derive(Clone, Copy, Debug, PartialEq, Eq, Structural)]
pub struct SigningState {
    pub stage: SigningStage,
    pub tenant_id: u128,
    pub contract_id: u128,
    pub request_id: u128,
}

/// What the outside world reports back to a submission.
pub enum SigningEvent {
    /// The token's request exists, with its status.
    RequestFound { tenant_id: u128, contract_id: u128, request_id: u128, status: SignatureRequestStatus },
    /// No request has the token's hash.
    RequestMissing,
    /// The signature image is stored.
    Uploaded,
    /// The signature, the request's status and the event are written.
    Recorded,
    /// The contract's signature requests.
    RequestsLoaded(Vec<RequestState>),
    /// The contract's status (and final document, if any) is written.
    ContractUpdated,
}

/// What a submission asks the outside world to do next.
pub enum SigningAction {
    /// Store the signature image at `path`.
    UploadImage { path: String },
    /// Write the signature, mark the request `SIGNED` and log the `SIGNED` event.
    RecordSignature { request_id: u128 },
    /// Read the contract's signature requests.
    LoadRequests { contract_id: u128 },
    /// Store the final signed PDF at `final_pdf_path` and make the contract `ACTIVE`.
    CompleteContract { final_pdf_path: String },
    /// Mark the contract as `SIGNING`.
    MarkSigning,
    /// Answer the signer.
    Respond(SubmitSignatureResponseDto),
    /// Refuse the submission with this message.
    Fail(String),
    /// Nothing to do: the event does not belong to the current stage.
    Ignore,
}

/// The event reports a request that exists and is not signed yet.
pub open spec fn finds_unsigned(ev: SigningEvent) -> bool {
    match ev {
        SigningEvent::RequestFound { status, .. } => status != SignatureRequestStatus::Signed,
        _ => false,
    }
}

/// The start of a submission.
pub open spec fn signing_start() -> SigningStage {
    SigningStage::LookingUp
}

/// The stage that an event leads to.
pub open spec fn next_stage(stage: SigningStage, ev: SigningEvent) -> SigningStage {
    match (stage, ev) {
        (SigningStage::LookingUp, SigningEvent::RequestMissing) => SigningStage::Failed,
        (SigningStage::LookingUp, SigningEvent::RequestFound { status, .. }) =>
            if status == SignatureRequestStatus::Signed { SigningStage::Failed } else { SigningStage::Uploading },
        (SigningStage::Uploading, SigningEvent::Uploaded) => SigningStage::Recording,
        (SigningStage::Recording, SigningEvent::Recorded) => SigningStage::Checking,
        (SigningStage::Checking, SigningEvent::RequestsLoaded(_)) => SigningStage::Finishing,
        (SigningStage::Finishing, SigningEvent::ContractUpdated) => SigningStage::Done,
        (s, _) => s,
    }
}

/// One step of a submission: the next state and what to do.
pub fn signing_step(state: SigningState, event: SigningEvent) -> (r: (SigningState, SigningAction))
    ensures
        r.0.stage == next_stage(state.stage, event),
        match (state.stage, event) {
            (SigningStage::LookingUp, SigningEvent::RequestMissing) =>
                r.1 matches SigningAction::Fail(m) && m@ == "Invalid or expired token"@,
            (SigningStage::LookingUp, SigningEvent::RequestFound { tenant_id, contract_id, request_id, status }) =>
                if status == SignatureRequestStatus::Signed {
                    r.1 matches SigningAction::Fail(m) && m@ == "Ya fue firmado"@
                } else {
                    &&& r.0 == (SigningState { stage: SigningStage::Uploading, tenant_id, contract_id, request_id })
                    &&& r.1 matches SigningAction::UploadImage { path }
                    &&& path@ == uuid_text(tenant_id) + "/"@ + uuid_text(contract_id) + "/signatures/"@
                        + uuid_text(request_id) + ".png"@
                },
            (SigningStage::Uploading, SigningEvent::Uploaded) =>
                r.1 == SigningAction::RecordSignature { request_id: state.request_id },
            (SigningStage::Recording, SigningEvent::Recorded) =>
                r.1 == SigningAction::LoadRequests { contract_id: state.contract_id },
            (SigningStage::Checking, SigningEvent::RequestsLoaded(reqs)) =>
                if all_required_signed_spec(reqs@, state.request_id) {
                    r.1 matches SigningAction::CompleteContract { final_pdf_path }
                        && final_pdf_path@ == uuid_text(state.tenant_id) + "/"@ + uuid_text(state.contract_id)
                            + "/"@ + "final_signed.pdf"@
                } else {
                    r.1 == SigningAction::MarkSigning
                },
            (SigningStage::Finishing, SigningEvent::ContractUpdated) =>
                r.1 matches SigningAction::Respond(resp) && resp.success
                    && resp.message@ == "Firma registrada exitosamente"@,
            _ => r.1 == SigningAction::Ignore,
        },
        !(state.stage == SigningStage::LookingUp && event is RequestFound) ==> (r.0.tenant_id
            == state.tenant_id && r.0.contract_id == state.contract_id && r.0.request_id
            == state.request_id),
{
    match (state.stage, event) {
        (SigningStage::LookingUp, SigningEvent::RequestMissing) => (
            SigningState { stage: SigningStage::Failed, ..state },
            SigningAction::Fail(owned("Invalid or expired token")),
        ),
        (SigningStage::LookingUp, SigningEvent::RequestFound { tenant_id, contract_id, request_id, status }) => {
            match check_not_signed(status) {
                Err(m) => (SigningState { stage: SigningStage::Failed, tenant_id, contract_id, request_id }, SigningAction::Fail(m)),
                Ok(()) => (
                    SigningState { stage: SigningStage::Uploading, tenant_id, contract_id, request_id },
                    SigningAction::UploadImage { path: signature_image_path(tenant_id, contract_id, request_id) },
                ),
            }
        },
        (SigningStage::Uploading, SigningEvent::Uploaded) => (
            SigningState { stage: SigningStage::Recording, ..state },
            SigningAction::RecordSignature { request_id: state.request_id },
        ),
        (SigningStage::Recording, SigningEvent::Recorded) => (
            SigningState { stage: SigningStage::Checking, ..state },
            SigningAction::LoadRequests { contract_id: state.contract_id },
        ),
        (SigningStage::Checking, SigningEvent::RequestsLoaded(reqs)) => {
            let next = SigningState { stage: SigningStage::Finishing, ..state };
            if all_required_signed(&reqs, state.request_id) {
                (next, SigningAction::CompleteContract { final_pdf_path: final_pdf_path(state.tenant_id, state.contract_id) })
            } else {
                (next, SigningAction::MarkSigning)
            }
        },
        (SigningStage::Finishing, SigningEvent::ContractUpdated) => (
            SigningState { stage: SigningStage::Done, ..state },
            SigningAction::Respond(signature_recorded()),
        ),
        (_, _) => (state, SigningAction::Ignore),
    }
}

/// The stages a submission passes through, one per event, from `stage`.
#[verifier::opaque]
pub open spec fn stages_after(stage: SigningStage, evs: Seq<SigningEvent>) -> Seq<SigningStage>
    decreases evs.len(),
{
    if evs.len() == 0 {
        Seq::<SigningStage>::empty()
    } else {
        let n = next_stage(stage, evs[0]);
        seq![n] + stages_after(n, evs.skip(1))
    }
}

/// The stage that follows `s` when a submission goes well.
pub open spec fn following_stage(s: SigningStage) -> SigningStage {
    match s {
        SigningStage::LookingUp => SigningStage::Uploading,
        SigningStage::Uploading => SigningStage::Recording,
        SigningStage::Recording => SigningStage::Checking,
        SigningStage::Checking => SigningStage::Finishing,
        SigningStage::Finishing => SigningStage::Done,
        other => other,
    }
}

/// `b` may come right after `a`: the same stage, the following one, or a refusal at the lookup.
pub open spec fn may_follow(a: SigningStage, b: SigningStage) -> bool {
    b == a || b == following_stage(a) || (a == SigningStage::LookingUp && b == SigningStage::Failed)
}

proof fn lemma_stages_after_len(stage: SigningStage, evs: Seq<SigningEvent>)
    ensures
        stages_after(stage, evs).len() == evs.len(),
    decreases evs.len(),
{
    reveal(stages_after);
    if evs.len() > 0 {
        lemma_stages_after_len(next_stage(stage, evs[0]), evs.skip(1));
    }
}

proof fn lemma_run_first(stage: SigningStage, evs: Seq<SigningEvent>)
    requires
        evs.len() > 0,
    ensures
        stages_after(stage, evs)[0] == next_stage(stage, evs[0]),
        stages_after(stage, evs) == seq![next_stage(stage, evs[0])] + stages_after(next_stage(stage, evs[0]), evs.skip(1)),
{
    reveal(stages_after);
}

proof fn lemma_run_step_at(stage: SigningStage, evs: Seq<SigningEvent>, i: int)
    requires
        0 <= i < evs.len() - 1,
    ensures
        stages_after(stage, evs)[i + 1] == next_stage(stages_after(stage, evs)[i], evs[i + 1]),
    decreases i,
{
    let n = next_stage(stage, evs[0]);
    lemma_run_first(stage, evs);
    let rest = stages_after(n, evs.skip(1));
    lemma_stages_after_len(n, evs.skip(1));
    if i == 0 {
        lemma_run_first(n, evs.skip(1));
        assert(evs.skip(1)[0] == evs[1]);
    } else {
        lemma_run_step_at(n, evs.skip(1), i - 1);
        assert(evs.skip(1)[i] == evs[i + 1]);
    }
}

proof fn lemma_step_order(s: SigningStage, ev: SigningEvent)
    ensures
        may_follow(s, next_stage(s, ev)),
        next_stage(s, ev) == SigningStage::Uploading && s != SigningStage::Uploading ==> (
            s == SigningStage::LookingUp && finds_unsigned(ev)),
{
}

/// A submission goes through its stages in order: from the lookup it moves only to the image
/// upload or to a refusal, and each later stage only to the next one (upload, recording,
/// completion check, contract update, done) or not at all; a refused or finished submission
/// stays so. The image upload is entered only when the lookup found a request that is not
/// signed yet.
#[verifier::rlimit(60)]
pub proof fn lemma_signing_order(stage: SigningStage, evs: Seq<SigningEvent>)
    ensures
        stages_after(stage, evs).len() == evs.len(),
        evs.len() > 0 ==> may_follow(stage, stages_after(stage, evs)[0]),
        forall|i: int| 0 <= i < evs.len() - 1 ==> may_follow(
            #[trigger] stages_after(stage, evs)[i],
            stages_after(stage, evs)[i + 1],
        ),
        forall|i: int| 0 < i < evs.len() ==> (#[trigger] stages_after(stage, evs)[i] == SigningStage::Uploading
            && stages_after(stage, evs)[i - 1] != SigningStage::Uploading) ==> (
            stages_after(stage, evs)[i - 1] == SigningStage::LookingUp
            && finds_unsigned(evs[i])),
        (evs.len() > 0 && stages_after(stage, evs)[0] == SigningStage::Uploading && stage != SigningStage::Uploading) ==> (
            stage == SigningStage::LookingUp
            && finds_unsigned(evs[0])),
{
    lemma_stages_after_len(stage, evs);
    let st = stages_after(stage, evs);
    if evs.len() > 0 {
        lemma_run_first(stage, evs);
        lemma_step_order(stage, evs[0]);
    }
    assert forall|i: int| 0 <= i < evs.len() - 1 implies may_follow(#[trigger] st[i], st[i + 1]) by {
        lemma_run_step_at(stage, evs, i);
        lemma_step_order(st[i], evs[i + 1]);
    }
    assert forall|i: int| 0 < i < evs.len() && #[trigger] st[i] == SigningStage::Uploading
        && st[i - 1] != SigningStage::Uploading implies (st[i - 1] == SigningStage::LookingUp
            && finds_unsigned(evs[i])) by {
        lemma_run_step_at(stage, evs, i - 1);
        lemma_step_order(st[i - 1], evs[i]);
    }
}

/// A request that is already signed is refused at the lookup: the submission fails and never
/// stores an image, records a signature or touches the contract, whatever events follow.
pub proof fn lemma_signed_request_refused(evs: Seq<SigningEvent>)
    requires
        evs.len() > 0,
        evs[0] matches SigningEvent::RequestFound { status, .. } && status == SignatureRequestStatus::Signed,
    ensures
        forall|i: int| 0 <= i < evs.len() ==> #[trigger] stages_after(signing_start(), evs)[i] == SigningStage::Failed,
{
    lemma_stages_after_len(signing_start(), evs);
    lemma_failed_stays(evs.skip(1));
    let st = stages_after(signing_start(), evs);
    assert(st == seq![SigningStage::Failed] + stages_after(SigningStage::Failed, evs.skip(1))) by {
        reveal(stages_after);
    }
    assert forall|i: int| 0 <= i < evs.len() implies #[trigger] st[i] == SigningStage::Failed by {
        if i > 0 {
            assert(st[i] == stages_after(SigningStage::Failed, evs.skip(1))[i - 1]);
        }
    }
}

proof fn lemma_failed_stays(evs: Seq<SigningEvent>)
    ensures
        stages_after(SigningStage::Failed, evs).len() == evs.len(),
        forall|i: int| 0 <= i < evs.len() ==> #[trigger] stages_after(SigningStage::Failed, evs)[i] == SigningStage::Failed,
    decreases evs.len(),
{
    lemma_stages_after_len(SigningStage::Failed, evs);
    if evs.len() > 0 {
        lemma_failed_stays(evs.skip(1));
        let st = stages_after(SigningStage::Failed, evs);
        assert(next_stage(SigningStage::Failed, evs[0]) == SigningStage::Failed);
        assert(st == seq![SigningStage::Failed] + stages_after(SigningStage::Failed, evs.skip(1))) by {
            reveal(stages_after);
        }
        assert forall|i: int| 0 <= i < evs.len() implies #[trigger] st[i] == SigningStage::Failed by {
            if i > 0 {
                assert(st[i] == stages_after(SigningStage::Failed, evs.skip(1))[i - 1]);
            }
        }
    }
}

} // verus!
