//! Digests, the content label and the signature-sniffed type of an artifact.

use vstd::prelude::*;

verus! {

/// The largest input that the SHA-256 implementation accepts is below
/// 2^64 bits.
pub const MAX_INPUT_LEN: u64 = 0x1fff_ffff_ffff_ffff;

/// Number of words in the human-readable label.
pub const LABEL_WORDS: usize = 4;

pub uninterp spec fn md5_of(b: Seq<u8>) -> Seq<u8>;

pub uninterp spec fn sha1_of(b: Seq<u8>) -> Seq<u8>;

pub uninterp spec fn sha256_of(b: Seq<u8>) -> Seq<u8>;

pub uninterp spec fn sha384_of(b: Seq<u8>) -> Seq<u8>;

/// The bytes of the version-5 UUID in the OID namespace named by `b`.
pub uninterp spec fn uuid_v5_oid(b: Seq<u8>) -> Seq<u8>;

/// The words that human-hash renders for a 16-byte identifier.
pub uninterp spec fn humanized(id: Seq<u8>, words: nat) -> Seq<char>;

/// The MIME type that infer's signature matchers give to `b`, if any.
pub uninterp spec fn sniffed_mime(b: Seq<u8>) -> Option<Seq<char>>;

pub open spec fn opt_view(o: Option<String>) -> Option<Seq<char>> {
    match o {
        Some(s) => Some(s@),
        None => None,
    }
}

pub open spec fn hex_digit(d: nat) -> char {
    if d < 10 {
        ((48 + d) as u8) as char
    } else {
        ((87 + d) as u8) as char
    }
}

/// Two lowercase hexadecimal digits for each byte, high nibble first.
pub open spec fn hex_of(b: Seq<u8>) -> Seq<char>
    decreases b.len(),
{
    if b.len() == 0 {
        Seq::empty()
    } else {
        hex_of(b.drop_last()) + seq![
            hex_digit((b.last() / 16) as nat),
            hex_digit((b.last() % 16) as nat),
        ]
    }
}

proof fn lemma_hex_len(b: Seq<u8>)
    ensures
        hex_of(b).len() == 2 * b.len(),
    decreases b.len(),
{
    if b.len() > 0 {
        lemma_hex_len(b.drop_last());
    }
}

/// Relies on hex::encode: lowercase hex, two digits per byte.
#[verifier::external_body]
fn hex_text(b: &[u8]) -> (r: String)
    ensures
        r@ == hex_of(b@),
{
    hex::encode(b)
}

/// Relies on md5::compute: the 16-byte MD5 digest.
#[verifier::external_body]
fn md5_bytes(b: &[u8]) -> (r: Vec<u8>)
    ensures
        r@ == md5_of(b@),
        r@.len() == 16,
{
    md5::compute(b).0.to_vec()
}

/// Relies on sha1's Digest::digest for Sha1: the 20-byte SHA-1 digest.
#[verifier::external_body]
fn sha1_bytes(b: &[u8]) -> (r: Vec<u8>)
    ensures
        r@ == sha1_of(b@),
        r@.len() == 20,
{
    <sha1::Sha1 as sha1::Digest>::digest(b).to_vec()
}

/// Relies on sha2's Digest::digest for Sha384: the 48-byte SHA-384 digest.
#[verifier::external_body]
fn sha384_bytes(b: &[u8]) -> (r: Vec<u8>)
    ensures
        r@ == sha384_of(b@),
        r@.len() == 48,
{
    <sha2::Sha384 as sha2::Digest>::digest(b).to_vec()
}

/// Relies on ring::digest::digest with SHA256: the 32-byte SHA-256 digest.
/// It panics on inputs of 2^64 bits or more.
#[verifier::external_body]
fn sha256_bytes(b: &[u8]) -> (r: Vec<u8>)
    requires
        b@.len() <= MAX_INPUT_LEN as nat,
    ensures
        r@ == sha256_of(b@),
        r@.len() == 32,
{
    ring::digest::digest(&ring::digest::SHA256, b).as_ref().to_vec()
}

/// Relies on uuid::Uuid::new_v5 with NAMESPACE_OID: a UUID derived from the
/// name alone.
#[verifier::external_body]
fn content_uuid(b: &[u8]) -> (r: [u8; 16])
    ensures
        r@ == uuid_v5_oid(b@),
{
    *uuid::Uuid::new_v5(&uuid::Uuid::NAMESPACE_OID, b).as_bytes()
}

/// Relies on human_hash::humanize, which divides the 16 bytes into `words`
/// chunks and panics when `words` is 0 or above 16.
#[verifier::external_body]
fn humanize_id(id: &[u8; 16], words: usize) -> (r: String)
    requires
        1 <= words <= 16,
    ensures
        r@ == humanized(id@, words as nat),
{
    human_hash::humanize(&uuid::Uuid::from_bytes(*id), words)
}

/// Relies on infer::get: the MIME type of the first matching signature.
#[verifier::external_body]
fn infer_mime(b: &[u8]) -> (r: Option<String>)
    ensures
        opt_view(r) == sniffed_mime(b@),
{
    infer::get(b).map(|k| k.mime_type().to_string())
}

/// Lowercase hex of the MD5 digest.
pub fn md5_hex(bytes: &[u8]) -> (r: String)
    ensures
        r@ == hex_of(md5_of(bytes@)),
        r@.len() == 32,
{
    let d = md5_bytes(bytes);
    proof {
        lemma_hex_len(d@);
    }
    hex_text(d.as_slice())
}

/// Lowercase hex of the SHA-1 digest.
pub fn sha1_hex(bytes: &[u8]) -> (r: String)
    ensures
        r@ == hex_of(sha1_of(bytes@)),
        r@.len() == 40,
{
    let d = sha1_bytes(bytes);
    proof {
        lemma_hex_len(d@);
    }
    hex_text(d.as_slice())
}

/// Lowercase hex of the SHA-384 digest.
pub fn sha384_hex(bytes: &[u8]) -> (r: String)
    ensures
        r@ == hex_of(sha384_of(bytes@)),
        r@.len() == 96,
{
    let d = sha384_bytes(bytes);
    proof {
        lemma_hex_len(d@);
    }
    hex_text(d.as_slice())
}

/// Lowercase hex of the SHA-256 digest.
pub fn sha256_digest(bytes: &[u8]) -> (r: String)
    requires
        bytes@.len() <= MAX_INPUT_LEN as nat,
    ensures
        r@ == hex_of(sha256_of(bytes@)),
        r@.len() == 64,
{
    let d = sha256_bytes(bytes);
    proof {
        lemma_hex_len(d@);
    }
    hex_text(d.as_slice())
}

pub open spec fn human_label_of(b: Seq<u8>) -> Seq<char> {
    humanized(uuid_v5_oid(b), LABEL_WORDS as nat)
}

/// The four-word label of the content: its version-5 UUID in the OID
/// namespace, humanized.
pub fn human_label(bytes: &[u8]) -> (r: String)
    ensures
        r@ == human_label_of(bytes@),
{
    let id = content_uuid(bytes);
    humanize_id(&id, LABEL_WORDS)
}

pub open spec fn unknown_type() -> Seq<char> {
    "unknown"@
}

/// The label of a signature-sniffing result: the MIME type, or `unknown`.
pub open spec fn type_label_of(m: Option<Seq<char>>) -> Seq<char> {
    match m {
        Some(t) => t,
        None => unknown_type(),
    }
}

/// Turns a signature-sniffing result into its label.
pub fn type_label(mime: Option<String>) -> (r: String)
    ensures
        r@ == type_label_of(opt_view(mime)),
{
    match mime {
        Some(t) => t,
        None => String::from_str("unknown"),
    }
}

/// The signature-sniffed type of the content, or `unknown`.
pub fn sniff_type(bytes: &[u8]) -> (r: String)
    ensures
        r@ == type_label_of(sniffed_mime(bytes@)),
{
    type_label(infer_mime(bytes))
}

pub open spec fn unavailable() -> Seq<char> {
    "N/A"@
}

pub open spec fn fuzzy_field_of(h: Option<Seq<char>>) -> Seq<char> {
    match h {
        Some(t) => t,
        None => unavailable(),
    }
}

/// The fuzzy digest field: the digest, or `N/A` where it could not be made.
pub fn fuzzy_field(h: Option<String>) -> (r: String)
    ensures
        r@ == fuzzy_field_of(opt_view(h)),
{
    match h {
        Some(t) => t,
        None => String::from_str("N/A"),
    }
}

} // verus!
