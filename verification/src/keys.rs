//! SSH public keys as the server knows them: their fingerprints and
//! printable forms, and the records of trusted and pending keys.

use vstd::prelude::*;
use vstd::string::*;
use crate::payload::ClientPayload;
use crate::time::Timestamp;

verus! {

/// The algorithm family of a client's public key.
#[derive(Debug, Clone, Copy, PartialEq, Eq, Structural)]
pub enum KeyKind {
    Ed25519,
    Rsa,
    Other,
}

/// The name shown for a key's algorithm.
pub open spec fn key_kind_text(kind: KeyKind) -> Seq<char> {
    match kind {
        KeyKind::Ed25519 => "ed25519"@,
        KeyKind::Rsa => "rsa"@,
        KeyKind::Other => "unknown"@,
    }
}

/// Human-readable key type: "ed25519", "rsa" or "unknown".
pub fn key_type_string(kind: KeyKind) -> (r: String)
    ensures
        r@ == key_kind_text(kind),
{
    match kind {
        KeyKind::Ed25519 => {
            proof { reveal_strlit("ed25519"); }
            String::from_str("ed25519")
        },
        KeyKind::Rsa => {
            proof { reveal_strlit("rsa"); }
            String::from_str("rsa")
        },
        KeyKind::Other => {
            proof { reveal_strlit("unknown"); }
            String::from_str("unknown")
        },
    }
}

/// The SHA-256 digest of a byte sequence, as the sha2 crate computes it.
pub uninterp spec fn sha256(data: Seq<u8>) -> Seq<u8>;

/// Hashes bytes through `sha2::Sha256`.
///
/// Trusted: the digest depends on the data alone and is 32 bytes long, as
/// SHA-256 defines; which bytes come back is named, not stated.
#[verifier::external_body]
fn sha256_digest(data: &[u8]) -> (r: Vec<u8>)
    ensures
        r@ == sha256(data@),
        r@.len() == 32,
{
    <sha2::Sha256 as sha2::Digest>::digest(data).to_vec()
}

/// The lowercase hexadecimal digit for `d < 16`.
pub open spec fn hex_digit(d: int) -> char {
    if d < 10 {
        ((d + 48) as u8) as char
    } else {
        ((d + 87) as u8) as char
    }
}

/// Two lowercase hexadecimal digits per byte, high nibble first.
pub open spec fn lower_hex(bytes: Seq<u8>) -> Seq<char>
    decreases bytes.len(),
{
    if bytes.len() == 0 {
        Seq::empty()
    } else {
        lower_hex(bytes.drop_last()) + seq![
            hex_digit((bytes.last() / 16) as int),
            hex_digit((bytes.last() % 16) as int),
        ]
    }
}

proof fn lemma_lower_hex_len(bytes: Seq<u8>)
    ensures
        lower_hex(bytes).len() == 2 * bytes.len(),
    decreases bytes.len(),
{
    if bytes.len() > 0 {
        lemma_lower_hex_len(bytes.drop_last());
    }
}

/// Encodes bytes as lowercase hexadecimal through `hex::encode`.
///
/// Trusted: `hex::encode` writes each byte as two characters of
/// "0123456789abcdef", high nibble first.
#[verifier::external_body]
fn hex_encode(bytes: &[u8]) -> (r: String)
    ensures
        r@ == lower_hex(bytes@),
{
    hex::encode(bytes)
}

/// The character of the standard base64 alphabet for `d < 64`.
pub open spec fn base64_digit(d: int) -> char {
    if d < 26 {
        ((d + 65) as u8) as char
    } else if d < 52 {
        ((d + 71) as u8) as char
    } else if d < 62 {
        ((d - 4) as u8) as char
    } else if d == 62 {
        '+'
    } else {
        '/'
    }
}

/// Standard base64 with `=` padding (RFC 4648), three bytes to four
/// characters.
pub open spec fn base64_standard(bytes: Seq<u8>) -> Seq<char>
    decreases bytes.len(),
{
    if bytes.len() == 0 {
        Seq::empty()
    } else {
        let b0 = bytes[0] as int;
        let b1 = if bytes.len() > 1 { bytes[1] as int } else { 0 };
        let b2 = if bytes.len() > 2 { bytes[2] as int } else { 0 };
        let c0 = base64_digit(b0 / 4);
        let c1 = base64_digit((b0 % 4) * 16 + b1 / 16);
        let c2 = base64_digit((b1 % 16) * 4 + b2 / 64);
        let c3 = base64_digit(b2 % 64);
        if bytes.len() == 1 {
            seq![c0, c1, '=', '=']
        } else if bytes.len() == 2 {
            seq![c0, c1, c2, '=']
        } else {
            seq![c0, c1, c2, c3] + base64_standard(bytes.subrange(3, bytes.len() as int))
        }
    }
}

/// Encodes bytes through base64's `STANDARD` engine.
///
/// Trusted: the standard engine uses the RFC 4648 alphabet with `=`
/// padding, three input bytes to four characters.
#[verifier::external_body]
fn base64_encode(bytes: &[u8]) -> (r: String)
    ensures
        r@ == base64_standard(bytes@),
{
    base64::Engine::encode(&base64::engine::general_purpose::STANDARD, bytes)
}

/// The fingerprint shown for a key: "SHA256:" and the lowercase hex of
/// the SHA-256 digest of the key's wire bytes.
pub open spec fn fingerprint_text(key_bytes: Seq<u8>) -> Seq<char> {
    "SHA256:"@ + lower_hex(sha256(key_bytes))
}

/// Computes a key's fingerprint from its public key bytes.
pub fn compute_fingerprint(key_bytes: &[u8]) -> (r: String)
    ensures
        r@ == fingerprint_text(key_bytes@),
        r@.len() == 71,
{
    let digest = sha256_digest(key_bytes);
    proof { lemma_lower_hex_len(digest@); }
    let hex = hex_encode(digest.as_slice());
    proof { reveal_strlit("SHA256:"); }
    let mut s = String::from_str("SHA256:");
    s.append(hex.as_str());
    s
}

/// The authorized_keys form of a key: its type name, a space, and the
/// base64 of its wire bytes.
pub open spec fn public_key_text(kind: KeyKind, key_bytes: Seq<u8>) -> Seq<char> {
    key_kind_text(kind) + " "@ + base64_standard(key_bytes)
}

/// Encodes a public key in authorized_keys form.
pub fn encode_public_key(kind: KeyKind, key_bytes: &[u8]) -> (r: String)
    ensures
        r@ == public_key_text(kind, key_bytes@),
{
    let mut s = key_type_string(kind);
    proof { reveal_strlit(" "); }
    s.append(" ");
    let encoded = base64_encode(key_bytes);
    s.append(encoded.as_str());
    s
}

/// Whether a 128-bit value (a UUID read big-endian) carries UUID version 4
/// and the RFC 4122 variant: the version nibble is 4, the two variant bits
/// are `10`.
pub open spec fn uuid_v4(id: u128) -> bool {
    &&& id & 0xf000_0000_0000_0000_0000 == 0x4000_0000_0000_0000_0000
    &&& id & 0xc000_0000_0000_0000 == 0x8000_0000_0000_0000
}

/// Draws a fresh key identifier through `uuid::Uuid::new_v4`, as its
/// 128-bit big-endian value.
///
/// Trusted: the value is random; uuid sets the version nibble to 4 and the
/// variant bits to RFC 4122's `10`.
#[verifier::external_body]
pub(crate) fn new_key_id() -> (r: u128)
    ensures
        uuid_v4(r),
{
    uuid::Uuid::new_v4().as_u128()
}

/// A key an administrator (or trust on first use) accepted.
#[derive(Debug)]
pub struct TrustedKey {
    pub id: u128,
    pub fingerprint: String,
    pub public_key: String,
    pub key_type: String,
    pub username: String,
    pub device_name: String,
    pub trusted_at: Timestamp,
    pub last_used: Option<Timestamp>,
    pub use_count: u64,
}

/// A key that connected and is not (or not yet) trusted.
#[derive(Debug)]
pub struct UntrustedKey {
    pub id: u128,
    pub fingerprint: String,
    pub public_key: String,
    pub key_type: String,
    pub ssh_username: String,
    pub first_seen: Timestamp,
    pub last_seen: Timestamp,
    pub attempt_count: u64,
    pub last_payload: Option<ClientPayload>,
}

/// The fingerprints of trusted keys, in order.
pub open spec fn trusted_fingerprints(keys: Seq<TrustedKey>) -> Seq<Seq<char>> {
    keys.map_values(|k: TrustedKey| k.fingerprint@)
}

/// The fingerprints of pending keys, in order.
pub open spec fn untrusted_fingerprints(keys: Seq<UntrustedKey>) -> Seq<Seq<char>> {
    keys.map_values(|k: UntrustedKey| k.fingerprint@)
}

/// No fingerprint occurs twice.
pub open spec fn distinct_fingerprints(fps: Seq<Seq<char>>) -> bool {
    forall|i: int, j: int| 0 <= i < j < fps.len() ==> fps[i] != fps[j]
}

/// Whether `i` is the first position holding `x`.
pub open spec fn first_index_of(s: Seq<Seq<char>>, x: Seq<char>, i: int) -> bool {
    &&& 0 <= i < s.len()
    &&& s[i] == x
    &&& forall|j: int| 0 <= j < i ==> s[j] != x
}

/// The first position holding `x`, if any.
pub open spec fn index_of(s: Seq<Seq<char>>, x: Seq<char>) -> Option<int> {
    if exists|i: int| first_index_of(s, x, i) {
        Some(choose|i: int| first_index_of(s, x, i))
    } else {
        None
    }
}

/// A value that occurs has a first occurrence.
pub proof fn lemma_first_index_exists(s: Seq<Seq<char>>, x: Seq<char>, j: int)
    requires
        0 <= j < s.len(),
        s[j] == x,
    ensures
        index_of(s, x) is Some,
        first_index_of(s, x, index_of(s, x)->0),
    decreases j,
{
    if exists|k: int| 0 <= k < j && s[k] == x {
        let k = choose|k: int| 0 <= k < j && s[k] == x;
        lemma_first_index_exists(s, x, k);
    } else {
        assert(first_index_of(s, x, j));
    }
}

/// A value that has a first position occurs.
pub proof fn lemma_index_contains(s: Seq<Seq<char>>, x: Seq<char>)
    requires
        index_of(s, x) is Some,
    ensures
        s.contains(x),
{
    let i = choose|i: int| first_index_of(s, x, i);
    assert(s[i] == x);
}

proof fn lemma_first_index_unique(s: Seq<Seq<char>>, x: Seq<char>, i: int)
    requires
        first_index_of(s, x, i),
    ensures
        index_of(s, x) == Some(i),
{
    let c = choose|c: int| first_index_of(s, x, c);
    assert(c == i) by {
        if c < i {
            assert(s[c] == x);
        } else if c > i {
            assert(s[i] == x);
        }
    }
}

/// The position of the first trusted key with the given fingerprint.
pub fn trusted_index(keys: &Vec<TrustedKey>, fingerprint: &str) -> (r: Option<usize>)
    ensures
        match r {
            Some(i) => index_of(trusted_fingerprints(keys@), fingerprint@) == Some(i as int),
            None => index_of(trusted_fingerprints(keys@), fingerprint@) is None,
        },
{
    let fp = fingerprint.to_owned();
    let ghost fps = trusted_fingerprints(keys@);
    let mut i: usize = 0;
    while i < keys.len()
        invariant
            fps == trusted_fingerprints(keys@),
            fp@ == fingerprint@,
            i <= keys@.len(),
            forall|j: int| 0 <= j < i ==> fps[j] != fingerprint@,
        decreases keys.len() - i,
    {
        if keys[i].fingerprint == fp {
            proof { lemma_first_index_unique(fps, fingerprint@, i as int); }
            return Some(i);
        }
        i = i + 1;
    }
    assert(!exists|c: int| first_index_of(fps, fingerprint@, c));
    None
}

/// The position of the first pending key with the given fingerprint.
pub fn untrusted_index(keys: &Vec<UntrustedKey>, fingerprint: &str) -> (r: Option<usize>)
    ensures
        match r {
            Some(i) => index_of(untrusted_fingerprints(keys@), fingerprint@) == Some(i as int),
            None => index_of(untrusted_fingerprints(keys@), fingerprint@) is None,
        },
{
    let fp = fingerprint.to_owned();
    let ghost fps = untrusted_fingerprints(keys@);
    let mut i: usize = 0;
    while i < keys.len()
        invariant
            fps == untrusted_fingerprints(keys@),
            fp@ == fingerprint@,
            i <= keys@.len(),
            forall|j: int| 0 <= j < i ==> fps[j] != fingerprint@,
        decreases keys.len() - i,
    {
        if keys[i].fingerprint == fp {
            proof { lemma_first_index_unique(fps, fingerprint@, i as int); }
            return Some(i);
        }
        i = i + 1;
    }
    assert(!exists|c: int| first_index_of(fps, fingerprint@, c));
    None
}

} // verus!
