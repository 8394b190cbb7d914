use sha2::Digest;
use vstd::prelude::*;
use vstd::string::*;

verus! {

/// The lowercase hexadecimal digit for a value below sixteen.
pub open spec fn hex_digit(d: nat) -> char {
    seq!['0', '1', '2', '3', '4', '5', '6', '7', '8', '9', 'a', 'b', 'c', 'd', 'e', 'f'][d as int]
}

/// The last `n` hexadecimal digits of `v`, most significant first.
pub open spec fn hex_digits(v: nat, n: nat) -> Seq<char>
    decreases n,
{
    if n == 0 {
        Seq::empty()
    } else {
        hex_digits(v / 16, (n - 1) as nat).push(hex_digit(v % 16))
    }
}

/// Two lowercase hexadecimal digits for each byte, in order.
pub open spec fn hex_text(b: Seq<u8>) -> Seq<char>
    decreases b.len(),
{
    if b.len() == 0 {
        Seq::empty()
    } else {
        hex_text(b.drop_last()) + hex_digits(b.last() as nat, 2)
    }
}

/// The decimal digits of `n`, without leading zeros.
pub open spec fn decimal_text(n: nat) -> Seq<char>
    decreases n,
{
    if n < 10 {
        seq![hex_digit(n)]
    } else {
        decimal_text(n / 10).push(hex_digit(n % 10))
    }
}

/// The hyphenated form of a 128-bit identifier: its 32 lowercase
/// hexadecimal digits, most significant first, grouped 8-4-4-4-12.
pub open spec fn id_text(id: u128) -> Seq<char> {
    let h = hex_digits(id as nat, 32);
    h.subrange(0, 8) + seq!['-'] + h.subrange(8, 12) + seq!['-'] + h.subrange(12, 16) + seq!['-']
        + h.subrange(16, 20) + seq!['-'] + h.subrange(20, 32)
}

/// The SHA-256 digest of the UTF-8 encoding of a text.
pub uninterp spec fn sha256_of(s: Seq<char>) -> Seq<u8>;

/// The text a block digest is taken over: identifier, payload, previous hash
/// and nonce, concatenated without separators or lengths.
pub open spec fn preimage(id: u128, data: Seq<char>, previous_hash: Seq<char>, nonce: u64) -> Seq<
    char,
> {
    id_text(id) + data + previous_hash + decimal_text(nonce as nat)
}

/// The digest of a block's fields: lowercase hex of SHA-256 over the preimage.
pub open spec fn block_digest(
    id: u128,
    data: Seq<char>,
    previous_hash: Seq<char>,
    nonce: u64,
) -> Seq<char> {
    hex_text(sha256_of(preimage(id, data, previous_hash, nonce)))
}

/// Relies on `uuid::Uuid::from_u128`, which reads the value big-endian, and
/// on uuid's `Display`, which writes the lowercase hyphenated form.
#[verifier::external_body]
fn render_id(id: u128) -> (r: String)
    ensures
        r@ == id_text(id),
{
    uuid::Uuid::from_u128(id).to_string()
}

/// Relies on std's `ToString` for `u64`: the decimal digits of the value.
#[verifier::external_body]
fn render_nonce(n: u64) -> (r: String)
    ensures
        r@ == decimal_text(n as nat),
{
    n.to_string()
}

/// Relies on `sha2::Sha256::digest`: the 32-byte digest of the text's bytes.
#[verifier::external_body]
fn sha256(s: &str) -> (r: Vec<u8>)
    ensures
        r@ == sha256_of(s@),
        r@.len() == 32,
{
    sha2::Sha256::digest(s.as_bytes()).to_vec()
}

/// Relies on `hex::encode`: two lowercase hexadecimal digits per byte.
#[verifier::external_body]
fn to_hex(b: &Vec<u8>) -> (r: String)
    ensures
        r@ == hex_text(b@),
{
    hex::encode(b)
}

/// Relies on `uuid::Uuid::new_v4`: a random identifier, of which nothing is
/// promised.
#[verifier::external_body]
pub(crate) fn fresh_id() -> (r: u128) {
    uuid::Uuid::new_v4().as_u128()
}

/// Relies on `chrono::Utc::now`: the current time in seconds since the Unix
/// epoch, of which nothing is promised.
#[verifier::external_body]
pub(crate) fn now_seconds() -> (r: i64) {
    chrono::Utc::now().timestamp()
}

/// The digest of a block's fields, as stored in its `hash`.
pub fn calculate_hash(id: u128, data: &str, previous_hash: &str, nonce: u64) -> (r: String)
    ensures
        r@ == block_digest(id, data@, previous_hash@, nonce),
{
    let mut text = render_id(id);
    text.append(data);
    text.append(previous_hash);
    let n = render_nonce(nonce);
    text.append(n.as_str());
    let d = sha256(text.as_str());
    to_hex(&d)
}

} // verus!
