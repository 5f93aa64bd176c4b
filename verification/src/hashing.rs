//! Content hashing for the per-project runtime directory name: the state
//! directory path is hashed and the first characters of the lowercase hex
//! digest key the scratch directory under the temp directory.

use sha2::Digest;
use vstd::prelude::*;
use vstd::string::StringSliceAdditionalSpecFns;

use crate::numbers::digit_char;

verus! {

/// The lowercase hexadecimal digit character for a value below sixteen.
pub open spec fn hex_digit(d: nat) -> char {
    if d < 10 {
        digit_char(d)
    } else if d == 10 {
        'a'
    } else if d == 11 {
        'b'
    } else if d == 12 {
        'c'
    } else if d == 13 {
        'd'
    } else if d == 14 {
        'e'
    } else {
        'f'
    }
}

/// The lowercase hex encoding of a byte sequence: two digits per byte,
/// high nibble first.
pub open spec fn hex_of(bytes: Seq<u8>) -> Seq<char>
    decreases bytes.len(),
{
    if bytes.len() == 0 {
        Seq::empty()
    } else {
        hex_of(bytes.drop_last()) + seq![
            hex_digit((bytes.last() / 16) as nat),
            hex_digit((bytes.last() % 16) as nat),
        ]
    }
}

/// The hex encoding is twice as long as its input.
pub proof fn lemma_hex_len(bytes: Seq<u8>)
    ensures
        hex_of(bytes).len() == 2 * bytes.len(),
    decreases bytes.len(),
{
    if bytes.len() > 0 {
        lemma_hex_len(bytes.drop_last());
    }
}

/// What the SHA-256 digest of a byte sequence is; it depends on the bytes
/// alone.
pub uninterp spec fn sha256_of(bytes: Seq<u8>) -> Seq<u8>;

/// Relies on sha2's SHA-256 implementation: a 32-byte digest determined by
/// the input bytes alone.
#[verifier::external_body]
fn sha256_bytes(data: &[u8]) -> (r: Vec<u8>)
    ensures
        r@ == sha256_of(data@),
        r@.len() == 32,
{
    sha2::Sha256::digest(data).to_vec()
}

/// Relies on hex::encode: each byte becomes two lowercase hex digits, high
/// nibble first.
#[verifier::external_body]
fn encode_hex(data: &Vec<u8>) -> (r: String)
    ensures
        r@ == hex_of(data@),
{
    hex::encode(data)
}

/// The hex digest of the state-directory path's bytes, as the runtime
/// directory name uses it.
pub open spec fn state_hash_hex(dotfile_path: &str) -> Seq<char> {
    hex_of(sha256_of(dotfile_path.spec_bytes()))
}

/// The per-project runtime scratch directory: `devenv-` and the first
/// seven hex digits of the state-directory hash, under the temp
/// directory.
pub fn runtime_dir(tmpdir: &str, dotfile_path: &str) -> (r: String)
    ensures
        r@ == tmpdir@ + "/devenv-"@ + state_hash_hex(dotfile_path).take(7),
{
    let digest = sha256_bytes(dotfile_path.as_bytes());
    let hash = encode_hex(&digest);
    proof {
        lemma_hex_len(digest@);
    }
    let hash_chars = crate::strutil::chars_of(hash.as_str());
    let prefix = crate::strutil::subvec(&hash_chars, 0, 7);
    let mut out = String::from_str(tmpdir);
    out.append("/devenv-");
    let prefix_str = crate::strutil::string_of(&prefix);
    out.append(prefix_str.as_str());
    proof {
        assert(hash@.subrange(0, 7) =~= state_hash_hex(dotfile_path).take(7));
    }
    out
}

} // verus!
