use vstd::prelude::*;

verus! {

/// The checksum algorithms.
#[derive(Debug, Clone, Copy, PartialEq, Eq, Structural)]
pub enum SumKind {
    Sha256,
    Md5,
}

/// A lower-case hexadecimal digit.
pub open spec fn is_lower_hex(c: char) -> bool {
    ('0' <= c && c <= '9') || ('a' <= c && c <= 'f')
}

/// `s` has `n` characters, each a lower-case hexadecimal digit.
pub open spec fn lower_hex_of_len(s: Seq<char>, n: nat) -> bool {
    s.len() == n && forall|i: int| 0 <= i < s.len() ==> is_lower_hex(#[trigger] s[i])
}

/// The lower-case hexadecimal SHA-256 digest of `bytes`.
pub uninterp spec fn sha256_hex(bytes: Seq<u8>) -> Seq<char>;

/// The lower-case hexadecimal MD5 digest of `bytes`.
pub uninterp spec fn md5_hex(bytes: Seq<u8>) -> Seq<char>;

/// Relies on sha256::digest, which hex-encodes (lower case, two digits a byte)
/// the 32-byte SHA-256 digest of its input.
#[verifier::external_body]
fn sha256_digest(bytes: &[u8]) -> (r: String)
    ensures
        r@ == sha256_hex(bytes@),
        lower_hex_of_len(r@, 64),
{
    sha256::digest(bytes)
}

/// Relies on md5::compute and the lower-case hexadecimal formatting of its
/// 16-byte digest, two digits a byte.
#[verifier::external_body]
fn md5_digest(bytes: &[u8]) -> (r: String)
    ensures
        r@ == md5_hex(bytes@),
        lower_hex_of_len(r@, 32),
{
    format!("{:x}", md5::compute(bytes))
}

/// The digest of `bytes` under `sum`, in lower-case hexadecimal.
pub open spec fn checksum(bytes: Seq<u8>, sum: SumKind) -> Seq<char> {
    match sum {
        SumKind::Sha256 => sha256_hex(bytes),
        SumKind::Md5 => md5_hex(bytes),
    }
}

/// The number of hexadecimal digits of a digest under `sum`.
pub open spec fn digest_len(sum: SumKind) -> nat {
    match sum {
        SumKind::Sha256 => 64,
        SumKind::Md5 => 32,
    }
}

/// Computes the checksum of a file's whole content.
pub fn get_sum_of(bytes: &Vec<u8>, sum: SumKind) -> (r: String)
    ensures
        r@ == checksum(bytes@, sum),
        lower_hex_of_len(r@, digest_len(sum)),
{
    match sum {
        SumKind::Sha256 => sha256_digest(bytes.as_slice()),
        SumKind::Md5 => md5_digest(bytes.as_slice()),
    }
}

/// A checksum depends on the bytes and the algorithm alone: equal contents
/// give equal digests.
pub proof fn checksum_is_deterministic(a: Seq<u8>, b: Seq<u8>, sum: SumKind)
    requires
        a == b,
    ensures
        checksum(a, sum) == checksum(b, sum),
{
}

/// The SHA-256 and the MD5 checksum of the same content always differ. The
/// premises are what `get_sum_of` ensures of its two results: their
/// hexadecimal forms have 64 and 32 digits.
pub proof fn checksums_differ_by_kind(bytes: Seq<u8>)
    requires
        lower_hex_of_len(checksum(bytes, SumKind::Sha256), 64),
        lower_hex_of_len(checksum(bytes, SumKind::Md5), 32),
    ensures
        checksum(bytes, SumKind::Sha256) != checksum(bytes, SumKind::Md5),
{
}

} // verus!
