//! Password hashing: MD5 digests in lowercase hex, and bcrypt hashes.
use vstd::prelude::*;

use crate::common::biz_code::BizCode;
use crate::common::biz_error::BizError;
use vstd::string::StringSliceAdditionalSpecFns;

verus! {

broadcast use vstd::string::group_string_axioms;

/// The MD5 digest of a byte string.
pub uninterp spec fn md5_digest(data: Seq<u8>) -> Seq<u8>;

/// Calls `md5::compute` on the bytes and returns the sixteen bytes of the
/// digest, named by `md5_digest`.
#[verifier::external_body]
fn md5_compute(data: &[u8]) -> (r: [u8; 16])
    ensures
        r@ == md5_digest(data@),
{
    md5::compute(data).0
}

/// The lowercase hex digit of `n`, for `n < 16`.
pub open spec fn hex_digit(n: int) -> char {
    if n < 10 {
        (('0' as int) + n) as char
    } else {
        (('a' as int) + n - 10) as char
    }
}

/// Two lowercase hex digits per byte, as `{:02x}` writes each byte.
pub open spec fn hex_lower(bytes: Seq<u8>) -> Seq<char>
    decreases bytes.len(),
{
    if bytes.len() == 0 {
        Seq::<char>::empty()
    } else {
        hex_lower(bytes.drop_last()) + seq![
            hex_digit(bytes.last() as int / 16),
            hex_digit(bytes.last() as int % 16),
        ]
    }
}

/// A character among `0`-`9` and `a`-`f`.
pub open spec fn is_lower_hex_char(c: char) -> bool {
    ('0' <= c <= '9') || ('a' <= c <= 'f')
}

/// The hex text has two lowercase hex digits per byte.
pub proof fn law_hex_text_shape(bytes: Seq<u8>)
    ensures
        hex_lower(bytes).len() == 2 * bytes.len(),
        forall|i: int| 0 <= i < hex_lower(bytes).len() ==> is_lower_hex_char(#[trigger] hex_lower(bytes)[i]),
    decreases bytes.len(),
{
    if bytes.len() > 0 {
        law_hex_text_shape(bytes.drop_last());
        let hi = bytes.last() as int / 16;
        let lo = bytes.last() as int % 16;
        let prev = hex_lower(bytes.drop_last());
        let tail = seq![hex_digit(hi), hex_digit(lo)];
        assert(is_lower_hex_char(hex_digit(hi)));
        assert(is_lower_hex_char(hex_digit(lo)));
        assert forall|i: int| 0 <= i < hex_lower(bytes).len() implies is_lower_hex_char(
            #[trigger] hex_lower(bytes)[i],
        ) by {
            if i < prev.len() {
                assert(hex_lower(bytes)[i] == prev[i]);
            } else {
                assert(hex_lower(bytes)[i] == tail[i - prev.len()]);
            }
        }
    }
}

/// The one-character string of the lowercase hex digit of `n`.
fn hex_digit_str(n: u8) -> (r: &'static str)
    requires
        n < 16,
    ensures
        r@ == seq![hex_digit(n as int)],
{
    proof {
        reveal_strlit("0");
        reveal_strlit("1");
        reveal_strlit("2");
        reveal_strlit("3");
        reveal_strlit("4");
        reveal_strlit("5");
        reveal_strlit("6");
        reveal_strlit("7");
        reveal_strlit("8");
        reveal_strlit("9");
        reveal_strlit("a");
        reveal_strlit("b");
        reveal_strlit("c");
        reveal_strlit("d");
        reveal_strlit("e");
        reveal_strlit("f");
    }
    let r = if n == 0 {
        "0"
    } else if n == 1 {
        "1"
    } else if n == 2 {
        "2"
    } else if n == 3 {
        "3"
    } else if n == 4 {
        "4"
    } else if n == 5 {
        "5"
    } else if n == 6 {
        "6"
    } else if n == 7 {
        "7"
    } else if n == 8 {
        "8"
    } else if n == 9 {
        "9"
    } else if n == 10 {
        "a"
    } else if n == 11 {
        "b"
    } else if n == 12 {
        "c"
    } else if n == 13 {
        "d"
    } else if n == 14 {
        "e"
    } else {
        "f"
    };
    assert(r@ =~= seq![hex_digit(n as int)]);
    r
}

/// The lowercase hex text of a byte string.
pub fn to_hex_lower(bytes: &[u8]) -> (r: String)
    ensures
        r@ == hex_lower(bytes@),
{
    let mut out = String::new();
    let mut i: usize = 0;
    while i < bytes.len()
        invariant
            i <= bytes@.len(),
            out@ == hex_lower(bytes@.subrange(0, i as int)),
        decreases bytes.len() - i,
    {
        let b = bytes[i];
        out.append(hex_digit_str(b / 16));
        out.append(hex_digit_str(b % 16));
        proof {
            assert(bytes@.subrange(0, i + 1).drop_last() =~= bytes@.subrange(0, i as int));
            assert(bytes@.subrange(0, i + 1).last() == b);
        }
        i = i + 1;
    }
    assert(bytes@.subrange(0, i as int) =~= bytes@);
    out
}

/// The MD5 digest of the UTF-8 bytes of `input`, as 32 lowercase hex digits.
pub fn md5_hex(input: &str) -> (r: String)
    ensures
        r@ == hex_lower(md5_digest(input.spec_bytes())),
        r@.len() == 32,
        forall|i: int| 0 <= i < r@.len() ==> is_lower_hex_char(#[trigger] r@[i]),
{
    let digest = md5_compute(input.as_bytes());
    proof {
        law_hex_text_shape(digest@);
    }
    to_hex_lower(&digest)
}

/// What `bcrypt::verify(password, hash)` answers: `None` when it fails.
pub uninterp spec fn bcrypt_verify_result(password: Seq<char>, hash: Seq<char>) -> Option<bool>;

#[verifier::external_type_specification]
#[verifier::external_body]
pub struct ExBcryptError(bcrypt::BcryptError);

/// Calls `bcrypt::verify(password, hash)`; the answer is named by
/// `bcrypt_verify_result`.
#[verifier::external_body]
fn bcrypt_verify_call(password: &str, hash: &str) -> (r: Result<bool, bcrypt::BcryptError>)
    ensures
        match bcrypt_verify_result(password@, hash@) {
            Some(b) => r matches Ok(v) && v == b,
            None => r is Err,
        },
{
    bcrypt::verify(password, hash)
}

/// Calls `bcrypt::hash(password, bcrypt::DEFAULT_COST)`. The salt is drawn
/// from the operating system's randomness, so the hash itself is not
/// determined; a hash it returns is one that `bcrypt::verify` accepts for
/// the same password, since verifying recomputes the hash with the salt and
/// cost it holds.
#[verifier::external_body]
fn bcrypt_hash_call(password: &str) -> (r: Result<String, bcrypt::BcryptError>)
    ensures
        r matches Ok(h) ==> bcrypt_verify_result(password@, h@) == Some(true),
{
    bcrypt::hash(password, bcrypt::DEFAULT_COST)
}

/// Calls `to_string` on a bcrypt error: its message, which is not stated.
#[verifier::external_body]
fn bcrypt_error_text(err: &bcrypt::BcryptError) -> String {
    err.to_string()
}

/// A bcrypt hash of the password at the default cost. A hash it returns is
/// accepted by `bcrypt_verify` for the same password; a failure is reported
/// as a bcrypt error.
pub fn bcrypt_hash(password: &str) -> (r: Result<String, BizError>)
    ensures
        r matches Ok(h) ==> bcrypt_verify_result(password@, h@) == Some(true),
        r matches Err(e) ==> e.biz_code == BizCode::BCRYPT_ERROR,
{
    match bcrypt_hash_call(password) {
        Ok(h) => Ok(h),
        Err(err) => Err(BizError::with_err(BizCode::BCRYPT_ERROR, bcrypt_error_text(&err))),
    }
}

/// Whether the password matches the bcrypt hash; a hash that cannot be
/// read is reported as a bcrypt error.
pub fn bcrypt_verify(password: &str, hash: &str) -> (r: Result<bool, BizError>)
    ensures
        match bcrypt_verify_result(password@, hash@) {
            Some(b) => r matches Ok(v) && v == b,
            None => r matches Err(e) && e.biz_code == BizCode::BCRYPT_ERROR,
        },
{
    match bcrypt_verify_call(password, hash) {
        Ok(v) => Ok(v),
        Err(err) => Err(BizError::with_err(BizCode::BCRYPT_ERROR, bcrypt_error_text(&err))),
    }
}

} // verus!
