//! Password hashes: the SHA-256 digest of the password, in lower-case hexadecimal.

use sha2::Digest;
use vstd::prelude::*;
use vstd::string::StringExecFns;
use vstd::utf8::encode_utf8;
use crate::text::str_eq;

verus! {

/// The SHA-256 digest of `data`.
pub uninterp spec fn sha256(data: Seq<u8>) -> Seq<u8>;

/// Calls `Sha256::digest` of the crate sha2, which hashes `data` in one go. The
/// contract names the digest `sha256(data)` and claims that it is 32 bytes long, as
/// the output type of `Sha256` says; what the digest is, is not proved here.
#[verifier::external_body]
pub(crate) fn sha256_digest(data: &[u8]) -> (digest: Vec<u8>)
    ensures
        digest@ == sha256(data@),
        digest@.len() == 32,
{
    sha2::Sha256::digest(data).to_vec()
}

/// The hexadecimal digit of `n`, in lower case.
pub open spec fn hex_digit(n: int) -> char {
    if n == 0 {
        '0'
    } else if n == 1 {
        '1'
    } else if n == 2 {
        '2'
    } else if n == 3 {
        '3'
    } else if n == 4 {
        '4'
    } else if n == 5 {
        '5'
    } else if n == 6 {
        '6'
    } else if n == 7 {
        '7'
    } else if n == 8 {
        '8'
    } else if n == 9 {
        '9'
    } else if n == 10 {
        'a'
    } else if n == 11 {
        'b'
    } else if n == 12 {
        'c'
    } else if n == 13 {
        'd'
    } else if n == 14 {
        'e'
    } else {
        'f'
    }
}

/// `data` in hexadecimal: two lower-case digits for each byte, the high one first.
pub open spec fn hex_lower(data: Seq<u8>) -> Seq<char>
    decreases data.len(),
{
    if data.len() == 0 {
        Seq::empty()
    } else {
        hex_lower(data.drop_last()).push(hex_digit(data.last() as int / 16)).push(
            hex_digit(data.last() as int % 16),
        )
    }
}

/// The hash under which `password` is stored.
pub open spec fn password_hash_of(password: Seq<char>) -> Seq<char> {
    hex_lower(sha256(encode_utf8(password)))
}

/// The text has two digits for each byte.
pub proof fn lemma_hex_lower_len(data: Seq<u8>)
    ensures
        hex_lower(data).len() == 2 * data.len(),
    decreases data.len(),
{
    if data.len() > 0 {
        lemma_hex_lower_len(data.drop_last());
    }
}

/// The hexadecimal digit of `n` as a string.
fn hex_digit_str(n: u8) -> (s: &'static str)
    requires
        n < 16,
    ensures
        s@ == seq![hex_digit(n as int)],
{
    proof {
        reveal_strlit("0");
        reveal_strlit("1");
        reveal_strlit("2");
        reveal_strlit("3");
        reveal_strlit("4");
        reveal_strlit("5");
        reveal_strlit("6");
        reveal_strlit("7");
        reveal_strlit("8");
        reveal_strlit("9");
        reveal_strlit("a");
        reveal_strlit("b");
        reveal_strlit("c");
        reveal_strlit("d");
        reveal_strlit("e");
        reveal_strlit("f");
    }
    let s = match n {
        0 => "0",
        1 => "1",
        2 => "2",
        3 => "3",
        4 => "4",
        5 => "5",
        6 => "6",
        7 => "7",
        8 => "8",
        9 => "9",
        10 => "a",
        11 => "b",
        12 => "c",
        13 => "d",
        14 => "e",
        _ => "f",
    };
    assert(s@ =~= seq![hex_digit(n as int)]);
    s
}

/// `data` in lower-case hexadecimal.
pub fn to_hex(data: &[u8]) -> (text: String)
    ensures
        text@ == hex_lower(data@),
        text@.len() == 2 * data@.len(),
{
    let mut text = String::new();
    let mut i: usize = 0;
    assert(data@.take(0) =~= Seq::<u8>::empty());
    while i < data.len()
        invariant
            i <= data.len(),
            text@ == hex_lower(data@.take(i as int)),
        decreases data.len() - i,
    {
        let byte: u8 = data[i];
        let ghost before = text@;
        text.append(hex_digit_str(byte / 16));
        text.append(hex_digit_str(byte % 16));
        proof {
            let next = data@.take(i + 1);
            assert(next.drop_last() =~= data@.take(i as int));
            assert(next.last() == byte);
            assert(text@ =~= before.push(hex_digit(byte as int / 16)).push(
                hex_digit(byte as int % 16),
            ));
        }
        i += 1;
    }
    proof {
        assert(data@.take(data@.len() as int) =~= data@);
        lemma_hex_lower_len(data@);
    }
    text
}

/// The hash under which `password` is stored: 64 hexadecimal digits.
pub fn hash_password(password: &str) -> (hash: String)
    ensures
        hash@ == password_hash_of(password@),
        hash@.len() == 64,
{
    let digest = sha256_digest(password.as_bytes());
    to_hex(digest.as_slice())
}

/// Whether `hash` is the hash of `password`. The digits are compared as they are:
/// a hash in upper case does not match.
pub fn verify_password(password: &str, hash: &str) -> (ok: bool)
    ensures
        ok == (password_hash_of(password@) == hash@),
{
    let computed_hash = hash_password(password);
    str_eq(computed_hash.as_str(), hash)
}

/// Whether `password` is the password of a user whose stored hash is `stored`. A
/// user without a stored hash has no password that matches.
pub fn password_matches(password: &str, stored: Option<&str>) -> (ok: bool)
    ensures
        ok == match stored {
            Some(hash) => password_hash_of(password@) == hash@,
            None => false,
        },
{
    match stored {
        Some(hash) => verify_password(password, hash),
        None => false,
    }
}

} // verus!
