//! The content hash: SHA3-256, written as lower-case hexadecimal.

use vstd::prelude::*;
use vstd::string::*;
use sha3::Digest;

verus! {

/// The SHA3-256 digest of a byte string.
pub uninterp spec fn sha3_256(data: Seq<u8>) -> Seq<u8>;

/// The lower-case hexadecimal digit of a number below 16.
pub open spec fn hex_digit(n: u8) -> char {
    if n < 10 {
        (0x30 + n) as char
    } else {
        (0x61 + (n - 10)) as char
    }
}

/// The lower-case hexadecimal form of a byte string: two digits for each
/// byte, the high half first.
pub open spec fn hex_of(data: Seq<u8>) -> Seq<char> {
    Seq::new(
        2 * data.len(),
        |k: int|
            if k % 2 == 0 {
                hex_digit(data[k / 2] >> 4)
            } else {
                hex_digit(data[k / 2] & 0x0f)
            },
    )
}

/// Calls `sha3::Sha3_256::digest`. The contract gives the digest the name
/// `sha3_256`; nothing else is claimed of it.
#[verifier::external_body]
fn sha3_256_digest(content: &[u8]) -> (digest: Vec<u8>)
    ensures
        digest@ == sha3_256(content@),
{
    sha3::Sha3_256::digest(content).to_vec()
}

/// The text of one lower-case hexadecimal digit.
fn hex_digit_text(n: u8) -> (text: &'static str)
    requires
        n < 16,
    ensures
        text@ == seq![hex_digit(n)],
{
    proof {
        reveal_strlit("0");
        reveal_strlit("1");
        reveal_strlit("2");
        reveal_strlit("3");
        reveal_strlit("4");
        reveal_strlit("5");
        reveal_strlit("6");
        reveal_strlit("7");
        reveal_strlit("8");
        reveal_strlit("9");
        reveal_strlit("a");
        reveal_strlit("b");
        reveal_strlit("c");
        reveal_strlit("d");
        reveal_strlit("e");
        reveal_strlit("f");
    }
    let text = if n == 0 {
        "0"
    } else if n == 1 {
        "1"
    } else if n == 2 {
        "2"
    } else if n == 3 {
        "3"
    } else if n == 4 {
        "4"
    } else if n == 5 {
        "5"
    } else if n == 6 {
        "6"
    } else if n == 7 {
        "7"
    } else if n == 8 {
        "8"
    } else if n == 9 {
        "9"
    } else if n == 10 {
        "a"
    } else if n == 11 {
        "b"
    } else if n == 12 {
        "c"
    } else if n == 13 {
        "d"
    } else if n == 14 {
        "e"
    } else {
        "f"
    };
    assert(text@ =~= seq![hex_digit(n)]);
    text
}

/// The lower-case hexadecimal form of a byte string.
pub fn hex_encode(data: &Vec<u8>) -> (text: String)
    ensures
        text@ == hex_of(data@),
{
    let mut text = String::new();
    let mut k: usize = 0;
    while k < data.len()
        invariant
            k <= data@.len(),
            text@.len() == 2 * k,
            forall|t: int| 0 <= t < 2 * k ==> text@[t] == hex_of(data@)[t],
        decreases data@.len() - k,
    {
        let byte: u8 = data[k];
        let high: u8 = byte >> 4;
        let low: u8 = byte & 0x0f;
        assert(high < 16 && low < 16) by (bit_vector)
            requires
                high == byte >> 4,
                low == byte & 0x0f,
        ;
        let ghost before = text@;
        text.append(hex_digit_text(high));
        text.append(hex_digit_text(low));
        proof {
            assert(text@ =~= before + seq![hex_digit(high)] + seq![hex_digit(low)]);
            assert(hex_of(data@)[2 * k] == hex_digit(high));
            assert(hex_of(data@)[2 * k + 1] == hex_digit(low));
        }
        k = k + 1;
    }
    assert(text@ =~= hex_of(data@));
    text
}

/// The content hash of a byte string: the hexadecimal form of its SHA3-256
/// digest.
pub fn hash(content: &[u8]) -> (h: String)
    ensures
        h@ == hex_of(sha3_256(content@)),
{
    let digest = sha3_256_digest(content);
    hex_encode(&digest)
}

} // verus!
