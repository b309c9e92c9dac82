//! Machine identity: a stable fingerprint of the device, derived one way
//! from a device attribute.

use sha2::{Digest, Sha256};
use vstd::prelude::*;
use vstd::string::StringExecFns;
use vstd::utf8::encode_utf8;
use crate::error::IdentityError;

verus! {

/// The fingerprint of a device: the SHA-256 digest of one of its stable
/// attributes, in lower-case hexadecimal digits.
#[derive(Clone, Debug, PartialEq, Eq)]
pub struct MachineFingerprint {
    pub value: String,
}

impl View for MachineFingerprint {
    type V = Seq<char>;

    open spec fn view(&self) -> Seq<char> {
        self.value@
    }
}

/// The SHA-256 digest of `data`, as `sha2` computes it.
pub uninterp spec fn sha256_digest(data: Seq<u8>) -> Seq<u8>;

/// Calls `sha2::Sha256::digest` on `data` and copies the digest out. The
/// contract gives the digest its name, as a function of the bytes alone, and
/// its length: the output size of `Sha256` is fixed at thirty-two bytes.
#[verifier::external_body]
fn sha256(data: &[u8]) -> (digest: Vec<u8>)
    ensures
        digest@ == sha256_digest(data@),
        digest@.len() == 32,
{
    Sha256::digest(data).to_vec()
}

/// The lower-case hexadecimal digits, in order.
pub open spec fn hex_digits() -> Seq<char> {
    seq!['0', '1', '2', '3', '4', '5', '6', '7', '8', '9', 'a', 'b', 'c', 'd', 'e', 'f']
}

/// The digit at position `i` of the hexadecimal form of `data`: byte `i / 2`
/// gives its high half first and its low half second.
pub open spec fn hex_digit_at(data: Seq<u8>, i: int) -> char {
    if i % 2 == 0 {
        hex_digits()[data[i / 2] as int / 16]
    } else {
        hex_digits()[data[i / 2] as int % 16]
    }
}

/// The lower-case hexadecimal form of `data`, two digits to the byte.
pub open spec fn hex_lower(data: Seq<u8>) -> Seq<char> {
    Seq::new(2 * data.len(), |i: int| hex_digit_at(data, i))
}

/// The fingerprint that the attribute `attribute` stands for.
pub open spec fn fingerprint_of(attribute: Seq<char>) -> Seq<char> {
    hex_lower(sha256_digest(encode_utf8(attribute)))
}

/// Whether a device attribute was read and is not empty.
pub open spec fn is_stable(attribute: Option<String>) -> bool {
    match attribute {
        Some(text) => text@.len() > 0,
        None => false,
    }
}

/// The one hexadecimal digit for a value below sixteen.
fn hex_digit(value: u8) -> (digit: &'static str)
    requires
        value < 16,
    ensures
        digit@ == seq![hex_digits()[value as int]],
{
    proof {
        reveal_strlit("0");
        reveal_strlit("1");
        reveal_strlit("2");
        reveal_strlit("3");
        reveal_strlit("4");
        reveal_strlit("5");
        reveal_strlit("6");
        reveal_strlit("7");
        reveal_strlit("8");
        reveal_strlit("9");
        reveal_strlit("a");
        reveal_strlit("b");
        reveal_strlit("c");
        reveal_strlit("d");
        reveal_strlit("e");
        reveal_strlit("f");
    }
    let digit = match value {
        0 => "0",
        1 => "1",
        2 => "2",
        3 => "3",
        4 => "4",
        5 => "5",
        6 => "6",
        7 => "7",
        8 => "8",
        9 => "9",
        10 => "a",
        11 => "b",
        12 => "c",
        13 => "d",
        14 => "e",
        _ => "f",
    };
    assert(digit@ =~= seq![hex_digits()[value as int]]);
    digit
}

/// Writes `data` in lower-case hexadecimal digits.
pub fn to_hex(data: &Vec<u8>) -> (text: String)
    ensures
        text@ == hex_lower(data@),
{
    let mut text = String::new();
    let mut i: usize = 0;
    while i < data.len()
        invariant
            i <= data.len(),
            text@.len() == 2 * i,
            forall|k: int| 0 <= k < 2 * i ==> text@[k] == hex_digit_at(data@, k),
        decreases data.len() - i,
    {
        let byte: u8 = data[i];
        let ghost before = text@;
        text.append(hex_digit(byte / 16));
        text.append(hex_digit(byte % 16));
        proof {
            assert(text@ =~= before.push(hex_digits()[byte as int / 16]).push(
                hex_digits()[byte as int % 16],
            ));
            assert forall|k: int| 0 <= k < 2 * (i + 1) implies text@[k] == hex_digit_at(
                data@,
                k,
            ) by {
                if k == 2 * i {
                    assert(k / 2 == i && k % 2 == 0);
                } else if k == 2 * i + 1 {
                    assert(k / 2 == i && k % 2 == 1);
                }
            }
        }
        i = i + 1;
    }
    assert(text@ =~= hex_lower(data@));
    text
}

impl MachineFingerprint {
    /// Derives the fingerprint from a device attribute. The attribute itself
    /// does not appear in the result: only the digest of its bytes does.
    pub fn derive(attribute: &str) -> (fingerprint: MachineFingerprint)
        ensures
            fingerprint@ == fingerprint_of(attribute@),
            fingerprint@.len() == 64,
    {
        let digest = sha256(attribute.as_bytes());
        MachineFingerprint { value: to_hex(&digest) }
    }
}

/// Derives the fingerprint of the device from the attributes that could be
/// read, in the order of preference: the first one that is present and not
/// empty decides. Without any such attribute the identity is unavailable.
pub fn fingerprint(attributes: &Vec<Option<String>>) -> (identity: Result<
    MachineFingerprint,
    IdentityError,
>)
    ensures
        identity is Ok <==> exists|i: int|
            0 <= i < attributes.len() && is_stable(#[trigger] attributes[i]),
        identity is Err ==> identity == Err::<MachineFingerprint, IdentityError>(
            IdentityError::Unavailable,
        ),
        identity is Ok ==> exists|i: int|
            0 <= i < attributes.len() && is_stable(#[trigger] attributes[i]) && (forall|j: int|
                0 <= j < i ==> !is_stable(#[trigger] attributes[j])) && identity->Ok_0@
                == fingerprint_of(attributes[i]->Some_0@),
        identity is Ok ==> identity->Ok_0@.len() == 64,
{
    let mut i: usize = 0;
    while i < attributes.len()
        invariant
            i <= attributes.len(),
            forall|j: int| 0 <= j < i ==> !is_stable(#[trigger] attributes[j]),
        decreases attributes.len() - i,
    {
        match &attributes[i] {
            Some(text) => {
                if !text.as_str().is_empty() {
                    let found = MachineFingerprint::derive(text.as_str());
                    assert(is_stable(attributes[i as int]));
                    return Ok(found);
                }
            },
            None => {},
        }
        i = i + 1;
    }
    Err(IdentityError::Unavailable)
}

} // verus!
