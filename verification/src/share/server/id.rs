//! The identifiers of stored reports: ten characters, lowercase letters and digits.

use rand::RngCore;
use crate::text;
use vstd::prelude::*;

verus! {

/// The characters of an identifier: `a` to `z`, then `0` to `9`.
pub const ID_CHARSET: [u8; 36] = [
    97, 98, 99, 100, 101, 102, 103, 104, 105, 106, 107, 108, 109,
    110, 111, 112, 113, 114, 115, 116, 117, 118, 119, 120, 121, 122,
    48, 49, 50, 51, 52, 53, 54, 55, 56, 57,
];

/// The length of an identifier.
pub const ID_LEN: usize = 10;

/// The character that a random byte stands for.
pub open spec fn symbol(b: u8) -> char {
    if b % 36 < 26 {
        (b % 36 + 97) as char
    } else {
        (b % 36 + 22) as char
    }
}

/// The identifier that random bytes stand for.
pub open spec fn id_of(bytes: Seq<u8>) -> Seq<char> {
    let n = if bytes.len() < ID_LEN {
        bytes.len()
    } else {
        ID_LEN as nat
    };
    Seq::new(n, |i: int| symbol(bytes[i]))
}

/// A lowercase letter or a digit.
pub open spec fn is_symbol(c: char) -> bool {
    'a' <= c <= 'z' || '0' <= c <= '9'
}

/// The form of an identifier.
pub open spec fn valid_id(s: Seq<char>) -> bool {
    &&& s.len() == ID_LEN
    &&& forall|i: int| 0 <= i < s.len() ==> is_symbol(#[trigger] s[i])
}

/// Makes an identifier of random bytes; those beyond the tenth are not used.
pub fn id_from_bytes(bytes: &[u8]) -> (s: String)
    ensures
        s@ == id_of(bytes@),
{
    let mut s = String::new();
    let mut i: usize = 0;
    while i < bytes.len() && i < ID_LEN
        invariant
            i <= bytes.len(),
            i <= ID_LEN,
            s@ == id_of(bytes@).take(i as int),
        decreases bytes.len() - i,
    {
        let b: u8 = ID_CHARSET[(bytes[i] % 36) as usize];
        proof {
            lemma_charset(bytes@[i as int]);
        }
        s.push(b as char);
        i = i + 1;
    }
    assert(id_of(bytes@).take(i as int) == id_of(bytes@));
    s
}

proof fn lemma_charset(b: u8)
    ensures
        ID_CHARSET@[(b % 36) as int] as char == symbol(b),
{
}

/// Calls `rand::RngCore::fill_bytes` on the generator of the thread, `rand::rng()`.
/// Nothing is claimed of the bytes.
#[verifier::external_body]
fn random_bytes() -> [u8; 10] {
    let mut bytes = [0u8; 10];
    rand::rng().fill_bytes(&mut bytes);
    bytes
}

/// A fresh identifier. Which one it is depends on chance; it always has the form of
/// an identifier.
pub fn generate_id() -> (s: String)
    ensures
        valid_id(s@),
{
    let bytes = random_bytes();
    let s = id_from_bytes(bytes.as_slice());
    proof {
        law_ids_are_valid(bytes@);
    }
    s
}

/// Whether a text has the form of an identifier.
pub fn is_valid_id(s: &str) -> (r: bool)
    ensures
        r == valid_id(s@),
{
    let chars = text::chars_of(s);
    if chars.len() != ID_LEN {
        return false;
    }
    let mut i: usize = 0;
    while i < chars.len()
        invariant
            i <= chars@.len(),
            chars@ == s@,
            forall|j: int| 0 <= j < i ==> is_symbol(#[trigger] s@[j]),
        decreases chars@.len() - i,
    {
        let c = chars[i];
        if !(('a' <= c && c <= 'z') || ('0' <= c && c <= '9')) {
            assert(!is_symbol(s@[i as int]));
            return false;
        }
        i = i + 1;
    }
    true
}

/// Ten random bytes or more always make an identifier of the right form.
pub proof fn law_ids_are_valid(bytes: Seq<u8>)
    requires
        bytes.len() >= ID_LEN,
    ensures
        valid_id(id_of(bytes)),
{
}

/// An identifier holds no character by which a path could leave its directory.
pub proof fn law_ids_are_plain_file_names(s: Seq<char>)
    requires
        valid_id(s),
    ensures
        !s.contains('/'),
        !s.contains('.'),
        !s.contains('\\'),
{
    assert forall|i: int| 0 <= i < s.len() implies s[i] != '/' && s[i] != '.' && s[i] != '\\' by {
        assert(is_symbol(s[i]));
    }
}

} // verus!
