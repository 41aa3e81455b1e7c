//! Random identifiers, from a process-local entropy source expanded by a
//! verified generator.

use vstd::prelude::*;

verus! {

/// One word of process-local entropy.
///
/// Relies on std::collections::hash_map::RandomState: every fresh state
/// hashes with its own randomly seeded keys, so finishing a hash of a
/// fixed input yields a word that varies between states and processes.
/// Nothing can be promised of a random value.
#[verifier::external_body]
fn entropy_word() -> u64 {
    let state = std::collections::hash_map::RandomState::new();
    let mut hasher = std::hash::BuildHasher::build_hasher(&state);
    std::hash::Hasher::write_u64(&mut hasher, 1);
    std::hash::Hasher::finish(&hasher)
}

/// One step of a splitmix-style generator: the next state and one output
/// word. The word is arbitrary; the callers promise nothing of it beyond
/// its range.
fn next_word(state: u64) -> (r: (u64, u64)) {
    let s = state.wrapping_add(0x9E3779B97F4A7C15u64);
    let mut z = s;
    z = (z ^ (z >> 30)).wrapping_mul(0xBF58476D1CE4E5B9u64);
    z = (z ^ (z >> 27)).wrapping_mul(0x94D049BB133111EBu64);
    z = z ^ (z >> 31);
    (s, z)
}

/// A string of `len` random characters, drawn from the letters and
/// digits.
pub fn random_string(len: i32) -> (r: String)
    ensures
        len >= 0 ==> r@.len() == len,
        len < 0 ==> r@.len() == 0,
        forall|i: int| 0 <= i < r@.len() ==> is_id_char(#[trigger] r@[i]),
{
    let n: usize = if len > 0 {
        len as usize
    } else {
        0
    };
    let bytes = random_id_bytes(n);
    let r = ascii_to_string(bytes);
    proof {
        assert forall|i: int| 0 <= i < r@.len() implies is_id_char(#[trigger] r@[i]) by {
            assert(is_id_byte(ascii_of(r@[i])));
        }
    }
    r
}

/// `len` random bytes, each the code of a letter or digit, as the random
/// string helper hands them out.
pub fn random_bytes(len: usize) -> (r: Vec<u8>)
    ensures
        r@.len() == len,
        forall|i: int| 0 <= i < r@.len() ==> is_id_byte(#[trigger] r@[i]),
{
    random_id_bytes(len)
}

/// Whether a byte is the ASCII code of a letter or digit.
pub open spec fn is_id_byte(b: u8) -> bool {
    (65 <= b <= 90) || (97 <= b <= 122) || (48 <= b <= 57)
}

/// Whether a character is a letter or digit.
pub open spec fn is_id_char(c: char) -> bool {
    c < '\u{80}' && is_id_byte(ascii_of(c))
}

/// The code of a character below 128.
pub open spec fn ascii_of(c: char) -> u8 {
    (c as nat % 256) as u8
}

/// `len` bytes of letter and digit codes from the entropy-seeded
/// generator.
fn random_id_bytes(len: usize) -> (r: Vec<u8>)
    ensures
        r@.len() == len,
        forall|i: int| 0 <= i < r@.len() ==> is_id_byte(#[trigger] r@[i]),
{
    let mut state = entropy_word();
    let mut out: Vec<u8> = Vec::new();
    let mut i: usize = 0;
    while i < len
        invariant
            out@.len() == i,
            i <= len,
            forall|j: int| 0 <= j < i ==> is_id_byte(#[trigger] out@[j]),
        decreases len - i,
    {
        let (next_state, word) = next_word(state);
        state = next_state;
        let k = (word % 62) as u8;
        let b: u8 = if k < 26 {
            65 + k
        } else if k < 52 {
            97 + (k - 26)
        } else {
            48 + (k - 52)
        };
        assert(is_id_byte(b));
        out.push(b);
        i = i + 1;
    }
    out
}

/// A string from bytes below 128, character for character.
///
/// Relies on String::from_utf8: bytes below 128 are valid UTF-8 and
/// decode to the characters with the same codes.
#[verifier::external_body]
fn ascii_to_string(bytes: Vec<u8>) -> (r: String)
    requires
        forall|i: int| 0 <= i < bytes@.len() ==> bytes@[i] < 128,
    ensures
        r@.len() == bytes@.len(),
        forall|i: int|
            0 <= i < bytes@.len() ==> #[trigger] r@[i] < '\u{80}' && ascii_of(r@[i])
                == bytes@[i],
{
    match String::from_utf8(bytes) {
        Ok(s) => s,
        Err(_) => String::new(),
    }
}

} // verus!
