//! Generated credentials for a node that was given none.

use rand::distr::{Alphanumeric, SampleString};
use rand::Rng;
use vstd::prelude::*;
use vstd::string::*;

verus! {

/// The number of characters of a generated node id.
pub const NODE_ID_LENGTH: usize = 16;

/// The number of characters of a generated password.
pub const PASSWORD_LENGTH: usize = 24;

/// An ASCII letter or digit.
pub open spec fn is_alphanumeric(c: char) -> bool {
    ('a' <= c && c <= 'z') || ('A' <= c && c <= 'Z') || ('0' <= c && c <= '9')
}

/// A character that a generated password may hold: a letter, a digit, `!`
/// or `*`.
pub open spec fn is_password_char(c: char) -> bool {
    is_alphanumeric(c) || c == '!' || c == '*'
}

/// The text is a well-formed node id: 16 letters and digits.
pub open spec fn is_node_id(text: Seq<char>) -> bool {
    &&& text.len() == NODE_ID_LENGTH
    &&& forall|i: int| 0 <= i < text.len() ==> is_alphanumeric(#[trigger] text[i])
}

/// The text is a well-formed password: 24 password characters.
pub open spec fn is_password(text: Seq<char>) -> bool {
    &&& text.len() == PASSWORD_LENGTH
    &&& forall|i: int| 0 <= i < text.len() ==> is_password_char(#[trigger] text[i])
}

/// `Alphanumeric.sample_string` on the thread's generator: a random string
/// of `len` characters, each an ASCII letter or digit.
#[verifier::external_body]
fn random_alphanumeric(len: usize) -> (text: String)
    ensures
        text@.len() == len,
        forall|i: int| 0 <= i < text@.len() ==> is_alphanumeric(#[trigger] text@[i]),
{
    Alphanumeric.sample_string(&mut rand::rng(), len)
}

/// `Rng::random_range` on the thread's generator, over `0..bound`: a random
/// index below `bound`. The range must not be empty.
#[verifier::external_body]
fn random_index(bound: usize) -> (index: usize)
    requires
        bound > 0,
    ensures
        index < bound,
{
    rand::rng().random_range(0..bound)
}

/// The password characters, in the order in which an index picks them.
pub open spec fn charset() -> Seq<char> {
    "ABCDEFGHIJKLMNOPQRSTUVWXYZabcdefghijklmnopqrstuvwxyz0123456789!*"@
}

/// The text that the indices pick from the password characters, one
/// character per index.
pub open spec fn picked(indices: Seq<usize>) -> Seq<char> {
    Seq::new(indices.len(), |i: int| charset()[indices[i] as int])
}

proof fn lemma_charset()
    ensures
        charset().len() == 64,
        forall|i: int| 0 <= i < 64 ==> is_password_char(#[trigger] charset()[i]),
{
    reveal_strlit("ABCDEFGHIJKLMNOPQRSTUVWXYZabcdefghijklmnopqrstuvwxyz0123456789!*");
}

/// A random node id of 16 letters and digits.
pub fn generate_node_id() -> (id: String)
    ensures
        is_node_id(id@),
{
    random_alphanumeric(NODE_ID_LENGTH)
}

/// The password that a sequence of indices picks: for each index, in order,
/// the password character at that index.
pub fn password_from_indices(indices: &Vec<usize>) -> (password: String)
    requires
        forall|i: int| 0 <= i < indices@.len() ==> (#[trigger] indices@[i]) < 64,
    ensures
        password@ == picked(indices@),
        forall|i: int| 0 <= i < password@.len() ==> is_password_char(#[trigger] password@[i]),
{
    let charset = "ABCDEFGHIJKLMNOPQRSTUVWXYZabcdefghijklmnopqrstuvwxyz0123456789!*";
    proof {
        lemma_charset();
        reveal_strlit("ABCDEFGHIJKLMNOPQRSTUVWXYZabcdefghijklmnopqrstuvwxyz0123456789!*");
    }
    let mut password = String::new();
    let mut i: usize = 0;
    while i < indices.len()
        invariant
            i <= indices.len(),
            charset@ == self::charset(),
            charset.is_ascii(),
            charset@.len() == 64,
            forall|j: int| 0 <= j < indices@.len() ==> (#[trigger] indices@[j]) < 64,
            password@ == picked(indices@.take(i as int)),
        decreases indices.len() - i,
    {
        let at = indices[i];
        let one = charset.substring_ascii(at, at + 1);
        password.append(one);
        proof {
            assert(password@ =~= picked(indices@.take(i + 1)));
        }
        i += 1;
    }
    proof {
        assert(indices@.take(indices.len() as int) == indices@);
        lemma_charset();
    }
    password
}

/// A random password of 24 characters, each a letter, a digit, `!` or `*`.
pub fn generate_secure_password() -> (password: String)
    ensures
        is_password(password@),
{
    let mut indices: Vec<usize> = Vec::new();
    let mut i: usize = 0;
    while i < PASSWORD_LENGTH
        invariant
            i <= PASSWORD_LENGTH,
            indices@.len() == i,
            forall|j: int| 0 <= j < indices@.len() ==> (#[trigger] indices@[j]) < 64,
        decreases PASSWORD_LENGTH - i,
    {
        indices.push(random_index(64));
        i += 1;
    }
    password_from_indices(&indices)
}

} // verus!
