use vstd::prelude::*;
use vstd::string::StrSliceExecFns;

verus! {

/// The characters of a string, in order.
pub fn chars_of(text: &str) -> (r: Vec<char>)
    ensures
        r@ == text@,
{
    let len = text.unicode_len();
    let mut r: Vec<char> = Vec::new();
    let mut i: usize = 0;
    while i < len
        invariant
            i <= len,
            len == text@.len(),
            r@ == text@.take(i as int),
        decreases len - i,
    {
        r.push(text.get_char(i));
        i = i + 1;
        assert(r@ =~= text@.take(i as int));
    }
    assert(text@.take(len as int) =~= text@);
    r
}

/// Relies on `FromIterator<char> for String` (`Iterator::collect`): the
/// string holds the characters in the order given.
#[verifier::external_body]
pub fn string_of(chars: &Vec<char>) -> (r: String)
    ensures
        r@ == chars@,
{
    chars.iter().collect()
}

/// A string holding the text of a literal.
pub fn owned(text: &str) -> (r: String)
    ensures
        r@ == text@,
{
    text.to_owned()
}

} // verus!
