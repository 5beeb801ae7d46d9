//! Ownership and borrowing: functions that read, change, create and slice
//! strings.
use vstd::prelude::*;
use vstd::string::StrSliceExecFns;
use vstd::string::StringExecFns;
use vstd::string::StringSliceAdditionalSpecFns;
use vstd::utf8::encode_utf8;

verus! {

/// The number of bytes that `s` takes in UTF-8.
pub open spec fn utf8_len(s: Seq<char>) -> nat {
    encode_utf8(s).len()
}

/// The length of `s` in bytes, read through a shared borrow.
pub fn calculate_length(s: &String) -> (r: usize)
    ensures
        r == utf8_len(s@) as usize,
{
    s.as_str().len()
}

/// Appends `", world"` to the borrowed string.
pub fn change(some_string: &mut String)
    ensures
        final(some_string)@ == old(some_string)@ + ", world"@,
{
    some_string.append(", world");
}

/// A new owned string `"hello"`, moved out to the caller.
pub fn no_dangle() -> (r: String)
    ensures
        r@ == "hello"@,
{
    let s = String::from_str("hello");
    s
}

/// The first word of `s`: everything before its first space, or all of `s`
/// when it has none.
pub fn first_world(s: &String) -> (r: &str)
    ensures
        r@.len() <= s@.len(),
        r@ == s@.subrange(0, r@.len() as int),
        forall|j: int| 0 <= j < r@.len() ==> s@[j] != ' ',
        r@.len() < s@.len() ==> s@[r@.len() as int] == ' ',
{
    let text: &str = s.as_str();
    let n: usize = text.unicode_len();
    let mut i: usize = 0;
    while i < n
        invariant
            text@ == s@,
            n == s@.len(),
            i <= n,
            forall|j: int| 0 <= j < i ==> s@[j] != ' ',
        decreases n - i,
    {
        if text.get_char(i) == ' ' {
            return text.substring_char(0, i);
        }
        i += 1;
    }
    text.substring_char(0, n)
}

} // verus!
