use vstd::prelude::*;
use vstd::string::*;
use vstd::utf8::encode_utf8;

verus! {

/// A freshly made string, `yours`, handed to the caller.
pub fn gives_ownership() -> (r: String)
    ensures
        r@ == "yours"@,
{
    String::from_str("yours")
}

/// Hands the string it was given back to the caller, unchanged.
pub fn takes_and_gives_back(s: String) -> (r: String)
    ensures
        r == s,
{
    s
}

/// The length of a string in bytes of its UTF-8 encoding.
pub fn calculate_length(s: &String) -> (r: usize)
    ensures
        r == encode_utf8(s@).len() as usize,
{
    s.as_str().len()
}

/// Appends `, world!` to a string.
pub fn change(s: &mut String)
    ensures
        final(s)@ == old(s)@ + ", world!"@,
{
    s.append(", world!");
}

/// Appends ` is coming` to a string.
pub fn mutable_borrow(s: &mut String)
    ensures
        final(s)@ == old(s)@ + " is coming"@,
{
    s.append(" is coming");
}

} // verus!
