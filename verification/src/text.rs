use vstd::prelude::*;
use vstd::string::StringExecFns;

verus! {

/// Appends `tail` to `s`.
pub fn push_str(s: &mut String, tail: &str)
    ensures
        final(s)@ == old(s)@ + tail@,
{
    s.append(tail);
}

/// A new string made of `head` followed by `tail`.
pub fn concat(head: &str, tail: &str) -> (r: String)
    ensures
        r@ == head@ + tail@,
{
    let mut s = head.to_string();
    proof {
        vstd::string::to_string_from_display_ensures_for_str(head, s);
    }
    push_str(&mut s, tail);
    s
}

} // verus!
