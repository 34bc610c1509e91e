//! Conversions between strings and the character sequences that the grammar
//! works on.

use vstd::prelude::*;

verus! {

/// The characters of `s`, in order.
pub fn to_chars(s: &str) -> (v: Vec<char>)
    ensures
        v@ == s@,
{
    let mut v: Vec<char> = Vec::new();
    for c in it: s.chars()
        invariant
            v@ == it.seq().take(it.index() as int),
            it.seq() == s@,
    {
        v.push(c);
    }
    v
}

/// Appends one character to a string.
///
/// Holds the call of `String::push` of std: the string afterwards is the
/// string before with `c` added at its end.
#[verifier::external_body]
fn push_char(s: &mut String, c: char)
    ensures
        final(s)@ == old(s)@.push(c),
{
    s.push(c);
}

/// The string made of the characters `input[from..to]`.
pub fn make_string(input: &[char], from: usize, to: usize) -> (r: String)
    requires
        from <= to <= input.len(),
    ensures
        r@ == input@.subrange(from as int, to as int),
{
    let mut r = String::new();
    let mut i: usize = from;
    while i < to
        invariant
            from <= i <= to <= input.len(),
            r@ == input@.subrange(from as int, i as int),
        decreases to - i,
    {
        push_char(&mut r, input[i]);
        i += 1;
        assert(r@ =~= input@.subrange(from as int, i as int));
    }
    assert(r@ =~= input@.subrange(from as int, to as int));
    r
}

/// The views of a list of strings, in order.
pub open spec fn names(v: Seq<String>) -> Seq<Seq<char>> {
    v.map_values(|s: String| s@)
}

/// Adding a string to a list adds its view to the list's views.
pub proof fn lemma_names_push(v: Seq<String>, x: String)
    ensures
        names(v.push(x)) == names(v).push(x@),
{
    assert(names(v.push(x)) =~= names(v).push(x@));
}

} // verus!
