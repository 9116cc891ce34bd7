//! Moving between `str`/`String` and sequences of characters.
use vstd::prelude::*;
use vstd::std_specs::iter::IteratorSpec;

verus! {

/// Relies on `String::push` of std: it appends `ch` to the end of the string.
pub assume_specification[ String::push ](s: &mut String, ch: char)
    ensures
        final(s)@ == old(s)@.push(ch),
;

/// The characters of an optional string.
pub open spec fn opt_chars(r: Option<String>) -> Option<Seq<char>> {
    match r {
        Some(x) => Some(x@),
        None => None,
    }
}

/// The characters of an optional character vector.
pub open spec fn opt_seq(r: Option<Vec<char>>) -> Option<Seq<char>> {
    match r {
        Some(x) => Some(x@),
        None => None,
    }
}

/// The characters of `s`, in order.
pub fn chars_of(s: &str) -> (r: Vec<char>)
    ensures
        r@ == s@,
{
    let mut it = s.chars();
    let mut r: Vec<char> = Vec::new();
    loop
        invariant
            r@ + it.remaining() == s@,
            it.decrease() is Some,
        ensures
            r@ == s@,
        decreases it.decrease()->0,
    {
        match it.next() {
            Some(c) => {
                r.push(c);
            },
            None => {
                assert(r@ + it.remaining() =~= r@);
                break ;
            },
        }
    }
    r
}

/// A `String` holding exactly the characters of `v`.
pub fn string_of(v: &Vec<char>) -> (r: String)
    ensures
        r@ == v@,
{
    let mut r = String::new();
    let mut i: usize = 0;
    while i < v.len()
        invariant
            i <= v.len(),
            r@ == v@.take(i as int),
        decreases v.len() - i,
    {
        r.push(v[i]);
        i = i + 1;
        assert(r@ =~= v@.take(i as int));
    }
    assert(v@.take(i as int) =~= v@);
    r
}

/// The same optional characters, as a `String`.
pub fn string_of_opt(v: Option<Vec<char>>) -> (r: Option<String>)
    ensures
        opt_chars(r) == opt_seq(v),
{
    match v {
        Some(x) => Some(string_of(&x)),
        None => None,
    }
}

/// The characters of `s` from `from` up to `to`.
pub fn sub_chars(s: &Vec<char>, from: usize, to: usize) -> (r: Vec<char>)
    requires
        from <= to <= s@.len(),
    ensures
        r@ == s@.subrange(from as int, to as int),
{
    let mut r: Vec<char> = Vec::new();
    let mut k: usize = from;
    while k < to
        invariant
            from <= k <= to <= s@.len(),
            r@ == s@.subrange(from as int, k as int),
        decreases to - k,
    {
        r.push(s[k]);
        k = k + 1;
        assert(r@ =~= s@.subrange(from as int, k as int));
    }
    r
}

/// Appends the characters of `b` to `a`.
pub fn push_all(a: &mut Vec<char>, b: &Vec<char>)
    ensures
        final(a)@ == old(a)@ + b@,
{
    let mut k: usize = 0;
    while k < b.len()
        invariant
            k <= b@.len(),
            a@ == old(a)@ + b@.take(k as int),
        decreases b.len() - k,
    {
        a.push(b[k]);
        k = k + 1;
        assert(a@ =~= old(a)@ + b@.take(k as int));
    }
    assert(b@.take(k as int) =~= b@);
}

/// Whether `s` is the one character `a`.
pub fn is_one_char(s: &Vec<char>, a: char) -> (r: bool)
    ensures
        r == (s@ == seq![a]),
{
    if s.len() == 1 && s[0] == a {
        assert(s@ =~= seq![a]);
        true
    } else {
        false
    }
}

/// Whether `s` is the two characters `a`, `b`.
pub fn is_two_chars(s: &Vec<char>, a: char, b: char) -> (r: bool)
    ensures
        r == (s@ == seq![a, b]),
{
    if s.len() == 2 && s[0] == a && s[1] == b {
        assert(s@ =~= seq![a, b]);
        true
    } else {
        false
    }
}

/// Whether `s` is the three characters `a`, `b`, `c`.
pub fn is_three_chars(s: &Vec<char>, a: char, b: char, c: char) -> (r: bool)
    ensures
        r == (s@ == seq![a, b, c]),
{
    if s.len() == 3 && s[0] == a && s[1] == b && s[2] == c {
        assert(s@ =~= seq![a, b, c]);
        true
    } else {
        false
    }
}

} // verus!
