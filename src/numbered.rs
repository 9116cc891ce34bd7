//! Numbered pinyin (`shuang1`): splitting it into initial, final and tone.
use vstd::prelude::*;
use crate::table::{is_consonant, is_consonant_letter, is_lower};
use crate::text::chars_of;

verus! {

/// How many consonant letters open `s`.
pub open spec fn consonant_run(s: Seq<char>) -> nat
    decreases s.len(),
{
    if s.len() > 0 && is_consonant_letter(s[0]) {
        1 + consonant_run(s.drop_first())
    } else {
        0
    }
}

pub open spec fn all_lower(s: Seq<char>) -> bool {
    forall|k: int| 0 <= k < s.len() ==> is_lower(#[trigger] s[k])
}

pub open spec fn digit_value(c: char) -> Option<u8> {
    match c {
        '1' => Some(1u8),
        '2' => Some(2u8),
        '3' => Some(3u8),
        '4' => Some(4u8),
        '5' => Some(5u8),
        _ => None,
    }
}

/// The digit that writes tone `t`.
pub open spec fn tone_digit(t: u8) -> char {
    if t == 1 {
        '1'
    } else if t == 2 {
        '2'
    } else if t == 3 {
        '3'
    } else if t == 4 {
        '4'
    } else {
        '5'
    }
}

/// Numbered pinyin split into (initial, final, tone): the initial is the run of
/// consonant letters that opens it, the final is the non-empty run of lower-case
/// letters after it, and one tone digit from 1 to 5 closes it. A syllable without
/// its tone digit is not accepted.
pub open spec fn parse_numbered(s: Seq<char>) -> Option<(Seq<char>, Seq<char>, u8)> {
    let i = consonant_run(s) as int;
    if i + 2 <= s.len() && all_lower(s.subrange(i, s.len() - 1)) && digit_value(
        s.last(),
    ) is Some {
        Some((s.subrange(0, i), s.subrange(i, s.len() - 1), digit_value(s.last())->0))
    } else {
        None
    }
}

/// The syllable `r` (the rhotic suffix), with or without its tone digit 5.
pub open spec fn is_bare_r(s: Seq<char>) -> bool {
    s == seq!['r'] || s == seq!['r', '5']
}

/// `parse_numbered`, which also takes the bare syllable `r` as final `r` of tone 5.
pub open spec fn split_spec(s: Seq<char>) -> Option<(Seq<char>, Seq<char>, u8)> {
    if is_bare_r(s) {
        Some((seq![], seq!['r'], 5u8))
    } else {
        parse_numbered(s)
    }
}

/// The numbered spelling of initial `c`, final `f` and tone `t`.
pub open spec fn numbered(c: Seq<char>, f: Seq<char>, t: u8) -> Seq<char> {
    c + f + seq![tone_digit(t)]
}

pub proof fn lemma_consonant_run(s: Seq<char>, i: int)
    requires
        0 <= i <= s.len(),
        forall|k: int| 0 <= k < i ==> is_consonant_letter(#[trigger] s[k]),
        i < s.len() ==> !is_consonant_letter(s[i]),
    ensures
        consonant_run(s) == i,
    decreases i,
{
    if i > 0 {
        lemma_consonant_run(s.drop_first(), i - 1);
    }
}

/// The letters before `consonant_run(s)` are consonants, and the one after is not.
pub proof fn lemma_run_is_consonants(s: Seq<char>)
    ensures
        consonant_run(s) <= s.len(),
        forall|k: int| 0 <= k < consonant_run(s) ==> is_consonant_letter(#[trigger] s[k]),
        consonant_run(s) < s.len() ==> !is_consonant_letter(s[consonant_run(s) as int]),
    decreases s.len(),
{
    if s.len() > 0 && is_consonant_letter(s[0]) {
        lemma_run_is_consonants(s.drop_first());
        assert forall|k: int| 0 <= k < consonant_run(s) implies is_consonant_letter(
            #[trigger] s[k],
        ) by {
            if k > 0 {
                assert(s[k] == s.drop_first()[k - 1]);
            }
        }
    }
}

pub fn is_bare_r_exec(s: &Vec<char>) -> (r: bool)
    ensures
        r == is_bare_r(s@),
{
    if s.len() == 1 {
        proof {
            if s[0] == 'r' {
                assert(s@ =~= seq!['r']);
            }
        }
        s[0] == 'r'
    } else if s.len() == 2 {
        proof {
            if s[0] == 'r' && s[1] == '5' {
                assert(s@ =~= seq!['r', '5']);
            }
        }
        s[0] == 'r' && s[1] == '5'
    } else {
        false
    }
}

pub fn tone_char(t: u8) -> (r: char)
    ensures
        r == tone_digit(t),
{
    if t == 1 {
        '1'
    } else if t == 2 {
        '2'
    } else if t == 3 {
        '3'
    } else if t == 4 {
        '4'
    } else {
        '5'
    }
}

pub fn tone_digit_value(c: char) -> (r: Option<u8>)
    ensures
        r == digit_value(c),
{
    match c {
        '1' => Some(1u8),
        '2' => Some(2u8),
        '3' => Some(3u8),
        '4' => Some(4u8),
        '5' => Some(5u8),
        _ => None,
    }
}

/// Splits numbered pinyin: on success, the length of the initial and the tone.
pub fn split_syllable(s: &Vec<char>) -> (r: Option<(usize, u8)>)
    ensures
        match r {
            Some((i, t)) => i + 2 <= s@.len() && consonant_run(s@) == i && parse_numbered(s@) == Some(
                (s@.subrange(0, i as int), s@.subrange(i as int, s@.len() - 1), t),
            ),
            None => parse_numbered(s@) is None,
        },
{
    let n = s.len();
    let mut i: usize = 0;
    while i < n && is_consonant(s[i])
        invariant
            i <= n == s@.len(),
            forall|k: int| 0 <= k < i ==> is_consonant_letter(#[trigger] s@[k]),
        decreases n - i,
    {
        i = i + 1;
    }
    proof {
        lemma_consonant_run(s@, i as int);
    }
    if n - i < 2 {
        return None;
    }
    let tone = match tone_digit_value(s[n - 1]) {
        Some(t) => t,
        None => return None,
    };
    let mut j: usize = i;
    while j < n - 1
        invariant
            i <= j <= n - 1,
            n == s@.len(),
            consonant_run(s@) == i,
            forall|k: int| i <= k < j ==> is_lower(#[trigger] s@[k]),
        decreases n - 1 - j,
    {
        if !('a' <= s[j] && s[j] <= 'z') {
            proof {
                assert(!is_lower(s@.subrange(i as int, n - 1)[j - i]));
            }
            return None;
        }
        j = j + 1;
    }
    assert(all_lower(s@.subrange(i as int, n - 1)));
    Some((i, tone))
}

/// Splits numbered pinyin into (initial, final, tone).
///
/// The initial is the run of consonant letters that opens the syllable, the
/// final is the run of lower-case letters after it, and the syllable ends in
/// one tone digit from 1 to 5. A syllable without its tone digit is rejected:
/// the tone is never guessed. The bare syllable `r` (the rhotic suffix), with
/// or without the digit 5, is final `r` of tone 5. Anything else is `None`.
pub fn split(s: &str) -> (r: Option<(&str, &str, u8)>)
    ensures
        r matches Some((c, f, t)) ==> split_spec(s@) == Some((c@, f@, t)),
        r is None <==> split_spec(s@) is None,
{
    let v = chars_of(s);
    if is_bare_r_exec(&v) {
        proof {
            reveal_strlit("");
            reveal_strlit("r");
        }
        return Some(("", "r", 5));
    }
    match split_syllable(&v) {
        Some((i, t)) => {
            let n = v.len();
            proof {
                lemma_run_is_consonants(s@);
            }
            assert forall|k: int| 0 <= k < s@.len() implies '\0' <= #[trigger] s@[k] <= '\u{7f}' by {
                if k < i {
                    assert(is_consonant_letter(s@[k]));
                } else if k < n - 1 {
                    assert(is_lower(s@.subrange(i as int, n - 1)[k - i]));
                }
            }
            Some((s.substring_ascii(0, i), s.substring_ascii(i, n - 1), t))
        },
        None => None,
    }
}

} // verus!
