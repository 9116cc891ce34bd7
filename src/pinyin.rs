//! Pinyin with tone marks (`zhuàn`): placing the mark on a final, reading it
//! back, and converting whole syllables from and to numbered pinyin.
use vstd::prelude::*;
use crate::numbered::{
    consonant_run, is_bare_r, is_bare_r_exec, lemma_consonant_run, numbered, parse_numbered,
    split_syllable, tone_char,
};
use crate::table::{
    final_glyphs, find_mark, get_tonal_mark, initial_glyph, is_consonant, is_rhyme, is_vowel,
    lookup_final, lookup_initial, mark_of, marked_vowel, written,
};
use crate::text::{
    chars_of, is_one_char, is_two_chars, opt_chars, opt_seq, push_all, string_of_opt, sub_chars,
};

verus! {

/// Initials after which ü is spelled u in pinyin: j, q, x and y.
pub open spec fn drops_umlaut(c: Seq<char>) -> bool {
    c.len() > 0 && (c[0] == 'j' || c[0] == 'q' || c[0] == 'x' || c[0] == 'y')
}

/// Which letter of a final carries the tone mark: an `a` among its first two
/// letters; else a leading `o` or `e`; else the first letter, unless the
/// second is a vowel as well, which then takes it.
pub open spec fn mark_index(f: Seq<char>) -> int {
    if f.len() <= 1 {
        0
    } else if f[0] == 'a' {
        0
    } else if f[1] == 'a' {
        1
    } else if f[0] == 'o' || f[0] == 'e' {
        0
    } else if !is_vowel(f[1]) {
        0
    } else {
        1
    }
}

/// The final `f` of tone `t` as pinyin writes it: the mark on the letter that
/// `mark_index` picks, and ü for v.
pub open spec fn toned_final(f: Seq<char>, t: u8) -> Seq<char> {
    Seq::new(
        f.len(),
        |k: int|
            if k == mark_index(f) {
                marked_vowel(f[k], t)
            } else {
                written(f[k])
            },
    )
}

/// The plain letter of an unmarked character of pinyin: ü is read as v.
pub open spec fn plain_letter(c: char) -> char {
    if c == 'ü' {
        'v'
    } else {
        c
    }
}

/// A pinyin final read back to plain letters and its tone: the tone of the one
/// marked vowel, or 5 where none is marked; `None` where two are.
pub open spec fn strip_tone(r: Seq<char>) -> Option<(Seq<char>, u8)>
    decreases r.len(),
{
    if r.len() == 0 {
        Some((seq![], 5u8))
    } else {
        match strip_tone(r.drop_last()) {
            None => None,
            Some((u, t)) => match mark_of(r.last()) {
                Some((b, m)) => if t != 5 {
                    None
                } else {
                    Some((u.push(b), m))
                },
                None => Some((u.push(plain_letter(r.last())), t)),
            },
        }
    }
}

/// Pinyin with tone marks of initial `c`, final `f` and tone `t`, where both
/// parts are in the table. After j, q, x and y a leading v is spelled u.
pub open spec fn encode_pinyin_parts(c: Seq<char>, f: Seq<char>, t: u8) -> Option<Seq<char>> {
    if (c.len() > 0 && initial_glyph(c) is None) || final_glyphs(f) is None {
        None
    } else {
        let f1 = if drops_umlaut(c) && f[0] == 'v' {
            f.update(0, 'u')
        } else {
            f
        };
        Some(c + toned_final(f1, t))
    }
}

/// Numbered pinyin written with tone marks. `e5` is `ê`; `r` and `r5` are `r`.
pub open spec fn encode_pinyin_spec(s: Seq<char>) -> Option<Seq<char>> {
    if s == seq!['e', '5'] {
        Some(seq!['ê'])
    } else if is_bare_r(s) {
        Some(seq!['r'])
    } else {
        match parse_numbered(s) {
            Some((c, f, t)) => encode_pinyin_parts(c, f, t),
            None => None,
        }
    }
}

/// The final of a pinyin syllable as numbered pinyin spells it: after j, q, x
/// and y a leading u is the ü that pinyin leaves unmarked there.
pub open spec fn numbered_final(c: Seq<char>, u: Seq<char>) -> Seq<char> {
    if drops_umlaut(c) && u.len() > 0 && u[0] == 'u' {
        u.update(0, 'v')
    } else {
        u
    }
}

/// Pinyin with tone marks written as numbered pinyin. `ê` is `e5`; `r` is `r5`.
/// The initial is the run of consonant letters that opens the syllable; the
/// rest, read back by `strip_tone`, must be a final of the table.
pub open spec fn decode_pinyin_spec(s: Seq<char>) -> Option<Seq<char>> {
    if s == seq!['ê'] {
        Some(seq!['e', '5'])
    } else if s == seq!['r'] {
        Some(seq!['r', '5'])
    } else {
        let i = consonant_run(s) as int;
        let c = s.subrange(0, i);
        if i == s.len() || (c.len() > 0 && initial_glyph(c) is None) {
            None
        } else {
            match strip_tone(s.subrange(i, s.len() as int)) {
                None => None,
                Some((u, t)) => if final_glyphs(numbered_final(c, u)) is None {
                    None
                } else {
                    Some(numbered(c, numbered_final(c, u), t))
                },
            }
        }
    }
}

/// Replaces the first letter of `s`.
pub fn replace_first_letter(s: Vec<char>, x: char) -> (r: Vec<char>)
    requires
        s@.len() > 0,
    ensures
        r@ == s@.update(0, x),
{
    let mut s = s;
    s.set(0, x);
    s
}

fn mark_position(f: &Vec<char>) -> (m: usize)
    ensures
        m == mark_index(f@),
{
    if f.len() <= 1 {
        0
    } else if f[0] == 'a' {
        0
    } else if f[1] == 'a' {
        1
    } else if f[0] == 'o' || f[0] == 'e' {
        0
    } else if !is_rhyme(f[1]) {
        0
    } else {
        1
    }
}

/// Writes the final `s` of tone `tone` with its tone mark.
pub fn tone_rhyme(s: &Vec<char>, tone: u8) -> (r: Vec<char>)
    requires
        1 <= tone <= 5,
    ensures
        r@ == toned_final(s@, tone),
{
    let m = mark_position(s);
    let mut r: Vec<char> = Vec::new();
    let mut k: usize = 0;
    while k < s.len()
        invariant
            k <= s@.len(),
            m == mark_index(s@),
            1 <= tone <= 5,
            r@ == toned_final(s@, tone).take(k as int),
        decreases s.len() - k,
    {
        let c = s[k];
        if k == m {
            r.push(get_tonal_mark(c, tone));
        } else if c == 'v' {
            r.push('ü');
        } else {
            r.push(c);
        }
        k = k + 1;
        assert(r@ =~= toned_final(s@, tone).take(k as int));
    }
    assert(r@ =~= toned_final(s@, tone));
    r
}

proof fn lemma_strip_tone_fails_on(r: Seq<char>, k: int)
    requires
        0 <= k <= r.len(),
        strip_tone(r.take(k)) is None,
    ensures
        strip_tone(r) is None,
    decreases r.len() - k,
{
    if k < r.len() {
        assert(r.take(k + 1).drop_last() =~= r.take(k));
        lemma_strip_tone_fails_on(r, k + 1);
    } else {
        assert(r.take(k) =~= r);
    }
}

/// Reads a final with tone marks back to plain letters and its tone.
pub fn decode_rhyme(s: &Vec<char>) -> (r: Option<(Vec<char>, u8)>)
    ensures
        match r {
            Some((u, t)) => strip_tone(s@) == Some((u@, t)) && u@.len() == s@.len() && 1 <= t <= 5,
            None => strip_tone(s@) is None,
        },
{
    let mut rhyme: Vec<char> = Vec::new();
    let mut tone: u8 = 5;
    let mut k: usize = 0;
    assert(s@.take(0) =~= seq![]);
    while k < s.len()
        invariant
            k <= s@.len(),
            rhyme@.len() == k,
            1 <= tone <= 5,
            strip_tone(s@.take(k as int)) == Some((rhyme@, tone)),
        decreases s.len() - k,
    {
        let c = s[k];
        assert(s@.take(k + 1).drop_last() =~= s@.take(k as int));
        match find_mark(c) {
            Some((b, m)) => {
                if tone != 5 {
                    proof {
                        lemma_strip_tone_fails_on(s@, k + 1);
                    }
                    return None;
                }
                rhyme.push(b);
                tone = m;
            },
            None => {
                if c == 'ü' {
                    rhyme.push('v');
                } else {
                    rhyme.push(c);
                }
            },
        }
        k = k + 1;
    }
    assert(s@.take(k as int) =~= s@);
    Some((rhyme, tone))
}

/// Whether ü is spelled u after initial `c`.
pub fn drops_umlaut_exec(c: &Vec<char>) -> (r: bool)
    ensures
        r == drops_umlaut(c@),
{
    c.len() > 0 && (c[0] == 'j' || c[0] == 'q' || c[0] == 'x' || c[0] == 'y')
}

/// Writes initial `consonant`, final `rhyme` and `tone` as pinyin with tone marks.
fn encode_pinyin_from_parts(consonant: Vec<char>, rhyme: Vec<char>, tone: u8) -> (r: Option<
    Vec<char>,
>)
    requires
        rhyme@.len() > 0,
        1 <= tone <= 5,
    ensures
        opt_seq(r) == encode_pinyin_parts(consonant@, rhyme@, tone),
{
    if consonant.len() > 0 {
        if lookup_initial(&consonant).is_none() {
            return None;
        }
    }
    if lookup_final(&rhyme).is_none() {
        return None;
    }
    let rhyme = if drops_umlaut_exec(&consonant) && rhyme[0] == 'v' {
        replace_first_letter(rhyme, 'u')
    } else {
        rhyme
    };
    let toned = tone_rhyme(&rhyme, tone);
    let mut ret = consonant;
    push_all(&mut ret, &toned);
    Some(ret)
}

/// Numbered pinyin to pinyin with tone marks, on characters.
pub fn encode_pinyin_chars(s: &Vec<char>) -> (r: Option<Vec<char>>)
    ensures
        opt_seq(r) == encode_pinyin_spec(s@),
{
    if is_two_chars(s, 'e', '5') {
        return Some(vec!['ê']);
    }
    if is_bare_r_exec(s) {
        return Some(vec!['r']);
    }
    match split_syllable(s) {
        Some((i, tone)) => {
            let consonant = sub_chars(s, 0, i);
            let rhyme = sub_chars(s, i, s.len() - 1);
            encode_pinyin_from_parts(consonant, rhyme, tone)
        },
        None => None,
    }
}

/// Splits pinyin with tone marks into initial, plain final and tone.
fn decode_pinyin_to_parts(s: &Vec<char>) -> (r: Option<(Vec<char>, Vec<char>, u8)>)
    ensures
        match r {
            Some((c, f, t)) => {
                let i = consonant_run(s@) as int;
                &&& i < s@.len()
                &&& c@ == s@.subrange(0, i)
                &&& strip_tone(s@.subrange(i, s@.len() as int)) matches Some((u, t0))
                &&& f@ == numbered_final(c@, u)
                &&& t == t0
                &&& 1 <= t <= 5
                &&& c@.len() > 0 ==> initial_glyph(c@) is Some
                &&& final_glyphs(f@) is Some
            },
            None => {
                let i = consonant_run(s@) as int;
                let c = s@.subrange(0, i);
                ||| i == s@.len()
                ||| (c.len() > 0 && initial_glyph(c) is None)
                ||| strip_tone(s@.subrange(i, s@.len() as int)) is None
                ||| (strip_tone(s@.subrange(i, s@.len() as int)) matches Some((u, t0))
                    && final_glyphs(numbered_final(c, u)) is None)
            },
        },
{
    let n = s.len();
    let mut i: usize = 0;
    while i < n && is_consonant(s[i])
        invariant
            i <= n == s@.len(),
            forall|k: int| 0 <= k < i ==> crate::table::is_consonant_letter(#[trigger] s@[k]),
        decreases n - i,
    {
        i = i + 1;
    }
    proof {
        lemma_consonant_run(s@, i as int);
    }
    if i == n {
        return None;
    }
    let consonant = sub_chars(s, 0, i);
    if i > 0 {
        if lookup_initial(&consonant).is_none() {
            return None;
        }
    }
    let rest = sub_chars(s, i, n);
    match decode_rhyme(&rest) {
        Some((plain, tone)) => {
            let rhyme = if drops_umlaut_exec(&consonant) && plain[0] == 'u' {
                replace_first_letter(plain, 'v')
            } else {
                plain
            };
            if lookup_final(&rhyme).is_none() {
                return None;
            }
            Some((consonant, rhyme, tone))
        },
        None => None,
    }
}

/// Pinyin with tone marks to numbered pinyin, on characters.
pub fn decode_pinyin_chars(s: &Vec<char>) -> (r: Option<Vec<char>>)
    ensures
        opt_seq(r) == decode_pinyin_spec(s@),
{
    if is_one_char(s, 'ê') {
        return Some(vec!['e', '5']);
    }
    if is_one_char(s, 'r') {
        return Some(vec!['r', '5']);
    }
    match decode_pinyin_to_parts(s) {
        Some((consonant, rhyme, tone)) => {
            let mut ret = consonant;
            push_all(&mut ret, &rhyme);
            ret.push(tone_char(tone));
            Some(ret)
        },
        None => None,
    }
}

/// Writes numbered pinyin (`zhuan4`) with tone marks (`zhuàn`).
///
/// `e5` gives `ê`, and `r` or `r5` gives `r`. Otherwise the input must split
/// into an initial and a final of the table and a tone digit from 1 to 5 (see
/// [`crate::numbered::split`]); else the result is `None`.
pub fn encode_pinyin(s: &str) -> (r: Option<String>)
    ensures
        opt_chars(r) == encode_pinyin_spec(s@),
{
    let v = chars_of(s);
    string_of_opt(encode_pinyin_chars(&v))
}

/// Reads pinyin with tone marks (`zhuàn`) as numbered pinyin (`zhuan4`).
///
/// A syllable without a mark has tone 5; ü, and u after j, q, x and y, come
/// out as v. `ê` gives `e5` and `r` gives `r5`. `None` where the syllable is
/// not an initial and a final of the table, or carries two marks.
pub fn decode_pinyin(s: &str) -> (r: Option<String>)
    ensures
        opt_chars(r) == decode_pinyin_spec(s@),
{
    let v = chars_of(s);
    string_of_opt(decode_pinyin_chars(&v))
}

} // verus!
