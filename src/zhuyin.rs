//! Zhuyin (`ㄓㄨㄢˋ`): converting syllables from and to numbered pinyin, with the
//! spelling rules that zhuyin does not share with pinyin.
use vstd::prelude::*;
use crate::numbered::{numbered, parse_numbered, split_syllable, tone_char};
use crate::pinyin::{drops_umlaut_exec, numbered_final, replace_first_letter};
use crate::table::{
    final_from_glyphs, final_glyphs, final_of_glyphs, initial_from_glyph, initial_glyph,
    initial_of_glyph, lookup_final, lookup_initial, tone_of_glyph, tone_suffix, zhuyin_tone,
};
use crate::text::{
    chars_of, is_one_char, is_three_chars, is_two_chars, opt_chars, opt_seq, push_all,
    string_of_opt, sub_chars,
};

verus! {

/// Initials whose syllable with final i is written without a final glyph:
/// zh, ch, sh, r, z, c and s.
pub open spec fn is_sibilant(c: Seq<char>) -> bool {
    ||| (c.len() == 1 && (c[0] == 'r' || c[0] == 'z' || c[0] == 'c' || c[0] == 's'))
    ||| (c.len() == 2 && c[1] == 'h' && (c[0] == 'z' || c[0] == 'c' || c[0] == 's'))
}

/// Finals whose glyphs already carry the glide y: v, e, ve, in, van, ing and vn.
pub open spec fn is_y_whole_final(f: Seq<char>) -> bool {
    ||| f == seq!['v']
    ||| f == seq!['e']
    ||| f == seq!['v', 'e']
    ||| f == seq!['i', 'n']
    ||| f == seq!['v', 'a', 'n']
    ||| f == seq!['i', 'n', 'g']
    ||| f == seq!['v', 'n']
}

/// Syllables written in zhuyin by the glyphs of their final alone: wu, and y
/// with one of the finals of `is_y_whole_final`.
pub open spec fn is_whole_syllable(c: Seq<char>, f: Seq<char>) -> bool {
    ||| (c == seq!['w'] && f == seq!['u'])
    ||| (c == seq!['y'] && is_y_whole_final(f))
}

/// The initial and final that zhuyin writes for initial `c` and final `f`
/// (with v for ü): a lone i after zh, ch, sh, r, z, c, s and y is dropped,
/// and so is the initial of a whole syllable.
pub open spec fn zhuyin_parts(c: Seq<char>, f: Seq<char>) -> (Seq<char>, Seq<char>) {
    if (is_sibilant(c) || c == seq!['y']) && f == seq!['i'] {
        (c, seq![])
    } else if is_whole_syllable(c, f) {
        (seq![], f)
    } else {
        (c, f)
    }
}

/// Zhuyin of initial `c`, final `f` and tone `t` of numbered pinyin; u after
/// j, q, x and y is read as ü. `None` where a part that is written is not in
/// the table.
pub open spec fn encode_zhuyin_parts(c: Seq<char>, f: Seq<char>, t: u8) -> Option<Seq<char>> {
    let (c2, f2) = zhuyin_parts(c, numbered_final(c, f));
    if (c2.len() > 0 && initial_glyph(c2) is None) || (f2.len() > 0 && final_glyphs(f2) is None) {
        None
    } else {
        let cg = if c2.len() > 0 {
            seq![initial_glyph(c2)->0]
        } else {
            seq![]
        };
        let fg = if f2.len() > 0 {
            final_glyphs(f2)->0
        } else {
            seq![]
        };
        Some(cg + fg + tone_suffix(t))
    }
}

/// Numbered pinyin written in zhuyin. `e5` is ㄝ and `r5` is ㄦ˙.
pub open spec fn encode_zhuyin_spec(s: Seq<char>) -> Option<Seq<char>> {
    if s == seq!['e', '5'] {
        Some(seq!['ㄝ'])
    } else if s == seq!['r', '5'] {
        Some(seq!['ㄦ', '˙'])
    } else {
        match parse_numbered(s) {
            Some((c, f, t)) => encode_zhuyin_parts(c, f, t),
            None => None,
        }
    }
}

/// The pinyin initial and final of a zhuyin syllable whose glyphs give no
/// initial and final `f`: y or w is restored from the final, and ㄨㄥ is weng.
pub open spec fn restore_glide(f: Seq<char>) -> (Seq<char>, Seq<char>) {
    if f == seq!['i'] || is_y_whole_final(f) {
        (seq!['y'], f)
    } else if f == seq!['u'] {
        (seq!['w'], f)
    } else if f.len() > 0 && f[0] == 'u' {
        (seq!['w'], f.drop_first())
    } else if f.len() > 0 && f[0] == 'i' {
        (seq!['y'], f.drop_first())
    } else if f == seq!['o', 'n', 'g'] {
        (seq!['w'], seq!['e', 'n', 'g'])
    } else {
        (seq![], f)
    }
}

/// Whether zhuyin `z` opens with the glyph of an initial.
pub open spec fn opens_with_initial(z: Seq<char>) -> bool {
    z.len() > 0 && initial_of_glyph(z[0]) is Some
}

/// Whether zhuyin `z` closes with a tone glyph after its opening initial glyph, if any.
pub open spec fn closes_with_tone(z: Seq<char>) -> bool {
    let start = if opens_with_initial(z) {
        1int
    } else {
        0
    };
    z.len() > start && tone_of_glyph(z.last()) is Some
}

/// The glyphs of the final of zhuyin `z`: what lies between its initial glyph
/// and its tone glyph.
pub open spec fn final_part(z: Seq<char>) -> Seq<char> {
    let start = if opens_with_initial(z) {
        1int
    } else {
        0
    };
    let end = if closes_with_tone(z) {
        z.len() - 1
    } else {
        z.len() as int
    };
    z.subrange(start, end)
}

/// The tone of zhuyin `z`: that of its tone glyph, or 1 without one.
pub open spec fn zhuyin_tone_of(z: Seq<char>) -> u8 {
    if closes_with_tone(z) {
        tone_of_glyph(z.last())->0
    } else {
        1
    }
}

/// The initial, final and tone of zhuyin `z`: an optional initial glyph, the
/// glyphs of a final of the table and an optional tone glyph. Without a final
/// glyph, zh, ch, sh, r, z, c and s take final i.
pub open spec fn decode_zhuyin_parts(z: Seq<char>) -> Option<(Seq<char>, Seq<char>, u8)> {
    let c = if opens_with_initial(z) {
        initial_of_glyph(z[0])->0
    } else {
        seq![]
    };
    let g = final_part(z);
    let t = zhuyin_tone_of(z);
    if g.len() == 0 {
        if is_sibilant(c) {
            Some((c, seq!['i'], t))
        } else {
            None
        }
    } else {
        match final_of_glyphs(g) {
            None => None,
            Some(f) => if c.len() == 0 {
                Some((restore_glide(f).0, restore_glide(f).1, t))
            } else {
                Some((c, f, t))
            },
        }
    }
}

/// Zhuyin read as numbered pinyin. ㄝ is `e5` and ㄦ˙ is `r5`.
pub open spec fn decode_zhuyin_spec(z: Seq<char>) -> Option<Seq<char>> {
    if z == seq!['ㄝ'] {
        Some(seq!['e', '5'])
    } else if z == seq!['ㄦ', '˙'] {
        Some(seq!['r', '5'])
    } else {
        match decode_zhuyin_parts(z) {
            Some((c, f, t)) => Some(numbered(c, f, t)),
            None => None,
        }
    }
}

fn is_sibilant_exec(c: &Vec<char>) -> (r: bool)
    ensures
        r == is_sibilant(c@),
{
    (c.len() == 1 && (c[0] == 'r' || c[0] == 'z' || c[0] == 'c' || c[0] == 's')) || (c.len() == 2
        && c[1] == 'h' && (c[0] == 'z' || c[0] == 'c' || c[0] == 's'))
}

fn is_y_whole_final_exec(f: &Vec<char>) -> (r: bool)
    ensures
        r == is_y_whole_final(f@),
{
    is_one_char(f, 'v') || is_one_char(f, 'e') || is_two_chars(f, 'v', 'e') || is_two_chars(
        f,
        'i',
        'n',
    ) || is_three_chars(f, 'v', 'a', 'n') || is_three_chars(f, 'i', 'n', 'g') || is_two_chars(
        f,
        'v',
        'n',
    )
}

fn is_whole_syllable_exec(c: &Vec<char>, f: &Vec<char>) -> (r: bool)
    ensures
        r == is_whole_syllable(c@, f@),
{
    (is_one_char(c, 'w') && is_one_char(f, 'u')) || (is_one_char(c, 'y') && is_y_whole_final_exec(
        f,
    ))
}

/// Appends the tone glyph of tone `t`.
fn push_tone_suffix(ret: &mut Vec<char>, t: u8)
    ensures
        final(ret)@ == old(ret)@ + tone_suffix(t),
{
    if t == 2 {
        ret.push('ˊ');
    } else if t == 3 {
        ret.push('ˇ');
    } else if t == 4 {
        ret.push('ˋ');
    } else if t == 5 {
        ret.push('˙');
    }
    assert(final(ret)@ =~= old(ret)@ + tone_suffix(t));
}

/// Writes initial `consonant`, final `rhyme` and `tone` of numbered pinyin in zhuyin.
fn encode_zhuyin_from_parts(consonant: Vec<char>, rhyme: Vec<char>, tone: u8) -> (r: Option<
    Vec<char>,
>)
    requires
        rhyme@.len() > 0,
    ensures
        opt_seq(r) == encode_zhuyin_parts(consonant@, rhyme@, tone),
{
    let mut consonant = consonant;
    let mut rhyme = if drops_umlaut_exec(&consonant) && rhyme[0] == 'u' {
        replace_first_letter(rhyme, 'v')
    } else {
        rhyme
    };
    if (is_sibilant_exec(&consonant) || is_one_char(&consonant, 'y')) && is_one_char(&rhyme, 'i') {
        rhyme = Vec::new();
    } else if is_whole_syllable_exec(&consonant, &rhyme) {
        consonant = Vec::new();
    }
    let mut ret: Vec<char> = Vec::new();
    if consonant.len() > 0 {
        match lookup_initial(&consonant) {
            Some(g) => ret.push(g),
            None => return None,
        }
    }
    if rhyme.len() > 0 {
        match lookup_final(&rhyme) {
            Some(g) => push_all(&mut ret, &g),
            None => return None,
        }
    }
    push_tone_suffix(&mut ret, tone);
    Some(ret)
}

/// Numbered pinyin to zhuyin, on characters.
pub fn encode_zhuyin_chars(s: &Vec<char>) -> (r: Option<Vec<char>>)
    ensures
        opt_seq(r) == encode_zhuyin_spec(s@),
{
    if is_two_chars(s, 'e', '5') {
        return Some(vec!['ㄝ']);
    }
    if is_two_chars(s, 'r', '5') {
        return Some(vec!['ㄦ', '˙']);
    }
    match split_syllable(s) {
        Some((i, tone)) => {
            let consonant = sub_chars(s, 0, i);
            let rhyme = sub_chars(s, i, s.len() - 1);
            encode_zhuyin_from_parts(consonant, rhyme, tone)
        },
        None => None,
    }
}

fn restore_glide_exec(f: Vec<char>) -> (r: (Vec<char>, Vec<char>))
    ensures
        (r.0@, r.1@) == restore_glide(f@),
{
    if is_one_char(&f, 'i') || is_y_whole_final_exec(&f) {
        (vec!['y'], f)
    } else if is_one_char(&f, 'u') {
        (vec!['w'], f)
    } else if f.len() > 0 && f[0] == 'u' {
        let rest = sub_chars(&f, 1, f.len());
        assert(rest@ =~= f@.drop_first());
        (vec!['w'], rest)
    } else if f.len() > 0 && f[0] == 'i' {
        let rest = sub_chars(&f, 1, f.len());
        assert(rest@ =~= f@.drop_first());
        (vec!['y'], rest)
    } else if is_three_chars(&f, 'o', 'n', 'g') {
        (vec!['w'], vec!['e', 'n', 'g'])
    } else {
        (Vec::new(), f)
    }
}

/// Splits zhuyin into the initial, final and tone of numbered pinyin.
fn decode_zhuyin_to_parts(z: &Vec<char>) -> (r: Option<(Vec<char>, Vec<char>, u8)>)
    ensures
        match r {
            Some((c, f, t)) => decode_zhuyin_parts(z@) == Some((c@, f@, t)),
            None => decode_zhuyin_parts(z@) is None,
        },
{
    let n = z.len();
    let mut consonant: Vec<char> = Vec::new();
    let mut start: usize = 0;
    if n > 0 {
        match initial_from_glyph(z[0]) {
            Some(c) => {
                consonant = c;
                start = 1;
            },
            None => {},
        }
    }
    let mut end: usize = n;
    let mut tone: u8 = 1;
    if n > start {
        match zhuyin_tone(z[n - 1]) {
            Some(t) => {
                tone = t;
                end = n - 1;
            },
            None => {},
        }
    }
    let glyphs = sub_chars(z, start, end);
    if glyphs.len() == 0 {
        if is_sibilant_exec(&consonant) {
            return Some((consonant, vec!['i'], tone));
        } else {
            return None;
        }
    }
    match final_from_glyphs(&glyphs) {
        Some(f) => {
            if consonant.len() == 0 {
                let (c2, f2) = restore_glide_exec(f);
                Some((c2, f2, tone))
            } else {
                Some((consonant, f, tone))
            }
        },
        None => None,
    }
}

/// Zhuyin to numbered pinyin, on characters.
pub fn decode_zhuyin_chars(z: &Vec<char>) -> (r: Option<Vec<char>>)
    ensures
        opt_seq(r) == decode_zhuyin_spec(z@),
{
    if is_one_char(z, 'ㄝ') {
        return Some(vec!['e', '5']);
    }
    if is_two_chars(z, 'ㄦ', '˙') {
        return Some(vec!['r', '5']);
    }
    match decode_zhuyin_to_parts(z) {
        Some((consonant, rhyme, tone)) => {
            let mut ret = consonant;
            push_all(&mut ret, &rhyme);
            ret.push(tone_char(tone));
            Some(ret)
        },
        None => None,
    }
}

/// Writes numbered pinyin (`zhuan4`) in zhuyin (`ㄓㄨㄢˋ`).
///
/// `e5` gives ㄝ and `r5` gives ㄦ˙. Otherwise the input must split into an
/// initial, a final and a tone digit from 1 to 5, and the parts that zhuyin
/// writes must be in the table; else the result is `None`. Tone 1 has no
/// glyph; tones 2 to 5 end in ˊ, ˇ, ˋ and ˙.
pub fn encode_zhuyin(s: &str) -> (r: Option<String>)
    ensures
        opt_chars(r) == encode_zhuyin_spec(s@),
{
    let v = chars_of(s);
    string_of_opt(encode_zhuyin_chars(&v))
}

/// Reads zhuyin (`ㄓㄨㄢˋ`) as numbered pinyin (`zhuan4`).
///
/// ㄝ gives `e5` and ㄦ˙ gives `r5`. A syllable without a tone glyph has tone
/// 1. The initials y and w come back from the final, and ㄨㄥ reads as `weng`.
/// `None` where the glyphs are not an initial, a final of the table and a
/// tone glyph, in that order.
pub fn decode_zhuyin(s: &str) -> (r: Option<String>)
    ensures
        opt_chars(r) == decode_zhuyin_spec(s@),
{
    let v = chars_of(s);
    string_of_opt(decode_zhuyin_chars(&v))
}

} // verus!
