//! Laws that relate the conversions to one another.
use vstd::prelude::*;
use crate::convert::{pinyin_to_zhuyin_spec, zhuyin_to_pinyin_spec};
use crate::numbered::{
    all_lower, consonant_run, digit_value, is_bare_r, lemma_consonant_run,
    lemma_run_is_consonants, numbered, parse_numbered, split_spec, tone_digit,
};
use crate::pinyin::{
    decode_pinyin_spec, drops_umlaut, encode_pinyin_spec, mark_index, numbered_final,
    plain_letter, strip_tone, toned_final,
};
use crate::table::{
    final_glyphs, final_of_glyphs, initial_glyph, initial_of_glyph, is_consonant_letter,
    is_lower, is_vowel, mark_of, marked_vowel, tone_of_glyph, tone_suffix, written,
};
use crate::zhuyin::{
    closes_with_tone, decode_zhuyin_parts, decode_zhuyin_spec, encode_zhuyin_spec, final_part,
    is_sibilant, is_y_whole_final, opens_with_initial, restore_glide, zhuyin_parts,
};

verus! {

/// The canonical numbered spelling of numbered pinyin `s`: the bare `r` is
/// `r5`, and a leading u of the final after j, q, x and y is v.
pub open spec fn canonical_numbered(s: Seq<char>) -> Seq<char> {
    if is_bare_r(s) {
        seq!['r', '5']
    } else {
        match parse_numbered(s) {
            Some((c, f, t)) => numbered(c, numbered_final(c, f), t),
            None => s,
        }
    }
}

/// Parts that meet the shape of numbered pinyin split back out of their spelling.
pub proof fn lemma_parse_numbered(c: Seq<char>, f: Seq<char>, t: u8)
    requires
        forall|k: int| 0 <= k < c.len() ==> is_consonant_letter(#[trigger] c[k]),
        f.len() > 0,
        all_lower(f),
        is_vowel(f[0]),
        1 <= t <= 5,
    ensures
        parse_numbered(numbered(c, f, t)) == Some((c, f, t)),
{
    let n = numbered(c, f, t);
    assert forall|k: int| 0 <= k < c.len() implies is_consonant_letter(#[trigger] n[k]) by {
        assert(n[k] == c[k]);
    }
    assert(n[c.len() as int] == f[0]);
    lemma_consonant_run(n, c.len() as int);
    assert(n.subrange(0, c.len() as int) =~= c);
    assert(n.subrange(c.len() as int, n.len() - 1) =~= f);
}

/// What a successful split says of its input and its parts.
pub proof fn lemma_parse_parts(s: Seq<char>)
    requires
        parse_numbered(s) is Some,
    ensures
        ({
            let (c, f, t) = parse_numbered(s)->0;
            &&& s == numbered(c, f, t)
            &&& forall|k: int| 0 <= k < c.len() ==> is_consonant_letter(#[trigger] c[k])
            &&& f.len() > 0
            &&& all_lower(f)
            &&& is_vowel(f[0])
            &&& 1 <= t <= 5
        }),
{
    let (c, f, t) = parse_numbered(s)->0;
    lemma_run_is_consonants(s);
    assert(is_lower(f[0]));
    assert(s =~= numbered(c, f, t));
}

proof fn lemma_strip_toned_prefix(f: Seq<char>, t: u8, k: int)
    requires
        0 <= k <= f.len(),
        all_lower(f),
        0 <= mark_index(f) < f.len(),
        is_vowel(f[mark_index(f)]),
        1 <= t <= 5,
    ensures
        strip_tone(toned_final(f, t).take(k)) == Some(
            (
                f.take(k),
                if k > mark_index(f) {
                    t
                } else {
                    5u8
                },
            ),
        ),
    decreases k,
{
    let w = toned_final(f, t);
    if k == 0 {
        assert(w.take(0) =~= seq![]);
        assert(f.take(0) =~= seq![]);
    } else {
        let j = k - 1;
        lemma_strip_toned_prefix(f, t, j);
        assert(w.take(k).drop_last() =~= w.take(j));
        assert(is_lower(f[j]));
        if j == mark_index(f) && t != 5 {
            assert(mark_of(marked_vowel(f[j], t)) == Some((f[j], t)));
        } else {
            assert(mark_of(written(f[j])) is None);
            assert(plain_letter(written(f[j])) == f[j]);
        }
        assert(f.take(k) =~= f.take(j).push(f[j]));
    }
}

/// Reading back the final `f` written with tone `t` gives `f` and `t`.
pub proof fn lemma_strip_toned(f: Seq<char>, t: u8)
    requires
        f.len() > 0,
        all_lower(f),
        is_vowel(f[mark_index(f)]),
        1 <= t <= 5,
    ensures
        strip_tone(toned_final(f, t)) == Some((f, t)),
{
    lemma_strip_toned_prefix(f, t, f.len() as int);
    assert(toned_final(f, t).take(f.len() as int) =~= toned_final(f, t));
    assert(f.take(f.len() as int) =~= f);
}

proof fn lemma_mark_on_vowel(f: Seq<char>)
    requires
        f.len() > 0,
        is_vowel(f[0]),
    ensures
        0 <= mark_index(f) < f.len(),
        is_vowel(f[mark_index(f)]),
{
}

/// Writing numbered pinyin with tone marks and reading it back gives its
/// canonical numbered spelling, wherever that spelling is itself a syllable
/// (after j, q, x and y, `uo` or `ui` have no ü counterpart).
pub proof fn lemma_pinyin_round_trip(s: Seq<char>)
    requires
        encode_pinyin_spec(s) is Some,
        encode_pinyin_spec(canonical_numbered(s)) is Some,
    ensures
        decode_pinyin_spec(encode_pinyin_spec(s)->0) == Some(canonical_numbered(s)),
{
    if s == seq!['e', '5'] {
        lemma_parse_numbered(seq![], seq!['e'], 5);
        assert(numbered(seq![], seq!['e'], 5) =~= seq!['e', '5']);
    } else if is_bare_r(s) {
    } else {
        let (c, f, t) = parse_numbered(s)->0;
        lemma_parse_parts(s);
        let f1 = if drops_umlaut(c) && f[0] == 'v' {
            f.update(0, 'u')
        } else {
            f
        };
        let w = toned_final(f1, t);
        let p = c + w;
        assert(encode_pinyin_spec(s) == Some(p));
        let nf = numbered_final(c, f);
        let m = numbered(c, nf, t);
        assert(all_lower(nf));
        lemma_parse_numbered(c, nf, t);
        assert(canonical_numbered(s) == m);
        assert(final_glyphs(nf) is Some);
        assert(all_lower(f1));
        lemma_mark_on_vowel(f1);
        lemma_strip_toned(f1, t);
        assert(!is_consonant_letter(p[c.len() as int]));
        assert forall|k: int| 0 <= k < c.len() implies is_consonant_letter(#[trigger] p[k]) by {
            assert(p[k] == c[k]);
        }
        lemma_consonant_run(p, c.len() as int);
        assert(p.subrange(0, c.len() as int) =~= c);
        assert(p.subrange(c.len() as int, p.len() as int) =~= w);
        assert(numbered_final(c, f1) =~= nf);
        assert(p != seq!['ê']);
        assert(p != seq!['r']);
    }
}

/// Numbered pinyin and its canonical spelling are written alike with tone marks.
pub proof fn lemma_canonical_same_pinyin(s: Seq<char>)
    requires
        encode_pinyin_spec(s) is Some,
        encode_pinyin_spec(canonical_numbered(s)) is Some,
    ensures
        encode_pinyin_spec(canonical_numbered(s)) == encode_pinyin_spec(s),
{
    if s == seq!['e', '5'] {
        lemma_parse_numbered(seq![], seq!['e'], 5);
        assert(numbered(seq![], seq!['e'], 5) =~= seq!['e', '5']);
    } else if is_bare_r(s) {
    } else {
        let (c, f, t) = parse_numbered(s)->0;
        lemma_parse_parts(s);
        let nf = numbered_final(c, f);
        let m = numbered(c, nf, t);
        assert(all_lower(nf));
        lemma_parse_numbered(c, nf, t);
        let f1 = if drops_umlaut(c) && f[0] == 'v' {
            f.update(0, 'u')
        } else {
            f
        };
        let nf1 = if drops_umlaut(c) && nf[0] == 'v' {
            nf.update(0, 'u')
        } else {
            nf
        };
        assert(nf1 =~= f1);
        if m == seq!['e', '5'] {
            assert(m[c.len() as int] == nf[0]);
        }
        assert(!is_bare_r(m)) by {
            assert(m[c.len() as int] == nf[0]);
        }
    }
}

/// Only `e5` has the canonical spelling `e5`.
proof fn lemma_canonical_e5(s: Seq<char>)
    requires
        canonical_numbered(s) == seq!['e', '5'],
        encode_pinyin_spec(s) is Some,
    ensures
        s == seq!['e', '5'],
{
    if !is_bare_r(s) && parse_numbered(s) is Some {
        let (c, f, t) = parse_numbered(s)->0;
        lemma_parse_parts(s);
        let nf = numbered_final(c, f);
        let m = numbered(c, nf, t);
        assert(m.len() == 2);
        assert(c.len() == 0);
        assert(nf == f);
        assert(m[0] == f[0]);
        assert(f =~= seq!['e']);
        assert(s =~= seq!['e', '5']);
    }
}

/// Whether the zhuyin spelling of numbered pinyin `n` reads back as `n`.
pub open spec fn zhuyin_reads_back(n: Seq<char>) -> bool {
    encode_zhuyin_spec(n) matches Some(z) && decode_zhuyin_spec(z) == Some(n)
}

/// Converting a syllable written with tone marks to zhuyin gives the zhuyin
/// of its canonical numbered spelling, and converting that back gives the
/// same pinyin; the second holds wherever the zhuyin spelling reads back as
/// that numbered spelling (ㄨㄥ reads as weng, so ōng does not come back).
pub proof fn lemma_cross_notation_round_trip(s: Seq<char>)
    requires
        encode_pinyin_spec(s) is Some,
        encode_pinyin_spec(canonical_numbered(s)) is Some,
        zhuyin_reads_back(canonical_numbered(s)),
    ensures
        pinyin_to_zhuyin_spec(encode_pinyin_spec(s)->0) == encode_zhuyin_spec(
            canonical_numbered(s),
        ),
        zhuyin_to_pinyin_spec(pinyin_to_zhuyin_spec(encode_pinyin_spec(s)->0)->0)
            == encode_pinyin_spec(s),
{
    let p = encode_pinyin_spec(s)->0;
    let m = canonical_numbered(s);
    let z = encode_zhuyin_spec(m)->0;
    if s == seq!['e', '5'] {
        lemma_parse_numbered(seq![], seq!['e'], 5);
        assert(numbered(seq![], seq!['e'], 5) =~= seq!['e', '5']);
    } else {
        lemma_pinyin_round_trip(s);
        lemma_canonical_same_pinyin(s);
        if p == seq!['ê'] {
            if !is_bare_r(s) {
                let (c, f, t) = parse_numbered(s)->0;
                lemma_parse_parts(s);
                let f1 = if drops_umlaut(c) && f[0] == 'v' {
                    f.update(0, 'u')
                } else {
                    f
                };
                assert(p == c + toned_final(f1, t));
                assert(p[c.len() as int] == toned_final(f1, t)[0]);
            }
        }
        assert(p != seq!['ê']);
        assert(pinyin_to_zhuyin_spec(p) == encode_zhuyin_spec(m));
        if z == seq!['ㄝ'] {
            lemma_canonical_e5(s);
        }
    }
}

/// Numbered pinyin holds only lower-case ASCII letters and a tone digit from
/// 1 to 5: a string with any other character is rejected by both encoders.
pub proof fn lemma_foreign_character_in_numbered(s: Seq<char>, k: int)
    requires
        0 <= k < s.len(),
        !is_lower(s[k]),
        digit_value(s[k]) is None,
    ensures
        split_spec(s) is None,
        encode_pinyin_spec(s) is None,
        encode_zhuyin_spec(s) is None,
{
    assert(s != seq!['e', '5']);
    assert(s != seq!['r', '5']);
    assert(!is_bare_r(s));
    if parse_numbered(s) is Some {
        let (c, f, t) = parse_numbered(s)->0;
        lemma_parse_parts(s);
        if k < c.len() {
            assert(s[k] == c[k]);
            assert(is_consonant_letter(c[k]));
        } else if k < c.len() + f.len() {
            assert(s[k] == f[k - c.len()]);
        } else {
            assert(s[k] == tone_digit(t));
        }
    }
}

/// The plain letter that a character of pinyin with tone marks stands for.
pub open spec fn letter_of(c: char) -> char {
    match mark_of(c) {
        Some((b, _)) => b,
        None => plain_letter(c),
    }
}

/// Reading tone marks off keeps each position: every character becomes its
/// plain letter.
pub proof fn lemma_strip_tone_letters(r: Seq<char>)
    requires
        strip_tone(r) is Some,
    ensures
        ({
            let (u, _) = strip_tone(r)->0;
            &&& u.len() == r.len()
            &&& forall|k: int| 0 <= k < r.len() ==> #[trigger] u[k] == letter_of(r[k])
        }),
    decreases r.len(),
{
    if r.len() > 0 {
        lemma_strip_tone_letters(r.drop_last());
        let (u, _) = strip_tone(r)->0;
        assert forall|k: int| 0 <= k < r.len() implies #[trigger] u[k] == letter_of(r[k]) by {
            if k < r.len() - 1 {
                assert(r[k] == r.drop_last()[k]);
            }
        }
    }
}

/// The finals of the table are spelled in lower-case letters.
pub proof fn lemma_finals_are_lower(f: Seq<char>)
    requires
        final_glyphs(f) is Some,
    ensures
        all_lower(f),
{
}

/// Pinyin with tone marks holds only lower-case ASCII letters, ü and the
/// marked vowels, or is `ê` alone: a string with any other character is
/// rejected by both conversions that read it.
pub proof fn lemma_foreign_character_in_pinyin(s: Seq<char>, k: int)
    requires
        0 <= k < s.len(),
        !is_lower(s[k]),
        s[k] != 'ü',
        mark_of(s[k]) is None,
        s != seq!['ê'],
    ensures
        decode_pinyin_spec(s) is None,
        pinyin_to_zhuyin_spec(s) is None,
{
    assert(s != seq!['r']);
    lemma_run_is_consonants(s);
    let i = consonant_run(s) as int;
    let c = s.subrange(0, i);
    let r = s.subrange(i, s.len() as int);
    if k < i {
        assert(is_consonant_letter(s[k]));
    } else if i < s.len() && strip_tone(r) is Some {
        lemma_strip_tone_letters(r);
        let (u, _) = strip_tone(r)->0;
        assert(r[k - i] == s[k]);
        assert(u[k - i] == s[k]);
        let nf = numbered_final(c, u);
        if final_glyphs(nf) is Some {
            lemma_finals_are_lower(nf);
            assert(is_lower(nf[k - i]));
        }
    }
}

/// The glyphs that finals are written with.
pub open spec fn is_final_glyph(c: char) -> bool {
    c == 'ㄧ' || c == 'ㄨ' || c == 'ㄩ' || c == 'ㄚ' || c == 'ㄛ' || c == 'ㄜ' || c == 'ㄝ'
        || c == 'ㄞ' || c == 'ㄟ' || c == 'ㄠ' || c == 'ㄡ' || c == 'ㄢ' || c == 'ㄣ' || c == 'ㄤ'
        || c == 'ㄥ' || c == 'ㄦ'
}

/// Every glyph of a final of the table is a final glyph.
pub proof fn lemma_final_glyphs_only(g: Seq<char>)
    requires
        final_of_glyphs(g) is Some,
    ensures
        forall|k: int| 0 <= k < g.len() ==> is_final_glyph(#[trigger] g[k]),
{
}

/// Zhuyin holds only the glyphs of initials and finals and the tone glyphs: a
/// string with any other character is rejected by both conversions that read it.
pub proof fn lemma_foreign_character_in_zhuyin(z: Seq<char>, k: int)
    requires
        0 <= k < z.len(),
        !is_final_glyph(z[k]),
        initial_of_glyph(z[k]) is None,
        tone_of_glyph(z[k]) is None,
    ensures
        decode_zhuyin_spec(z) is None,
        zhuyin_to_pinyin_spec(z) is None,
{
    assert(z != seq!['ㄝ']);
    assert(z != seq!['ㄦ', '˙']);
    let start = if opens_with_initial(z) {
        1int
    } else {
        0
    };
    let g = final_part(z);
    assert(k >= start);
    assert(closes_with_tone(z) ==> k < z.len() - 1);
    assert(g[k - start] == z[k]);
    if final_of_glyphs(g) is Some {
        lemma_final_glyphs_only(g);
        assert(is_final_glyph(g[k - start]));
    }
    assert(decode_zhuyin_parts(z) is None);
}

/// The glyph of an initial other than y and w reads back as that initial.
pub proof fn lemma_initial_glyph_inverse(c: Seq<char>)
    requires
        initial_glyph(c) is Some,
        c != seq!['y'],
        c != seq!['w'],
    ensures
        initial_of_glyph(initial_glyph(c)->0) == Some(c),
{
    if c.len() == 1 {
        assert(c =~= seq![c[0]]);
    } else {
        assert(c =~= seq![c[0], 'h']);
    }
}

/// The glyphs of a final other than ue read back as that final.
pub proof fn lemma_final_glyphs_inverse(f: Seq<char>)
    requires
        final_glyphs(f) is Some,
        f != seq!['u', 'e'],
    ensures
        final_of_glyphs(final_glyphs(f)->0) == Some(f),
{
    if f.len() == 1 {
        assert(f =~= seq![f[0]]);
    } else if f.len() == 2 {
        assert(f =~= seq![f[0], f[1]]);
    } else if f.len() == 3 {
        assert(f =~= seq![f[0], f[1], f[2]]);
    } else {
        assert(f =~= seq![f[0], f[1], f[2], f[3]]);
    }
}

/// The zhuyin of a syllable with a consonant initial (neither y nor w) reads
/// back as that syllable, unless its final is spelled ue, which reads back as ve.
pub proof fn lemma_zhuyin_reads_back_with_initial(c: Seq<char>, f: Seq<char>, t: u8)
    requires
        initial_glyph(c) is Some,
        c != seq!['y'],
        c != seq!['w'],
        final_glyphs(f) is Some,
        f != seq!['u', 'e'],
        numbered_final(c, f) == f,
        1 <= t <= 5,
    ensures
        zhuyin_reads_back(numbered(c, f, t)),
{
    let m = numbered(c, f, t);
    lemma_finals_are_lower(f);
    lemma_parse_numbered(c, f, t);
    assert(m != seq!['e', '5']);
    assert(m != seq!['r', '5']);
    let g = initial_glyph(c)->0;
    lemma_initial_glyph_inverse(c);
    let (c2, f2) = zhuyin_parts(c, f);
    assert(c2 == c);
    let fg = if f2.len() > 0 {
        final_glyphs(f2)->0
    } else {
        seq![]
    };
    let z = seq![g] + fg + tone_suffix(t);
    assert(encode_zhuyin_spec(m) == Some(z));
    if f2.len() > 0 {
        lemma_final_glyphs_only(fg);
        lemma_final_glyphs_inverse(f);
    }
    assert(z[0] == g);
    assert(opens_with_initial(z));
    if t == 1 {
        if fg.len() > 0 {
            assert(z.last() == fg.last());
            assert(is_final_glyph(fg[fg.len() - 1]));
        }
        assert(!closes_with_tone(z));
        assert(final_part(z) =~= fg);
    } else {
        assert(closes_with_tone(z));
        assert(final_part(z) =~= fg);
    }
    if f2.len() == 0 {
        assert(is_sibilant(c));
    }
}

/// The zhuyin of a syllable without an initial reads back as that syllable
/// when its final is not e, not ong, does not open with i, u or v, and is not
/// er of tone 5 (ㄜ reads as ye, ㄨㄥ as weng, ㄦ˙ as r5).
pub proof fn lemma_zhuyin_reads_back_without_initial(f: Seq<char>, t: u8)
    requires
        final_glyphs(f) is Some,
        f[0] != 'i',
        f[0] != 'u',
        f[0] != 'v',
        f != seq!['e'],
        f != seq!['o', 'n', 'g'],
        !(f == seq!['e', 'r'] && t == 5),
        1 <= t <= 5,
    ensures
        zhuyin_reads_back(numbered(seq![], f, t)),
{
    let c = Seq::<char>::empty();
    let m = numbered(c, f, t);
    lemma_finals_are_lower(f);
    lemma_parse_numbered(c, f, t);
    assert(numbered_final(c, f) == f);
    if m == seq!['e', '5'] {
        assert(f =~= seq!['e']);
    }
    assert(m != seq!['r', '5']);
    let fg = final_glyphs(f)->0;
    assert(zhuyin_parts(c, f) == (c, f));
    let z = fg + tone_suffix(t);
    assert(encode_zhuyin_spec(m) == Some(z));
    lemma_final_glyphs_only(fg);
    lemma_final_glyphs_inverse(f);
    assert(z[0] == fg[0]);
    assert(!opens_with_initial(z));
    if t == 1 {
        assert(z.last() == fg.last());
        assert(is_final_glyph(fg[fg.len() - 1]));
        assert(!closes_with_tone(z));
    } else {
        assert(closes_with_tone(z));
    }
    assert(final_part(z) =~= fg);
    assert(z != seq!['ㄝ']);
    if z == seq!['ㄦ', '˙'] {
        assert(fg =~= seq!['ㄦ']);
        lemma_final_glyphs_inverse(f);
        assert(f =~= seq!['e', 'r']);
    }
}

/// The finals whose zhuyin after y reads back with y: i, those of
/// `is_y_whole_final`, and a, ao, an and ang.
pub open spec fn y_reads_back(f: Seq<char>) -> bool {
    ||| f == seq!['i']
    ||| is_y_whole_final(f)
    ||| f == seq!['a']
    ||| f == seq!['a', 'o']
    ||| f == seq!['a', 'n']
    ||| f == seq!['a', 'n', 'g']
}

/// The finals whose zhuyin after w reads back with w: u, a, o, ai, an, ang and eng.
pub open spec fn w_reads_back(f: Seq<char>) -> bool {
    ||| f == seq!['u']
    ||| f == seq!['a']
    ||| f == seq!['o']
    ||| f == seq!['a', 'i']
    ||| f == seq!['a', 'n']
    ||| f == seq!['a', 'n', 'g']
    ||| f == seq!['e', 'n', 'g']
}

/// The zhuyin of a syllable opening with y or w reads back as that syllable
/// for the finals of `y_reads_back` and `w_reads_back` (ㄧㄡ of `you`, by
/// contrast, reads as `yu`).
pub proof fn lemma_zhuyin_reads_back_glide(c: Seq<char>, f: Seq<char>, t: u8)
    requires
        (c == seq!['y'] && y_reads_back(f)) || (c == seq!['w'] && w_reads_back(f)),
        1 <= t <= 5,
    ensures
        zhuyin_reads_back(numbered(c, f, t)),
{
    let m = numbered(c, f, t);
    assert(final_glyphs(f) is Some);
    lemma_finals_are_lower(f);
    lemma_parse_numbered(c, f, t);
    assert(numbered_final(c, f) == f);
    assert(m != seq!['e', '5']);
    assert(m != seq!['r', '5']);
    let (c2, f2) = zhuyin_parts(c, f);
    let cg = if c2.len() > 0 {
        seq![initial_glyph(c2)->0]
    } else {
        seq![]
    };
    let fg = if f2.len() > 0 {
        final_glyphs(f2)->0
    } else {
        seq![]
    };
    let g = cg + fg;
    let z = g + tone_suffix(t);
    assert(encode_zhuyin_spec(m) == Some(z));
    assert(g.len() > 0);
    assert(forall|k: int| 0 <= k < g.len() ==> is_final_glyph(#[trigger] g[k])) by {
        if f2.len() > 0 {
            lemma_final_glyphs_only(fg);
        }
        assert forall|k: int| 0 <= k < g.len() implies is_final_glyph(#[trigger] g[k]) by {
            if k >= cg.len() {
                assert(g[k] == fg[k - cg.len()]);
            }
        }
    }
    assert(z[0] == g[0]);
    assert(!opens_with_initial(z));
    if t == 1 {
        assert(z.last() == g[g.len() - 1]);
        assert(!closes_with_tone(z));
    } else {
        assert(closes_with_tone(z));
    }
    assert(final_part(z) =~= g);
    let gf = final_of_glyphs(g)->0;
    assert(z != seq!['ㄝ']) by {
        if z == seq!['ㄝ'] {
            assert(g =~= seq!['ㄝ']);
        }
    }
    assert(z != seq!['ㄦ', '˙']) by {
        if z == seq!['ㄦ', '˙'] {
            assert(g =~= seq!['ㄦ']);
        }
    }
    if f.len() == 1 {
        assert(f =~= seq![f[0]]);
    } else if f.len() == 2 {
        assert(f =~= seq![f[0], f[1]]);
    } else {
        assert(f =~= seq![f[0], f[1], f[2]]);
    }
    assert(final_of_glyphs(g) is Some);
    assert(restore_glide(gf) == (c, f));
}

} // verus!
