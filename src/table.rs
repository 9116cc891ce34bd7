//! The syllable table: how pinyin initials and finals are written in zhuyin,
//! and the tone marks of both notations.
use vstd::prelude::*;

verus! {

/// The letters that open a final: a, e, i, o, u, and v for ü.
pub open spec fn is_vowel(c: char) -> bool {
    c == 'a' || c == 'e' || c == 'i' || c == 'o' || c == 'u' || c == 'v'
}

pub open spec fn is_lower(c: char) -> bool {
    'a' <= c && c <= 'z'
}

/// A lower-case ASCII letter that is not a vowel letter.
pub open spec fn is_consonant_letter(c: char) -> bool {
    is_lower(c) && !is_vowel(c)
}

pub fn is_rhyme(c: char) -> (r: bool)
    ensures
        r == is_vowel(c),
{
    c == 'a' || c == 'e' || c == 'i' || c == 'o' || c == 'u' || c == 'v'
}

pub fn is_consonant(c: char) -> (r: bool)
    ensures
        r == is_consonant_letter(c),
{
    'a' <= c && c <= 'z' && !is_rhyme(c)
}

/// The zhuyin glyph of a pinyin initial. The semivowels `y` and `w` are
/// written with the glyphs of `i` and `u`.
pub open spec fn initial_glyph(c: Seq<char>) -> Option<char> {
    if c.len() == 1 {
        match c[0] {
            'b' => Some('ㄅ'),
            'd' => Some('ㄉ'),
            'g' => Some('ㄍ'),
            'p' => Some('ㄆ'),
            't' => Some('ㄊ'),
            'k' => Some('ㄎ'),
            'm' => Some('ㄇ'),
            'n' => Some('ㄋ'),
            'h' => Some('ㄏ'),
            'f' => Some('ㄈ'),
            'l' => Some('ㄌ'),
            'j' => Some('ㄐ'),
            'z' => Some('ㄗ'),
            'q' => Some('ㄑ'),
            'c' => Some('ㄘ'),
            'x' => Some('ㄒ'),
            's' => Some('ㄙ'),
            'r' => Some('ㄖ'),
            'y' => Some('ㄧ'),
            'w' => Some('ㄨ'),
            _ => None,
        }
    } else if c.len() == 2 && c[1] == 'h' {
        match c[0] {
            'z' => Some('ㄓ'),
            'c' => Some('ㄔ'),
            's' => Some('ㄕ'),
            _ => None,
        }
    } else {
        None
    }
}

pub fn lookup_initial(c: &Vec<char>) -> (r: Option<char>)
    ensures
        r == initial_glyph(c@),
{
    if c.len() == 1 {
        match c[0] {
            'b' => Some('ㄅ'),
            'd' => Some('ㄉ'),
            'g' => Some('ㄍ'),
            'p' => Some('ㄆ'),
            't' => Some('ㄊ'),
            'k' => Some('ㄎ'),
            'm' => Some('ㄇ'),
            'n' => Some('ㄋ'),
            'h' => Some('ㄏ'),
            'f' => Some('ㄈ'),
            'l' => Some('ㄌ'),
            'j' => Some('ㄐ'),
            'z' => Some('ㄗ'),
            'q' => Some('ㄑ'),
            'c' => Some('ㄘ'),
            'x' => Some('ㄒ'),
            's' => Some('ㄙ'),
            'r' => Some('ㄖ'),
            'y' => Some('ㄧ'),
            'w' => Some('ㄨ'),
            _ => None,
        }
    } else if c.len() == 2 && c[1] == 'h' {
        match c[0] {
            'z' => Some('ㄓ'),
            'c' => Some('ㄔ'),
            's' => Some('ㄕ'),
            _ => None,
        }
    } else {
        None
    }
}

/// The pinyin initial that a zhuyin glyph stands for, for the consonant glyphs.
pub open spec fn initial_of_glyph(g: char) -> Option<Seq<char>> {
match g {
    'ㄅ' => Some(seq!['b']),
    'ㄉ' => Some(seq!['d']),
    'ㄍ' => Some(seq!['g']),
    'ㄆ' => Some(seq!['p']),
    'ㄊ' => Some(seq!['t']),
    'ㄎ' => Some(seq!['k']),
    'ㄇ' => Some(seq!['m']),
    'ㄋ' => Some(seq!['n']),
    'ㄏ' => Some(seq!['h']),
    'ㄈ' => Some(seq!['f']),
    'ㄌ' => Some(seq!['l']),
    'ㄐ' => Some(seq!['j']),
    'ㄓ' => Some(seq!['z', 'h']),
    'ㄗ' => Some(seq!['z']),
    'ㄑ' => Some(seq!['q']),
    'ㄔ' => Some(seq!['c', 'h']),
    'ㄘ' => Some(seq!['c']),
    'ㄒ' => Some(seq!['x']),
    'ㄕ' => Some(seq!['s', 'h']),
    'ㄙ' => Some(seq!['s']),
    'ㄖ' => Some(seq!['r']),
    _ => None,
}
}

pub fn initial_from_glyph(g: char) -> (r: Option<Vec<char>>)
    ensures
        r matches Some(v) ==> initial_of_glyph(g) == Some(v@),
        r is None <==> initial_of_glyph(g) is None,
{
match g {
    'ㄅ' => Some(vec!['b']),
    'ㄉ' => Some(vec!['d']),
    'ㄍ' => Some(vec!['g']),
    'ㄆ' => Some(vec!['p']),
    'ㄊ' => Some(vec!['t']),
    'ㄎ' => Some(vec!['k']),
    'ㄇ' => Some(vec!['m']),
    'ㄋ' => Some(vec!['n']),
    'ㄏ' => Some(vec!['h']),
    'ㄈ' => Some(vec!['f']),
    'ㄌ' => Some(vec!['l']),
    'ㄐ' => Some(vec!['j']),
    'ㄓ' => Some(vec!['z', 'h']),
    'ㄗ' => Some(vec!['z']),
    'ㄑ' => Some(vec!['q']),
    'ㄔ' => Some(vec!['c', 'h']),
    'ㄘ' => Some(vec!['c']),
    'ㄒ' => Some(vec!['x']),
    'ㄕ' => Some(vec!['s', 'h']),
    'ㄙ' => Some(vec!['s']),
    'ㄖ' => Some(vec!['r']),
    _ => None,
}
}

/// The zhuyin glyphs of a pinyin final. Both `ue` and `ve` are written ㄩㄝ.
pub open spec fn final_glyphs(f: Seq<char>) -> Option<Seq<char>> {
    if f.len() == 1 {
        match f[0] {
            'i' => Some(seq!['ㄧ']),
            'a' => Some(seq!['ㄚ']),
            'u' => Some(seq!['ㄨ']),
            'o' => Some(seq!['ㄛ']),
            'v' => Some(seq!['ㄩ']),
            'e' => Some(seq!['ㄜ']),
            _ => None,
        }
    } else if f.len() == 2 {
        match (f[0], f[1]) {
            ('a', 'i') => Some(seq!['ㄞ']),
            ('a', 'n') => Some(seq!['ㄢ']),
            ('e', 'i') => Some(seq!['ㄟ']),
            ('e', 'n') => Some(seq!['ㄣ']),
            ('a', 'o') => Some(seq!['ㄠ']),
            ('o', 'u') => Some(seq!['ㄡ']),
            ('i', 'a') => Some(seq!['ㄧ', 'ㄚ']),
            ('u', 'a') => Some(seq!['ㄨ', 'ㄚ']),
            ('i', 'e') => Some(seq!['ㄧ', 'ㄝ']),
            ('u', 'o') => Some(seq!['ㄨ', 'ㄛ']),
            ('u', 'e') => Some(seq!['ㄩ', 'ㄝ']),
            ('i', 'u') => Some(seq!['ㄧ', 'ㄡ']),
            ('u', 'i') => Some(seq!['ㄨ', 'ㄟ']),
            ('v', 'e') => Some(seq!['ㄩ', 'ㄝ']),
            ('i', 'n') => Some(seq!['ㄧ', 'ㄣ']),
            ('u', 'n') => Some(seq!['ㄨ', 'ㄣ']),
            ('v', 'n') => Some(seq!['ㄩ', 'ㄣ']),
            ('e', 'r') => Some(seq!['ㄦ']),
            _ => None,
        }
    } else if f.len() == 3 {
        match (f[0], f[1], f[2]) {
            ('a', 'n', 'g') => Some(seq!['ㄤ']),
            ('e', 'n', 'g') => Some(seq!['ㄥ']),
            ('i', 'n', 'g') => Some(seq!['ㄧ', 'ㄥ']),
            ('o', 'n', 'g') => Some(seq!['ㄨ', 'ㄥ']),
            ('i', 'a', 'o') => Some(seq!['ㄧ', 'ㄠ']),
            ('u', 'a', 'i') => Some(seq!['ㄨ', 'ㄞ']),
            ('i', 'a', 'n') => Some(seq!['ㄧ', 'ㄢ']),
            ('u', 'a', 'n') => Some(seq!['ㄨ', 'ㄢ']),
            ('v', 'a', 'n') => Some(seq!['ㄩ', 'ㄢ']),
            _ => None,
        }
    } else if f.len() == 4 {
        match (f[0], f[1], f[2], f[3]) {
            ('i', 'a', 'n', 'g') => Some(seq!['ㄧ', 'ㄤ']),
            ('u', 'a', 'n', 'g') => Some(seq!['ㄨ', 'ㄤ']),
            ('i', 'o', 'n', 'g') => Some(seq!['ㄩ', 'ㄥ']),
            _ => None,
        }
    } else {
        None
    }
}

pub fn lookup_final(f: &Vec<char>) -> (r: Option<Vec<char>>)
    ensures
        r matches Some(v) ==> final_glyphs(f@) == Some(v@),
        r is None <==> final_glyphs(f@) is None,
{
    if f.len() == 1 {
        match f[0] {
            'i' => Some(vec!['ㄧ']),
            'a' => Some(vec!['ㄚ']),
            'u' => Some(vec!['ㄨ']),
            'o' => Some(vec!['ㄛ']),
            'v' => Some(vec!['ㄩ']),
            'e' => Some(vec!['ㄜ']),
            _ => None,
        }
    } else if f.len() == 2 {
        match (f[0], f[1]) {
            ('a', 'i') => Some(vec!['ㄞ']),
            ('a', 'n') => Some(vec!['ㄢ']),
            ('e', 'i') => Some(vec!['ㄟ']),
            ('e', 'n') => Some(vec!['ㄣ']),
            ('a', 'o') => Some(vec!['ㄠ']),
            ('o', 'u') => Some(vec!['ㄡ']),
            ('i', 'a') => Some(vec!['ㄧ', 'ㄚ']),
            ('u', 'a') => Some(vec!['ㄨ', 'ㄚ']),
            ('i', 'e') => Some(vec!['ㄧ', 'ㄝ']),
            ('u', 'o') => Some(vec!['ㄨ', 'ㄛ']),
            ('u', 'e') => Some(vec!['ㄩ', 'ㄝ']),
            ('i', 'u') => Some(vec!['ㄧ', 'ㄡ']),
            ('u', 'i') => Some(vec!['ㄨ', 'ㄟ']),
            ('v', 'e') => Some(vec!['ㄩ', 'ㄝ']),
            ('i', 'n') => Some(vec!['ㄧ', 'ㄣ']),
            ('u', 'n') => Some(vec!['ㄨ', 'ㄣ']),
            ('v', 'n') => Some(vec!['ㄩ', 'ㄣ']),
            ('e', 'r') => Some(vec!['ㄦ']),
            _ => None,
        }
    } else if f.len() == 3 {
        match (f[0], f[1], f[2]) {
            ('a', 'n', 'g') => Some(vec!['ㄤ']),
            ('e', 'n', 'g') => Some(vec!['ㄥ']),
            ('i', 'n', 'g') => Some(vec!['ㄧ', 'ㄥ']),
            ('o', 'n', 'g') => Some(vec!['ㄨ', 'ㄥ']),
            ('i', 'a', 'o') => Some(vec!['ㄧ', 'ㄠ']),
            ('u', 'a', 'i') => Some(vec!['ㄨ', 'ㄞ']),
            ('i', 'a', 'n') => Some(vec!['ㄧ', 'ㄢ']),
            ('u', 'a', 'n') => Some(vec!['ㄨ', 'ㄢ']),
            ('v', 'a', 'n') => Some(vec!['ㄩ', 'ㄢ']),
            _ => None,
        }
    } else if f.len() == 4 {
        match (f[0], f[1], f[2], f[3]) {
            ('i', 'a', 'n', 'g') => Some(vec!['ㄧ', 'ㄤ']),
            ('u', 'a', 'n', 'g') => Some(vec!['ㄨ', 'ㄤ']),
            ('i', 'o', 'n', 'g') => Some(vec!['ㄩ', 'ㄥ']),
            _ => None,
        }
    } else {
        None
    }
}

/// The pinyin final that a run of zhuyin glyphs stands for. ㄝ alone reads as `e`,
/// and ㄩㄝ as `ve`.
pub open spec fn final_of_glyphs(g: Seq<char>) -> Option<Seq<char>> {
    if g.len() == 1 {
        match g[0] {
            'ㄧ' => Some(seq!['i']),
            'ㄚ' => Some(seq!['a']),
            'ㄞ' => Some(seq!['a', 'i']),
            'ㄢ' => Some(seq!['a', 'n']),
            'ㄨ' => Some(seq!['u']),
            'ㄛ' => Some(seq!['o']),
            'ㄟ' => Some(seq!['e', 'i']),
            'ㄣ' => Some(seq!['e', 'n']),
            'ㄩ' => Some(seq!['v']),
            'ㄜ' => Some(seq!['e']),
            'ㄠ' => Some(seq!['a', 'o']),
            'ㄤ' => Some(seq!['a', 'n', 'g']),
            'ㄝ' => Some(seq!['e']),
            'ㄡ' => Some(seq!['o', 'u']),
            'ㄥ' => Some(seq!['e', 'n', 'g']),
            'ㄦ' => Some(seq!['e', 'r']),
            _ => None,
        }
    } else if g.len() == 2 {
        match (g[0], g[1]) {
            ('ㄧ', 'ㄚ') => Some(seq!['i', 'a']),
            ('ㄨ', 'ㄚ') => Some(seq!['u', 'a']),
            ('ㄧ', 'ㄥ') => Some(seq!['i', 'n', 'g']),
            ('ㄧ', 'ㄤ') => Some(seq!['i', 'a', 'n', 'g']),
            ('ㄧ', 'ㄝ') => Some(seq!['i', 'e']),
            ('ㄨ', 'ㄛ') => Some(seq!['u', 'o']),
            ('ㄨ', 'ㄥ') => Some(seq!['o', 'n', 'g']),
            ('ㄨ', 'ㄤ') => Some(seq!['u', 'a', 'n', 'g']),
            ('ㄧ', 'ㄠ') => Some(seq!['i', 'a', 'o']),
            ('ㄨ', 'ㄞ') => Some(seq!['u', 'a', 'i']),
            ('ㄩ', 'ㄝ') => Some(seq!['v', 'e']),
            ('ㄩ', 'ㄥ') => Some(seq!['i', 'o', 'n', 'g']),
            ('ㄧ', 'ㄡ') => Some(seq!['i', 'u']),
            ('ㄨ', 'ㄟ') => Some(seq!['u', 'i']),
            ('ㄧ', 'ㄢ') => Some(seq!['i', 'a', 'n']),
            ('ㄨ', 'ㄢ') => Some(seq!['u', 'a', 'n']),
            ('ㄩ', 'ㄢ') => Some(seq!['v', 'a', 'n']),
            ('ㄧ', 'ㄣ') => Some(seq!['i', 'n']),
            ('ㄨ', 'ㄣ') => Some(seq!['u', 'n']),
            ('ㄩ', 'ㄣ') => Some(seq!['v', 'n']),
            _ => None,
        }
    } else {
        None
    }
}

pub fn final_from_glyphs(g: &Vec<char>) -> (r: Option<Vec<char>>)
    ensures
        r matches Some(v) ==> final_of_glyphs(g@) == Some(v@),
        r is None <==> final_of_glyphs(g@) is None,
{
    if g.len() == 1 {
        match g[0] {
            'ㄧ' => Some(vec!['i']),
            'ㄚ' => Some(vec!['a']),
            'ㄞ' => Some(vec!['a', 'i']),
            'ㄢ' => Some(vec!['a', 'n']),
            'ㄨ' => Some(vec!['u']),
            'ㄛ' => Some(vec!['o']),
            'ㄟ' => Some(vec!['e', 'i']),
            'ㄣ' => Some(vec!['e', 'n']),
            'ㄩ' => Some(vec!['v']),
            'ㄜ' => Some(vec!['e']),
            'ㄠ' => Some(vec!['a', 'o']),
            'ㄤ' => Some(vec!['a', 'n', 'g']),
            'ㄝ' => Some(vec!['e']),
            'ㄡ' => Some(vec!['o', 'u']),
            'ㄥ' => Some(vec!['e', 'n', 'g']),
            'ㄦ' => Some(vec!['e', 'r']),
            _ => None,
        }
    } else if g.len() == 2 {
        match (g[0], g[1]) {
            ('ㄧ', 'ㄚ') => Some(vec!['i', 'a']),
            ('ㄨ', 'ㄚ') => Some(vec!['u', 'a']),
            ('ㄧ', 'ㄥ') => Some(vec!['i', 'n', 'g']),
            ('ㄧ', 'ㄤ') => Some(vec!['i', 'a', 'n', 'g']),
            ('ㄧ', 'ㄝ') => Some(vec!['i', 'e']),
            ('ㄨ', 'ㄛ') => Some(vec!['u', 'o']),
            ('ㄨ', 'ㄥ') => Some(vec!['o', 'n', 'g']),
            ('ㄨ', 'ㄤ') => Some(vec!['u', 'a', 'n', 'g']),
            ('ㄧ', 'ㄠ') => Some(vec!['i', 'a', 'o']),
            ('ㄨ', 'ㄞ') => Some(vec!['u', 'a', 'i']),
            ('ㄩ', 'ㄝ') => Some(vec!['v', 'e']),
            ('ㄩ', 'ㄥ') => Some(vec!['i', 'o', 'n', 'g']),
            ('ㄧ', 'ㄡ') => Some(vec!['i', 'u']),
            ('ㄨ', 'ㄟ') => Some(vec!['u', 'i']),
            ('ㄧ', 'ㄢ') => Some(vec!['i', 'a', 'n']),
            ('ㄨ', 'ㄢ') => Some(vec!['u', 'a', 'n']),
            ('ㄩ', 'ㄢ') => Some(vec!['v', 'a', 'n']),
            ('ㄧ', 'ㄣ') => Some(vec!['i', 'n']),
            ('ㄨ', 'ㄣ') => Some(vec!['u', 'n']),
            ('ㄩ', 'ㄣ') => Some(vec!['v', 'n']),
            _ => None,
        }
    } else {
        None
    }
}

/// How a letter of a final is written in pinyin: `v` is written `ü`.
pub open spec fn written(c: char) -> char {
    if c == 'v' {
        'ü'
    } else {
        c
    }
}

/// The vowel `c` carrying the mark of tone `t`; tone 5 carries no mark.
pub open spec fn marked_vowel(c: char, t: u8) -> char {
    if t == 5 {
        written(c)
    } else {
        match c {
        'a' => if t == 1 {
            'ā'
        } else if t == 2 {
            'á'
        } else if t == 3 {
            'ǎ'
        } else {
            'à'
        },
        'o' => if t == 1 {
            'ō'
        } else if t == 2 {
            'ó'
        } else if t == 3 {
            'ǒ'
        } else {
            'ò'
        },
        'e' => if t == 1 {
            'ē'
        } else if t == 2 {
            'é'
        } else if t == 3 {
            'ě'
        } else {
            'è'
        },
        'i' => if t == 1 {
            'ī'
        } else if t == 2 {
            'í'
        } else if t == 3 {
            'ǐ'
        } else {
            'ì'
        },
        'u' => if t == 1 {
            'ū'
        } else if t == 2 {
            'ú'
        } else if t == 3 {
            'ǔ'
        } else {
            'ù'
        },
        'v' => if t == 1 {
            'ǖ'
        } else if t == 2 {
            'ǘ'
        } else if t == 3 {
            'ǚ'
        } else {
            'ǜ'
        },
            _ => c,
        }
    }
}

/// Returns the vowel `c` with the mark of `tone` (1 to 5) in pinyin.
pub fn get_tonal_mark(c: char, tone: u8) -> (r: char)
    requires
        1 <= tone <= 5,
    ensures
        r == marked_vowel(c, tone),
{
    if tone == 5 {
        return if c == 'v' {
            'ü'
        } else {
            c
        };
    }
    match c {
        'a' => if tone == 1 {
            'ā'
        } else if tone == 2 {
            'á'
        } else if tone == 3 {
            'ǎ'
        } else {
            'à'
        },
        'o' => if tone == 1 {
            'ō'
        } else if tone == 2 {
            'ó'
        } else if tone == 3 {
            'ǒ'
        } else {
            'ò'
        },
        'e' => if tone == 1 {
            'ē'
        } else if tone == 2 {
            'é'
        } else if tone == 3 {
            'ě'
        } else {
            'è'
        },
        'i' => if tone == 1 {
            'ī'
        } else if tone == 2 {
            'í'
        } else if tone == 3 {
            'ǐ'
        } else {
            'ì'
        },
        'u' => if tone == 1 {
            'ū'
        } else if tone == 2 {
            'ú'
        } else if tone == 3 {
            'ǔ'
        } else {
            'ù'
        },
        'v' => if tone == 1 {
            'ǖ'
        } else if tone == 2 {
            'ǘ'
        } else if tone == 3 {
            'ǚ'
        } else {
            'ǜ'
        },
        _ => c,
    }
}

/// The plain letter and the tone of a vowel that carries a tone mark.
pub open spec fn mark_of(c: char) -> Option<(char, u8)> {
    match c {
        'ā' => Some(('a', 1u8)),
        'á' => Some(('a', 2u8)),
        'ǎ' => Some(('a', 3u8)),
        'à' => Some(('a', 4u8)),
        'ō' => Some(('o', 1u8)),
        'ó' => Some(('o', 2u8)),
        'ǒ' => Some(('o', 3u8)),
        'ò' => Some(('o', 4u8)),
        'ē' => Some(('e', 1u8)),
        'é' => Some(('e', 2u8)),
        'ě' => Some(('e', 3u8)),
        'è' => Some(('e', 4u8)),
        'ī' => Some(('i', 1u8)),
        'í' => Some(('i', 2u8)),
        'ǐ' => Some(('i', 3u8)),
        'ì' => Some(('i', 4u8)),
        'ū' => Some(('u', 1u8)),
        'ú' => Some(('u', 2u8)),
        'ǔ' => Some(('u', 3u8)),
        'ù' => Some(('u', 4u8)),
        'ǖ' => Some(('v', 1u8)),
        'ǘ' => Some(('v', 2u8)),
        'ǚ' => Some(('v', 3u8)),
        'ǜ' => Some(('v', 4u8)),
        _ => None,
    }
}

pub fn find_mark(c: char) -> (r: Option<(char, u8)>)
    ensures
        r == mark_of(c),
{
    match c {
        'ā' => Some(('a', 1u8)),
        'á' => Some(('a', 2u8)),
        'ǎ' => Some(('a', 3u8)),
        'à' => Some(('a', 4u8)),
        'ō' => Some(('o', 1u8)),
        'ó' => Some(('o', 2u8)),
        'ǒ' => Some(('o', 3u8)),
        'ò' => Some(('o', 4u8)),
        'ē' => Some(('e', 1u8)),
        'é' => Some(('e', 2u8)),
        'ě' => Some(('e', 3u8)),
        'è' => Some(('e', 4u8)),
        'ī' => Some(('i', 1u8)),
        'í' => Some(('i', 2u8)),
        'ǐ' => Some(('i', 3u8)),
        'ì' => Some(('i', 4u8)),
        'ū' => Some(('u', 1u8)),
        'ú' => Some(('u', 2u8)),
        'ǔ' => Some(('u', 3u8)),
        'ù' => Some(('u', 4u8)),
        'ǖ' => Some(('v', 1u8)),
        'ǘ' => Some(('v', 2u8)),
        'ǚ' => Some(('v', 3u8)),
        'ǜ' => Some(('v', 4u8)),
        _ => None,
    }
}

/// The glyph that follows a zhuyin syllable of tone `t`; tone 1 has none.
pub open spec fn tone_suffix(t: u8) -> Seq<char> {
    if t == 2 {
        seq!['ˊ']
    } else if t == 3 {
        seq!['ˇ']
    } else if t == 4 {
        seq!['ˋ']
    } else if t == 5 {
        seq!['˙']
    } else {
        seq![]
    }
}

/// The tone that a zhuyin tone glyph marks.
pub open spec fn tone_of_glyph(c: char) -> Option<u8> {
    match c {
        'ˊ' => Some(2u8),
        'ˇ' => Some(3u8),
        'ˋ' => Some(4u8),
        '˙' => Some(5u8),
        _ => None,
    }
}

pub fn zhuyin_tone(c: char) -> (r: Option<u8>)
    ensures
        r == tone_of_glyph(c),
{
    match c {
        'ˊ' => Some(2u8),
        'ˇ' => Some(3u8),
        'ˋ' => Some(4u8),
        '˙' => Some(5u8),
        _ => None,
    }
}

} // verus!
