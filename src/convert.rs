//! Direct conversion between pinyin with tone marks and zhuyin, through
//! numbered pinyin.
use vstd::prelude::*;
use crate::pinyin::{decode_pinyin_chars, decode_pinyin_spec, encode_pinyin_chars, encode_pinyin_spec};
use crate::text::{chars_of, is_one_char, opt_chars, string_of_opt};
use crate::zhuyin::{decode_zhuyin_chars, decode_zhuyin_spec, encode_zhuyin_chars, encode_zhuyin_spec};

verus! {

/// Pinyin with tone marks written in zhuyin: `ê` is ㄝ; otherwise the syllable
/// is read as numbered pinyin and that is written in zhuyin.
pub open spec fn pinyin_to_zhuyin_spec(s: Seq<char>) -> Option<Seq<char>> {
    if s == seq!['ê'] {
        Some(seq!['ㄝ'])
    } else {
        match decode_pinyin_spec(s) {
            Some(n) => encode_zhuyin_spec(n),
            None => None,
        }
    }
}

/// Zhuyin written as pinyin with tone marks: ㄝ is `ê`; otherwise the syllable
/// is read as numbered pinyin and that is written with tone marks.
pub open spec fn zhuyin_to_pinyin_spec(z: Seq<char>) -> Option<Seq<char>> {
    if z == seq!['ㄝ'] {
        Some(seq!['ê'])
    } else {
        match decode_zhuyin_spec(z) {
            Some(n) => encode_pinyin_spec(n),
            None => None,
        }
    }
}

/// Converts pinyin with tone marks (`mǎ`) to zhuyin (`ㄇㄚˇ`); `None` where
/// either step fails.
pub fn pinyin_to_zhuyin(s: &str) -> (r: Option<String>)
    ensures
        opt_chars(r) == pinyin_to_zhuyin_spec(s@),
{
    let v = chars_of(s);
    if is_one_char(&v, 'ê') {
        return string_of_opt(Some(vec!['ㄝ']));
    }
    match decode_pinyin_chars(&v) {
        Some(n) => string_of_opt(encode_zhuyin_chars(&n)),
        None => None,
    }
}

/// Converts zhuyin (`ㄇㄚˇ`) to pinyin with tone marks (`mǎ`); `None` where
/// either step fails.
pub fn zhuyin_to_pinyin(s: &str) -> (r: Option<String>)
    ensures
        opt_chars(r) == zhuyin_to_pinyin_spec(s@),
{
    let v = chars_of(s);
    if is_one_char(&v, 'ㄝ') {
        return string_of_opt(Some(vec!['ê']));
    }
    match decode_zhuyin_chars(&v) {
        Some(n) => string_of_opt(encode_pinyin_chars(&n)),
        None => None,
    }
}

} // verus!
