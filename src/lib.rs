//! Conversion between the three spellings of a Mandarin syllable: numbered
//! pinyin (`ma3`), pinyin with tone marks (`mǎ`) and zhuyin (`ㄇㄚˇ`).
//!
//! Every conversion takes one syllable and gives the converted syllable, or
//! `None` where the input is not a syllable of the table. Each is proved equal
//! to a specification over sequences of characters, and `laws` proves how the
//! conversions relate: the round trips through each notation, and the
//! rejection of foreign characters.
pub mod convert;
pub mod laws;
pub mod numbered;
pub mod pinyin;
pub mod table;
pub mod text;
pub mod zhuyin;

pub use convert::{pinyin_to_zhuyin, zhuyin_to_pinyin};
pub use numbered::split;
pub use pinyin::{decode_pinyin, encode_pinyin};
pub use zhuyin::{decode_zhuyin, encode_zhuyin};
