use pinyin_zhuyin::{
    decode_pinyin, decode_zhuyin, encode_pinyin, encode_zhuyin, pinyin_to_zhuyin, split,
    zhuyin_to_pinyin,
};

fn s(x: &str) -> Option<String> {
    Some(x.to_owned())
}

#[test]
fn split_parts_of_numbered_pinyin() {
    assert_eq!(split("shuang1"), Some(("sh", "uang", 1)));
    assert_eq!(split("a5"), Some(("", "a", 5)));
    assert_eq!(split("lvan4"), Some(("l", "van", 4)));
    assert_eq!(split("zh9"), None);
    assert_eq!(split("zh3"), None);
    assert_eq!(split(""), None);
}

#[test]
fn split_bare_r() {
    assert_eq!(split("r"), Some(("", "r", 5)));
    assert_eq!(split("r5"), Some(("", "r", 5)));
    assert_eq!(split("r4"), None);
}

#[test]
fn split_rejects_missing_or_extra_tone() {
    assert_eq!(split("ma"), None);
    assert_eq!(split("ma33"), None);
    assert_eq!(split("ma.3"), None);
    assert_eq!(split("ma0"), None);
    assert_eq!(split("Ma3"), None);
    assert_eq!(split("mǎ3"), None);
}

#[test]
fn tone_mark_placement() {
    assert_eq!(encode_pinyin("zhuan4"), s("zhuàn"));
    assert_eq!(encode_pinyin("liu2"), s("liú"));
    assert_eq!(encode_pinyin("an3"), s("ǎn"));
    assert_eq!(encode_pinyin("gui4"), s("guì"));
    assert_eq!(encode_pinyin("hao3"), s("hǎo"));
    assert_eq!(encode_pinyin("xie2"), s("xié"));
    assert_eq!(encode_pinyin("dou1"), s("dōu"));
    assert_eq!(encode_pinyin("ou3"), s("ǒu"));
    assert_eq!(encode_pinyin("nv3"), s("nǚ"));
    assert_eq!(encode_pinyin("lve4"), s("lüè"));
}

#[test]
fn umlaut_after_j_q_x_y() {
    assert_eq!(encode_pinyin("jv3"), s("jǔ"));
    assert_eq!(encode_pinyin("ju3"), s("jǔ"));
    assert_eq!(encode_pinyin("qvn2"), s("qún"));
    assert_eq!(decode_pinyin("qún"), s("qvn2"));
    assert_eq!(decode_pinyin("xuě"), s("xve3"));
    assert_eq!(decode_pinyin("lǘ"), s("lv2"));
}

#[test]
fn neutral_tone_and_r() {
    assert_eq!(encode_pinyin("r5"), s("r"));
    assert_eq!(encode_pinyin("r"), s("r"));
    assert_eq!(decode_pinyin("r"), s("r5"));
    assert_eq!(encode_pinyin("ma5"), s("ma"));
    assert_eq!(decode_pinyin("ma"), s("ma5"));
    assert_eq!(encode_zhuyin("ma5"), s("ㄇㄚ˙"));
    assert_eq!(encode_zhuyin("r"), None);
}

#[test]
fn zhuyin_whole_syllables() {
    assert_eq!(encode_zhuyin("yu1"), s("ㄩ"));
    assert_eq!(encode_zhuyin("wu2"), s("ㄨˊ"));
    assert_eq!(decode_zhuyin("ㄨㄥˊ"), s("weng2"));
    assert_eq!(decode_zhuyin("ㄨㄥ"), s("weng1"));
    assert_eq!(encode_zhuyin("yin1"), s("ㄧㄣ"));
    assert_eq!(encode_zhuyin("yan2"), s("ㄧㄢˊ"));
    assert_eq!(decode_zhuyin("ㄧㄢˊ"), s("yan2"));
    assert_eq!(decode_zhuyin("ㄨㄛˇ"), s("wo3"));
    assert_eq!(decode_zhuyin("ㄧㄣ"), s("yin1"));
}

#[test]
fn zhuyin_empty_rhyme() {
    assert_eq!(encode_zhuyin("shi4"), s("ㄕˋ"));
    assert_eq!(encode_zhuyin("ri4"), s("ㄖˋ"));
    assert_eq!(encode_zhuyin("zi3"), s("ㄗˇ"));
    assert_eq!(decode_zhuyin("ㄓ"), s("zhi1"));
    assert_eq!(decode_zhuyin("ㄙ˙"), s("si5"));
    assert_eq!(decode_zhuyin("ㄅ"), None);
    assert_eq!(decode_zhuyin("ˊ"), None);
}

#[test]
fn zhuyin_tones() {
    assert_eq!(decode_zhuyin("ㄇㄚ"), s("ma1"));
    assert_eq!(decode_zhuyin("ㄇㄚˊ"), s("ma2"));
    assert_eq!(decode_zhuyin("ㄇㄚˇ"), s("ma3"));
    assert_eq!(decode_zhuyin("ㄇㄚˋ"), s("ma4"));
    assert_eq!(decode_zhuyin("ㄇㄚ˙"), s("ma5"));
    assert_eq!(encode_zhuyin("ma1"), s("ㄇㄚ"));
    assert_eq!(encode_zhuyin("ma4"), s("ㄇㄚˋ"));
}

#[test]
fn invalid_input_is_rejected() {
    assert_eq!(encode_pinyin("zh3"), None);
    assert_eq!(encode_pinyin("zhang6"), None);
    assert_eq!(encode_pinyin(""), None);
    assert_eq!(encode_pinyin("ma3!"), None);
    assert_eq!(encode_pinyin("mā"), None);
    assert_eq!(encode_pinyin("vv3"), None);
    assert_eq!(encode_pinyin("jvo3"), None);
    assert_eq!(encode_zhuyin("ma3啊"), None);
    assert_eq!(encode_zhuyin("zz1"), None);
    assert_eq!(decode_pinyin("hǎó"), None);
    assert_eq!(decode_pinyin("zh"), None);
    assert_eq!(decode_pinyin("xyā"), None);
    assert_eq!(decode_zhuyin("ㄇㄚˇㄚ"), None);
    assert_eq!(decode_zhuyin("ㄇˇㄚ"), None);
    assert_eq!(pinyin_to_zhuyin("ma3"), None);
    assert_eq!(zhuyin_to_pinyin("ma3"), None);
}

#[test]
fn failure_is_stable() {
    for input in ["zh3", "", "ㄩㄝㄝ", "hǎó", "啊"] {
        assert_eq!(encode_pinyin(input), encode_pinyin(input));
        assert_eq!(encode_zhuyin(input), encode_zhuyin(input));
        assert_eq!(decode_pinyin(input), decode_pinyin(input));
        assert_eq!(decode_zhuyin(input), decode_zhuyin(input));
        assert_eq!(pinyin_to_zhuyin(input), None);
        assert_eq!(pinyin_to_zhuyin(input), pinyin_to_zhuyin(input));
        assert_eq!(zhuyin_to_pinyin(input), zhuyin_to_pinyin(input));
    }
    assert_eq!(encode_pinyin("zh3"), None);
    assert_eq!(encode_pinyin("zh3"), None);
}

#[test]
fn pinyin_round_trip() {
    for (numbered, canonical) in [
        ("ju3", "jv3"),
        ("jv3", "jv3"),
        ("yuan2", "yvan2"),
        ("lvan4", "lvan4"),
        ("zhuang1", "zhuang1"),
        ("min5", "min5"),
        ("e5", "e5"),
        ("r", "r5"),
        ("er2", "er2"),
    ] {
        let marked = encode_pinyin(numbered).unwrap();
        assert_eq!(decode_pinyin(&marked), s(canonical));
    }
    assert_eq!(decode_pinyin("juǒ"), None);
}

#[test]
fn cross_notation_round_trip() {
    for marked in ["zhuàn", "mín", "wéng", "ér", "r", "ê", "jué", "yuán", "lǜ", "shì"] {
        let zhuyin = pinyin_to_zhuyin(marked).unwrap();
        assert_eq!(zhuyin_to_pinyin(&zhuyin), s(marked));
    }
    assert_eq!(pinyin_to_zhuyin("yuán"), s("ㄩㄢˊ"));
    assert_eq!(pinyin_to_zhuyin("ê"), s("ㄝ"));
    assert_eq!(zhuyin_to_pinyin("ㄝ"), s("ê"));
    assert_eq!(zhuyin_to_pinyin(&pinyin_to_zhuyin("ōng").unwrap()), s("wēng"));
}

#[test]
fn er_of_tone_five_is_written_like_r() {
    assert_eq!(encode_zhuyin("er5"), s("ㄦ˙"));
    assert_eq!(decode_zhuyin("ㄦ˙"), s("r5"));
    assert_eq!(encode_zhuyin("er2"), s("ㄦˊ"));
    assert_eq!(decode_zhuyin("ㄦˊ"), s("er2"));
}

#[test]
fn zhuyin_reads_back() {
    for numbered in [
        "ba1", "zhi4", "lve4", "jve2", "xiong3", "an1", "ou4", "er2", "guang1", "nv3", "ya1",
        "wa4", "yi2", "wu3", "yin1",
    ] {
        let zhuyin = encode_zhuyin(numbered).unwrap();
        assert_eq!(decode_zhuyin(&zhuyin), s(numbered));
    }
    assert_eq!(decode_zhuyin(&encode_zhuyin("e1").unwrap()), s("ye1"));
    assert_eq!(decode_zhuyin(&encode_zhuyin("you3").unwrap()), s("yu3"));
    assert_eq!(decode_zhuyin(&encode_zhuyin("lue4").unwrap()), s("lve4"));
    assert_eq!(decode_zhuyin(&encode_zhuyin("ong1").unwrap()), s("weng1"));
}

#[test]
fn foreign_characters_are_rejected() {
    assert_eq!(encode_pinyin("ma3 "), None);
    assert_eq!(encode_zhuyin("MA3"), None);
    assert_eq!(split("m-a3"), None);
    assert_eq!(decode_pinyin("ma!"), None);
    assert_eq!(decode_pinyin("mA"), None);
    assert_eq!(pinyin_to_zhuyin("mǎ?"), None);
    assert_eq!(decode_zhuyin("ㄇa"), None);
    assert_eq!(zhuyin_to_pinyin("ㄇㄚ?"), None);
}
