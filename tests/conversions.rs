use pinyin_zhuyin::{
    decode_pinyin, decode_zhuyin, encode_pinyin, encode_zhuyin, pinyin_to_zhuyin, zhuyin_to_pinyin,
};

#[test]
fn encode_pinyin_test() {
    assert_eq!(encode_pinyin("e5"), Some("ê".to_owned()));
    assert_eq!(encode_pinyin("ju3"), Some("jǔ".to_owned()));
    assert_eq!(encode_pinyin("jv3"), Some("jǔ".to_owned()));
    assert_eq!(encode_pinyin("lvan4"), Some("lüàn".to_owned()));
    assert_eq!(encode_pinyin("zhuan4"), Some("zhuàn".to_owned()));
    assert_eq!(encode_pinyin("zhao2"), Some("zháo".to_owned()));
    assert_eq!(encode_pinyin("leng1"), Some("lēng".to_owned()));
    assert_eq!(encode_pinyin("shui3"), Some("shuǐ".to_owned()));
    assert_eq!(encode_pinyin("liu2"), Some("liú".to_owned()));
    assert_eq!(encode_pinyin("an3"), Some("ǎn".to_owned()));
    assert_eq!(encode_pinyin("yi2"), Some("yí".to_owned()));
    assert_eq!(encode_pinyin("yuan2"), Some("yuán".to_owned()));
    assert_eq!(encode_pinyin("yvan2"), Some("yuán".to_owned()));
    assert_eq!(encode_pinyin("min5"), Some("min".to_owned()));
    assert_eq!(encode_pinyin("er2"), Some("ér".to_owned()));
    assert_eq!(encode_pinyin("r5"), Some("r".to_owned()));

    assert_eq!(encode_pinyin("a"), None);
    assert_eq!(encode_pinyin("a0"), None);
    assert_eq!(encode_pinyin("zh3"), None);
    assert_eq!(encode_pinyin("zhaang4"), None);
    assert_eq!(encode_pinyin("zhang6"), None);
    assert_eq!(encode_pinyin("啊"), None);
    assert_eq!(encode_pinyin("a5啊"), None);
    assert_eq!(encode_pinyin("啊a5"), None);
    assert_eq!(encode_pinyin(""), None);
}

#[test]
fn encode_zhuyin_test() {
    assert_eq!(encode_zhuyin("e5"), Some("ㄝ".to_owned()));
    assert_eq!(encode_zhuyin("ju3"), Some("ㄐㄩˇ".to_owned()));
    assert_eq!(encode_zhuyin("jv3"), Some("ㄐㄩˇ".to_owned()));
    assert_eq!(encode_zhuyin("lvan4"), Some("ㄌㄩㄢˋ".to_owned()));
    assert_eq!(encode_zhuyin("zhuan4"), Some("ㄓㄨㄢˋ".to_owned()));
    assert_eq!(encode_zhuyin("zhao2"), Some("ㄓㄠˊ".to_owned()));
    assert_eq!(encode_zhuyin("leng1"), Some("ㄌㄥ".to_owned()));
    assert_eq!(encode_zhuyin("shui3"), Some("ㄕㄨㄟˇ".to_owned()));
    assert_eq!(encode_zhuyin("liu2"), Some("ㄌㄧㄡˊ".to_owned()));
    assert_eq!(encode_zhuyin("an3"), Some("ㄢˇ".to_owned()));
    assert_eq!(encode_zhuyin("yi2"), Some("ㄧˊ".to_owned()));
    assert_eq!(encode_zhuyin("yuan2"), Some("ㄩㄢˊ".to_owned()));
    assert_eq!(encode_zhuyin("yvan2"), Some("ㄩㄢˊ".to_owned()));
    assert_eq!(encode_zhuyin("min5"), Some("ㄇㄧㄣ˙".to_owned()));
    assert_eq!(encode_zhuyin("er2"), Some("ㄦˊ".to_owned()));
    assert_eq!(encode_zhuyin("r5"), Some("ㄦ˙".to_owned()));
    // Zhuyin-specific
    assert_eq!(encode_zhuyin("yu1"), Some("ㄩ".to_owned()));
    assert_eq!(encode_zhuyin("wu2"), Some("ㄨˊ".to_owned()));
    assert_eq!(encode_zhuyin("yve3"), Some("ㄩㄝˇ".to_owned()));
    assert_eq!(encode_zhuyin("yue4"), Some("ㄩㄝˋ".to_owned()));
    assert_eq!(encode_zhuyin("zhi4"), Some("ㄓˋ".to_owned()));

    assert_eq!(encode_zhuyin("a"), None);
    assert_eq!(encode_zhuyin("a0"), None);
    assert_eq!(encode_zhuyin("zh3"), None);
    assert_eq!(encode_zhuyin("zhaang4"), None);
    assert_eq!(encode_pinyin("zhang6"), None);
    assert_eq!(encode_zhuyin("啊"), None);
    assert_eq!(encode_zhuyin("a5啊"), None);
    assert_eq!(encode_zhuyin("啊a5"), None);
    assert_eq!(encode_zhuyin(""), None);
}

#[test]
fn decode_pinyin_test() {
    assert_eq!(decode_pinyin("ê"), Some("e5".to_owned()));
    assert_eq!(decode_pinyin("ju"), Some("jv5".to_owned()));
    assert_eq!(decode_pinyin("lǚ"), Some("lv3".to_owned()));
    assert_eq!(decode_pinyin("lüàn"), Some("lvan4".to_owned())); // not valid, for test only
    assert_eq!(decode_pinyin("zhuàn"), Some("zhuan4".to_owned()));
    assert_eq!(decode_pinyin("zháo"), Some("zhao2".to_owned()));
    assert_eq!(decode_pinyin("lēng"), Some("leng1".to_owned()));
    assert_eq!(decode_pinyin("shuǐ"), Some("shui3".to_owned()));
    assert_eq!(decode_pinyin("liú"), Some("liu2".to_owned()));
    assert_eq!(decode_pinyin("ǎn"), Some("an3".to_owned()));
    assert_eq!(decode_pinyin("yí"), Some("yi2".to_owned()));
    assert_eq!(decode_pinyin("yuán"), Some("yvan2".to_owned()));
    assert_eq!(decode_pinyin("min"), Some("min5".to_owned()));
    assert_eq!(decode_pinyin("ér"), Some("er2".to_owned()));
    assert_eq!(decode_pinyin("r"), Some("r5".to_owned()));

    assert_eq!(decode_pinyin("a5"), None);
    assert_eq!(decode_pinyin("zhāāng"), None);
    assert_eq!(decode_pinyin("啊"), None);
    assert_eq!(decode_pinyin("a啊"), None);
    assert_eq!(decode_pinyin("啊a"), None);
    assert_eq!(decode_pinyin(""), None);
}

#[test]
fn decode_zhuyin_test() {
    assert_eq!(decode_zhuyin("ㄝ"), Some("e5".to_owned()));
    assert_eq!(decode_zhuyin("ㄐㄩ˙"), Some("jv5".to_owned()));
    assert_eq!(decode_zhuyin("ㄌㄩˇ"), Some("lv3".to_owned()));
    assert_eq!(decode_zhuyin("ㄌㄩㄢˋ"), Some("lvan4".to_owned())); // not valid, for test only
    assert_eq!(decode_zhuyin("ㄓㄨㄢˋ"), Some("zhuan4".to_owned()));
    assert_eq!(decode_zhuyin("ㄓㄠˊ"), Some("zhao2".to_owned()));
    assert_eq!(decode_zhuyin("ㄓˋ"), Some("zhi4".to_owned()));
    assert_eq!(decode_zhuyin("ㄌㄥ"), Some("leng1".to_owned()));
    assert_eq!(decode_zhuyin("ㄕㄨㄟˇ"), Some("shui3".to_owned()));
    assert_eq!(decode_zhuyin("ㄌㄧㄡˊ"), Some("liu2".to_owned()));
    assert_eq!(decode_zhuyin("ㄢˇ"), Some("an3".to_owned()));
    assert_eq!(decode_zhuyin("ㄩ"), Some("yv1".to_owned()));
    assert_eq!(decode_zhuyin("ㄨˊ"), Some("wu2".to_owned()));
    assert_eq!(decode_zhuyin("ㄩㄝˇ"), Some("yve3".to_owned()));
    assert_eq!(decode_zhuyin("ㄩㄝˋ"), Some("yve4".to_owned()));
    assert_eq!(decode_zhuyin("ㄧˊ"), Some("yi2".to_owned()));
    assert_eq!(decode_zhuyin("ㄩㄢˊ"), Some("yvan2".to_owned()));
    assert_eq!(decode_zhuyin("ㄇㄧㄣ˙"), Some("min5".to_owned()));
    assert_eq!(decode_zhuyin("ㄦˊ"), Some("er2".to_owned()));
    assert_eq!(decode_zhuyin("ㄦ˙"), Some("r5".to_owned()));
    // Zhuyin-specific
    assert_eq!(decode_zhuyin("ㄨㄥˊ"), Some("weng2".to_owned()));

    assert_eq!(decode_zhuyin("a5"), None);
    assert_eq!(decode_zhuyin("ㄩㄝㄝ"), None);
    assert_eq!(decode_zhuyin("ㄐˇ"), None);
    assert_eq!(decode_zhuyin("ㄨㄕ"), None);
    assert_eq!(decode_zhuyin("ㄕㄨㄕㄨ"), None);
    assert_eq!(decode_zhuyin("啊"), None);
    assert_eq!(decode_zhuyin("ㄚ啊"), None);
    assert_eq!(decode_zhuyin("啊ㄚ"), None);
    assert_eq!(decode_zhuyin(""), None);
}

#[test]
fn pinyin_to_zhuyin_test() {
    assert_eq!(pinyin_to_zhuyin("mín"), Some("ㄇㄧㄣˊ".to_owned()));
    assert_eq!(pinyin_to_zhuyin("zhāng"), Some("ㄓㄤ".to_owned()));
    assert_eq!(pinyin_to_zhuyin("wéng"), Some("ㄨㄥˊ".to_owned()));
    assert_eq!(pinyin_to_zhuyin("ér"), Some("ㄦˊ".to_owned()));
    assert_eq!(pinyin_to_zhuyin("r"), Some("ㄦ˙".to_owned()));

    assert_eq!(pinyin_to_zhuyin("wengg"), None);
    assert_eq!(pinyin_to_zhuyin("啊"), None);
    assert_eq!(pinyin_to_zhuyin(""), None);
}

#[test]
fn zhuyin_to_pinyin_test() {
    assert_eq!(zhuyin_to_pinyin("ㄇㄧㄣˊ"), Some("mín".to_owned()));
    assert_eq!(zhuyin_to_pinyin("ㄓㄤ"), Some("zhāng".to_owned()));
    assert_eq!(zhuyin_to_pinyin("ㄨㄥˊ"), Some("wéng".to_owned()));
    assert_eq!(zhuyin_to_pinyin("ㄦˊ"), Some("ér".to_owned()));
    assert_eq!(zhuyin_to_pinyin("ㄦ˙"), Some("r".to_owned()));

    assert_eq!(zhuyin_to_pinyin("ㄥㄥ"), None);
    assert_eq!(zhuyin_to_pinyin("啊"), None);
    assert_eq!(zhuyin_to_pinyin(""), None);
}
