use ydcv::{is_pronounceable, wants_pronunciation, Basic, Kv, Language, Phonetic, YdcvResp};

fn strings(v: &[&str]) -> Vec<String> {
    v.iter().map(|s| s.to_string()).collect()
}

#[test]
fn renders_english_entry() {
    let resp = YdcvResp {
        query: "hello".to_string(),
        translation: strings(&["你好"]),
        basic: Basic {
            phonetic: Some(Phonetic::En2Zh { us: "həˈlo".to_string(), uk: "həˈləʊ".to_string() }),
            explains: strings(&["int. 喂", "n. 招呼"]),
        },
        web: Some(vec![Kv { key: "Hello Kitty".to_string(), value: strings(&["凯蒂猫", "hello kitty"]) }]),
    };
    let expected = [
        "\x1B[0m\x1B[4mhello\x1B[0m",
        " us: [\x1B[0m\x1B[33mhəˈlo\x1B[0m]",
        " uk: [\x1B[0m\x1B[33mhəˈləʊ\x1B[0m]",
        " 你好",
        "\x1B[0m\x1B[36m\n  World Explanation:\n\x1B[0m",
        "    * int. 喂\n",
        "    * n. 招呼\n",
        "\x1B[0m\x1B[36m\n  Web Reference:\x1B[0m",
        "\n    * \x1B[0m\x1B[33mHello Kitty\n\x1B[0m\x1B[0m\x1B[35m       凯蒂猫,hello kitty\x1B[0m",
    ]
    .concat();
    assert_eq!(resp.colorized(), expected);
}

#[test]
fn renders_chinese_entry_without_web() {
    let resp = YdcvResp {
        query: "你好".to_string(),
        translation: strings(&["hello", "hi"]),
        basic: Basic {
            phonetic: Some(Phonetic::Zh2En { phonetic: "nǐ hǎo".to_string() }),
            explains: strings(&["hello"]),
        },
        web: None,
    };
    let expected = [
        "\x1B[0m\x1B[4m你好\x1B[0m",
        " [\x1B[0m\x1B[33m nǐ hǎo \x1B[0m]",
        " hello hi",
        "\x1B[0m\x1B[36m\n  World Explanation:\n\x1B[0m",
        "    * hello\n",
    ]
    .concat();
    assert_eq!(resp.colorized(), expected);
}

#[test]
fn renders_entry_without_phonetic() {
    let resp = YdcvResp {
        query: "cli".to_string(),
        translation: vec![],
        basic: Basic { phonetic: None, explains: vec![] },
        web: Some(vec![Kv { key: "k".to_string(), value: vec![] }]),
    };
    let expected = [
        "\x1B[0m\x1B[4mcli\x1B[0m",
        "\x1B[0m\x1B[36m\n  World Explanation:\n\x1B[0m",
        "\x1B[0m\x1B[36m\n  Web Reference:\x1B[0m",
        "\n    * \x1B[0m\x1B[33mk\n\x1B[0m\x1B[0m\x1B[35m       \x1B[0m",
    ]
    .concat();
    assert_eq!(resp.colorized(), expected);
}

#[test]
fn english_word_is_pronounced() {
    assert!(wants_pronunciation("test"));
    assert!(wants_pronunciation("student"));
}

#[test]
fn chinese_and_pinyin_are_not_pronounced() {
    assert!(!wants_pronunciation("实验"));
    assert!(!wants_pronunciation("shiyan"));
}

#[test]
fn only_english_is_pronounceable() {
    assert!(is_pronounceable(Language::English));
    assert!(!is_pronounceable(Language::Chinese));
    assert!(!is_pronounceable(Language::Pinyin));
    assert!(!is_pronounceable(Language::Uncertain));
}
