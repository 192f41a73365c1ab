use ydcv::trans_type::{Basic, Reference, Rgb};
use ydcv::{Translation, YDCVFormatter};

fn strings(v: &[&str]) -> Vec<String> {
    v.iter().map(|s| s.to_string()).collect()
}

fn u(s: &str) -> String {
    format!("\x1B[4m{s}\x1B[0m")
}

fn p(s: &str) -> String {
    format!("\x1B[35m{s}\x1B[0m")
}

const STAR: &str = "\x1B[33m*\x1B[0m";

fn online(q: &str) -> String {
    format!(
        "\n  {}\n\t*  {}{}\n",
        p("Online Resource:"),
        u("http://www.ldoceonline.com/search/?q="),
        u(q)
    )
}

#[test]
fn describes_full_entry() {
    let t = Translation {
        translation: Some(strings(&["你好", "喂"])),
        query: "hello".to_string(),
        basic: Some(Basic {
            explains: strings(&["int. 喂"]),
            uk_phonetic: Some("həˈləʊ".to_string()),
            us_phonetic: Some("həˈloʊ".to_string()),
        }),
        web: Some(vec![Reference {
            key: "Hello Kitty".to_string(),
            contents: strings(&["凯蒂猫", "hello kitty"]),
        }]),
    };
    let expected = [
        format!("{}\n  {}\n\t{STAR} 你好; 喂\n", u("hello"), p("Translation:")),
        "\n".to_string(),
        format!("  {}\n", p("Word Explanation")),
        format!("\tUK: [{}] US: [{}]\n", u("həˈləʊ"), u("həˈloʊ")),
        format!("\t{STAR} int. 喂\n"),
        "\n".to_string(),
        format!("  {}\n", p("Web Reference:")),
        format!("\t{STAR} Hello Kitty\n\t  凯蒂猫; hello kitty\n"),
        online("hello"),
    ]
    .concat();
    assert_eq!(t.translation_description(), expected);
}

#[test]
fn describes_empty_entry_with_link_only() {
    let t = Translation { translation: None, query: "cli".to_string(), basic: None, web: None };
    assert_eq!(t.translation_description(), online("cli"));
}

#[test]
fn describes_american_only_and_no_translations() {
    let t = Translation {
        translation: Some(vec![]),
        query: "x".to_string(),
        basic: Some(Basic {
            explains: vec![],
            uk_phonetic: None,
            us_phonetic: Some("eks".to_string()),
        }),
        web: None,
    };
    let expected = [
        format!("{}\n  {}\n\t{STAR} ", u("x"), p("Translation:")),
        "\n".to_string(),
        format!("  {}\n", p("Word Explanation")),
        format!("\tUS: [{}]\n", u("eks")),
        online("x"),
    ]
    .concat();
    assert_eq!(t.translation_description(), expected);
}

#[test]
fn british_only_ends_without_newline() {
    let t = Translation {
        translation: None,
        query: "y".to_string(),
        basic: Some(Basic {
            explains: strings(&["a", "b"]),
            uk_phonetic: Some("wai".to_string()),
            us_phonetic: None,
        }),
        web: Some(vec![Reference { key: "k".to_string(), contents: strings(&["v"]) }]),
    };
    let expected = [
        format!("  {}\n", p("Word Explanation")),
        format!("\tUK: [{}]", u("wai")),
        format!("\t{STAR} a\n\t{STAR} b\n"),
        "\n".to_string(),
        format!("  {}\n", p("Web Reference:")),
        format!("\t{STAR} k\n\t  v\n"),
        online("y"),
    ]
    .concat();
    assert_eq!(t.translation_description(), expected);
}

#[test]
fn default_colors() {
    let t = Translation { translation: None, query: String::new(), basic: None, web: None };
    assert_eq!(t.head_color(), Rgb { r: 26, g: 159, b: 160 });
    assert_eq!(t.phonetic_color(), Rgb { r: 220, g: 186, b: 40 });
    assert_eq!(t.reference_color(), Rgb { r: 138, g: 88, b: 164 });
}
