use vstd::prelude::*;

verus! {

/// The language that a piece of text is classified as.
#[derive(Debug, PartialEq, Eq, Structural)]
pub enum Language {
    Chinese,
    English,
    Pinyin,
    Uncertain,
}

/// The classification that `chinese_detection::classify` gives of a text.
pub uninterp spec fn language_of(text: Seq<char>) -> Language;

/// Relies on `chinese_detection::classify`: its result depends on the text
/// alone (the language profiles are built into the crate).
#[verifier::external_body]
fn classify_text(text: &str) -> (r: Language)
    ensures
        r == language_of(text@),
{
    match chinese_detection::classify(text) {
        chinese_detection::ClassificationResult::ZH => Language::Chinese,
        chinese_detection::ClassificationResult::EN => Language::English,
        chinese_detection::ClassificationResult::PY => Language::Pinyin,
        chinese_detection::ClassificationResult::UN => Language::Uncertain,
    }
}

/// Whether a word of the given language gets its pronunciation played.
pub fn is_pronounceable(language: Language) -> (r: bool)
    ensures
        r == (language == Language::English),
{
    match language {
        Language::English => true,
        _ => false,
    }
}

/// Whether `word` gets its pronunciation played before it is looked up:
/// exactly when it is classified as English.
pub fn wants_pronunciation(word: &str) -> (r: bool)
    ensures
        r == (language_of(word@) == Language::English),
{
    is_pronounceable(classify_text(word))
}

} // verus!
