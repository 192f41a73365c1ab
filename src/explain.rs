use vstd::prelude::*;
use vstd::utf8::{decode_utf8, encode_utf8, valid_utf8};

verus! {

broadcast use vstd::utf8::group_utf8_lib;

#[verifier::external_type_specification]
#[verifier::external_body]
pub struct ExBuffer(termcolor::Buffer);

#[verifier::external_type_specification]
#[verifier::external_body]
pub struct ExIoError(std::io::Error);

/// The bytes written so far into a `termcolor::Buffer`.
pub uninterp spec fn buffer_bytes(b: termcolor::Buffer) -> Seq<u8>;

/// Whether a `termcolor::Buffer` writes colors as ANSI escape sequences.
pub uninterp spec fn buffer_is_ansi(b: termcolor::Buffer) -> bool;

/// A style that the rendering switches to.
pub enum Tint {
    Underline,
    Yellow,
    Cyan,
    Magenta,
}

/// The ANSI sequence that ends every style.
pub open spec fn reset_code() -> Seq<char> {
    seq!['\x1B', '[', '0', 'm']
}

/// What an ANSI buffer receives when a style is set: a style made with
/// `ColorSpec::new` resets first, then switches on its one attribute.
pub open spec fn tint_code(t: Tint) -> Seq<char> {
    reset_code() + match t {
        Tint::Underline => seq!['\x1B', '[', '4', 'm'],
        Tint::Yellow => seq!['\x1B', '[', '3', '3', 'm'],
        Tint::Cyan => seq!['\x1B', '[', '3', '6', 'm'],
        Tint::Magenta => seq!['\x1B', '[', '3', '5', 'm'],
    }
}

/// Relies on `termcolor::Buffer::ansi`: a buffer that writes ANSI escape
/// sequences and holds no bytes yet.
#[verifier::external_body]
fn ansi_buffer() -> (b: termcolor::Buffer)
    ensures
        buffer_is_ansi(b),
        buffer_bytes(b) == Seq::<u8>::empty(),
{
    termcolor::Buffer::ansi()
}

/// Relies on `WriteColor::set_color` of `termcolor::Buffer`: on an ANSI
/// buffer it appends the reset sequence and then the attribute's sequence to
/// the in-memory bytes, which cannot fail.
#[verifier::external_body]
fn set_tint(b: &mut termcolor::Buffer, t: Tint) -> (r: std::io::Result<()>)
    requires
        buffer_is_ansi(*old(b)),
    ensures
        r is Ok,
        buffer_is_ansi(*final(b)),
        buffer_bytes(*final(b)) == buffer_bytes(*old(b)) + encode_utf8(tint_code(t)),
{
    let mut spec = termcolor::ColorSpec::new();
    match t {
        Tint::Underline => spec.set_underline(true),
        Tint::Yellow => spec.set_fg(Some(termcolor::Color::Yellow)),
        Tint::Cyan => spec.set_fg(Some(termcolor::Color::Cyan)),
        Tint::Magenta => spec.set_fg(Some(termcolor::Color::Magenta)),
    };
    termcolor::WriteColor::set_color(b, &spec)
}

/// Relies on `WriteColor::reset` of `termcolor::Buffer`: on an ANSI buffer
/// it appends `ESC [ 0 m` to the in-memory bytes, which cannot fail.
#[verifier::external_body]
fn clear_tint(b: &mut termcolor::Buffer) -> (r: std::io::Result<()>)
    requires
        buffer_is_ansi(*old(b)),
    ensures
        r is Ok,
        buffer_is_ansi(*final(b)),
        buffer_bytes(*final(b)) == buffer_bytes(*old(b)) + encode_utf8(reset_code()),
{
    termcolor::WriteColor::reset(b)
}

/// Relies on `io::Write::write_all` of `termcolor::Buffer`: the bytes are
/// appended to the in-memory bytes, which cannot fail.
#[verifier::external_body]
fn emit(b: &mut termcolor::Buffer, text: &str) -> (r: std::io::Result<()>)
    requires
        buffer_is_ansi(*old(b)),
    ensures
        r is Ok,
        buffer_is_ansi(*final(b)),
        buffer_bytes(*final(b)) == buffer_bytes(*old(b)) + encode_utf8(text@),
{
    std::io::Write::write_all(b, text.as_bytes())
}

/// Relies on `termcolor::Buffer::into_inner`: the bytes written.
#[verifier::external_body]
fn buffer_into_bytes(b: termcolor::Buffer) -> (r: Vec<u8>)
    ensures
        r@ == buffer_bytes(b),
{
    b.into_inner()
}

/// Relies on `String::from_utf8`: it succeeds exactly on valid UTF-8, with
/// the characters that the bytes encode.
#[verifier::external_body]
fn utf8_to_string(bytes: Vec<u8>) -> (r: Option<String>)
    ensures
        r is Some <==> valid_utf8(bytes@),
        r matches Some(s) ==> s@ == decode_utf8(bytes@),
{
    String::from_utf8(bytes).ok()
}

/// The UTF-8 encoding of a concatenation is the concatenation of the
/// encodings.
pub proof fn lemma_encode_utf8_concat(a: Seq<char>, b: Seq<char>)
    ensures
        encode_utf8(a + b) == encode_utf8(a) + encode_utf8(b),
    decreases a.len(),
{
    if a.len() == 0 {
        assert(a + b =~= b);
        assert(encode_utf8(a) + encode_utf8(b) =~= encode_utf8(b));
    } else {
        assert((a + b).drop_first() =~= a.drop_first() + b);
        lemma_encode_utf8_concat(a.drop_first(), b);
        assert(encode_utf8(a + b) =~= encode_utf8(a) + encode_utf8(b));
    }
}

/// The buffer is an ANSI buffer whose bytes encode `text`.
pub open spec fn shows(b: termcolor::Buffer, text: Seq<char>) -> bool {
    buffer_is_ansi(b) && buffer_bytes(b) == encode_utf8(text)
}

/// Writes `s`, keeping track of the text shown.
fn put(b: &mut termcolor::Buffer, s: &str, Ghost(before): Ghost<Seq<char>>)
    requires
        shows(*old(b), before),
    ensures
        shows(*final(b), before + s@),
{
    let _ = emit(b, s);
    proof {
        lemma_encode_utf8_concat(before, s@);
    }
}

/// Switches to a style, keeping track of the text shown.
fn put_tint(b: &mut termcolor::Buffer, t: Tint, Ghost(before): Ghost<Seq<char>>)
    requires
        shows(*old(b), before),
    ensures
        shows(*final(b), before + tint_code(t)),
{
    let _ = set_tint(b, t);
    proof {
        lemma_encode_utf8_concat(before, tint_code(t));
    }
}

/// Ends the current style, keeping track of the text shown.
fn put_reset(b: &mut termcolor::Buffer, Ghost(before): Ghost<Seq<char>>)
    requires
        shows(*old(b), before),
    ensures
        shows(*final(b), before + reset_code()),
{
    let _ = clear_tint(b);
    proof {
        lemma_encode_utf8_concat(before, reset_code());
    }
}

/// The pronunciation part of an entry, whose shape depends on the direction
/// of the translation.
pub enum Phonetic {
    /// English to Chinese: American and British pronunciations.
    En2Zh { us: String, uk: String },
    /// Chinese to English: one pronunciation.
    Zh2En { phonetic: String },
}

/// The dictionary part of an entry.
pub struct Basic {
    pub phonetic: Option<Phonetic>,
    pub explains: Vec<String>,
}

/// One web reference: a phrase and its translations.
pub struct Kv {
    pub key: String,
    pub value: Vec<String>,
}

/// The remote service's answer for one query.
pub struct YdcvResp {
    pub query: String,
    pub translation: Vec<String>,
    pub basic: Basic,
    pub web: Option<Vec<Kv>>,
}

/// One pronunciation: ` label: [` then the sound in yellow, then `]`.
pub open spec fn sound_text(label: Seq<char>, sound: Seq<char>) -> Seq<char> {
    " "@ + label + ": ["@ + tint_code(Tint::Yellow) + sound + reset_code() + "]"@
}

/// The pronunciation part of the rendering.
pub open spec fn phonetic_text(p: Option<Phonetic>) -> Seq<char> {
    match p {
        Some(Phonetic::En2Zh { us, uk }) => sound_text("us"@, us@) + sound_text("uk"@, uk@),
        Some(Phonetic::Zh2En { phonetic }) => " ["@ + tint_code(Tint::Yellow) + " "@ + phonetic@
            + " "@ + reset_code() + "]"@,
        None => Seq::empty(),
    }
}

/// Each translation, preceded by a space.
pub open spec fn translations_text(items: Seq<String>) -> Seq<char>
    decreases items.len(),
{
    if items.len() == 0 {
        Seq::empty()
    } else {
        translations_text(items.drop_last()) + " "@ + items.last()@
    }
}

/// Each explanation on a line of its own, as a bullet.
pub open spec fn explains_text(items: Seq<String>) -> Seq<char>
    decreases items.len(),
{
    if items.len() == 0 {
        Seq::empty()
    } else {
        explains_text(items.drop_last()) + "    * "@ + items.last()@ + "\n"@
    }
}

/// The items joined with `,` between each two.
pub open spec fn comma_joined(items: Seq<String>) -> Seq<char>
    decreases items.len(),
{
    if items.len() == 0 {
        Seq::empty()
    } else if items.len() == 1 {
        items[0]@
    } else {
        comma_joined(items.drop_last()) + ","@ + items.last()@
    }
}

/// One web reference: the phrase in yellow, then its translations in
/// magenta.
pub open spec fn reference_text(kv: Kv) -> Seq<char> {
    "\n    * "@ + tint_code(Tint::Yellow) + kv.key@ + "\n"@ + reset_code() + tint_code(Tint::Magenta)
        + "       "@ + comma_joined(kv.value@) + reset_code()
}

/// The web references, one after another.
pub open spec fn references_text(items: Seq<Kv>) -> Seq<char>
    decreases items.len(),
{
    if items.len() == 0 {
        Seq::empty()
    } else {
        references_text(items.drop_last()) + reference_text(items.last())
    }
}

/// The web reference part of the rendering, under its heading.
pub open spec fn web_text(web: Option<Vec<Kv>>) -> Seq<char> {
    match web {
        Some(w) => tint_code(Tint::Cyan) + "\n  Web Reference:"@ + reset_code() + references_text(w@),
        None => Seq::empty(),
    }
}

/// The whole rendering of an answer: the query underlined, its
/// pronunciations and translations, the explanations under a heading, and
/// the web references.
pub open spec fn rendered(r: YdcvResp) -> Seq<char> {
    tint_code(Tint::Underline) + r.query@ + reset_code() + phonetic_text(r.basic.phonetic)
        + translations_text(r.translation@) + tint_code(Tint::Cyan)
        + "\n  World Explanation:\n"@ + reset_code() + explains_text(r.basic.explains@) + web_text(
        r.web,
    )
}

fn write_sound(
    b: &mut termcolor::Buffer,
    label: &str,
    sound: &String,
    Ghost(before): Ghost<Seq<char>>,
)
    requires
        shows(*old(b), before),
    ensures
        shows(*final(b), before + sound_text(label@, sound@)),
{
    let ghost mut t = before;
    put(b, " ", Ghost(t));
    proof { t = t + " "@; }
    put(b, label, Ghost(t));
    proof { t = t + label@; }
    put(b, ": [", Ghost(t));
    proof { t = t + ": ["@; }
    put_tint(b, Tint::Yellow, Ghost(t));
    proof { t = t + tint_code(Tint::Yellow); }
    put(b, sound.as_str(), Ghost(t));
    proof { t = t + sound@; }
    put_reset(b, Ghost(t));
    proof { t = t + reset_code(); }
    put(b, "]", Ghost(t));
    assert(t + "]"@ =~= before + sound_text(label@, sound@));
}

fn write_phonetic(b: &mut termcolor::Buffer, p: &Option<Phonetic>, Ghost(before): Ghost<Seq<char>>)
    requires
        shows(*old(b), before),
    ensures
        shows(*final(b), before + phonetic_text(*p)),
{
    match p {
        Some(Phonetic::En2Zh { us, uk }) => {
            write_sound(b, "us", us, Ghost(before));
            write_sound(b, "uk", uk, Ghost(before + sound_text("us"@, us@)));
            assert(before + sound_text("us"@, us@) + sound_text("uk"@, uk@) =~= before
                + phonetic_text(*p));
        },
        Some(Phonetic::Zh2En { phonetic }) => {
            let ghost mut t = before;
            put(b, " [", Ghost(t));
            proof { t = t + " ["@; }
            put_tint(b, Tint::Yellow, Ghost(t));
            proof { t = t + tint_code(Tint::Yellow); }
            put(b, " ", Ghost(t));
            proof { t = t + " "@; }
            put(b, phonetic.as_str(), Ghost(t));
            proof { t = t + phonetic@; }
            put(b, " ", Ghost(t));
            proof { t = t + " "@; }
            put_reset(b, Ghost(t));
            proof { t = t + reset_code(); }
            put(b, "]", Ghost(t));
            assert(t + "]"@ =~= before + phonetic_text(*p));
        },
        None => {
            assert(before + phonetic_text(*p) =~= before);
        },
    }
}

fn write_translations(b: &mut termcolor::Buffer, items: &Vec<String>, Ghost(before): Ghost<Seq<char>>)
    requires
        shows(*old(b), before),
    ensures
        shows(*final(b), before + translations_text(items@)),
{
    let mut i: usize = 0;
    assert(items@.subrange(0, 0) =~= Seq::<String>::empty());
    assert(before + translations_text(items@.subrange(0, 0)) =~= before);
    while i < items.len()
        invariant
            i <= items@.len(),
            shows(*b, before + translations_text(items@.subrange(0, i as int))),
        decreases items@.len() - i,
    {
        let ghost t = before + translations_text(items@.subrange(0, i as int));
        put(b, " ", Ghost(t));
        put(b, items[i].as_str(), Ghost(t + " "@));
        assert(items@.subrange(0, i + 1).drop_last() =~= items@.subrange(0, i as int));
        assert(t + " "@ + items@[i as int]@ =~= before + translations_text(
            items@.subrange(0, i + 1),
        ));
        i = i + 1;
    }
    assert(items@.subrange(0, items@.len() as int) =~= items@);
}

fn write_explains(b: &mut termcolor::Buffer, items: &Vec<String>, Ghost(before): Ghost<Seq<char>>)
    requires
        shows(*old(b), before),
    ensures
        shows(*final(b), before + explains_text(items@)),
{
    let mut i: usize = 0;
    assert(items@.subrange(0, 0) =~= Seq::<String>::empty());
    assert(before + explains_text(items@.subrange(0, 0)) =~= before);
    while i < items.len()
        invariant
            i <= items@.len(),
            shows(*b, before + explains_text(items@.subrange(0, i as int))),
        decreases items@.len() - i,
    {
        let ghost t = before + explains_text(items@.subrange(0, i as int));
        put(b, "    * ", Ghost(t));
        put(b, items[i].as_str(), Ghost(t + "    * "@));
        put(b, "\n", Ghost(t + "    * "@ + items@[i as int]@));
        assert(items@.subrange(0, i + 1).drop_last() =~= items@.subrange(0, i as int));
        assert(t + "    * "@ + items@[i as int]@ + "\n"@ =~= before + explains_text(
            items@.subrange(0, i + 1),
        ));
        i = i + 1;
    }
    assert(items@.subrange(0, items@.len() as int) =~= items@);
}

fn write_joined(b: &mut termcolor::Buffer, items: &Vec<String>, Ghost(before): Ghost<Seq<char>>)
    requires
        shows(*old(b), before),
    ensures
        shows(*final(b), before + comma_joined(items@)),
{
    if items.len() == 0 {
        assert(before + comma_joined(items@) =~= before);
        return;
    }
    put(b, items[0].as_str(), Ghost(before));
    assert(comma_joined(items@.subrange(0, 1)) == items@[0]@);
    let mut i: usize = 1;
    while i < items.len()
        invariant
            1 <= i <= items@.len(),
            shows(*b, before + comma_joined(items@.subrange(0, i as int))),
        decreases items@.len() - i,
    {
        let ghost t = before + comma_joined(items@.subrange(0, i as int));
        put(b, ",", Ghost(t));
        put(b, items[i].as_str(), Ghost(t + ","@));
        assert(items@.subrange(0, i + 1).drop_last() =~= items@.subrange(0, i as int));
        assert(t + ","@ + items@[i as int]@ =~= before + comma_joined(items@.subrange(0, i + 1)));
        i = i + 1;
    }
    assert(items@.subrange(0, items@.len() as int) =~= items@);
}

fn write_reference(b: &mut termcolor::Buffer, kv: &Kv, Ghost(before): Ghost<Seq<char>>)
    requires
        shows(*old(b), before),
    ensures
        shows(*final(b), before + reference_text(*kv)),
{
    let ghost mut t = before;
    put(b, "\n    * ", Ghost(t));
    proof { t = t + "\n    * "@; }
    put_tint(b, Tint::Yellow, Ghost(t));
    proof { t = t + tint_code(Tint::Yellow); }
    put(b, kv.key.as_str(), Ghost(t));
    proof { t = t + kv.key@; }
    put(b, "\n", Ghost(t));
    proof { t = t + "\n"@; }
    put_reset(b, Ghost(t));
    proof { t = t + reset_code(); }
    put_tint(b, Tint::Magenta, Ghost(t));
    proof { t = t + tint_code(Tint::Magenta); }
    put(b, "       ", Ghost(t));
    proof { t = t + "       "@; }
    write_joined(b, &kv.value, Ghost(t));
    proof { t = t + comma_joined(kv.value@); }
    put_reset(b, Ghost(t));
    assert(t + reset_code() =~= before + reference_text(*kv));
}

fn write_web(b: &mut termcolor::Buffer, web: &Option<Vec<Kv>>, Ghost(before): Ghost<Seq<char>>)
    requires
        shows(*old(b), before),
    ensures
        shows(*final(b), before + web_text(*web)),
{
    match web {
        Some(w) => {
            let ghost mut t = before;
            put_tint(b, Tint::Cyan, Ghost(t));
            proof { t = t + tint_code(Tint::Cyan); }
            put(b, "\n  Web Reference:", Ghost(t));
            proof { t = t + "\n  Web Reference:"@; }
            put_reset(b, Ghost(t));
            proof { t = t + reset_code(); }
            let ghost start = t;
            let mut i: usize = 0;
            assert(w@.subrange(0, 0) =~= Seq::<Kv>::empty());
            assert(start + references_text(w@.subrange(0, 0)) =~= start);
            while i < w.len()
                invariant
                    i <= w@.len(),
                    shows(*b, start + references_text(w@.subrange(0, i as int))),
                decreases w@.len() - i,
            {
                let ghost u = start + references_text(w@.subrange(0, i as int));
                write_reference(b, &w[i], Ghost(u));
                assert(w@.subrange(0, i + 1).drop_last() =~= w@.subrange(0, i as int));
                assert(u + reference_text(w@[i as int]) =~= start + references_text(
                    w@.subrange(0, i + 1),
                ));
                i = i + 1;
            }
            assert(w@.subrange(0, w@.len() as int) =~= w@);
            assert(start + references_text(w@) =~= before + web_text(*web));
        },
        None => {
            assert(before + web_text(*web) =~= before);
        },
    }
}

impl YdcvResp {
    /// Renders the answer as text with ANSI colors: the query underlined, its
    /// pronunciations in yellow, its translations, the explanations under a
    /// cyan heading, and the web references with their phrases in yellow and
    /// translations in magenta.
    pub fn colorized(&self) -> (r: String)
        ensures
            r@ == rendered(*self),
    {
        let mut f = ansi_buffer();
        assert(encode_utf8(Seq::<char>::empty()) == Seq::<u8>::empty());
        let ghost mut t = Seq::<char>::empty();
        put_tint(&mut f, Tint::Underline, Ghost(t));
        proof { t = t + tint_code(Tint::Underline); }
        put(&mut f, self.query.as_str(), Ghost(t));
        proof { t = t + self.query@; }
        put_reset(&mut f, Ghost(t));
        proof { t = t + reset_code(); }
        write_phonetic(&mut f, &self.basic.phonetic, Ghost(t));
        proof { t = t + phonetic_text(self.basic.phonetic); }
        write_translations(&mut f, &self.translation, Ghost(t));
        proof { t = t + translations_text(self.translation@); }
        put_tint(&mut f, Tint::Cyan, Ghost(t));
        proof { t = t + tint_code(Tint::Cyan); }
        put(&mut f, "\n  World Explanation:\n", Ghost(t));
        proof { t = t + "\n  World Explanation:\n"@; }
        put_reset(&mut f, Ghost(t));
        proof { t = t + reset_code(); }
        write_explains(&mut f, &self.basic.explains, Ghost(t));
        proof { t = t + explains_text(self.basic.explains@); }
        write_web(&mut f, &self.web, Ghost(t));
        proof { t = t + web_text(self.web); }
        assert(t =~= rendered(*self));
        let bytes = buffer_into_bytes(f);
        match utf8_to_string(bytes) {
            Some(s) => s,
            // the bytes encode the rendering, so they are valid UTF-8
            None => String::new(),
        }
    }
}

} // verus!
