use vstd::prelude::*;

verus! {

/// A style of `ansi_term` that the description paints text with.
pub enum Paint {
    Yellow,
    Purple,
    Underline,
}

/// The ANSI sequence that `ansi_term` writes before text in a style.
pub open spec fn paint_prefix(p: Paint) -> Seq<char> {
    match p {
        Paint::Yellow => seq!['\x1B', '[', '3', '3', 'm'],
        Paint::Purple => seq!['\x1B', '[', '3', '5', 'm'],
        Paint::Underline => seq!['\x1B', '[', '4', 'm'],
    }
}

/// The ANSI sequence that `ansi_term` writes after text in a style.
pub open spec fn paint_suffix() -> Seq<char> {
    seq!['\x1B', '[', '0', 'm']
}

/// Text painted in a style.
pub open spec fn painted(p: Paint, text: Seq<char>) -> Seq<char> {
    paint_prefix(p) + text + paint_suffix()
}

/// Relies on `ansi_term`'s `paint` and the `Display` of the painted string:
/// the style's prefix, the text, then the reset sequence.
#[verifier::external_body]
fn paint(p: Paint, text: &str) -> (r: String)
    ensures
        r@ == painted(p, text@),
{
    let style = match p {
        Paint::Yellow => ansi_term::Colour::Yellow.normal(),
        Paint::Purple => ansi_term::Colour::Purple.normal(),
        Paint::Underline => ansi_term::Style::new().underline(),
    };
    format!("{}", style.paint(text))
}

/// A color given by its red, green and blue parts.
#[derive(Clone, Copy, Debug, PartialEq, Eq, Structural)]
pub struct Rgb {
    pub r: u8,
    pub g: u8,
    pub b: u8,
}

/// The dictionary part of an entry.
pub struct Basic {
    pub explains: Vec<String>,
    pub uk_phonetic: Option<String>,
    pub us_phonetic: Option<String>,
}

/// One web reference: a phrase and its translations.
pub struct Reference {
    pub key: String,
    pub contents: Vec<String>,
}

/// An entry of the remote service, each part of which may be missing.
pub struct Translation {
    pub translation: Option<Vec<String>>,
    pub query: String,
    pub basic: Option<Basic>,
    pub web: Option<Vec<Reference>>,
}

/// An entry that can describe itself as colored text.
pub trait YDCVFormatter {
    /// The description as text.
    spec fn description(&self) -> Seq<char>;

    /// The color of headings.
    fn head_color(&self) -> Rgb {
        Rgb { r: 26, g: 159, b: 160 }
    }

    /// The color of pronunciations.
    fn phonetic_color(&self) -> Rgb {
        Rgb { r: 220, g: 186, b: 40 }
    }

    /// The color of web references.
    fn reference_color(&self) -> Rgb {
        Rgb { r: 138, g: 88, b: 164 }
    }

    /// Describes the entry.
    fn translation_description(&self) -> (r: String)
        ensures
            r@ == self.description(),
    ;
}

/// The items with `; ` between each two.
pub open spec fn joined(items: Seq<String>) -> Seq<char>
    decreases items.len(),
{
    if items.len() == 0 {
        Seq::empty()
    } else if items.len() == 1 {
        items[0]@
    } else {
        joined(items.drop_last()) + "; "@ + items.last()@
    }
}

/// The items on one line, separated by `; `; nothing for no items.
pub open spec fn line_of(items: Seq<String>) -> Seq<char> {
    if items.len() == 0 {
        Seq::empty()
    } else {
        joined(items) + "\n"@
    }
}

/// The yellow star that starts each bullet.
pub open spec fn star() -> Seq<char> {
    painted(Paint::Yellow, "*"@)
}

/// The heading with the query and its translations, where there are any.
pub open spec fn header_text(t: Translation) -> Seq<char> {
    match t.translation {
        Some(items) => painted(Paint::Underline, t.query@) + "\n  "@ + painted(
            Paint::Purple,
            "Translation:"@,
        ) + "\n\t"@ + star() + " "@ + line_of(items@),
        None => Seq::empty(),
    }
}

/// The pronunciations: British first, then American on the same line.
pub open spec fn sounds_text(uk: Option<String>, us: Option<String>) -> Seq<char> {
    match uk {
        Some(k) => "\tUK: ["@ + painted(Paint::Underline, k@) + "]"@ + match us {
            Some(s) => " US: ["@ + painted(Paint::Underline, s@) + "]\n"@,
            None => Seq::empty(),
        },
        None => match us {
            Some(s) => "\tUS: ["@ + painted(Paint::Underline, s@) + "]\n"@,
            None => Seq::empty(),
        },
    }
}

/// Each explanation as a starred line.
pub open spec fn starred_lines(items: Seq<String>) -> Seq<char>
    decreases items.len(),
{
    if items.len() == 0 {
        Seq::empty()
    } else {
        starred_lines(items.drop_last()) + "\t"@ + star() + " "@ + items.last()@ + "\n"@
    }
}

/// The explanation part, where there is one.
pub open spec fn basic_text(b: Option<Basic>) -> Seq<char> {
    match b {
        Some(b) => "  "@ + painted(Paint::Purple, "Word Explanation"@) + "\n"@ + sounds_text(
            b.uk_phonetic,
            b.us_phonetic,
        ) + starred_lines(b.explains@),
        None => Seq::empty(),
    }
}

/// Each web reference: a starred phrase, then its translations on the
/// next line.
pub open spec fn references_text(items: Seq<Reference>) -> Seq<char>
    decreases items.len(),
{
    if items.len() == 0 {
        Seq::empty()
    } else {
        references_text(items.drop_last()) + "\t"@ + star() + " "@ + items.last().key@
            + "\n\t  "@ + line_of(items.last().contents@)
    }
}

/// The web reference part, where there is one.
pub open spec fn web_text(web: Option<Vec<Reference>>) -> Seq<char> {
    match web {
        Some(w) => "  "@ + painted(Paint::Purple, "Web Reference:"@) + "\n"@ + references_text(w@),
        None => Seq::empty(),
    }
}

/// The link to the online dictionary for the query.
pub open spec fn online_text(query: Seq<char>) -> Seq<char> {
    "\n  "@ + painted(Paint::Purple, "Online Resource:"@) + "\n\t*  "@ + painted(
        Paint::Underline,
        "http://www.ldoceonline.com/search/?q="@,
    ) + painted(Paint::Underline, query) + "\n"@
}

/// The whole description: the parts that are present, a blank line after
/// the heading and before the web references, and the online link last.
pub open spec fn described(t: Translation) -> Seq<char> {
    header_text(t) + (if t.translation is Some {
        "\n"@
    } else {
        Seq::empty()
    }) + basic_text(t.basic) + (if t.web is Some {
        "\n"@
    } else {
        Seq::empty()
    }) + web_text(t.web) + online_text(t.query@)
}

/// Appends the items on one line, separated by `; `.
fn push_line(out: &mut String, items: &Vec<String>)
    ensures
        final(out)@ == old(out)@ + line_of(items@),
{
    let ghost start = out@;
    let n = items.len();
    let mut i: usize = 0;
    while i < n
        invariant
            n == items@.len(),
            i <= n,
            i == 0 ==> out@ == start,
            0 < i < n ==> out@ == start + joined(items@.subrange(0, i as int)) + "; "@,
            i == n && n > 0 ==> out@ == start + joined(items@.subrange(0, i as int)) + "\n"@,
        decreases n - i,
    {
        let ghost before = out@;
        out.append(items[i].as_str());
        if i == n - 1 {
            out.append("\n");
        } else {
            out.append("; ");
        }
        proof {
            let sub = items@.subrange(0, i + 1);
            assert(sub.drop_last() =~= items@.subrange(0, i as int));
            if i == 0 {
                assert(joined(sub) == items@[0]@);
            } else {
                assert(joined(sub) == joined(items@.subrange(0, i as int)) + "; "@ + items@[i as int]@);
            }
            assert(before + items@[i as int]@ =~= start + joined(sub));
        }
        i = i + 1;
    }
    assert(items@.subrange(0, n as int) =~= items@);
    if n == 0 {
        assert(out@ =~= start + line_of(items@));
    } else {
        assert(out@ =~= start + line_of(items@));
    }
}

impl YDCVFormatter for Translation {
    open spec fn description(&self) -> Seq<char> {
        described(*self)
    }

    fn translation_description(&self) -> (r: String) {
        let mut header = String::new();
        if let Some(translations) = &self.translation {
            header.append(paint(Paint::Underline, self.query.as_str()).as_str());
            header.append("\n  ");
            header.append(paint(Paint::Purple, "Translation:").as_str());
            header.append("\n\t");
            header.append(paint(Paint::Yellow, "*").as_str());
            header.append(" ");
            push_line(&mut header, translations);
        }
        assert(header@ =~= header_text(*self));

        let mut basic_str = String::new();
        if let Some(b) = &self.basic {
            basic_str.append("  ");
            basic_str.append(paint(Paint::Purple, "Word Explanation").as_str());
            basic_str.append("\n");
            if let Some(uk) = &b.uk_phonetic {
                basic_str.append("\tUK: [");
                basic_str.append(paint(Paint::Underline, uk.as_str()).as_str());
                basic_str.append("]");
                if let Some(us) = &b.us_phonetic {
                    basic_str.append(" US: [");
                    basic_str.append(paint(Paint::Underline, us.as_str()).as_str());
                    basic_str.append("]\n");
                }
            } else {
                if let Some(us) = &b.us_phonetic {
                    basic_str.append("\tUS: [");
                    basic_str.append(paint(Paint::Underline, us.as_str()).as_str());
                    basic_str.append("]\n");
                }
            }
            let ghost start = basic_str@;
            let mut i: usize = 0;
            assert(b.explains@.subrange(0, 0) =~= Seq::<String>::empty());
            while i < b.explains.len()
                invariant
                    i <= b.explains@.len(),
                    basic_str@ == start + starred_lines(b.explains@.subrange(0, i as int)),
                decreases b.explains@.len() - i,
            {
                let ghost before = basic_str@;
                basic_str.append("\t");
                basic_str.append(paint(Paint::Yellow, "*").as_str());
                basic_str.append(" ");
                basic_str.append(b.explains[i].as_str());
                basic_str.append("\n");
                assert(b.explains@.subrange(0, i + 1).drop_last() =~= b.explains@.subrange(
                    0,
                    i as int,
                ));
                assert(basic_str@ =~= start + starred_lines(b.explains@.subrange(0, i + 1)));
                i = i + 1;
            }
            assert(b.explains@.subrange(0, b.explains@.len() as int) =~= b.explains@);
        }
        assert(basic_str@ =~= basic_text(self.basic));

        let mut reference_str = String::new();
        if let Some(web_ref) = &self.web {
            reference_str.append("  ");
            reference_str.append(paint(Paint::Purple, "Web Reference:").as_str());
            reference_str.append("\n");
            let ghost start = reference_str@;
            let mut i: usize = 0;
            assert(web_ref@.subrange(0, 0) =~= Seq::<Reference>::empty());
            while i < web_ref.len()
                invariant
                    i <= web_ref@.len(),
                    reference_str@ == start + references_text(web_ref@.subrange(0, i as int)),
                decreases web_ref@.len() - i,
            {
                let web = &web_ref[i];
                reference_str.append("\t");
                reference_str.append(paint(Paint::Yellow, "*").as_str());
                reference_str.append(" ");
                reference_str.append(web.key.as_str());
                reference_str.append("\n\t  ");
                push_line(&mut reference_str, &web.contents);
                assert(web_ref@.subrange(0, i + 1).drop_last() =~= web_ref@.subrange(0, i as int));
                assert(reference_str@ =~= start + references_text(web_ref@.subrange(0, i + 1)));
                i = i + 1;
            }
            assert(web_ref@.subrange(0, web_ref@.len() as int) =~= web_ref@);
        }
        assert(reference_str@ =~= web_text(self.web));

        let mut online_str = String::new();
        online_str.append("\n  ");
        online_str.append(paint(Paint::Purple, "Online Resource:").as_str());
        online_str.append("\n\t*  ");
        online_str.append(paint(Paint::Underline, "http://www.ldoceonline.com/search/?q=").as_str());
        online_str.append(paint(Paint::Underline, self.query.as_str()).as_str());
        online_str.append("\n");

        if self.translation.is_some() {
            header.append("\n");
        }
        header.append(basic_str.as_str());
        if self.web.is_some() {
            header.append("\n");
        }
        header.append(reference_str.as_str());
        header.append(online_str.as_str());
        assert(header@ =~= described(*self));
        header
    }
}

} // verus!
