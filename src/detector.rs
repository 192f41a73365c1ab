use vstd::prelude::*;

verus! {

/// The view of an optional text.
pub open spec fn text_view(t: Option<String>) -> Option<Seq<char>> {
    match t {
        Some(s) => Some(s@),
        None => None,
    }
}

/// The mathematical value of a [`ChangeDetector`]: what was last observed of
/// each source.
pub ghost struct DetectorView {
    pub last_copy: Option<Seq<char>>,
    pub last_selection: Option<Seq<char>>,
}

/// What a poll reports: the copy source's content where it changed and is
/// present, else the selection source's content where that changed and is
/// present, else nothing.
pub open spec fn poll_report(
    d: DetectorView,
    copy_text: Option<Seq<char>>,
    selection_text: Option<Seq<char>>,
) -> Option<Seq<char>> {
    if copy_text != d.last_copy && copy_text is Some {
        copy_text
    } else if selection_text != d.last_selection && selection_text is Some {
        selection_text
    } else {
        None
    }
}

/// The state after a poll: each source's last observation is what it just
/// showed (a source that did not change already held it).
pub open spec fn poll_state(
    d: DetectorView,
    copy_text: Option<Seq<char>>,
    selection_text: Option<Seq<char>>,
) -> DetectorView {
    DetectorView { last_copy: copy_text, last_selection: selection_text }
}

/// Tracks the last content seen on the copy buffer and on the selection
/// buffer, and reports content only when it differs from what was last seen
/// on its source.
#[derive(Debug)]
pub struct ChangeDetector {
    pub last_copy: Option<String>,
    pub last_selection: Option<String>,
}

impl View for ChangeDetector {
    type V = DetectorView;

    open spec fn view(&self) -> DetectorView {
        DetectorView {
            last_copy: text_view(self.last_copy),
            last_selection: text_view(self.last_selection),
        }
    }
}

/// Whether two optional texts are equal.
fn same_text(a: &Option<String>, b: &Option<String>) -> (r: bool)
    ensures
        r == (text_view(*a) == text_view(*b)),
{
    match (a, b) {
        (Some(x), Some(y)) => *x == *y,
        (None, None) => true,
        _ => false,
    }
}

/// A copy of an optional text.
fn copy_text_of(t: &Option<String>) -> (r: Option<String>)
    ensures
        text_view(r) == text_view(*t),
{
    match t {
        Some(s) => Some(s.clone()),
        None => None,
    }
}

impl ChangeDetector {
    /// A detector that has seen nothing yet.
    pub fn new() -> (d: ChangeDetector)
        ensures
            d@ == (DetectorView { last_copy: None, last_selection: None }),
    {
        ChangeDetector { last_copy: None, last_selection: None }
    }

    /// Observes both sources, records each one that changed, and reports
    /// the new content, the copy source first.
    pub fn poll(&mut self, copy_text: Option<String>, selection_text: Option<String>) -> (r:
        Option<String>)
        ensures
            text_view(r) == poll_report(old(self)@, text_view(copy_text), text_view(selection_text)),
            final(self)@ == poll_state(old(self)@, text_view(copy_text), text_view(selection_text)),
    {
        let mut copy_candidate: Option<String> = None;
        if !same_text(&copy_text, &self.last_copy) {
            copy_candidate = copy_text_of(&copy_text);
            self.last_copy = copy_text;
        }
        let mut selection_candidate: Option<String> = None;
        if !same_text(&selection_text, &self.last_selection) {
            selection_candidate = copy_text_of(&selection_text);
            self.last_selection = selection_text;
        }
        if copy_candidate.is_some() {
            copy_candidate
        } else {
            selection_candidate
        }
    }
}

/// Polling twice with the same contents reports nothing the second time.
pub proof fn lemma_poll_no_repeat(
    d: DetectorView,
    copy_text: Option<Seq<char>>,
    selection_text: Option<Seq<char>>,
)
    ensures
        poll_report(poll_state(d, copy_text, selection_text), copy_text, selection_text) is None,
{
}

/// When both sources changed to present content in one poll, the copy
/// source is reported.
pub proof fn lemma_copy_wins(
    d: DetectorView,
    copy_text: Seq<char>,
    selection_text: Seq<char>,
)
    requires
        d.last_copy != Some(copy_text),
        d.last_selection != Some(selection_text),
    ensures
        poll_report(d, Some(copy_text), Some(selection_text)) == Some(copy_text),
{
}

} // verus!
