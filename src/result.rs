//! Search results: one text chunk or one visual element of a document.

use vstd::prelude::*;
use crate::fit::{FitClass, GridSize, plan_fit, fit_spec, grid_text};
use crate::text::same_text;

verus! {

/// What an element carries besides its location.
pub struct ElementInfo {
    /// figure, table, equation, chart or diagram, as the service names it.
    pub element_type: Option<String>,
    pub element_label: Option<String>,
    /// The raw crop of the element from its page.
    pub crop_path: Option<String>,
    /// A clean rendering, meaningful for equations.
    pub rendered_path: Option<String>,
    pub image_width: Option<i32>,
    pub image_height: Option<i32>,
}

/// The part of a result that depends on its kind.
pub enum ResultBody {
    TextChunk { chunk_index: Option<i32> },
    Element(ElementInfo),
}

/// One result, in the order and with the content that the service gave.
pub struct SearchResult {
    pub id: i64,
    /// The relevance percentage as it is shown, already rounded.
    pub score_label: String,
    pub content: String,
    pub document_slug: String,
    pub document_title: String,
    pub page_number: i32,
    pub body: ResultBody,
}

/// A result record as the service sends it, every kind-specific field
/// optional.
pub struct RawResult {
    pub id: i64,
    pub score_label: String,
    pub content: String,
    pub source_type: String,
    pub document_slug: String,
    pub document_title: String,
    pub page_number: i32,
    pub element_type: Option<String>,
    pub element_label: Option<String>,
    pub crop_path: Option<String>,
    pub rendered_path: Option<String>,
    pub image_width: Option<i32>,
    pub image_height: Option<i32>,
    pub chunk_index: Option<i32>,
}

/// Terminal size assumed when none can be read: 120 columns by 40 rows.
pub open spec fn cells_or_default(term: Option<(u16, u16)>) -> (u16, u16) {
    match term {
        Some(t) => t,
        None => (120, 40),
    }
}

/// Relies on terminal_size::terminal_size: the width and height in cells of
/// the terminal on stdout, stderr or stdin, when one of them is a terminal.
#[verifier::external_body]
fn terminal_cells() -> (r: Option<(u16, u16)>) {
    terminal_size::terminal_size().map(|(w, h)| (w.0, h.0))
}

pub open spec fn is_element_record(raw: RawResult) -> bool {
    raw.source_type@ == "element"@
}

pub open spec fn has_type(t: Option<String>, name: Seq<char>) -> bool {
    t is Some && t->Some_0@ == name
}

pub open spec fn text_of(s: Option<String>) -> Option<Seq<char>> {
    match s {
        Some(x) => Some(x@),
        None => None,
    }
}

/// The image that shows a result best: for an equation its rendering when
/// there is one; otherwise the crop, or failing that the rendering. A text
/// chunk has none.
pub open spec fn best_image_spec(r: SearchResult) -> Option<Seq<char>> {
    match r.body {
        ResultBody::TextChunk { .. } => None,
        ResultBody::Element(e) => if has_type(e.element_type, "equation"@) && e.rendered_path is Some {
            text_of(e.rendered_path)
        } else if e.crop_path is Some {
            text_of(e.crop_path)
        } else {
            text_of(e.rendered_path)
        },
    }
}

/// The short tag that marks a result in a source list.
pub open spec fn source_tag_spec(r: SearchResult) -> Seq<char> {
    match r.body {
        ResultBody::TextChunk { .. } => "t"@,
        ResultBody::Element(e) => if has_type(e.element_type, "figure"@) {
            "f"@
        } else if has_type(e.element_type, "table"@) {
            "tb"@
        } else if has_type(e.element_type, "equation"@) {
            "eq"@
        } else if has_type(e.element_type, "chart"@) {
            "ch"@
        } else if has_type(e.element_type, "diagram"@) {
            "d"@
        } else {
            "e"@
        },
    }
}

pub open spec fn fit_class_spec(r: SearchResult) -> FitClass {
    match r.body {
        ResultBody::Element(e) => if has_type(e.element_type, "table"@) {
            FitClass::Table
        } else if has_type(e.element_type, "equation"@) {
            FitClass::Equation
        } else {
            FitClass::Other
        },
        _ => FitClass::Other,
    }
}

pub open spec fn image_size_spec(r: SearchResult) -> (Option<i32>, Option<i32>) {
    match r.body {
        ResultBody::Element(e) => (e.image_width, e.image_height),
        _ => (None, None),
    }
}

/// The renderer's size argument for `r`'s image in a terminal of size `term`.
pub open spec fn size_text_spec(r: SearchResult, term: Option<(u16, u16)>) -> Seq<char> {
    let (c, rw) = cells_or_default(term);
    let (w, h) = image_size_spec(r);
    let g = fit_spec(w, h, fit_class_spec(r), c as int, rw as int);
    grid_text(g.0, g.1)
}

/// How many of `results` are elements.
pub open spec fn element_count(results: Seq<SearchResult>) -> nat {
    results.filter(|r: SearchResult| r.body is Element).len()
}

/// Counts the elements among `results`.
pub fn count_elements(results: &Vec<SearchResult>) -> (r: usize)
    ensures
        r == element_count(results@),
{
    let mut k: usize = 0;
    let mut i: usize = 0;
    while i < results.len()
        invariant
            i <= results@.len(),
            k == element_count(results@.take(i as int)),
            k <= i,
        decreases results@.len() - i,
    {
        proof {
            reveal(Seq::filter);
        }
        assert(results@.take(i + 1).drop_last() =~= results@.take(i as int));
        if results[i].is_element() {
            k = k + 1;
        }
        i = i + 1;
    }
    assert(results@.take(i as int) =~= results@);
    k
}

/// Whether `t` names the element type `name`.
fn type_is(t: &Option<String>, name: &str) -> (r: bool)
    ensures
        r == has_type(*t, name@),
{
    match t {
        Some(s) => same_text(s.as_str(), name),
        None => false,
    }
}

fn copy_text(s: &Option<String>) -> (r: Option<String>)
    ensures
        r == *s,
{
    match s {
        Some(x) => Some(x.clone()),
        None => None,
    }
}

impl SearchResult {
    /// Builds a result from a record: an element where the record says
    /// `element`, a text chunk otherwise. Nothing is reordered or dropped.
    pub fn from_raw(raw: RawResult) -> (r: SearchResult)
        ensures
            r.id == raw.id,
            r.score_label == raw.score_label,
            r.content == raw.content,
            r.document_slug == raw.document_slug,
            r.document_title == raw.document_title,
            r.page_number == raw.page_number,
            is_element_record(raw) ==> r.body == ResultBody::Element(
                ElementInfo {
                    element_type: raw.element_type,
                    element_label: raw.element_label,
                    crop_path: raw.crop_path,
                    rendered_path: raw.rendered_path,
                    image_width: raw.image_width,
                    image_height: raw.image_height,
                },
            ),
            !is_element_record(raw) ==> r.body == (ResultBody::TextChunk { chunk_index: raw.chunk_index }),
    {
        let element = same_text(raw.source_type.as_str(), "element");
        let body = if element {
            ResultBody::Element(
                ElementInfo {
                    element_type: raw.element_type,
                    element_label: raw.element_label,
                    crop_path: raw.crop_path,
                    rendered_path: raw.rendered_path,
                    image_width: raw.image_width,
                    image_height: raw.image_height,
                },
            )
        } else {
            ResultBody::TextChunk { chunk_index: raw.chunk_index }
        };
        SearchResult {
            id: raw.id,
            score_label: raw.score_label,
            content: raw.content,
            document_slug: raw.document_slug,
            document_title: raw.document_title,
            page_number: raw.page_number,
            body,
        }
    }

    pub open spec fn is_element_spec(&self) -> bool {
        self.body is Element
    }

    /// Whether this result is a visual element.
    pub fn is_element(&self) -> (r: bool)
        ensures
            r == self.is_element_spec(),
    {
        match &self.body {
            ResultBody::Element(_) => true,
            _ => false,
        }
    }

    /// The element's type, for an element that has one.
    pub fn element_type(&self) -> (r: Option<String>)
        ensures
            r == (match self.body {
                ResultBody::Element(e) => e.element_type,
                _ => None,
            }),
    {
        match &self.body {
            ResultBody::Element(e) => copy_text(&e.element_type),
            _ => None,
        }
    }

    /// The element's label, for an element that has one.
    pub fn element_label(&self) -> (r: Option<String>)
        ensures
            r == (match self.body {
                ResultBody::Element(e) => e.element_label,
                _ => None,
            }),
    {
        match &self.body {
            ResultBody::Element(e) => copy_text(&e.element_label),
            _ => None,
        }
    }

    /// The chunk's position in its document, for a text chunk that has one.
    pub fn chunk_index(&self) -> (r: Option<i32>)
        ensures
            r == (match self.body {
                ResultBody::TextChunk { chunk_index } => chunk_index,
                _ => None,
            }),
    {
        match &self.body {
            ResultBody::TextChunk { chunk_index } => *chunk_index,
            _ => None,
        }
    }

    /// The image that shows this result best, if any.
    pub fn best_image_path(&self) -> (r: Option<String>)
        ensures
            text_of(r) == best_image_spec(*self),
            !self.is_element_spec() ==> r is None,
            (self.body matches ResultBody::Element(e) && has_type(e.element_type, "equation"@)
                && e.rendered_path is Some) ==> r == (match self.body {
                ResultBody::Element(e) => e.rendered_path,
                _ => None,
            }),
    {
        match &self.body {
            ResultBody::TextChunk { .. } => None,
            ResultBody::Element(e) => {
                if type_is(&e.element_type, "equation") && e.rendered_path.is_some() {
                    copy_text(&e.rendered_path)
                } else if e.crop_path.is_some() {
                    copy_text(&e.crop_path)
                } else {
                    copy_text(&e.rendered_path)
                }
            },
        }
    }

    /// The tag that marks this result in a source list: `t` for text, and
    /// `f`, `tb`, `eq`, `ch`, `d` or `e` by element type.
    pub fn source_tag(&self) -> (r: &'static str)
        ensures
            r@ == source_tag_spec(*self),
    {
        match &self.body {
            ResultBody::TextChunk { .. } => "t",
            ResultBody::Element(e) => {
                if type_is(&e.element_type, "figure") {
                    "f"
                } else if type_is(&e.element_type, "table") {
                    "tb"
                } else if type_is(&e.element_type, "equation") {
                    "eq"
                } else if type_is(&e.element_type, "chart") {
                    "ch"
                } else if type_is(&e.element_type, "diagram") {
                    "d"
                } else {
                    "e"
                }
            },
        }
    }

    /// The row floor class of this result's image.
    pub fn fit_class(&self) -> (r: FitClass)
        ensures
            r == fit_class_spec(*self),
    {
        match &self.body {
            ResultBody::Element(e) => {
                if type_is(&e.element_type, "table") {
                    FitClass::Table
                } else if type_is(&e.element_type, "equation") {
                    FitClass::Equation
                } else {
                    FitClass::Other
                }
            },
            _ => FitClass::Other,
        }
    }

    /// The grid size for this result's image in a terminal of the given size.
    pub fn fit_in(&self, term_cols: u16, term_rows: u16) -> (r: GridSize)
        ensures
            (r.cols as int, r.rows as int) == fit_spec(
                image_size_spec(*self).0,
                image_size_spec(*self).1,
                fit_class_spec(*self),
                term_cols as int,
                term_rows as int,
            ),
    {
        let (w, h) = match &self.body {
            ResultBody::Element(e) => (e.image_width, e.image_height),
            _ => (None, None),
        };
        plan_fit(w, h, self.fit_class(), term_cols, term_rows)
    }

    /// The renderer's size argument for this result's image, in a terminal of
    /// size `term` (columns, rows), or 120 by 40 where that is unknown.
    pub fn size_for_terminal(&self, term: Option<(u16, u16)>) -> (r: String)
        ensures
            r@ == size_text_spec(*self, term),
    {
        let (c, rw) = match term {
            Some(t) => t,
            None => (120u16, 40u16),
        };
        self.fit_in(c, rw).size_text()
    }

    /// The renderer's size argument for this result's image in the terminal
    /// this process writes to.
    pub fn chafa_size(&self) -> (r: String)
        ensures
            exists|term: Option<(u16, u16)>| r@ == #[trigger] size_text_spec(*self, term),
    {
        let term = terminal_cells();
        self.size_for_terminal(term)
    }
}

} // verus!
