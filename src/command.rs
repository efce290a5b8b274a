//! One line of user input, read as a command.
//!
//! Keywords are matched without regard to ASCII case; arguments keep the
//! case they were typed in. The first rule that matches wins.

use vstd::prelude::*;
use crate::text::{
    chars_of, numeral_value, parse_numeral, starts_with_at, starts_with_word, token_spans, tokens, trim,
    trim_range, word_at, word_eq,
};

verus! {

/// Which kind of element a browsing command lists.
#[derive(Clone, Copy, Debug, PartialEq, Eq, Structural)]
pub enum ElementGroup {
    Figures,
    Tables,
    Equations,
}

/// The page that a page command names.
pub enum PageRef {
    /// A page of the document that is selected now.
    Current(i32),
    /// A page of the named document.
    InDocument(String, i32),
    /// An argument that names no page.
    Malformed,
}

/// The document that `doc` names.
pub enum DocRef {
    /// A 1-based position in the document list page shown last.
    Index(usize),
    Slug(String),
}

pub enum Command {
    Blank,
    Quit,
    Help,
    Sources,
    ShowPage(PageRef),
    OpenPage(PageRef),
    /// Show results by index; the argument is the list of indices as typed.
    Show(String),
    /// Open results by index; the argument is the list of indices as typed.
    Open(String),
    ViewPage(PageRef),
    Docs,
    Next,
    Prev,
    SelectDoc(DocRef),
    /// List elements of one kind on the page in view, or in the document.
    Elements(ElementGroup),
    /// List elements of one kind in the whole selected document.
    AllElements(ElementGroup),
    Search(String),
    Ask(String),
}

pub ghost enum PageRefView {
    Current(int),
    InDocument(Seq<char>, int),
    Malformed,
}

pub ghost enum DocRefView {
    Index(nat),
    Slug(Seq<char>),
}

pub ghost enum CommandView {
    Blank,
    Quit,
    Help,
    Sources,
    ShowPage(PageRefView),
    OpenPage(PageRefView),
    Show(Seq<char>),
    Open(Seq<char>),
    ViewPage(PageRefView),
    Docs,
    Next,
    Prev,
    SelectDoc(DocRefView),
    Elements(ElementGroup),
    AllElements(ElementGroup),
    Search(Seq<char>),
    Ask(Seq<char>),
}

impl View for PageRef {
    type V = PageRefView;

    open spec fn view(&self) -> PageRefView {
        match self {
            PageRef::Current(n) => PageRefView::Current(*n as int),
            PageRef::InDocument(s, n) => PageRefView::InDocument(s@, *n as int),
            PageRef::Malformed => PageRefView::Malformed,
        }
    }
}

impl View for DocRef {
    type V = DocRefView;

    open spec fn view(&self) -> DocRefView {
        match self {
            DocRef::Index(n) => DocRefView::Index(*n as nat),
            DocRef::Slug(s) => DocRefView::Slug(s@),
        }
    }
}

impl View for Command {
    type V = CommandView;

    open spec fn view(&self) -> CommandView {
        match self {
            Command::Blank => CommandView::Blank,
            Command::Quit => CommandView::Quit,
            Command::Help => CommandView::Help,
            Command::Sources => CommandView::Sources,
            Command::ShowPage(p) => CommandView::ShowPage(p@),
            Command::OpenPage(p) => CommandView::OpenPage(p@),
            Command::Show(a) => CommandView::Show(a@),
            Command::Open(a) => CommandView::Open(a@),
            Command::ViewPage(p) => CommandView::ViewPage(p@),
            Command::Docs => CommandView::Docs,
            Command::Next => CommandView::Next,
            Command::Prev => CommandView::Prev,
            Command::SelectDoc(d) => CommandView::SelectDoc(d@),
            Command::Elements(g) => CommandView::Elements(*g),
            Command::AllElements(g) => CommandView::AllElements(*g),
            Command::Search(q) => CommandView::Search(q@),
            Command::Ask(q) => CommandView::Ask(q@),
        }
    }
}

/// A page number as typed: a numeral from 1 to `i32::MAX`.
pub open spec fn page_number_value(s: Seq<char>) -> Option<int> {
    match numeral_value(s) {
        Some(n) => if 1 <= n <= i32::MAX {
            Some(n as int)
        } else {
            None
        },
        None => None,
    }
}

/// The page named by the argument of a page command: `N`, or `slug N`.
pub open spec fn page_ref_spec(a: Seq<char>) -> PageRefView {
    let toks = tokens(a, false);
    if toks.len() == 1 {
        match page_number_value(toks[0]) {
            Some(n) => PageRefView::Current(n),
            None => PageRefView::Malformed,
        }
    } else if toks.len() == 2 {
        match page_number_value(toks[1]) {
            Some(n) => PageRefView::InDocument(toks[0], n),
            None => PageRefView::Malformed,
        }
    } else {
        PageRefView::Malformed
    }
}

/// The document named by the argument of `doc`: a position where it is a
/// numeral that fits a `usize`, a slug otherwise.
pub open spec fn doc_ref_spec(a: Seq<char>) -> DocRefView {
    match numeral_value(a) {
        Some(n) => if n <= usize::MAX {
            DocRefView::Index(n)
        } else {
            DocRefView::Slug(a)
        },
        None => DocRefView::Slug(a),
    }
}

/// The command that a line of input stands for.
pub open spec fn parse_spec(line: Seq<char>) -> CommandView {
    let t = trim(line);
    if t.len() == 0 {
        CommandView::Blank
    } else if word_eq(t, "quit"@) || word_eq(t, "exit"@) || word_eq(t, "q"@) {
        CommandView::Quit
    } else if word_eq(t, "help"@) || word_eq(t, "?"@) {
        CommandView::Help
    } else if word_eq(t, "sources"@) {
        CommandView::Sources
    } else if starts_with_word(t, "show "@) {
        let a = trim(t.skip(5));
        if starts_with_word(a, "page "@) {
            CommandView::ShowPage(page_ref_spec(trim(a.skip(5))))
        } else {
            CommandView::Show(a)
        }
    } else if starts_with_word(t, "open "@) {
        let a = trim(t.skip(5));
        if starts_with_word(a, "page "@) {
            CommandView::OpenPage(page_ref_spec(trim(a.skip(5))))
        } else {
            CommandView::Open(a)
        }
    } else if starts_with_word(t, "page "@) {
        CommandView::ViewPage(page_ref_spec(trim(t.skip(5))))
    } else if word_eq(t, "docs"@) {
        CommandView::Docs
    } else if word_eq(t, "next"@) || word_eq(t, "n"@) {
        CommandView::Next
    } else if word_eq(t, "prev"@) || word_eq(t, "p"@) {
        CommandView::Prev
    } else if starts_with_word(t, "doc "@) {
        CommandView::SelectDoc(doc_ref_spec(trim(t.skip(4))))
    } else if word_eq(t, "figures"@) {
        CommandView::Elements(ElementGroup::Figures)
    } else if word_eq(t, "tables"@) {
        CommandView::Elements(ElementGroup::Tables)
    } else if word_eq(t, "equations"@) {
        CommandView::Elements(ElementGroup::Equations)
    } else if word_eq(t, "figures all"@) {
        CommandView::AllElements(ElementGroup::Figures)
    } else if word_eq(t, "tables all"@) {
        CommandView::AllElements(ElementGroup::Tables)
    } else if word_eq(t, "equations all"@) {
        CommandView::AllElements(ElementGroup::Equations)
    } else if starts_with_word(t, "search "@) {
        CommandView::Search(trim(t.skip(7)))
    } else {
        CommandView::Ask(t)
    }
}

/// The characters `lo..hi` of `line`, whose characters are `v`.
fn text_at(line: &str, v: &Vec<char>, lo: usize, hi: usize) -> (r: String)
    requires
        v@ == line@,
        lo <= hi <= v@.len(),
    ensures
        r@ == v@.subrange(lo as int, hi as int),
{
    line.substring_char(lo, hi).to_owned()
}

/// A page number read from `v[lo..hi]`.
fn page_number_at(v: &Vec<char>, lo: usize, hi: usize) -> (r: Option<i32>)
    requires
        lo <= hi <= v@.len(),
    ensures
        r is Some <==> page_number_value(v@.subrange(lo as int, hi as int)) is Some,
        r is Some ==> r->Some_0 == page_number_value(v@.subrange(lo as int, hi as int))->Some_0,
{
    match parse_numeral(v, lo, hi, 0x7fff_ffff) {
        Some(n) => if n >= 1 {
            Some(n as i32)
        } else {
            None
        },
        None => None,
    }
}

/// The page named by `v[lo..hi]`.
fn page_ref_at(line: &str, v: &Vec<char>, lo: usize, hi: usize) -> (r: PageRef)
    requires
        v@ == line@,
        lo <= hi <= v@.len(),
    ensures
        r@ == page_ref_spec(v@.subrange(lo as int, hi as int)),
{
    let spans = token_spans(v, lo, hi, false);
    let ghost toks = tokens(v@.subrange(lo as int, hi as int), false);
    assert(toks.len() == spans@.len());
    if spans.len() == 1 {
        let (a, b) = spans[0];
        assert(toks[0] == v@.subrange(a as int, b as int));
        match page_number_at(v, a, b) {
            Some(n) => PageRef::Current(n),
            None => PageRef::Malformed,
        }
    } else if spans.len() == 2 {
        let (a, b) = spans[0];
        let (c, d) = spans[1];
        assert(toks[0] == v@.subrange(a as int, b as int));
        assert(toks[1] == v@.subrange(c as int, d as int));
        match page_number_at(v, c, d) {
            Some(n) => PageRef::InDocument(text_at(line, v, a, b), n),
            None => PageRef::Malformed,
        }
    } else {
        PageRef::Malformed
    }
}

/// The document named by `v[lo..hi]`.
fn doc_ref_at(line: &str, v: &Vec<char>, lo: usize, hi: usize) -> (r: DocRef)
    requires
        v@ == line@,
        lo <= hi <= v@.len(),
    ensures
        r@ == doc_ref_spec(v@.subrange(lo as int, hi as int)),
{
    match parse_numeral(v, lo, hi, usize::MAX as u64) {
        Some(n) => DocRef::Index(n as usize),
        None => DocRef::Slug(text_at(line, v, lo, hi)),
    }
}

proof fn lemma_skip_subrange(v: Seq<char>, a: int, b: int, k: int)
    requires
        0 <= a,
        a + k <= b <= v.len(),
        0 <= k,
    ensures
        v.subrange(a, b).skip(k) == v.subrange(a + k, b),
{
    assert(v.subrange(a, b).skip(k) =~= v.subrange(a + k, b));
}

/// Reads one line of input as a command.
pub fn parse_command(line: &str) -> (r: Command)
    ensures
        r@ == parse_spec(line@),
{
    let v = chars_of(line);
    let n = v.len();
    let (a, b) = trim_range(&v, 0, n);
    assert(v@.subrange(0, n as int) =~= line@);
    let ghost t = v@.subrange(a as int, b as int);
    if a == b {
        return Command::Blank;
    }
    if word_at(&v, a, b, "quit") || word_at(&v, a, b, "exit") || word_at(&v, a, b, "q") {
        return Command::Quit;
    }
    if word_at(&v, a, b, "help") || word_at(&v, a, b, "?") {
        return Command::Help;
    }
    if word_at(&v, a, b, "sources") {
        return Command::Sources;
    }
    let show = starts_with_at(&v, a, b, "show ");
    let open = !show && starts_with_at(&v, a, b, "open ");
    if show || open {
        proof {
            reveal_strlit("show ");
            reveal_strlit("open ");
            lemma_skip_subrange(v@, a as int, b as int, 5);
        }
        let (c, d) = trim_range(&v, a + 5, b);
        if starts_with_at(&v, c, d, "page ") {
            proof {
                reveal_strlit("page ");
                lemma_skip_subrange(v@, c as int, d as int, 5);
            }
            let (e, f) = trim_range(&v, c + 5, d);
            let p = page_ref_at(line, &v, e, f);
            return if show {
                Command::ShowPage(p)
            } else {
                Command::OpenPage(p)
            };
        }
        let arg = text_at(line, &v, c, d);
        return if show {
            Command::Show(arg)
        } else {
            Command::Open(arg)
        };
    }
    if starts_with_at(&v, a, b, "page ") {
        proof {
            reveal_strlit("page ");
            lemma_skip_subrange(v@, a as int, b as int, 5);
        }
        let (c, d) = trim_range(&v, a + 5, b);
        return Command::ViewPage(page_ref_at(line, &v, c, d));
    }
    if word_at(&v, a, b, "docs") {
        return Command::Docs;
    }
    if word_at(&v, a, b, "next") || word_at(&v, a, b, "n") {
        return Command::Next;
    }
    if word_at(&v, a, b, "prev") || word_at(&v, a, b, "p") {
        return Command::Prev;
    }
    if starts_with_at(&v, a, b, "doc ") {
        proof {
            reveal_strlit("doc ");
            lemma_skip_subrange(v@, a as int, b as int, 4);
        }
        let (c, d) = trim_range(&v, a + 4, b);
        return Command::SelectDoc(doc_ref_at(line, &v, c, d));
    }
    if word_at(&v, a, b, "figures") {
        return Command::Elements(ElementGroup::Figures);
    }
    if word_at(&v, a, b, "tables") {
        return Command::Elements(ElementGroup::Tables);
    }
    if word_at(&v, a, b, "equations") {
        return Command::Elements(ElementGroup::Equations);
    }
    if word_at(&v, a, b, "figures all") {
        return Command::AllElements(ElementGroup::Figures);
    }
    if word_at(&v, a, b, "tables all") {
        return Command::AllElements(ElementGroup::Tables);
    }
    if word_at(&v, a, b, "equations all") {
        return Command::AllElements(ElementGroup::Equations);
    }
    if starts_with_at(&v, a, b, "search ") {
        proof {
            reveal_strlit("search ");
            lemma_skip_subrange(v@, a as int, b as int, 7);
        }
        let (c, d) = trim_range(&v, a + 7, b);
        return Command::Search(text_at(line, &v, c, d));
    }
    Command::Ask(text_at(line, &v, a, b))
}

} // verus!
