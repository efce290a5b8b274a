//! The state of one interactive session, and how each command is decided
//! against it.
//!
//! Deciding never changes the state: `plan` reads the session and says what
//! to do. The caller does it, and on success hands the outcome back through
//! one of the `record_*` methods. A call that failed is simply not recorded,
//! so the state always reflects the last successful interaction.

use vstd::prelude::*;
use crate::command::{
    Command, CommandView, DocRef, DocRefView, ElementGroup, PageRef, PageRefView, parse_command,
    parse_spec,
};
use crate::request::{ChatRequest, ChatRequestView, SearchRequest, SearchRequestView, opt_view};
use crate::result::SearchResult;
use crate::text::{append_decimal, append_digits, decimal};
use crate::select::{ShowItem, ShowItemView, items_view, show_items, show_items_spec};

verus! {

/// How a fetched page is presented.
#[derive(Clone, Copy, Debug, PartialEq, Eq, Structural)]
pub enum PageMode {
    /// `show page`: drawn in the terminal.
    Show,
    /// `open page`: handed to a graphical viewer.
    Open,
    /// `page`, `next` and `prev`: drawn in the terminal.
    View,
}

/// Whether indexed results are drawn in the terminal or opened in a viewer.
#[derive(Clone, Copy, Debug, PartialEq, Eq, Structural)]
pub enum IndexMode {
    Show,
    Open,
}

/// A message that answers a command without calling the service.
#[derive(Clone, Copy, Debug, PartialEq, Eq, Structural)]
pub enum Notice {
    /// `sources` with nothing to list.
    NoSources,
    /// `show N` or `open N` with an empty result set.
    NoResults(IndexMode),
    /// `show` or `open` with no index at all.
    IndexUsage(IndexMode),
    /// A page command whose argument names no page.
    PageUsage(PageMode),
    /// A page command without a document, and none selected.
    SelectDocumentFirst(PageMode),
    /// `next` on the last page of a document: the page and the page count.
    AlreadyLastPage(i32, i32),
    /// `prev` on the first page of a document.
    AlreadyFirstPage,
    /// `next` on the last page of the document list.
    ListAlreadyLast,
    /// `prev` on the first page of the document list.
    ListAlreadyFirst,
    /// Document list navigation before any list was shown.
    ListDocumentsFirst,
    /// `doc N` past the end of the list shown: the number of entries.
    DocIndexOutOfRange(usize),
    /// `doc 0`.
    DocUsage,
    /// Element browsing with no page in view and no document selected.
    ViewSomethingFirst,
    /// `<kind> all` with no document selected.
    SelectDocumentForAll,
    /// `search` without a query.
    SearchUsage,
}

/// What a page command looks like, for usage hints.
pub open spec fn page_usage_text(mode: PageMode) -> Seq<char> {
    match mode {
        PageMode::Show => "Usage: show page <N> or show page <slug> <N>"@,
        PageMode::Open => "Usage: open page <N> or open page <slug> <N>"@,
        PageMode::View => "Usage: page <N> or page <slug> <N>"@,
    }
}

pub open spec fn select_first_text(mode: PageMode) -> Seq<char> {
    match mode {
        PageMode::Show => "Use 'doc <slug>' first, or specify: show page <slug> <N>"@,
        PageMode::Open => "Use 'doc <slug>' first, or specify: open page <slug> <N>"@,
        PageMode::View => "Use 'doc <slug>' first, or specify: page <slug> <N>"@,
    }
}

/// The words of each notice.
pub open spec fn notice_text(n: Notice) -> Seq<char> {
    match n {
        Notice::NoSources => "No sources available. Ask a question first."@,
        Notice::NoResults(IndexMode::Show) => "No results to show. Ask a question first."@,
        Notice::NoResults(IndexMode::Open) => "No results to open. Ask a question first."@,
        Notice::IndexUsage(IndexMode::Show) => "Usage: show <number> or show 1,2,3"@,
        Notice::IndexUsage(IndexMode::Open) => "Usage: open <number> or open 1,2,3"@,
        Notice::PageUsage(m) => page_usage_text(m),
        Notice::SelectDocumentFirst(m) => select_first_text(m),
        Notice::AlreadyLastPage(p, t) => "Already on last page ("@ + decimal(p as int) + "/"@ + decimal(t as int)
            + ")."@,
        Notice::AlreadyFirstPage => "Already on first page."@,
        Notice::ListAlreadyLast => "Already on last page."@,
        Notice::ListAlreadyFirst => "Already on first page."@,
        Notice::ListDocumentsFirst => "Use 'docs' first to list documents."@,
        Notice::DocIndexOutOfRange(n) => "Invalid index. Use 1-"@ + decimal(n as int) + "."@,
        Notice::DocUsage => "Usage: doc <N> or doc <slug> (e.g., 'doc 1' or 'doc usgs_snyder')"@,
        Notice::ViewSomethingFirst => "Use 'doc <slug>' or view a page first."@,
        Notice::SelectDocumentForAll => "Use 'doc <slug>' first to select a document."@,
        Notice::SearchUsage => "Usage: search <query>"@,
    }
}

impl Notice {
    /// This notice in words.
    pub fn message(&self) -> (r: String)
        ensures
            r@ == notice_text(*self),
    {
        match self {
            Notice::NoSources => "No sources available. Ask a question first.".to_owned(),
            Notice::NoResults(IndexMode::Show) => "No results to show. Ask a question first.".to_owned(),
            Notice::NoResults(IndexMode::Open) => "No results to open. Ask a question first.".to_owned(),
            Notice::IndexUsage(IndexMode::Show) => "Usage: show <number> or show 1,2,3".to_owned(),
            Notice::IndexUsage(IndexMode::Open) => "Usage: open <number> or open 1,2,3".to_owned(),
            Notice::PageUsage(PageMode::Show) => "Usage: show page <N> or show page <slug> <N>".to_owned(),
            Notice::PageUsage(PageMode::Open) => "Usage: open page <N> or open page <slug> <N>".to_owned(),
            Notice::PageUsage(PageMode::View) => "Usage: page <N> or page <slug> <N>".to_owned(),
            Notice::SelectDocumentFirst(PageMode::Show) => "Use 'doc <slug>' first, or specify: show page <slug> <N>".to_owned(),
            Notice::SelectDocumentFirst(PageMode::Open) => "Use 'doc <slug>' first, or specify: open page <slug> <N>".to_owned(),
            Notice::SelectDocumentFirst(PageMode::View) => "Use 'doc <slug>' first, or specify: page <slug> <N>".to_owned(),
            Notice::AlreadyLastPage(p, t) => {
                let mut s = "Already on last page (".to_owned();
                append_decimal(&mut s, *p as i64);
                s.append("/");
                append_decimal(&mut s, *t as i64);
                s.append(").");
                assert(s@ =~= notice_text(*self));
                s
            },
            Notice::AlreadyFirstPage => "Already on first page.".to_owned(),
            Notice::ListAlreadyLast => "Already on last page.".to_owned(),
            Notice::ListAlreadyFirst => "Already on first page.".to_owned(),
            Notice::ListDocumentsFirst => "Use 'docs' first to list documents.".to_owned(),
            Notice::DocIndexOutOfRange(n) => {
                let mut s = "Invalid index. Use 1-".to_owned();
                append_digits(&mut s, *n as u64);
                s.append(".");
                assert(s@ =~= notice_text(*self));
                s
            },
            Notice::DocUsage => "Usage: doc <N> or doc <slug> (e.g., 'doc 1' or 'doc usgs_snyder')".to_owned(),
            Notice::ViewSomethingFirst => "Use 'doc <slug>' or view a page first.".to_owned(),
            Notice::SelectDocumentForAll => "Use 'doc <slug>' first to select a document.".to_owned(),
            Notice::SearchUsage => "Usage: search <query>".to_owned(),
        }
    }
}

/// The page shown last.
pub struct PageView {
    pub slug: String,
    pub page_number: i32,
    pub total_pages: i32,
}

/// Where the document list browser stands. Page 0 means no list was shown.
pub struct DocCursor {
    pub page: i32,
    pub total_pages: i32,
    /// The slugs of the documents on the page shown, in order.
    pub slugs: Vec<String>,
}

pub struct Session {
    pub current_document: Option<String>,
    pub page_view: Option<PageView>,
    /// The result set that indices refer to.
    pub results: Vec<SearchResult>,
    pub cursor: DocCursor,
}

/// What to do for a command.
pub enum Action {
    Exit,
    /// A blank line: nothing at all.
    Nothing,
    ShowHelp,
    /// List the current result set.
    ListSources,
    Notify(Notice),
    /// Fetch a page; on success record it with `record_page`.
    FetchPage { slug: String, page: i32, mode: PageMode },
    /// Fetch a page of the document list; on success record it with
    /// `record_doc_list`.
    ListDocuments { page: i32, page_size: i32, sort_by: String },
    /// Fetch a document's details; on success record it with
    /// `record_document`.
    FetchDocument { slug: String },
    /// Search for elements; on success record them with `record_elements`,
    /// which keeps only those on `on_page` where a page is given.
    ListElements { request: SearchRequest, group: ElementGroup, on_page: Option<i32> },
    /// Search; on success record the results with `record_results`.
    RunSearch(SearchRequest),
    /// Ask; on success record the sources with `record_results`.
    RunAsk(ChatRequest),
    ShowItems(Vec<ShowItem>),
    OpenItems(Vec<ShowItem>),
}

pub ghost enum ActionView {
    Exit,
    Nothing,
    ShowHelp,
    ListSources,
    Notify(Notice),
    FetchPage { slug: Seq<char>, page: int, mode: PageMode },
    ListDocuments { page: int, page_size: int, sort_by: Seq<char> },
    FetchDocument { slug: Seq<char> },
    ListElements { request: SearchRequestView, group: ElementGroup, on_page: Option<int> },
    RunSearch(SearchRequestView),
    RunAsk(ChatRequestView),
    ShowItems(Seq<ShowItemView>),
    OpenItems(Seq<ShowItemView>),
}

pub open spec fn opt_int(p: Option<i32>) -> Option<int> {
    match p {
        Some(n) => Some(n as int),
        None => None,
    }
}

impl View for Action {
    type V = ActionView;

    open spec fn view(&self) -> ActionView {
        match self {
            Action::Exit => ActionView::Exit,
            Action::Nothing => ActionView::Nothing,
            Action::ShowHelp => ActionView::ShowHelp,
            Action::ListSources => ActionView::ListSources,
            Action::Notify(n) => ActionView::Notify(*n),
            Action::FetchPage { slug, page, mode } => ActionView::FetchPage {
                slug: slug@,
                page: *page as int,
                mode: *mode,
            },
            Action::ListDocuments { page, page_size, sort_by } => ActionView::ListDocuments {
                page: *page as int,
                page_size: *page_size as int,
                sort_by: sort_by@,
            },
            Action::FetchDocument { slug } => ActionView::FetchDocument { slug: slug@ },
            Action::ListElements { request, group, on_page } => ActionView::ListElements {
                request: request@,
                group: *group,
                on_page: opt_int(*on_page),
            },
            Action::RunSearch(r) => ActionView::RunSearch(r@),
            Action::RunAsk(r) => ActionView::RunAsk(r@),
            Action::ShowItems(v) => ActionView::ShowItems(items_view(v@)),
            Action::OpenItems(v) => ActionView::OpenItems(items_view(v@)),
        }
    }
}

/// Entries per page of the document list.
pub const DOC_PAGE_SIZE: i32 = 5;

/// Results asked for by a search typed in a session.
pub const SEARCH_LIMIT: i32 = 10;

/// Sources asked for by a question typed in a session.
pub const ASK_LIMIT: i32 = 8;

/// Elements asked for when they will be narrowed to one page, or when all of
/// a document's are wanted.
pub const WIDE_ELEMENT_LIMIT: i32 = 50;

/// Elements asked for from a whole document.
pub const ELEMENT_LIMIT: i32 = 20;

/// The service's name for the element type that `g` lists.
pub open spec fn group_type(g: ElementGroup) -> Seq<char> {
    match g {
        ElementGroup::Figures => "figure"@,
        ElementGroup::Tables => "table"@,
        ElementGroup::Equations => "equation"@,
    }
}

/// A search for every element of kind `g` in document `slug`.
pub open spec fn element_request_spec(slug: Seq<char>, g: ElementGroup, limit: int) -> SearchRequestView {
    SearchRequestView {
        query: "*"@,
        limit,
        document_slug: Some(slug),
        include_chunks: false,
        include_elements: true,
        element_type: Some(group_type(g)),
    }
}

pub open spec fn page_action_spec(s: Session, p: PageRefView, mode: PageMode) -> ActionView {
    match p {
        PageRefView::Malformed => ActionView::Notify(Notice::PageUsage(mode)),
        PageRefView::Current(n) => match s.current_document {
            Some(d) => ActionView::FetchPage { slug: d@, page: n, mode },
            None => ActionView::Notify(Notice::SelectDocumentFirst(mode)),
        },
        PageRefView::InDocument(slug, n) => ActionView::FetchPage { slug, page: n, mode },
    }
}

pub open spec fn index_action_spec(s: Session, arg: Seq<char>, mode: IndexMode) -> ActionView {
    if s.results@.len() == 0 {
        ActionView::Notify(Notice::NoResults(mode))
    } else {
        let items = show_items_spec(s.results@, arg);
        if items.len() == 0 {
            ActionView::Notify(Notice::IndexUsage(mode))
        } else if mode == IndexMode::Show {
            ActionView::ShowItems(items)
        } else {
            ActionView::OpenItems(items)
        }
    }
}

/// `next`: the next page of the page in view, or else of the document list.
pub open spec fn next_spec(s: Session) -> ActionView {
    match s.page_view {
        Some(pv) => if pv.page_number >= pv.total_pages {
            ActionView::Notify(Notice::AlreadyLastPage(pv.page_number, pv.total_pages))
        } else {
            ActionView::FetchPage { slug: pv.slug@, page: pv.page_number + 1, mode: PageMode::View }
        },
        None => if s.cursor.page == 0 {
            ActionView::Notify(Notice::ListDocumentsFirst)
        } else if s.cursor.page >= s.cursor.total_pages {
            ActionView::Notify(Notice::ListAlreadyLast)
        } else {
            ActionView::ListDocuments { page: s.cursor.page + 1, page_size: DOC_PAGE_SIZE as int, sort_by: "title"@ }
        },
    }
}

/// `prev`: the previous page of the page in view, or else of the document
/// list.
pub open spec fn prev_spec(s: Session) -> ActionView {
    match s.page_view {
        Some(pv) => if pv.page_number <= 1 {
            ActionView::Notify(Notice::AlreadyFirstPage)
        } else {
            ActionView::FetchPage { slug: pv.slug@, page: pv.page_number - 1, mode: PageMode::View }
        },
        None => if s.cursor.page == 0 {
            ActionView::Notify(Notice::ListDocumentsFirst)
        } else if s.cursor.page <= 1 {
            ActionView::Notify(Notice::ListAlreadyFirst)
        } else {
            ActionView::ListDocuments { page: s.cursor.page - 1, page_size: DOC_PAGE_SIZE as int, sort_by: "title"@ }
        },
    }
}

pub open spec fn select_doc_spec(s: Session, d: DocRefView) -> ActionView {
    match d {
        DocRefView::Index(n) => if n == 0 {
            ActionView::Notify(Notice::DocUsage)
        } else if n > s.cursor.slugs@.len() {
            if s.cursor.slugs@.len() == 0 {
                ActionView::Notify(Notice::ListDocumentsFirst)
            } else {
                ActionView::Notify(Notice::DocIndexOutOfRange(s.cursor.slugs@.len() as usize))
            }
        } else {
            ActionView::FetchDocument { slug: s.cursor.slugs@[n - 1]@ }
        },
        DocRefView::Slug(x) => ActionView::FetchDocument { slug: x },
    }
}

/// Elements of kind `g` on the page in view, or else in the selected
/// document.
pub open spec fn elements_spec(s: Session, g: ElementGroup) -> ActionView {
    match s.page_view {
        Some(pv) => ActionView::ListElements {
            request: element_request_spec(pv.slug@, g, WIDE_ELEMENT_LIMIT as int),
            group: g,
            on_page: Some(pv.page_number as int),
        },
        None => match s.current_document {
            Some(d) => ActionView::ListElements {
                request: element_request_spec(d@, g, ELEMENT_LIMIT as int),
                group: g,
                on_page: None,
            },
            None => ActionView::Notify(Notice::ViewSomethingFirst),
        },
    }
}

/// Elements of kind `g` in the whole selected document.
pub open spec fn all_elements_spec(s: Session, g: ElementGroup) -> ActionView {
    match s.current_document {
        Some(d) => ActionView::ListElements {
            request: element_request_spec(d@, g, WIDE_ELEMENT_LIMIT as int),
            group: g,
            on_page: None,
        },
        None => ActionView::Notify(Notice::SelectDocumentForAll),
    }
}

pub open spec fn search_spec(s: Session, q: Seq<char>) -> ActionView {
    if q.len() == 0 {
        ActionView::Notify(Notice::SearchUsage)
    } else {
        ActionView::RunSearch(
            SearchRequestView {
                query: q,
                limit: SEARCH_LIMIT as int,
                document_slug: opt_view(s.current_document),
                include_chunks: true,
                include_elements: true,
                element_type: None,
            },
        )
    }
}

pub open spec fn ask_spec(s: Session, q: Seq<char>) -> ActionView {
    ActionView::RunAsk(
        ChatRequestView { question: q, limit: ASK_LIMIT as int, document_slug: opt_view(s.current_document) },
    )
}

/// What to do for command `c` in session `s`.
pub open spec fn plan_spec(s: Session, c: CommandView) -> ActionView {
    match c {
        CommandView::Blank => ActionView::Nothing,
        CommandView::Quit => ActionView::Exit,
        CommandView::Help => ActionView::ShowHelp,
        CommandView::Sources => if s.results@.len() == 0 {
            ActionView::Notify(Notice::NoSources)
        } else {
            ActionView::ListSources
        },
        CommandView::ShowPage(p) => page_action_spec(s, p, PageMode::Show),
        CommandView::OpenPage(p) => page_action_spec(s, p, PageMode::Open),
        CommandView::ViewPage(p) => page_action_spec(s, p, PageMode::View),
        CommandView::Show(a) => index_action_spec(s, a, IndexMode::Show),
        CommandView::Open(a) => index_action_spec(s, a, IndexMode::Open),
        CommandView::Docs => ActionView::ListDocuments { page: 1, page_size: DOC_PAGE_SIZE as int, sort_by: "title"@ },
        CommandView::Next => next_spec(s),
        CommandView::Prev => prev_spec(s),
        CommandView::SelectDoc(d) => select_doc_spec(s, d),
        CommandView::Elements(g) => elements_spec(s, g),
        CommandView::AllElements(g) => all_elements_spec(s, g),
        CommandView::Search(q) => search_spec(s, q),
        CommandView::Ask(q) => ask_spec(s, q),
    }
}

/// The results that lie on page `page`, in their order.
pub open spec fn on_page(results: Seq<SearchResult>, page: i32) -> Seq<SearchResult> {
    results.filter(|r: SearchResult| r.page_number == page)
}

/// `results` narrowed to `page` where one is given.
pub open spec fn narrowed(results: Seq<SearchResult>, page: Option<i32>) -> Seq<SearchResult> {
    match page {
        Some(p) => on_page(results, p),
        None => results,
    }
}

/// Keeps the results that lie on page `page`, in their order.
pub fn filter_page(results: Vec<SearchResult>, page: i32) -> (r: Vec<SearchResult>)
    ensures
        r@ == on_page(results@, page),
{
    let ghost all = results@;
    let n = results.len();
    let mut rest = results;
    let mut out: Vec<SearchResult> = Vec::new();
    let mut i: usize = 0;
    while rest.len() > 0
        invariant
            all.len() == n,
            i <= all.len(),
            rest@ == all.skip(i as int),
            out@ == on_page(all.take(i as int), page),
        decreases rest@.len(),
    {
        assert(i < all.len());
        let r = rest.remove(0);
        proof {
            reveal(Seq::filter);
        }
        assert(all.take(i + 1).drop_last() =~= all.take(i as int));
        assert(all.take(i + 1).last() == r);
        if r.page_number == page {
            out.push(r);
        }
        i = i + 1;
        assert(rest@ =~= all.skip(i as int));
    }
    assert(all.take(i as int) =~= all);
    out
}

/// The plural word that names the elements `g` lists.
pub open spec fn group_word(g: ElementGroup) -> Seq<char> {
    match g {
        ElementGroup::Figures => "figures"@,
        ElementGroup::Tables => "tables"@,
        ElementGroup::Equations => "equations"@,
    }
}

/// The report for an element listing that found nothing: on a page it
/// points to the listing of the whole document.
pub open spec fn no_elements_text(g: ElementGroup, slug: Seq<char>, page: Option<int>) -> Seq<char> {
    match page {
        Some(p) => "No "@ + group_word(g) + " on page "@ + decimal(p) + " of "@ + slug + ".\nUse '"@
            + group_word(g) + " all' to see all "@ + group_word(g) + " in document."@,
        None => "No "@ + group_word(g) + " found in "@ + slug + "."@,
    }
}

fn group_word_str(g: ElementGroup) -> (r: &'static str)
    ensures
        r@ == group_word(g),
{
    match g {
        ElementGroup::Figures => "figures",
        ElementGroup::Tables => "tables",
        ElementGroup::Equations => "equations",
    }
}

/// The report for an element listing of kind `g` in document `slug`, on
/// page `page` where one is given, that found nothing.
pub fn no_elements_message(g: ElementGroup, slug: &str, page: Option<i32>) -> (r: String)
    ensures
        r@ == no_elements_text(g, slug@, opt_int(page)),
{
    let w = group_word_str(g);
    let mut s = String::new();
    s.append("No ");
    s.append(w);
    match page {
        Some(p) => {
            s.append(" on page ");
            append_decimal(&mut s, p as i64);
            s.append(" of ");
            s.append(slug);
            s.append(".\nUse '");
            s.append(w);
            s.append(" all' to see all ");
            s.append(w);
            s.append(" in document.");
        },
        None => {
            s.append(" found in ");
            s.append(slug);
            s.append(".");
        },
    }
    assert(s@ =~= no_elements_text(g, slug@, opt_int(page)));
    s
}

fn copy_opt(s: &Option<String>) -> (r: Option<String>)
    ensures
        r == *s,
{
    match s {
        Some(x) => Some(x.clone()),
        None => None,
    }
}

fn group_type_name(g: ElementGroup) -> (r: String)
    ensures
        r@ == group_type(g),
{
    match g {
        ElementGroup::Figures => "figure".to_owned(),
        ElementGroup::Tables => "table".to_owned(),
        ElementGroup::Equations => "equation".to_owned(),
    }
}

fn element_request(slug: String, g: ElementGroup, limit: i32) -> (r: SearchRequest)
    ensures
        r@ == element_request_spec(slug@, g, limit as int),
{
    SearchRequest {
        query: "*".to_owned(),
        limit,
        document_slug: Some(slug),
        include_chunks: false,
        include_elements: true,
        element_type: Some(group_type_name(g)),
    }
}

fn doc_list_action(page: i32) -> (r: Action)
    ensures
        r@ == (ActionView::ListDocuments { page: page as int, page_size: DOC_PAGE_SIZE as int, sort_by: "title"@ }),
{
    Action::ListDocuments { page, page_size: DOC_PAGE_SIZE, sort_by: "title".to_owned() }
}

impl Session {
    /// The invariant: a page in view lies within its document, and the
    /// document list is unbrowsed (page 0) or on one of its pages.
    pub open spec fn wf(&self) -> bool {
        &&& (self.page_view matches Some(pv) ==> 1 <= pv.page_number <= pv.total_pages)
        &&& (self.cursor.page == 0 || 1 <= self.cursor.page <= self.cursor.total_pages)
    }

    /// A session with nothing selected, viewed or listed.
    pub fn new() -> (r: Session)
        ensures
            r.wf(),
            r.current_document is None,
            r.page_view is None,
            r.results@.len() == 0,
            r.cursor.page == 0,
            r.cursor.total_pages == 0,
            r.cursor.slugs@.len() == 0,
    {
        Session {
            current_document: None,
            page_view: None,
            results: Vec::new(),
            cursor: DocCursor { page: 0, total_pages: 0, slugs: Vec::new() },
        }
    }

    fn page_action(&self, p: &PageRef, mode: PageMode) -> (r: Action)
        ensures
            r@ == page_action_spec(*self, p@, mode),
    {
        match p {
            PageRef::Malformed => Action::Notify(Notice::PageUsage(mode)),
            PageRef::Current(n) => match &self.current_document {
                Some(d) => Action::FetchPage { slug: d.clone(), page: *n, mode },
                None => Action::Notify(Notice::SelectDocumentFirst(mode)),
            },
            PageRef::InDocument(slug, n) => Action::FetchPage { slug: slug.clone(), page: *n, mode },
        }
    }

    fn index_action(&self, arg: &String, mode: IndexMode) -> (r: Action)
        ensures
            r@ == index_action_spec(*self, arg@, mode),
    {
        if self.results.len() == 0 {
            return Action::Notify(Notice::NoResults(mode));
        }
        let items = show_items(&self.results, arg.as_str());
        if items.len() == 0 {
            Action::Notify(Notice::IndexUsage(mode))
        } else {
            match mode {
                IndexMode::Show => Action::ShowItems(items),
                IndexMode::Open => Action::OpenItems(items),
            }
        }
    }

    fn next_action(&self) -> (r: Action)
        ensures
            r@ == next_spec(*self),
    {
        match &self.page_view {
            Some(pv) => if pv.page_number >= pv.total_pages {
                Action::Notify(Notice::AlreadyLastPage(pv.page_number, pv.total_pages))
            } else {
                Action::FetchPage { slug: pv.slug.clone(), page: pv.page_number + 1, mode: PageMode::View }
            },
            None => if self.cursor.page == 0 {
                Action::Notify(Notice::ListDocumentsFirst)
            } else if self.cursor.page >= self.cursor.total_pages {
                Action::Notify(Notice::ListAlreadyLast)
            } else {
                doc_list_action(self.cursor.page + 1)
            },
        }
    }

    fn prev_action(&self) -> (r: Action)
        ensures
            r@ == prev_spec(*self),
    {
        match &self.page_view {
            Some(pv) => if pv.page_number <= 1 {
                Action::Notify(Notice::AlreadyFirstPage)
            } else {
                Action::FetchPage { slug: pv.slug.clone(), page: pv.page_number - 1, mode: PageMode::View }
            },
            None => if self.cursor.page == 0 {
                Action::Notify(Notice::ListDocumentsFirst)
            } else if self.cursor.page <= 1 {
                Action::Notify(Notice::ListAlreadyFirst)
            } else {
                doc_list_action(self.cursor.page - 1)
            },
        }
    }

    fn select_doc_action(&self, d: &DocRef) -> (r: Action)
        ensures
            r@ == select_doc_spec(*self, d@),
    {
        match d {
            DocRef::Index(n) => {
                let n = *n;
                let len = self.cursor.slugs.len();
                if n == 0 {
                    Action::Notify(Notice::DocUsage)
                } else if n > len {
                    if len == 0 {
                        Action::Notify(Notice::ListDocumentsFirst)
                    } else {
                        Action::Notify(Notice::DocIndexOutOfRange(len))
                    }
                } else {
                    Action::FetchDocument { slug: self.cursor.slugs[n - 1].clone() }
                }
            },
            DocRef::Slug(x) => Action::FetchDocument { slug: x.clone() },
        }
    }

    fn elements_action(&self, g: ElementGroup) -> (r: Action)
        ensures
            r@ == elements_spec(*self, g),
    {
        match &self.page_view {
            Some(pv) => Action::ListElements {
                request: element_request(pv.slug.clone(), g, WIDE_ELEMENT_LIMIT),
                group: g,
                on_page: Some(pv.page_number),
            },
            None => match &self.current_document {
                Some(d) => Action::ListElements {
                    request: element_request(d.clone(), g, ELEMENT_LIMIT),
                    group: g,
                    on_page: None,
                },
                None => Action::Notify(Notice::ViewSomethingFirst),
            },
        }
    }

    fn all_elements_action(&self, g: ElementGroup) -> (r: Action)
        ensures
            r@ == all_elements_spec(*self, g),
    {
        match &self.current_document {
            Some(d) => Action::ListElements {
                request: element_request(d.clone(), g, WIDE_ELEMENT_LIMIT),
                group: g,
                on_page: None,
            },
            None => Action::Notify(Notice::SelectDocumentForAll),
        }
    }

    /// Decides what command `cmd` calls for in this session.
    pub fn plan(&self, cmd: &Command) -> (r: Action)
        ensures
            r@ == plan_spec(*self, cmd@),
    {
        match cmd {
            Command::Blank => Action::Nothing,
            Command::Quit => Action::Exit,
            Command::Help => Action::ShowHelp,
            Command::Sources => if self.results.len() == 0 {
                Action::Notify(Notice::NoSources)
            } else {
                Action::ListSources
            },
            Command::ShowPage(p) => self.page_action(p, PageMode::Show),
            Command::OpenPage(p) => self.page_action(p, PageMode::Open),
            Command::ViewPage(p) => self.page_action(p, PageMode::View),
            Command::Show(a) => self.index_action(a, IndexMode::Show),
            Command::Open(a) => self.index_action(a, IndexMode::Open),
            Command::Docs => doc_list_action(1),
            Command::Next => self.next_action(),
            Command::Prev => self.prev_action(),
            Command::SelectDoc(d) => self.select_doc_action(d),
            Command::Elements(g) => self.elements_action(*g),
            Command::AllElements(g) => self.all_elements_action(*g),
            Command::Search(q) => if q.as_str().unicode_len() == 0 {
                Action::Notify(Notice::SearchUsage)
            } else {
                Action::RunSearch(
                    SearchRequest {
                        query: q.clone(),
                        limit: SEARCH_LIMIT,
                        document_slug: copy_opt(&self.current_document),
                        include_chunks: true,
                        include_elements: true,
                        element_type: None,
                    },
                )
            },
            Command::Ask(q) => Action::RunAsk(
                ChatRequest {
                    question: q.clone(),
                    limit: ASK_LIMIT,
                    document_slug: copy_opt(&self.current_document),
                },
            ),
        }
    }

    /// Records a page that was fetched: it is now the page in view, and its
    /// document the selected one. A page number below 1 names no page and is
    /// not recorded; a page count below the page number is raised to it.
    pub fn record_page(&mut self, slug: String, page_number: i32, total_pages: i32) -> (accepted: bool)
        ensures
            accepted == (page_number >= 1),
            accepted ==> final(self).page_view == Some(
                PageView {
                    slug,
                    page_number,
                    total_pages: if total_pages >= page_number {
                        total_pages
                    } else {
                        page_number
                    },
                },
            ),
            accepted ==> final(self).current_document == Some(slug),
            accepted ==> final(self).results == old(self).results,
            accepted ==> final(self).cursor == old(self).cursor,
            !accepted ==> *final(self) == *old(self),
            old(self).wf() ==> final(self).wf(),
    {
        if page_number < 1 {
            return false;
        }
        let total = if total_pages >= page_number {
            total_pages
        } else {
            page_number
        };
        self.current_document = Some(slug.clone());
        self.page_view = Some(PageView { slug, page_number, total_pages: total });
        true
    }

    /// Records a page of the document list that was fetched. A page number
    /// below 1 is not recorded; a page count below the page number is raised
    /// to it.
    pub fn record_doc_list(&mut self, page: i32, total_pages: i32, slugs: Vec<String>) -> (accepted: bool)
        ensures
            accepted == (page >= 1),
            accepted ==> final(self).cursor == (DocCursor {
                page,
                total_pages: if total_pages >= page {
                    total_pages
                } else {
                    page
                },
                slugs,
            }),
            accepted ==> final(self).current_document == old(self).current_document,
            accepted ==> final(self).page_view == old(self).page_view,
            accepted ==> final(self).results == old(self).results,
            !accepted ==> *final(self) == *old(self),
            old(self).wf() ==> final(self).wf(),
    {
        if page < 1 {
            return false;
        }
        let total = if total_pages >= page {
            total_pages
        } else {
            page
        };
        self.cursor = DocCursor { page, total_pages: total, slugs };
        true
    }

    /// Records the document whose details were fetched as the selected one.
    pub fn record_document(&mut self, slug: String)
        ensures
            final(self).current_document == Some(slug),
            final(self).page_view == old(self).page_view,
            final(self).results == old(self).results,
            final(self).cursor == old(self).cursor,
            old(self).wf() ==> final(self).wf(),
    {
        self.current_document = Some(slug);
    }

    /// Records the results of a search or the sources of an answer: they
    /// replace the result set whole.
    pub fn record_results(&mut self, results: Vec<SearchResult>)
        ensures
            final(self).results == results,
            final(self).current_document == old(self).current_document,
            final(self).page_view == old(self).page_view,
            final(self).cursor == old(self).cursor,
            old(self).wf() ==> final(self).wf(),
    {
        self.results = results;
    }

    /// Records the elements that an element search returned, narrowed to
    /// `page` where one is given; they replace the result set whole. Returns
    /// how many were kept.
    pub fn record_elements(&mut self, results: Vec<SearchResult>, page: Option<i32>) -> (kept: usize)
        ensures
            final(self).results@ == narrowed(results@, page),
            kept == final(self).results@.len(),
            final(self).current_document == old(self).current_document,
            final(self).page_view == old(self).page_view,
            final(self).cursor == old(self).cursor,
            old(self).wf() ==> final(self).wf(),
    {
        let kept = match page {
            Some(p) => filter_page(results, p),
            None => results,
        };
        let n = kept.len();
        self.results = kept;
        n
    }

    /// Reads `line` as a command and decides what it calls for.
    pub fn plan_line(&self, line: &str) -> (r: Action)
        ensures
            r@ == plan_spec(*self, parse_spec(line@)),
    {
        let cmd = parse_command(line);
        self.plan(&cmd)
    }
}

/// Paging past either end is refused without a call: `next` on the last page
/// in view reports that it is the last, and `prev` on the first reports that
/// it is the first; so does the document list when no page is in view.
/// Planning never changes the session.
pub proof fn lemma_paging_stops_at_ends(s: Session)
    requires
        s.wf(),
    ensures
        s.page_view is Some && s.page_view->Some_0.page_number == s.page_view->Some_0.total_pages ==> plan_spec(
            s,
            CommandView::Next,
        ) == ActionView::Notify(
            Notice::AlreadyLastPage(s.page_view->Some_0.page_number, s.page_view->Some_0.total_pages),
        ),
        s.page_view is Some && s.page_view->Some_0.page_number == 1 ==> plan_spec(s, CommandView::Prev)
            == ActionView::Notify(Notice::AlreadyFirstPage),
        s.page_view is None && s.cursor.page >= 1 && s.cursor.page == s.cursor.total_pages ==> plan_spec(
            s,
            CommandView::Next,
        ) == ActionView::Notify(Notice::ListAlreadyLast),
        s.page_view is None && s.cursor.page == 1 ==> plan_spec(s, CommandView::Prev) == ActionView::Notify(
            Notice::ListAlreadyFirst,
        ),
{
}

} // verus!
