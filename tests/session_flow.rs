use osgeo_library::command::ElementGroup;
use osgeo_library::request::SearchRequest;
use osgeo_library::result::{RawResult, SearchResult};
use osgeo_library::select::{invalid_index_message, malformed_index_message, show_items, ShowItem};
use osgeo_library::session::{no_elements_message, Action, IndexMode, Notice, PageMode, Session};

fn result(kind: &str, page: i32, crop: Option<&str>) -> SearchResult {
    SearchResult::from_raw(RawResult {
        id: page as i64,
        score_label: "75".to_string(),
        content: "content".to_string(),
        source_type: if kind == "text" { "chunk".to_string() } else { "element".to_string() },
        document_slug: "usgs_snyder".to_string(),
        document_title: "Map Projections".to_string(),
        page_number: page,
        element_type: if kind == "text" { None } else { Some(kind.to_string()) },
        element_label: Some(format!("Figure {}", page)),
        crop_path: crop.map(|s| s.to_string()),
        rendered_path: None,
        image_width: None,
        image_height: None,
        chunk_index: None,
    })
}

fn five_results() -> Vec<SearchResult> {
    vec![
        result("figure", 1, Some("f1.png")),
        result("text", 2, None),
        result("table", 3, None),
        result("figure", 4, Some("f4.png")),
        result("equation", 5, Some("e5.png")),
    ]
}

#[test]
fn scenario_search_three_results() {
    let req = SearchRequest::for_query("mercator projection".to_string(), 5, None, false, false, None);
    assert_eq!(req.limit, 5);
    assert!(req.include_chunks && req.include_elements);
    assert_eq!(req.element_type, None);
    let mut s = Session::new();
    s.record_results(vec![result("figure", 1, Some("a.png")), result("text", 2, None), result("table", 3, None)]);
    assert_eq!(s.results.len(), 3);
    assert!(matches!(s.plan_line("sources"), Action::ListSources));
    // no page of anything is in view, and no document list was shown
    assert!(matches!(s.plan_line("next"), Action::Notify(Notice::ListDocumentsFirst)));
}

#[test]
fn search_request_flags() {
    let r = SearchRequest::for_query("area".to_string(), 10, Some("d".to_string()), false, false, Some("equation".to_string()));
    assert!(!r.include_chunks && r.include_elements);
    let r = SearchRequest::for_query("area".to_string(), 10, None, false, true, None);
    assert!(r.include_chunks && !r.include_elements);
}

#[test]
fn scenario_doc_then_figures_lists_whole_document() {
    let mut s = Session::new();
    match s.plan_line("doc usgs_snyder") {
        Action::FetchDocument { slug } => s.record_document(slug),
        _ => panic!("expected a document fetch"),
    }
    match s.plan_line("figures") {
        Action::ListElements { request, group, on_page } => {
            assert_eq!(group, ElementGroup::Figures);
            assert_eq!(on_page, None);
            assert_eq!(request.document_slug.as_deref(), Some("usgs_snyder"));
            assert_eq!(request.element_type.as_deref(), Some("figure"));
            assert_eq!(request.query, "*");
            assert_eq!(request.limit, 20);
            assert!(!request.include_chunks && request.include_elements);
            let found = vec![result("figure", 3, None), result("figure", 55, None), result("figure", 90, None)];
            assert_eq!(s.record_elements(found, on_page), 3);
            assert_eq!(s.results.iter().map(|r| r.page_number).collect::<Vec<_>>(), vec![3, 55, 90]);
        }
        _ => panic!("expected an element listing"),
    }
}

#[test]
fn scenario_page_then_figures_lists_that_page() {
    let mut s = Session::new();
    match s.plan_line("page usgs_snyder 55") {
        Action::FetchPage { slug, page, mode } => {
            assert_eq!((slug.as_str(), page, mode), ("usgs_snyder", 55, PageMode::View));
            assert!(s.record_page(slug, 55, 383));
        }
        _ => panic!("expected a page fetch"),
    }
    assert_eq!(s.current_document.as_deref(), Some("usgs_snyder"));
    let (request, on_page) = match s.plan_line("figures") {
        Action::ListElements { request, on_page, .. } => (request, on_page),
        _ => panic!("expected an element listing"),
    };
    assert_eq!(on_page, Some(55));
    assert_eq!(request.limit, 50);
    let found = vec![result("figure", 54, None), result("figure", 55, Some("a.png")), result("figure", 56, None), result("figure", 55, Some("b.png"))];
    assert_eq!(s.record_elements(found, on_page), 2);
    assert!(s.results.iter().all(|r| r.page_number == 55));
    assert_eq!(s.results[1].best_image_path(), Some("b.png".to_string()));
    // none on the page: the report points to the whole document
    assert_eq!(s.record_elements(vec![result("figure", 54, None)], on_page), 0);
    assert_eq!(
        no_elements_message(ElementGroup::Figures, "usgs_snyder", Some(55)),
        "No figures on page 55 of usgs_snyder.\nUse 'figures all' to see all figures in document."
    );
    assert_eq!(no_elements_message(ElementGroup::Tables, "torchgeo", None), "No tables found in torchgeo.");
    // `figures all` ignores the page in view
    match s.plan_line("figures all") {
        Action::ListElements { request, on_page, .. } => {
            assert_eq!(on_page, None);
            assert_eq!(request.limit, 50);
        }
        _ => panic!("expected an element listing"),
    }
}

#[test]
fn scenario_show_valid_and_invalid() {
    let mut s = Session::new();
    s.record_results(five_results());
    match s.plan_line("show 1,99") {
        Action::ShowItems(items) => {
            assert_eq!(items.len(), 2);
            assert!(matches!(&items[0], ShowItem::Image(1, p) if p == "f1.png"));
            assert!(matches!(items[1], ShowItem::OutOfRange(99)));
        }
        _ => panic!("expected items to show"),
    }
    assert_eq!(invalid_index_message(99, 5), "Invalid index [99]. Use 1-5");
    assert_eq!(malformed_index_message("x", 5), "Invalid index [x]. Use 1-5");
}

#[test]
fn index_past_end_is_isolated() {
    let v = five_results();
    let items = show_items(&v, "6 2,0, x 3 4");
    assert_eq!(items.len(), 6);
    assert!(matches!(items[0], ShowItem::OutOfRange(6)));
    assert!(matches!(items[1], ShowItem::TextChunk(2)));
    assert!(matches!(&items[2], ShowItem::Malformed(t) if t == "0"));
    assert!(matches!(&items[3], ShowItem::Malformed(t) if t == "x"));
    assert!(matches!(items[4], ShowItem::NoImage(3)));
    assert!(matches!(&items[5], ShowItem::Image(4, p) if p == "f4.png"));
    assert!(show_items(&v, " , ").is_empty());
}

#[test]
fn show_and_open_need_results_and_indices() {
    let mut s = Session::new();
    assert!(matches!(s.plan_line("show 1"), Action::Notify(Notice::NoResults(IndexMode::Show))));
    assert!(matches!(s.plan_line("sources"), Action::Notify(Notice::NoSources)));
    s.record_results(five_results());
    assert!(matches!(s.plan_line("open ,,"), Action::Notify(Notice::IndexUsage(IndexMode::Open))));
    assert!(matches!(s.plan_line("open 5"), Action::OpenItems(_)));
    s.record_results(Vec::new());
    assert!(matches!(s.plan_line("open 1"), Action::Notify(Notice::NoResults(IndexMode::Open))));
}

#[test]
fn page_navigation_stops_at_ends() {
    let mut s = Session::new();
    assert!(s.record_page("usgs_snyder".to_string(), 383, 383));
    match s.plan_line("next") {
        Action::Notify(n) => {
            assert_eq!(n, Notice::AlreadyLastPage(383, 383));
            assert_eq!(n.message(), "Already on last page (383/383).");
        }
        _ => panic!("expected a notice"),
    }
    assert!(matches!(s.plan_line("p"), Action::FetchPage { page: 382, mode: PageMode::View, .. }));
    assert!(s.record_page("usgs_snyder".to_string(), 1, 383));
    match s.plan_line("prev") {
        Action::Notify(n) => assert_eq!(n.message(), "Already on first page."),
        _ => panic!("expected a notice"),
    }
    assert!(matches!(s.plan_line("n"), Action::FetchPage { page: 2, .. }));
}

#[test]
fn document_list_navigation() {
    let mut s = Session::new();
    assert!(matches!(s.plan_line("prev"), Action::Notify(Notice::ListDocumentsFirst)));
    match s.plan_line("docs") {
        Action::ListDocuments { page, page_size, sort_by } => {
            assert_eq!((page, page_size, sort_by.as_str()), (1, 5, "title"));
        }
        _ => panic!("expected a document list"),
    }
    assert!(s.record_doc_list(1, 2, vec!["a".to_string(), "b".to_string()]));
    assert!(matches!(s.plan_line("prev"), Action::Notify(Notice::ListAlreadyFirst)));
    assert!(matches!(s.plan_line("next"), Action::ListDocuments { page: 2, .. }));
    assert!(s.record_doc_list(2, 2, vec!["c".to_string()]));
    assert!(matches!(s.plan_line("next"), Action::Notify(Notice::ListAlreadyLast)));
    match s.plan_line("doc 1") {
        Action::FetchDocument { slug } => assert_eq!(slug, "c"),
        _ => panic!("expected a document fetch"),
    }
    match s.plan_line("doc 2") {
        Action::Notify(n) => assert_eq!(n.message(), "Invalid index. Use 1-1."),
        _ => panic!("expected a notice"),
    }
    assert!(matches!(s.plan_line("doc 0"), Action::Notify(Notice::DocUsage)));
    // an empty library still has one page
    assert!(s.record_doc_list(1, 0, Vec::new()));
    assert_eq!(s.cursor.total_pages, 1);
    assert!(!s.record_doc_list(0, 3, Vec::new()));
    assert_eq!(s.cursor.page, 1);
}

#[test]
fn page_commands_need_a_document() {
    let mut s = Session::new();
    match s.plan_line("page 4") {
        Action::Notify(n) => {
            assert_eq!(n, Notice::SelectDocumentFirst(PageMode::View));
            assert_eq!(n.message(), "Use 'doc <slug>' first, or specify: page <slug> <N>");
        }
        _ => panic!("expected a notice"),
    }
    assert!(matches!(s.plan_line("figures"), Action::Notify(Notice::ViewSomethingFirst)));
    assert!(matches!(s.plan_line("tables all"), Action::Notify(Notice::SelectDocumentForAll)));
    s.record_document("torchgeo".to_string());
    assert!(matches!(s.plan_line("open page 4"), Action::FetchPage { page: 4, mode: PageMode::Open, .. }));
    assert!(matches!(s.plan_line("show page x"), Action::Notify(Notice::PageUsage(PageMode::Show))));
    assert!(!s.record_page("torchgeo".to_string(), 0, 10));
    assert!(s.page_view.is_none());
}

#[test]
fn search_and_ask_are_scoped_to_document() {
    let mut s = Session::new();
    match s.plan_line("search habitat maps") {
        Action::RunSearch(r) => {
            assert_eq!(r.query, "habitat maps");
            assert_eq!(r.limit, 10);
            assert_eq!(r.document_slug, None);
        }
        _ => panic!("expected a search"),
    }
    s.record_document("torchgeo".to_string());
    match s.plan_line("What is SAM?") {
        Action::RunAsk(r) => {
            assert_eq!(r.question, "What is SAM?");
            assert_eq!(r.limit, 8);
            assert_eq!(r.document_slug.as_deref(), Some("torchgeo"));
        }
        _ => panic!("expected a question"),
    }
    assert!(matches!(s.plan_line("quit"), Action::Exit));
    assert!(matches!(s.plan_line(""), Action::Nothing));
    assert!(matches!(s.plan_line("help"), Action::ShowHelp));
}

#[test]
fn joined_indices_resolve_apart() {
    let v = five_results();
    let joined = show_items(&v, "1 ,4,99");
    let left = show_items(&v, "1 ");
    let right = show_items(&v, "4,99");
    assert_eq!(joined.len(), left.len() + right.len());
    assert!(matches!(&joined[0], ShowItem::Image(1, p) if p == "f1.png"));
    assert!(matches!(&left[0], ShowItem::Image(1, p) if p == "f1.png"));
    assert!(matches!(&joined[1], ShowItem::Image(4, p) if p == "f4.png"));
    assert!(matches!(&right[0], ShowItem::Image(4, p) if p == "f4.png"));
    assert!(matches!(joined[2], ShowItem::OutOfRange(99)));
    assert!(matches!(right[1], ShowItem::OutOfRange(99)));
}
