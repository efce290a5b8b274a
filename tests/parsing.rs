use osgeo_library::api::{base_url, document_url, documents_url, endpoint, image_url, page_url};
use osgeo_library::command::{parse_command, Command, DocRef, ElementGroup, PageRef};
use osgeo_library::image::{decode_image, ImageError};
use osgeo_library::text::decimal_text;

#[test]
fn parses_exit_and_help_in_any_case() {
    assert!(matches!(parse_command("  QUIT "), Command::Quit));
    assert!(matches!(parse_command("Exit"), Command::Quit));
    assert!(matches!(parse_command("q"), Command::Quit));
    assert!(matches!(parse_command("help"), Command::Help));
    assert!(matches!(parse_command("?"), Command::Help));
    assert!(matches!(parse_command("Sources"), Command::Sources));
    assert!(matches!(parse_command(" \t "), Command::Blank));
}

#[test]
fn parses_show_forms() {
    match parse_command("show 1,2  3") {
        Command::Show(a) => assert_eq!(a, "1,2  3"),
        _ => panic!("expected show"),
    }
    match parse_command("SHOW page 12") {
        Command::ShowPage(PageRef::Current(12)) => {}
        _ => panic!("expected show page"),
    }
    match parse_command("open page Usgs_Snyder 7") {
        Command::OpenPage(PageRef::InDocument(s, 7)) => assert_eq!(s, "Usgs_Snyder"),
        _ => panic!("expected open page"),
    }
    assert!(matches!(parse_command("show page x"), Command::ShowPage(PageRef::Malformed)));
    assert!(matches!(parse_command("show page 0"), Command::ShowPage(PageRef::Malformed)));
    assert!(matches!(parse_command("open page a 1 2"), Command::OpenPage(PageRef::Malformed)));
}

#[test]
fn parses_page_forms() {
    assert!(matches!(parse_command("page 55"), Command::ViewPage(PageRef::Current(55))));
    assert!(matches!(parse_command("page +3"), Command::ViewPage(PageRef::Current(3))));
    match parse_command("page usgs_snyder 55") {
        Command::ViewPage(PageRef::InDocument(s, 55)) => assert_eq!(s, "usgs_snyder"),
        _ => panic!("expected page"),
    }
    assert!(matches!(parse_command("page -4"), Command::ViewPage(PageRef::Malformed)));
    assert!(matches!(parse_command("page 2147483648"), Command::ViewPage(PageRef::Malformed)));
    assert!(matches!(parse_command("page 2147483647"), Command::ViewPage(PageRef::Current(2147483647))));
}

#[test]
fn parses_navigation_and_documents() {
    assert!(matches!(parse_command("docs"), Command::Docs));
    assert!(matches!(parse_command("N"), Command::Next));
    assert!(matches!(parse_command("next"), Command::Next));
    assert!(matches!(parse_command("p"), Command::Prev));
    assert!(matches!(parse_command("Prev"), Command::Prev));
    assert!(matches!(parse_command("doc 2"), Command::SelectDoc(DocRef::Index(2))));
    assert!(matches!(parse_command("doc 0"), Command::SelectDoc(DocRef::Index(0))));
    match parse_command("doc usgs_snyder") {
        Command::SelectDoc(DocRef::Slug(s)) => assert_eq!(s, "usgs_snyder"),
        _ => panic!("expected doc"),
    }
    match parse_command("doc -1") {
        Command::SelectDoc(DocRef::Slug(s)) => assert_eq!(s, "-1"),
        _ => panic!("expected doc slug"),
    }
}

#[test]
fn parses_element_browsing() {
    assert!(matches!(parse_command("figures"), Command::Elements(ElementGroup::Figures)));
    assert!(matches!(parse_command("Tables"), Command::Elements(ElementGroup::Tables)));
    assert!(matches!(parse_command("equations"), Command::Elements(ElementGroup::Equations)));
    assert!(matches!(parse_command("figures all"), Command::AllElements(ElementGroup::Figures)));
    assert!(matches!(parse_command("TABLES ALL"), Command::AllElements(ElementGroup::Tables)));
    assert!(matches!(parse_command("equations  all"), Command::Ask(_)));
}

#[test]
fn parses_search_and_questions() {
    match parse_command("search   mercator projection  ") {
        Command::Search(q) => assert_eq!(q, "mercator projection"),
        _ => panic!("expected search"),
    }
    match parse_command("What is SAM?") {
        Command::Ask(q) => assert_eq!(q, "What is SAM?"),
        _ => panic!("expected a question"),
    }
    // a keyword without its argument is a question
    assert!(matches!(parse_command("search"), Command::Ask(_)));
    assert!(matches!(parse_command("showing maps"), Command::Ask(_)));
}

#[test]
fn decimal_rendering() {
    assert_eq!(decimal_text(0), "0");
    assert_eq!(decimal_text(42), "42");
    assert_eq!(decimal_text(-907), "-907");
    assert_eq!(decimal_text(i64::MIN), "-9223372036854775808");
    assert_eq!(decimal_text(i64::MAX), "9223372036854775807");
}

#[test]
fn urls_for_each_call() {
    let base = base_url("http://127.0.0.1:8095//");
    assert_eq!(base, "http://127.0.0.1:8095");
    assert_eq!(base_url("http://h"), "http://h");
    assert_eq!(endpoint(&base, "/health"), "http://127.0.0.1:8095/health");
    assert_eq!(documents_url(&base, 2, 5, "title"), "http://127.0.0.1:8095/documents?page=2&page_size=5&sort_by=title");
    assert_eq!(document_url(&base, "torchgeo"), "http://127.0.0.1:8095/documents/torchgeo");
    assert_eq!(page_url(&base, "usgs_snyder", 55), "http://127.0.0.1:8095/page/usgs_snyder/55");
    assert_eq!(image_url(&base, "usgs_snyder", "el/f1.png"), "http://127.0.0.1:8095/image/usgs_snyder/el/f1.png");
}

#[test]
fn decodes_base64_images() {
    assert_eq!(decode_image("aGVsbG8="), Ok(b"hello".to_vec()));
    assert_eq!(decode_image(""), Ok(Vec::new()));
    assert_eq!(decode_image("not base64!"), Err(ImageError::NotBase64));
    assert_eq!(decode_image("aGVsbG8"), Err(ImageError::NotBase64));
}
