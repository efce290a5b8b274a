use osgeo_library::listing::{format_sources, line_with_type_caption};
use osgeo_library::result::{count_elements, ElementInfo, RawResult, ResultBody, SearchResult};

fn raw(source_type: &str, element_type: Option<&str>, crop: Option<&str>, rendered: Option<&str>) -> RawResult {
    RawResult {
        id: 7,
        score_label: "87".to_string(),
        content: "Some text".to_string(),
        source_type: source_type.to_string(),
        document_slug: "usgs_snyder".to_string(),
        document_title: "Map Projections".to_string(),
        page_number: 55,
        element_type: element_type.map(|s| s.to_string()),
        element_label: Some("Figure 12".to_string()),
        crop_path: crop.map(|s| s.to_string()),
        rendered_path: rendered.map(|s| s.to_string()),
        image_width: Some(640),
        image_height: Some(480),
        chunk_index: Some(4),
    }
}

#[test]
fn equation_prefers_rendering() {
    let r = SearchResult::from_raw(raw("element", Some("equation"), Some("c.png"), Some("r.png")));
    assert_eq!(r.best_image_path(), Some("r.png".to_string()));
    let r = SearchResult::from_raw(raw("element", Some("equation"), None, Some("r.png")));
    assert_eq!(r.best_image_path(), Some("r.png".to_string()));
    let r = SearchResult::from_raw(raw("element", Some("equation"), Some("c.png"), None));
    assert_eq!(r.best_image_path(), Some("c.png".to_string()));
}

#[test]
fn other_elements_prefer_crop() {
    let r = SearchResult::from_raw(raw("element", Some("figure"), Some("c.png"), Some("r.png")));
    assert_eq!(r.best_image_path(), Some("c.png".to_string()));
    let r = SearchResult::from_raw(raw("element", Some("figure"), None, Some("r.png")));
    assert_eq!(r.best_image_path(), Some("r.png".to_string()));
    let r = SearchResult::from_raw(raw("element", Some("table"), None, None));
    assert_eq!(r.best_image_path(), None);
}

#[test]
fn text_chunk_has_no_image() {
    let r = SearchResult::from_raw(raw("chunk", Some("equation"), Some("c.png"), Some("r.png")));
    assert!(!r.is_element());
    assert_eq!(r.best_image_path(), None);
    assert_eq!(r.chunk_index(), Some(4));
    assert_eq!(r.element_label(), None);
    assert_eq!(r.source_tag(), "t");
}

#[test]
fn raw_element_keeps_its_fields() {
    let r = SearchResult::from_raw(raw("element", Some("chart"), Some("c.png"), None));
    assert!(r.is_element());
    assert_eq!(r.page_number, 55);
    assert_eq!(r.document_slug, "usgs_snyder");
    assert_eq!(r.element_type(), Some("chart".to_string()));
    assert_eq!(r.element_label(), Some("Figure 12".to_string()));
    assert_eq!(r.chunk_index(), None);
    match r.body {
        ResultBody::Element(ElementInfo { image_width, image_height, .. }) => {
            assert_eq!((image_width, image_height), (Some(640), Some(480)));
        }
        _ => panic!("expected an element"),
    }
}

#[test]
fn source_tags_by_type() {
    let tag = |t: Option<&str>| SearchResult::from_raw(raw("element", t, None, None)).source_tag();
    assert_eq!(tag(Some("figure")), "f");
    assert_eq!(tag(Some("table")), "tb");
    assert_eq!(tag(Some("equation")), "eq");
    assert_eq!(tag(Some("chart")), "ch");
    assert_eq!(tag(Some("diagram")), "d");
    assert_eq!(tag(Some("map")), "e");
    assert_eq!(tag(None), "e");
    // element type names are matched exactly
    assert_eq!(tag(Some("Figure")), "e");
}

#[test]
fn counts_elements() {
    let v = vec![
        SearchResult::from_raw(raw("element", Some("figure"), None, None)),
        SearchResult::from_raw(raw("chunk", None, None, None)),
        SearchResult::from_raw(raw("element", Some("table"), None, None)),
    ];
    assert_eq!(count_elements(&v), 2);
    assert_eq!(count_elements(&Vec::new()), 0);
}

#[test]
fn sources_listing_lines() {
    let v = vec![
        SearchResult::from_raw(raw("element", Some("figure"), None, None)),
        SearchResult::from_raw(raw("chunk", None, None, None)),
        SearchResult::from_raw(raw("element", None, None, None)),
    ];
    assert_eq!(
        format_sources(&v),
        "[f:1] FIGURE Figure 12 | Map Projections p.55 | 87%\n\
         [t:2] TEXT chunk | Map Projections p.55 | 87%\n\
         [e:3] ? Figure 12 | Map Projections p.55 | 87%"
    );
    assert_eq!(format_sources(&Vec::new()), "No sources available.");
}

#[test]
fn source_line_with_given_caption() {
    let r = SearchResult::from_raw(raw("element", Some("table"), None, None));
    assert_eq!(line_with_type_caption(&r, 12, "TABLE"), "[tb:12] TABLE Figure 12 | Map Projections p.55 | 87%");
    let t = SearchResult::from_raw(raw("text", None, None, None));
    assert_eq!(line_with_type_caption(&t, 1, "IGNORED"), "[t:1] TEXT chunk | Map Projections p.55 | 87%");
}
