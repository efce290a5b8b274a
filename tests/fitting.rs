use osgeo_library::fit::{plan_fit, FitClass, GridSize};
use osgeo_library::result::{ElementInfo, ResultBody, SearchResult};

fn element(kind: &str, w: Option<i32>, h: Option<i32>) -> SearchResult {
    SearchResult {
        id: 1,
        score_label: "90".to_string(),
        content: String::new(),
        document_slug: "doc".to_string(),
        document_title: "Doc".to_string(),
        page_number: 3,
        body: ResultBody::Element(ElementInfo {
            element_type: Some(kind.to_string()),
            element_label: None,
            crop_path: Some("crop.png".to_string()),
            rendered_path: None,
            image_width: w,
            image_height: h,
        }),
    }
}

#[test]
fn fit_landscape_bound_by_height() {
    // 80x24 terminal: 76 usable columns, 20 usable rows
    let g = plan_fit(Some(800), Some(600), FitClass::Other, 80, 24);
    assert_eq!(g, GridSize { cols: 54, rows: 20 });
}

#[test]
fn fit_wide_equation_bound_by_width() {
    let g = plan_fit(Some(1000), Some(200), FitClass::Equation, 120, 40);
    assert_eq!(g, GridSize { cols: 116, rows: 12 });
}

#[test]
fn fit_tall_table_hits_column_floor() {
    let g = plan_fit(Some(100), Some(1000), FitClass::Table, 120, 40);
    assert_eq!(g, GridSize { cols: 20, rows: 32 });
}

#[test]
fn fit_row_floor_by_kind() {
    // a very wide image gets one row before the floors apply
    assert_eq!(plan_fit(Some(10000), Some(10), FitClass::Table, 120, 40).rows, 15);
    assert_eq!(plan_fit(Some(10000), Some(10), FitClass::Equation, 120, 40).rows, 6);
    assert_eq!(plan_fit(Some(10000), Some(10), FitClass::Other, 120, 40).rows, 8);
}

#[test]
fn fit_unknown_size_defaults() {
    assert_eq!(plan_fit(None, None, FitClass::Equation, 120, 40), GridSize { cols: 100, rows: 12 });
    assert_eq!(plan_fit(None, Some(5), FitClass::Table, 120, 40), GridSize { cols: 100, rows: 32 });
    assert_eq!(plan_fit(Some(0), Some(5), FitClass::Other, 120, 40), GridSize { cols: 80, rows: 32 });
    assert_eq!(plan_fit(None, None, FitClass::Table, 200, 100), GridSize { cols: 100, rows: 40 });
    assert_eq!(plan_fit(None, None, FitClass::Other, 200, 100), GridSize { cols: 80, rows: 35 });
}

#[test]
fn fit_tiny_terminal_uses_minimum_area() {
    assert_eq!(plan_fit(None, None, FitClass::Other, 10, 5), GridSize { cols: 40, rows: 20 });
    // five rows before the floor of eight applies
    assert_eq!(plan_fit(Some(40), Some(10), FitClass::Other, 0, 0), GridSize { cols: 40, rows: 8 });
}

#[test]
fn fit_keeps_aspect_within_rounding() {
    for (w, h) in [(800, 600), (1000, 200), (333, 777), (640, 480), (1920, 1080), (500, 400)] {
        let g = plan_fit(Some(w), Some(h), FitClass::Other, 160, 60);
        let (c, r, w, h) = (g.cols as i64, g.rows as i64, w as i64, h as i64);
        if c > 20 && r > 8 {
            let by_rows = 2 * w * (r - 1) < c * h && c * h <= 2 * w * r;
            let by_cols = h * (c - 1) < 2 * w * r && 2 * w * r <= c * h;
            assert!(by_rows || by_cols, "{}x{} -> {}x{}", w, h, c, r);
        }
    }
}

#[test]
fn fit_never_below_floors() {
    for (w, h) in [(1, 100000), (100000, 1), (5, 5), (3000, 2)] {
        for class in [FitClass::Table, FitClass::Equation, FitClass::Other] {
            let g = plan_fit(Some(w), Some(h), class, 50, 10);
            let floor = match class {
                FitClass::Table => 15,
                FitClass::Equation => 6,
                FitClass::Other => 8,
            };
            assert!(g.cols >= 20);
            assert!(g.rows >= floor);
        }
    }
}

#[test]
fn size_text_is_cols_x_rows() {
    assert_eq!(GridSize { cols: 54, rows: 20 }.size_text(), "54x20");
    assert_eq!(GridSize { cols: 100, rows: 8 }.size_text(), "100x8");
}

#[test]
fn size_for_terminal_uses_default_when_unknown() {
    let r = element("figure", Some(800), Some(600));
    assert_eq!(r.size_for_terminal(Some((80, 24))), "54x20");
    // 120x40 by default: 116 columns, 32 rows usable
    // 120x40 by default: 116 columns and 32 rows usable, bound by height
    assert_eq!(r.size_for_terminal(None), "86x32");
    assert_eq!(element("table", None, None).size_for_terminal(None), "100x32");
}

#[test]
fn chafa_size_has_grid_shape() {
    let s = element("equation", None, None).chafa_size();
    let parts: Vec<&str> = s.split('x').collect();
    assert_eq!(parts.len(), 2);
    assert!(parts[0].parse::<i32>().unwrap() >= 20);
    assert_eq!(parts[1], "12");
}
