use pdf_highlight::BBox;
use pdf_highlight::Coordinate;

#[test]
fn coordinate_add_componentwise() {
    let a = Coordinate { x: 3, y: -4 };
    let b = Coordinate { x: 10, y: 7 };
    let c = a.add(b);
    assert_eq!(c, Coordinate { x: 13, y: 3 });
}

#[test]
fn from_llur_keeps_corners() {
    let b = BBox::from_llur(1, 2, 30, 40);
    assert_eq!(b.as_vec(), vec![1, 2, 30, 40]);
}

#[test]
fn ltwh_then_rect_values() {
    let b = BBox::from_ltwh(50, 100, 200, 30);
    assert_eq!(b.as_vec(), vec![50, 70, 250, 100]);
}

#[test]
fn ltwh_negative_width_is_inverted_unchecked() {
    let b = BBox::from_ltwh(50, 100, -20, 30);
    assert_eq!(b.as_vec(), vec![50, 70, 30, 100]);
}

#[test]
fn quad_matches_rect_corners() {
    let b = BBox::from_ltwh(-7, 19, 31, 11);
    let rect = b.as_vec();
    let quad = b.as_quad_vec();
    assert_eq!(quad.len(), 8);
    assert_eq!(
        quad,
        vec![rect[0], rect[1], rect[2], rect[1], rect[2], rect[3], rect[0], rect[3]]
    );
}

#[test]
fn offset_translation_in_zero_origin_page() {
    let page = BBox::from_llur(0, 0, 600, 800);
    let b = BBox::from_ltwh(50, 100, 200, 30);
    let placed = b.offset_within(page);
    assert_eq!(placed.as_vec(), vec![50, 800 - 100 - 30, 250, 800 - 100]);
}

#[test]
fn offset_translates_by_page_origin() {
    let page = BBox::from_llur(10, 20, 610, 820);
    let b = BBox::from_ltwh(50, 100, 200, 30);
    let placed = b.offset_within(page);
    assert_eq!(placed.as_vec(), vec![60, 820 - 100 - 30, 260, 820 - 100]);
}

#[test]
fn scenario_media_600_800() {
    let page = BBox::from_llur(0, 0, 600, 800);
    let b = BBox::from_ltwh(50, 100, 200, 30);
    let placed = b.offset_within(page);
    assert_eq!(placed.as_vec(), vec![50, 670, 250, 700]);
    assert_eq!(placed.as_quad_vec(), vec![50, 670, 250, 670, 250, 700, 50, 700]);
}

#[test]
fn check_offset_fits_detects_overflow() {
    let far_page = BBox::from_llur(i64::MAX, 0, i64::MAX, 800);
    let b = BBox::from_ltwh(10, 100, 200, 30);
    assert!(!b.check_offset_fits(&far_page));
    let page = BBox::from_llur(0, 0, 600, 800);
    assert!(b.check_offset_fits(&page));
}
