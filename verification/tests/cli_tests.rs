use pdf_highlight::BBox;
use pdf_highlight::Cli;
use pdf_highlight::HighlightError;

fn base_cli(
    width: Option<i64>,
    right: Option<i64>,
    height: Option<i64>,
    bottom: Option<i64>,
) -> Result<Cli, HighlightError> {
    Cli::new(
        String::from("in.pdf"),
        None,
        1,
        50,
        100,
        width,
        right,
        height,
        bottom,
    )
}

#[test]
fn width_and_right_conflict() {
    let r = base_cli(Some(200), Some(250), Some(30), None);
    assert!(matches!(r, Err(HighlightError::ArgConflict)));
}

#[test]
fn height_and_bottom_conflict() {
    let r = base_cli(Some(200), None, Some(30), Some(70));
    assert!(matches!(r, Err(HighlightError::ArgConflict)));
}

#[test]
fn width_pair_missing() {
    let r = base_cli(None, None, Some(30), None);
    assert!(matches!(r, Err(HighlightError::ArgMissing)));
}

#[test]
fn height_pair_missing() {
    let r = base_cli(None, Some(250), None, None);
    assert!(matches!(r, Err(HighlightError::ArgMissing)));
}

#[test]
fn bbox_from_width_and_height() {
    let cli = base_cli(Some(200), None, Some(30), None).unwrap();
    let b = cli.get_bbox().unwrap();
    assert_eq!(b, BBox::from_llur(50, 70, 250, 100));
}

#[test]
fn bbox_derived_from_right_and_bottom() {
    let cli = base_cli(None, Some(250), None, Some(70)).unwrap();
    let b = cli.get_bbox().unwrap();
    assert_eq!(b, BBox::from_llur(50, 70, 250, 100));
}

#[test]
fn bbox_overflow_is_reported() {
    let cli = Cli::new(
        String::from("in.pdf"),
        None,
        1,
        i64::MAX,
        100,
        Some(i64::MAX),
        None,
        Some(30),
        None,
    )
    .unwrap();
    let r = cli.get_bbox();
    assert!(matches!(r, Err(HighlightError::CoordinateOverflow)));
}

#[test]
fn out_path_is_kept() {
    let cli = Cli::new(
        String::from("in.pdf"),
        Some(String::from("out.pdf")),
        3,
        1,
        2,
        Some(3),
        None,
        Some(4),
        None,
    )
    .unwrap();
    assert_eq!(cli.path, "in.pdf");
    assert_eq!(cli.out_path.as_deref(), Some("out.pdf"));
    assert_eq!(cli.page, 3);
}
