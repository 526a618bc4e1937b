use lopdf::Dictionary;
use lopdf::Document;
use lopdf::Object;
use lopdf::ObjectId;

use pdf_highlight::AnnotsSlot;
use pdf_highlight::BBox;
use pdf_highlight::HighlightError;
use pdf_highlight::add_highlight;
use pdf_highlight::attach_annotation;
use pdf_highlight::build_highlight_annotation;
use pdf_highlight::mediabox;

fn int_array(values: &[i64]) -> Object {
    Object::Array(values.iter().map(|v| Object::Integer(*v)).collect())
}

/// A one-page document: catalog -> pages node -> page. The two bounding-box
/// arguments go on the pages node and on the page itself respectively.
fn make_doc(root_media: Option<Object>, page_media: Option<Object>) -> (Document, ObjectId) {
    let mut doc = Document::with_version("1.5");
    let pages_id = doc.new_object_id();

    let mut page = Dictionary::new();
    page.set("Type", Object::Name(b"Page".to_vec()));
    page.set("Parent", Object::Reference(pages_id));
    if let Some(m) = page_media {
        page.set("MediaBox", m);
    }
    let page_id = doc.add_object(page);

    let mut pages = Dictionary::new();
    pages.set("Type", Object::Name(b"Pages".to_vec()));
    pages.set("Kids", Object::Array(vec![Object::Reference(page_id)]));
    pages.set("Count", Object::Integer(1));
    if let Some(m) = root_media {
        pages.set("MediaBox", m);
    }
    doc.set_object(pages_id, pages);

    let mut catalog = Dictionary::new();
    catalog.set("Type", Object::Name(b"Catalog".to_vec()));
    catalog.set("Pages", Object::Reference(pages_id));
    let catalog_id = doc.add_object(catalog);
    doc.trailer.set("Root", Object::Reference(catalog_id));

    (doc, page_id)
}

fn page_annots(doc: &Document, page_id: ObjectId) -> Object {
    doc.get_dictionary(page_id)
        .unwrap()
        .get(b"Annots")
        .unwrap()
        .clone()
}

#[test]
fn attach_absent_creates_inline_list() {
    let (mut doc, page_id) = make_doc(Some(int_array(&[0, 0, 600, 800])), None);
    let a1 = (500, 0);
    attach_annotation(&mut doc, 1, a1).unwrap();
    let annots = page_annots(&doc, page_id);
    assert_eq!(annots, Object::Array(vec![Object::Reference(a1)]));
}

#[test]
fn attach_twice_keeps_insertion_order() {
    let (mut doc, page_id) = make_doc(Some(int_array(&[0, 0, 600, 800])), None);
    let a1 = (500, 0);
    let a2 = (501, 0);
    attach_annotation(&mut doc, 1, a1).unwrap();
    attach_annotation(&mut doc, 1, a2).unwrap();
    let annots = page_annots(&doc, page_id);
    assert_eq!(
        annots,
        Object::Array(vec![Object::Reference(a1), Object::Reference(a2)])
    );
}

#[test]
fn attach_inline_preserves_existing_entries() {
    let (mut doc, page_id) = make_doc(Some(int_array(&[0, 0, 600, 800])), None);
    let existing = (400, 0);
    {
        let page = doc.get_dictionary_mut(page_id).unwrap();
        page.set("Annots", Object::Array(vec![Object::Reference(existing)]));
    }
    let a1 = (500, 0);
    attach_annotation(&mut doc, 1, a1).unwrap();
    let annots = page_annots(&doc, page_id);
    assert_eq!(
        annots,
        Object::Array(vec![Object::Reference(existing), Object::Reference(a1)])
    );
}

#[test]
fn attach_indirect_mutates_referenced_array_in_place() {
    let (mut doc, page_id) = make_doc(Some(int_array(&[0, 0, 600, 800])), None);
    let existing = (400, 0);
    let array_id = doc.add_object(Object::Array(vec![Object::Reference(existing)]));
    {
        let page = doc.get_dictionary_mut(page_id).unwrap();
        page.set("Annots", Object::Reference(array_id));
    }
    let a1 = (500, 0);
    let a2 = (501, 0);
    attach_annotation(&mut doc, 1, a1).unwrap();
    attach_annotation(&mut doc, 1, a2).unwrap();
    // The page's key itself is unchanged: still the same indirect reference.
    let annots = page_annots(&doc, page_id);
    assert_eq!(annots, Object::Reference(array_id));
    // The referenced array was mutated in place, keeping insertion order.
    let stored = doc.get_object(array_id).unwrap().as_array().unwrap().clone();
    assert_eq!(
        stored,
        vec![
            Object::Reference(existing),
            Object::Reference(a1),
            Object::Reference(a2)
        ]
    );
}

#[test]
fn attach_malformed_annots_fails() {
    let (mut doc, page_id) = make_doc(Some(int_array(&[0, 0, 600, 800])), None);
    {
        let page = doc.get_dictionary_mut(page_id).unwrap();
        page.set("Annots", Object::Integer(3));
    }
    let r = attach_annotation(&mut doc, 1, (500, 0));
    assert!(matches!(r, Err(HighlightError::AnnotsMalformed)));
    // The malformed entry is left exactly as it was.
    assert_eq!(page_annots(&doc, page_id), Object::Integer(3));
}

#[test]
fn attach_missing_page_fails() {
    let (mut doc, page_id) = make_doc(Some(int_array(&[0, 0, 600, 800])), None);
    let n_objects = doc.objects.len();
    let r = attach_annotation(&mut doc, 2, (500, 0));
    assert!(matches!(r, Err(HighlightError::PageNotFound)));
    assert_eq!(doc.objects.len(), n_objects);
    assert!(!doc.get_dictionary(page_id).unwrap().has(b"Annots"));
}

#[test]
fn mediabox_prefers_the_root_box() {
    let (doc, _) = make_doc(
        Some(int_array(&[0, 0, 600, 800])),
        Some(int_array(&[0, 0, 300, 400])),
    );
    let b = mediabox(&doc, 1).unwrap();
    assert_eq!(b, BBox::from_llur(0, 0, 600, 800));
}

#[test]
fn mediabox_falls_back_to_the_page_box() {
    let (doc, _) = make_doc(None, Some(int_array(&[5, 10, 300, 400])));
    let b = mediabox(&doc, 1).unwrap();
    assert_eq!(b, BBox::from_llur(5, 10, 300, 400));
}

#[test]
fn mediabox_missing_everywhere_fails() {
    let (doc, _) = make_doc(None, None);
    let r = mediabox(&doc, 1);
    assert!(matches!(r, Err(HighlightError::MediaBoxMissing)));
}

#[test]
fn mediabox_with_three_values_is_malformed() {
    let (doc, _) = make_doc(Some(int_array(&[0, 0, 600])), None);
    let r = mediabox(&doc, 1);
    assert!(matches!(r, Err(HighlightError::MediaBoxMalformed)));
}

#[test]
fn mediabox_with_non_numeric_entry_is_malformed() {
    let entries = Object::Array(vec![
        Object::Integer(0),
        Object::Name(b"zero".to_vec()),
        Object::Integer(600),
        Object::Integer(800),
    ]);
    let (doc, _) = make_doc(Some(entries), None);
    let r = mediabox(&doc, 1);
    assert!(matches!(r, Err(HighlightError::MediaBoxMalformed)));
}

#[test]
fn mediabox_that_is_no_array_is_malformed() {
    let (doc, _) = make_doc(Some(Object::Integer(600)), None);
    let r = mediabox(&doc, 1);
    assert!(matches!(r, Err(HighlightError::MediaBoxMalformed)));
}

#[test]
fn mediabox_reads_real_values_as_whole_units() {
    let entries = Object::Array(vec![
        Object::Real(0.0),
        Object::Real(0.0),
        Object::Real(600.0),
        Object::Real(800.5),
    ]);
    let (doc, _) = make_doc(Some(entries), None);
    let b = mediabox(&doc, 1).unwrap();
    assert_eq!(b, BBox::from_llur(0, 0, 600, 800));
}

#[test]
fn mediabox_missing_page_without_root_box_fails() {
    let (doc, _) = make_doc(None, Some(int_array(&[0, 0, 300, 400])));
    let r = mediabox(&doc, 7);
    assert!(matches!(r, Err(HighlightError::PageNotFound)));
}

#[test]
fn built_annotation_object_has_the_highlight_shape() {
    let (mut doc, _) = make_doc(Some(int_array(&[0, 0, 600, 800])), None);
    let rect = vec![50, 670, 250, 700];
    let quad = vec![50, 670, 250, 670, 250, 700, 50, 700];
    let id = build_highlight_annotation(&mut doc, &rect, &quad).unwrap();
    let dict = doc.get_dictionary(id).unwrap();
    assert_eq!(dict.get(b"Type").unwrap(), &Object::Name(b"Annot".to_vec()));
    assert_eq!(
        dict.get(b"Subtype").unwrap(),
        &Object::Name(b"Highlight".to_vec())
    );
    assert_eq!(dict.get(b"Rect").unwrap(), &int_array(&[50, 670, 250, 700]));
    assert_eq!(
        dict.get(b"QuadPoints").unwrap(),
        &int_array(&[50, 670, 250, 670, 250, 700, 50, 700])
    );
}

#[test]
fn add_highlight_end_to_end() {
    let (mut doc, page_id) = make_doc(Some(int_array(&[0, 0, 600, 800])), None);
    let bbox = BBox::from_ltwh(50, 100, 200, 30);
    let id = add_highlight(&mut doc, 1, bbox).unwrap();
    let annots = page_annots(&doc, page_id);
    assert_eq!(annots, Object::Array(vec![Object::Reference(id)]));
    let dict = doc.get_dictionary(id).unwrap();
    assert_eq!(dict.get(b"Rect").unwrap(), &int_array(&[50, 670, 250, 700]));
    assert_eq!(
        dict.get(b"QuadPoints").unwrap(),
        &int_array(&[50, 670, 250, 670, 250, 700, 50, 700])
    );
}

#[test]
fn add_highlight_missing_page_leaves_document_unchanged() {
    let (mut doc, _) = make_doc(Some(int_array(&[0, 0, 600, 800])), None);
    let n_objects = doc.objects.len();
    let max_id = doc.max_id;
    let r = add_highlight(&mut doc, 99, BBox::from_ltwh(50, 100, 200, 30));
    assert!(matches!(r, Err(HighlightError::PageNotFound)));
    assert_eq!(doc.objects.len(), n_objects);
    assert_eq!(doc.max_id, max_id);
}

#[test]
fn annots_reference_to_non_array_is_malformed() {
    let (mut doc, page_id) = make_doc(Some(int_array(&[0, 0, 600, 800])), None);
    let bad_id = doc.add_object(Object::Integer(7));
    {
        let page = doc.get_dictionary_mut(page_id).unwrap();
        page.set("Annots", Object::Reference(bad_id));
    }
    let r = attach_annotation(&mut doc, 1, (500, 0));
    assert!(matches!(r, Err(HighlightError::AnnotsMalformed)));
    assert_eq!(page_annots(&doc, page_id), Object::Reference(bad_id));
}

#[test]
fn annots_dangling_reference_is_malformed() {
    let (mut doc, page_id) = make_doc(Some(int_array(&[0, 0, 600, 800])), None);
    {
        let page = doc.get_dictionary_mut(page_id).unwrap();
        page.set("Annots", Object::Reference((4096, 0)));
    }
    let r = attach_annotation(&mut doc, 1, (500, 0));
    assert!(matches!(r, Err(HighlightError::AnnotsMalformed)));
}

#[test]
fn exhausted_identifier_space_is_reported() {
    let (mut doc, _) = make_doc(Some(int_array(&[0, 0, 600, 800])), None);
    doc.max_id = u32::MAX;
    let n_objects = doc.objects.len();
    let r = build_highlight_annotation(&mut doc, &vec![0, 0, 1, 1], &vec![0; 8]);
    assert!(matches!(r, Err(HighlightError::IdSpaceExhausted)));
    assert_eq!(doc.objects.len(), n_objects);
    let r2 = add_highlight(&mut doc, 1, BBox::from_ltwh(50, 100, 200, 30));
    assert!(matches!(r2, Err(HighlightError::IdSpaceExhausted)));
    assert_eq!(doc.objects.len(), n_objects);
}

#[test]
fn two_highlights_get_distinct_identifiers_in_order() {
    let (mut doc, page_id) = make_doc(Some(int_array(&[0, 0, 600, 800])), None);
    let id1 = add_highlight(&mut doc, 1, BBox::from_ltwh(50, 100, 200, 30)).unwrap();
    let id2 = add_highlight(&mut doc, 1, BBox::from_ltwh(60, 200, 100, 20)).unwrap();
    assert_ne!(id1, id2);
    let annots = page_annots(&doc, page_id);
    assert_eq!(
        annots,
        Object::Array(vec![Object::Reference(id1), Object::Reference(id2)])
    );
}

#[test]
fn annots_slot_variants_compare() {
    assert_eq!(AnnotsSlot::Inline, AnnotsSlot::Inline);
    assert_ne!(AnnotsSlot::Absent, AnnotsSlot::Malformed);
    assert_eq!(AnnotsSlot::Indirect((4, 0)), AnnotsSlot::Indirect((4, 0)));
}
