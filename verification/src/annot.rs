//! The annotation injector: locating the page's bounding box (with the
//! page-tree inheritance fallback), building the highlight annotation
//! object, and appending its identifier to the page's annotation list
//! through whichever of the two storage representations is present.

use vstd::prelude::*;

use crate::bbox::BBox;
use crate::bbox::llur;
use crate::doc::AnnotsSlot;
use crate::doc::add_annot_object;
use crate::doc::annot_quad_of;
use crate::doc::annot_rect_of;
use crate::doc::annots_ids;
use crate::doc::annots_slot;
use crate::doc::id_space_full;
use crate::doc::is_highlight_annot;
use crate::doc::is_page_id;
use crate::doc::obj_array;
use crate::doc::obj_as_array;
use crate::doc::obj_as_int;
use crate::doc::obj_int;
use crate::doc::page_id_of;
use crate::doc::page_media;
use crate::doc::page_media_entry;
use crate::doc::page_table;
use crate::doc::pages_unaliased;
use crate::doc::push_inline_annot;
use crate::doc::push_referenced_annot;
use crate::doc::read_annots_slot;
use crate::doc::root_media;
use crate::doc::root_media_entry;
use crate::doc::root_resolves;
use crate::doc::set_fresh_annots;
use crate::doc::used_ids;
use crate::doc::well_allocated;
use crate::error::HighlightError;

verus! {

/// A bounding-box attribute decodes when it holds exactly four numeric
/// values.
pub open spec fn media_decodes(s: Seq<lopdf::Object>) -> bool {
    s.len() == 4 && (forall|i: int| 0 <= i < 4 ==> #[trigger] obj_int(s[i]) is Some)
}

/// The rectangle a decoding bounding-box attribute denotes, corners in the
/// order lower-left x, lower-left y, upper-right x, upper-right y.
pub open spec fn media_bbox(s: Seq<lopdf::Object>) -> BBox {
    llur(
        obj_int(s[0]).unwrap() as int,
        obj_int(s[1]).unwrap() as int,
        obj_int(s[2]).unwrap() as int,
        obj_int(s[3]).unwrap() as int,
    )
}

/// The bounding-box attribute the lookup policy selects for `page`: the
/// page-tree root's entry whenever the root has one, otherwise the page's
/// own entry — the format's one-level attribute inheritance.
pub open spec fn media_entry(d: lopdf::Document, page: u32) -> Option<lopdf::Object> {
    if root_media(d) is Some {
        root_media(d)
    } else if page_table(d).dom().contains(page) {
        page_media(d, page_table(d)[page])
    } else {
        None
    }
}

/// Decode a bounding-box attribute's array: exactly four numeric values, in
/// the order lower-left x, lower-left y, upper-right x, upper-right y.
pub fn decode_media(arr: &Vec<lopdf::Object>) -> (r: Result<BBox, HighlightError>)
    ensures
        media_decodes(arr@) ==> (r matches Ok(b) && b == media_bbox(arr@)),
        !media_decodes(arr@) ==> (r matches Err(e) && e is MediaBoxMalformed),
{
    if arr.len() != 4 {
        return Err(HighlightError::MediaBoxMalformed);
    }
    let v0 = obj_as_int(&arr[0]);
    let v1 = obj_as_int(&arr[1]);
    let v2 = obj_as_int(&arr[2]);
    let v3 = obj_as_int(&arr[3]);
    match (v0, v1, v2, v3) {
        (Some(x0), Some(y0), Some(x1), Some(y1)) => Ok(BBox::from_llur(x0, y0, x1, y1)),
        _ => Err(HighlightError::MediaBoxMalformed),
    }
}

/// Look up the page bounding box: the page-tree root's MediaBox entry is
/// preferred; only when the root has none does the page's own entry count;
/// with neither, or with an entry that does not decode as exactly four
/// numeric values, the lookup fails.
pub fn mediabox(d: &lopdf::Document, page: u32) -> (r: Result<BBox, HighlightError>)
    ensures
        (r matches Err(e) && e is Doc) <==> !root_resolves(*d),
        (r matches Err(e) && e is PageNotFound) <==> (root_resolves(*d) && root_media(*d) is None
            && !page_table(*d).dom().contains(page)),
        (r matches Err(e) && e is MediaBoxMissing) <==> (root_resolves(*d) && root_media(
            *d,
        ) is None && page_table(*d).dom().contains(page) && page_media(
            *d,
            page_table(*d)[page],
        ) is None),
        root_resolves(*d) ==> (media_entry(*d, page) matches Some(o) ==> (obj_array(o) is None
            ==> (r matches Err(e) && e is MediaBoxMalformed))),
        root_resolves(*d) ==> (media_entry(*d, page) matches Some(o) ==> (obj_array(
            o,
        ) matches Some(s) ==> (!media_decodes(s) ==> (r matches Err(e)
            && e is MediaBoxMalformed)))),
        root_resolves(*d) ==> (media_entry(*d, page) matches Some(o) ==> (obj_array(
            o,
        ) matches Some(s) ==> (media_decodes(s) ==> (r matches Ok(b) && b == media_bbox(s))))),
{
    let entry = match root_media_entry(d) {
        Err(e) => {
            return Err(HighlightError::Doc(e));
        },
        Ok(Some(o)) => o,
        Ok(None) => {
            let pid = match page_id_of(d, page) {
                None => {
                    return Err(HighlightError::PageNotFound);
                },
                Some(p) => p,
            };
            proof {
                assert(page_table(*d).dom().contains(page) && page_table(*d)[page] == pid);
            }
            match page_media_entry(d, pid) {
                Err(e) => {
                    return Err(HighlightError::Doc(e));
                },
                Ok(None) => {
                    return Err(HighlightError::MediaBoxMissing);
                },
                Ok(Some(o)) => o,
            }
        },
    };
    let arr = match obj_as_array(entry) {
        None => {
            return Err(HighlightError::MediaBoxMalformed);
        },
        Some(a) => a,
    };
    decode_media(arr)
}

/// One attachment's effect on a page's annotation slot: the identifier is
/// appended to the page's logical list, and the storage representation is
/// kept — except that an absent list comes into being as an inline one.
pub open spec fn attach_step(
    d0: lopdf::Document,
    d1: lopdf::Document,
    pid: (u32, u16),
    annot: (u32, u16),
) -> bool {
    &&& annots_ids(d1, pid) == annots_ids(d0, pid).push(annot)
    &&& annots_slot(d1, pid) == (if annots_slot(d0, pid) is Absent {
        AnnotsSlot::Inline
    } else {
        annots_slot(d0, pid)
    })
}

/// Append `annotation_id` to the annotation list of page `page`, creating
/// the list when absent and going through either storage representation.
/// This succeeds exactly when the page exists and its annotation storage is
/// not malformed; on any failure the document is left exactly as it was.
/// Where page dictionaries are unaliased, no other page's storage shape
/// changes, and no other page's inline (or absent) list does either — a
/// page sharing the very array an indirect slot references moves with it.
pub fn attach_annotation(d: &mut lopdf::Document, page: u32, annotation_id: (u32, u16)) -> (r:
    Result<(), HighlightError>)
    ensures
        r is Ok <==> (page_table(*old(d)).dom().contains(page) && !(annots_slot(
            *old(d),
            page_table(*old(d))[page],
        ) is Malformed)),
        (!page_table(*old(d)).dom().contains(page)) <==> (r matches Err(e) && e is PageNotFound),
        r matches Ok(_) ==> attach_step(*old(d), *final(d), page_table(*old(d))[page], annotation_id)
            && (annots_slot(*old(d), page_table(*old(d))[page]) is Absent ==> annots_ids(
            *old(d),
            page_table(*old(d))[page],
        ) == Seq::<(u32, u16)>::empty()),
        r matches Ok(_) ==> used_ids(*final(d)) == used_ids(*old(d)) && id_space_full(*final(d))
            == id_space_full(*old(d)),
        r matches Ok(_) && pages_unaliased(*old(d)) ==> forall|q: (u32, u16)|
            q != page_table(*old(d))[page] ==> #[trigger] annots_slot(*final(d), q) == annots_slot(
                *old(d),
                q,
            ),
        r matches Ok(_) && pages_unaliased(*old(d)) ==> forall|q: (u32, u16)|
            q != page_table(*old(d))[page] && (annots_slot(*old(d), q) is Inline || annots_slot(
                *old(d),
                q,
            ) is Absent) ==> #[trigger] annots_ids(*final(d), q) == annots_ids(*old(d), q),
        r matches Ok(_) ==> forall|q: (u32, u16)| #[trigger]
            is_highlight_annot(*final(d), q) == is_highlight_annot(*old(d), q),
        r matches Ok(_) ==> forall|q: (u32, u16)| #[trigger]
            annot_rect_of(*final(d), q) == annot_rect_of(*old(d), q),
        r matches Ok(_) ==> forall|q: (u32, u16)| #[trigger]
            annot_quad_of(*final(d), q) == annot_quad_of(*old(d), q),
        r matches Err(_) ==> *final(d) == *old(d),
        r matches Err(e) ==> (e is PageNotFound || e is AnnotsMalformed),
        r matches Err(e) && e is AnnotsMalformed ==> annots_slot(
            *old(d),
            page_table(*old(d))[page],
        ) is Malformed,
{
    let pid = match page_id_of(d, page) {
        None => {
            return Err(HighlightError::PageNotFound);
        },
        Some(p) => p,
    };
    proof {
        assert(page_table(*d).dom().contains(page) && page_table(*d)[page] == pid);
        assert(is_page_id(*d, pid));
    }
    let slot = match read_annots_slot(d, pid) {
        Err(e) => {
            return Err(HighlightError::Doc(e));
        },
        Ok(s) => s,
    };
    match slot {
        AnnotsSlot::Absent => {
            match set_fresh_annots(d, pid, annotation_id) {
                Ok(_) => {
                    proof {
                        assert(annots_ids(*final(d), pid) =~= annots_ids(*old(d), pid).push(
                            annotation_id,
                        ));
                    }
                    Ok(())
                },
                Err(e) => Err(HighlightError::Doc(e)),
            }
        },
        AnnotsSlot::Inline => {
            match push_inline_annot(d, pid, annotation_id) {
                Ok(_) => Ok(()),
                Err(e) => Err(HighlightError::Doc(e)),
            }
        },
        AnnotsSlot::Indirect(target) => {
            match push_referenced_annot(d, pid, target, annotation_id) {
                Ok(_) => Ok(()),
                Err(e) => Err(HighlightError::Doc(e)),
            }
        },
        AnnotsSlot::Malformed => Err(HighlightError::AnnotsMalformed),
    }
}

/// Allocate a fresh annotation object: a highlight with the given rectangle
/// and quadrilateral-corner values. Succeeds with the fresh identifier
/// unless the document's identifier space is exhausted; nothing already in
/// the document — in particular no page's annotation list — is touched.
pub fn build_highlight_annotation(d: &mut lopdf::Document, rect: &Vec<i64>, quad: &Vec<i64>) -> (r:
    Result<(u32, u16), HighlightError>)
    ensures
        r is Ok <==> !id_space_full(*old(d)),
        r matches Err(e) ==> e is IdSpaceExhausted && *final(d) == *old(d),
        r matches Ok(id) ==> used_ids(*final(d)) == used_ids(*old(d)).insert(id)
            && is_highlight_annot(*final(d), id) && annot_rect_of(*final(d), id) == rect@
            && annot_quad_of(*final(d), id) == quad@,
        well_allocated(*old(d)) ==> (r matches Ok(id) ==> !used_ids(*old(d)).contains(id)
            && page_table(*final(d)) == page_table(*old(d)) && well_allocated(*final(d)) && (
        pages_unaliased(*old(d)) ==> pages_unaliased(*final(d)))),
        r is Ok && well_allocated(*old(d)) ==> forall|pid: (u32, u16)| #[trigger]
            annots_slot(*final(d), pid) == annots_slot(*old(d), pid),
        r is Ok && well_allocated(*old(d)) ==> forall|pid: (u32, u16)| #[trigger]
            annots_ids(*final(d), pid) == annots_ids(*old(d), pid),
{
    match add_annot_object(d, rect, quad) {
        Some(id) => Ok(id),
        None => Err(HighlightError::IdSpaceExhausted),
    }
}

/// The whole in-memory operation: resolve the page's bounding box, place
/// the highlight rectangle inside it, build the annotation object and
/// attach its identifier to the page. It succeeds whenever the page exists,
/// the selected bounding-box entry decodes, the placement fits the machine
/// range, identifiers remain and the page's annotation storage is not
/// malformed; a missing page fails before anything is written, and every
/// failure but a malformed annotation slot leaves the document exactly as
/// it was. A malformed slot is discovered only after the allocation, so
/// that failure leaves exactly one fresh, unreferenced annotation object
/// behind and nothing else changed.
pub fn add_highlight(d: &mut lopdf::Document, page: u32, bbox: BBox) -> (r: Result<
    (u32, u16),
    HighlightError,
>)
    ensures
        !page_table(*old(d)).dom().contains(page) ==> (r matches Err(e) && e is PageNotFound)
            && *final(d) == *old(d),
        r matches Ok(id) ==> page_table(*old(d)).dom().contains(page) && used_ids(*final(d))
            == used_ids(*old(d)).insert(id) && is_highlight_annot(*final(d), id),
        well_allocated(*old(d)) ==> (r matches Ok(id) ==> !used_ids(*old(d)).contains(id)
            && attach_step(*old(d), *final(d), page_table(*old(d))[page], id)),
        r matches Ok(_) && well_allocated(*old(d)) && pages_unaliased(*old(d)) ==> forall|
            q: (u32, u16),
        |
            q != page_table(*old(d))[page] ==> #[trigger] annots_slot(*final(d), q) == annots_slot(
                *old(d),
                q,
            ),
        r matches Ok(_) && well_allocated(*old(d)) && pages_unaliased(*old(d)) ==> forall|
            q: (u32, u16),
        |
            q != page_table(*old(d))[page] && (annots_slot(*old(d), q) is Inline || annots_slot(
                *old(d),
                q,
            ) is Absent) ==> #[trigger] annots_ids(*final(d), q) == annots_ids(*old(d), q),
        page_table(*old(d)).dom().contains(page) && root_resolves(*old(d)) && !id_space_full(
            *old(d),
        ) && well_allocated(*old(d)) && !(annots_slot(
            *old(d),
            page_table(*old(d))[page],
        ) is Malformed) ==> (media_entry(
            *old(d),
            page,
        ) matches Some(o) ==> (obj_array(o) matches Some(s) ==> (media_decodes(s)
            && bbox.offset_fits(media_bbox(s)) ==> (r matches Ok(id) && annot_rect_of(
            *final(d),
            id,
        ) == bbox.offset_model(media_bbox(s)).rect_seq() && annot_quad_of(*final(d), id)
            == bbox.offset_model(media_bbox(s)).quad_seq())))),
        r matches Err(e) ==> (e is PageNotFound || e is Doc || e is MediaBoxMissing
            || e is MediaBoxMalformed || e is CoordinateOverflow || e is IdSpaceExhausted
            || e is AnnotsMalformed),
        r matches Err(e) && (e is Doc || e is MediaBoxMissing || e is MediaBoxMalformed
            || e is CoordinateOverflow || e is IdSpaceExhausted) ==> *final(d) == *old(d),
        well_allocated(*old(d)) ==> (r matches Err(e) && !(e is AnnotsMalformed) ==> *final(d)
            == *old(d)),
        r matches Err(e) && e is AnnotsMalformed ==> (exists|id: (u32, u16)|
            used_ids(*final(d)) == #[trigger] used_ids(*old(d)).insert(id)),
        r matches Err(e) && e is AnnotsMalformed && well_allocated(*old(d)) ==> page_table(
            *final(d),
        ) == page_table(*old(d)) && (forall|q: (u32, u16)| #[trigger]
            annots_slot(*final(d), q) == annots_slot(*old(d), q)) && (forall|q: (u32, u16)|
            #[trigger] annots_ids(*final(d), q) == annots_ids(*old(d), q)),
{
    if page_id_of(d, page).is_none() {
        return Err(HighlightError::PageNotFound);
    }
    let page_box = match mediabox(d, page) {
        Err(e) => {
            return Err(e);
        },
        Ok(b) => b,
    };
    if !bbox.check_offset_fits(&page_box) {
        return Err(HighlightError::CoordinateOverflow);
    }
    let placed = bbox.offset_within(page_box);
    let rect = placed.as_vec();
    let quad = placed.as_quad_vec();
    let id = match build_highlight_annotation(d, &rect, &quad) {
        Err(e) => {
            return Err(e);
        },
        Ok(id) => id,
    };
    match attach_annotation(d, page, id) {
        Ok(_) => Ok(id),
        Err(e) => Err(e),
    }
}

/// Attaching twice in sequence appends both identifiers, in insertion
/// order, whatever the starting storage representation; a list that started
/// absent has become an inline one.
pub proof fn lemma_attach_twice(
    d0: lopdf::Document,
    d1: lopdf::Document,
    d2: lopdf::Document,
    pid: (u32, u16),
    a1: (u32, u16),
    a2: (u32, u16),
)
    requires
        attach_step(d0, d1, pid, a1),
        attach_step(d1, d2, pid, a2),
    ensures
        annots_ids(d2, pid) == annots_ids(d0, pid).push(a1).push(a2),
        annots_slot(d0, pid) is Absent ==> annots_slot(d2, pid) is Inline,
{
}

/// Attaching two annotations in sequence to a page with no prior annotation
/// list results in a list of exactly the two identifiers, in insertion
/// order.
pub proof fn lemma_attach_twice_fresh(
    d0: lopdf::Document,
    d1: lopdf::Document,
    d2: lopdf::Document,
    pid: (u32, u16),
    a1: (u32, u16),
    a2: (u32, u16),
)
    requires
        annots_slot(d0, pid) is Absent,
        annots_ids(d0, pid) == Seq::<(u32, u16)>::empty(),
        attach_step(d0, d1, pid, a1),
        attach_step(d1, d2, pid, a2),
    ensures
        annots_ids(d2, pid) == seq![a1, a2],
        annots_ids(d2, pid).len() == 2,
        annots_slot(d2, pid) is Inline,
{
    assert(annots_ids(d2, pid) =~= seq![a1, a2]);
}

/// Attaching to a page whose annotation list is stored as an indirect
/// reference appends to the referenced array in place: afterwards the
/// page's key still holds the very same reference.
pub proof fn lemma_attach_keeps_indirect(
    d0: lopdf::Document,
    d1: lopdf::Document,
    pid: (u32, u16),
    target: (u32, u16),
    annot: (u32, u16),
)
    requires
        annots_slot(d0, pid) == AnnotsSlot::Indirect(target),
        attach_step(d0, d1, pid, annot),
    ensures
        annots_slot(d1, pid) == AnnotsSlot::Indirect(target),
        annots_ids(d1, pid) == annots_ids(d0, pid).push(annot),
{
}

} // verus!
