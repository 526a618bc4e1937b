//! The trusted boundary around the document-object library (lopdf).
//!
//! The document is an opaque object graph. The spec functions without a body
//! below give names to the slices of that graph the crate's logic reads and
//! mutates; each wrapper's contract states, over those names, what the
//! library call it makes does, as lopdf's source shows it. Everything proved
//! about the annotation protocol rests on these contracts.

use vstd::prelude::*;

verus! {

#[verifier::external_type_specification]
#[verifier::external_body]
pub struct ExDocument(lopdf::Document);

#[verifier::external_type_specification]
#[verifier::external_body]
pub struct ExDictionary(lopdf::Dictionary);

#[verifier::external_type_specification]
#[verifier::external_body]
pub struct ExObject(lopdf::Object);

#[verifier::external_type_specification]
#[verifier::external_body]
pub struct ExLopdfError(lopdf::Error);

/// How a page stores its annotation list.
#[derive(Clone, Copy, Debug, PartialEq, Eq)]
pub enum AnnotsSlot {
    /// The page dictionary has no annotation key.
    Absent,
    /// The key holds the array of annotation references directly.
    Inline,
    /// The key holds an indirect reference that leads (through the
    /// document's dereferencing) to an array stored elsewhere in the object
    /// graph; the payload is the referenced object's identifier.
    Indirect((u32, u16)),
    /// The key holds anything else: a value that is neither an array nor a
    /// reference, or a reference that does not lead to an array — or `pid`
    /// does not name a dictionary at all.
    Malformed,
}

/// The document's page table: page number (counted from 1, in page-tree
/// order) to the page dictionary's object identifier. This is what
/// `lopdf::Document::get_pages` computes.
pub uninterp spec fn page_table(d: lopdf::Document) -> Map<u32, (u32, u16)>;

/// `pid` is one of the page identifiers of the document's page table. The
/// page-tree walk yields only identifiers whose dictionary fetch succeeds,
/// so the wrappers promise success of such fetches under this condition.
pub open spec fn is_page_id(d: lopdf::Document, pid: (u32, u16)) -> bool {
    exists|n: u32| #[trigger] page_table(d).dom().contains(n) && page_table(d)[n] == pid
}

/// The storage representation of the annotation list of the page at `pid`:
/// the shape of the Annots entry of the (dereferenced) page dictionary, as
/// `AnnotsSlot` describes it.
pub uninterp spec fn annots_slot(d: lopdf::Document, pid: (u32, u16)) -> AnnotsSlot;

/// The logical annotation list of the page at `pid`: the entries of the
/// page's annotation array (the inline array, or the array its reference
/// leads to), each read as the object identifier it refers to. Empty when
/// the page has no annotation key.
pub uninterp spec fn annots_ids(d: lopdf::Document, pid: (u32, u16)) -> Seq<(u32, u16)>;

/// The set of object identifiers present in the document's object map.
pub uninterp spec fn used_ids(d: lopdf::Document) -> Set<(u32, u16)>;

/// The object identifier space is exhausted: the document's running
/// maximum identifier has reached its cap, so no further object can be
/// allocated.
pub uninterp spec fn id_space_full(d: lopdf::Document) -> bool;

/// The document's allocation bookkeeping is sound: every object number in
/// the object map is at most the running maximum identifier, and the page
/// tree holds no more kid entries than the map holds objects, so the page
/// walk is never cut short by its iteration limit. The loader establishes
/// this for every document it reads; lopdf's public fields and `set_object`
/// allow breaking it by hand, so the clauses that depend on it say so.
pub uninterp spec fn well_allocated(d: lopdf::Document) -> bool;

/// Page dictionaries are unaliased: the dictionary a page-table identifier
/// leads to is led to by no other identifier of the object graph. The
/// parser admits graphs where two identifiers share one dictionary (an
/// indirect object may itself be a bare reference), so the frame clauses
/// over other pages hold only under this condition.
pub uninterp spec fn pages_unaliased(d: lopdf::Document) -> bool;

/// The object at `id` is a dictionary carrying the highlight-annotation
/// markers: a Type entry naming an annotation and a Subtype entry naming a
/// highlight.
pub uninterp spec fn is_highlight_annot(d: lopdf::Document, id: (u32, u16)) -> bool;

/// The whole-unit values of the inline array under the Rect key of the
/// dictionary at `id`.
pub uninterp spec fn annot_rect_of(d: lopdf::Document, id: (u32, u16)) -> Seq<i64>;

/// The whole-unit values of the inline array under the QuadPoints key of
/// the dictionary at `id`.
pub uninterp spec fn annot_quad_of(d: lopdf::Document, id: (u32, u16)) -> Seq<i64>;

/// The page-tree root resolves: the document has a catalog and its Pages
/// entry leads (through indirection) to a dictionary.
pub uninterp spec fn root_resolves(d: lopdf::Document) -> bool;

/// The MediaBox entry of the page-tree root node, `None` when the root has
/// no such entry (meaningful only when the root resolves).
pub uninterp spec fn root_media(d: lopdf::Document) -> Option<lopdf::Object>;

/// The MediaBox entry of the page dictionary at `pid`, `None` when the page
/// has no such entry.
pub uninterp spec fn page_media(d: lopdf::Document, pid: (u32, u16)) -> Option<lopdf::Object>;

/// The entries of an array object, `None` for any other object.
pub uninterp spec fn obj_array(o: lopdf::Object) -> Option<Seq<lopdf::Object>>;

/// The numeric value of an object as a whole coordinate unit: the value of
/// an Integer object, a Real object's value cast to an integer (truncated,
/// saturating at the range ends, zero for a non-number), `None` for
/// anything else.
pub uninterp spec fn obj_int(o: lopdf::Object) -> Option<i64>;

/// Relies on `lopdf::Document::get_pages`, which maps page numbers 1, 2, ...
/// in page-tree order to the page dictionaries' object identifiers.
#[verifier::external_body]
pub(crate) fn page_id_of(d: &lopdf::Document, page: u32) -> (r: Option<(u32, u16)>)
    ensures
        r is Some <==> page_table(*d).dom().contains(page),
        r matches Some(pid) ==> page_table(*d)[page] == pid,
{
    d.get_pages().get(&page).copied()
}

/// Relies on `lopdf::Document::get_dictionary` (fetch the page dictionary,
/// dereferencing), `lopdf::Dictionary::get` with the Annots key (whose only
/// error is a missing key), and — for a Reference entry —
/// `lopdf::Document::get_object` and `lopdf::Object::as_array` to check
/// that the reference leads to an array; the shape is reported as an
/// `AnnotsSlot`. The page-tree walk yields only identifiers whose
/// dictionary fetch succeeds, so for a page-table `pid` the fetch cannot
/// fail and the result is `Ok`. An `Err` surfaces `get_dictionary`'s
/// failure.
#[verifier::external_body]
pub(crate) fn read_annots_slot(d: &lopdf::Document, pid: (u32, u16)) -> (r: Result<
    AnnotsSlot,
    lopdf::Error,
>)
    ensures
        is_page_id(*d, pid) ==> r is Ok,
        r matches Ok(s) ==> s == annots_slot(*d, pid),
        r matches Ok(s) && s is Absent ==> annots_ids(*d, pid) == Seq::<(u32, u16)>::empty(),
{
    let page = d.get_dictionary(pid)?;
    Ok(match page.get(b"Annots") {
        Err(_) => AnnotsSlot::Absent,
        Ok(lopdf::Object::Reference(t)) => {
            match d.get_object(*t).map(|o| o.as_array().is_ok()) {
                Ok(true) => AnnotsSlot::Indirect(*t),
                _ => AnnotsSlot::Malformed,
            }
        },
        Ok(lopdf::Object::Array(_)) => AnnotsSlot::Inline,
        Ok(_) => AnnotsSlot::Malformed,
    })
}

/// Relies on `lopdf::Document::get_dictionary_mut` and
/// `lopdf::Dictionary::set`: setting the page's Annots key to a fresh
/// one-element array holding a reference to `annot`. For a page-table `pid`
/// the dictionary fetch succeeds (the page-tree walk checked it), so the
/// call returns `Ok`. Only the Annots entry of the page dictionary is
/// written: the object map's key set, the page tree and every dictionary's
/// Rect, QuadPoints, Type and Subtype entries are untouched, and — when no
/// other identifier shares this page's dictionary — so is every other
/// identifier's annotation storage. On failure nothing has been written.
#[verifier::external_body]
pub(crate) fn set_fresh_annots(d: &mut lopdf::Document, pid: (u32, u16), annot: (u32, u16)) -> (r:
    Result<(), lopdf::Error>)
    ensures
        is_page_id(*old(d), pid) ==> r is Ok,
        r matches Ok(_) ==> annots_slot(*final(d), pid) == AnnotsSlot::Inline && annots_ids(
            *final(d),
            pid,
        ) == seq![annot] && used_ids(*final(d)) == used_ids(*old(d)) && page_table(*final(d))
            == page_table(*old(d)) && id_space_full(*final(d)) == id_space_full(*old(d)),
        r matches Ok(_) && pages_unaliased(*old(d)) ==> forall|q: (u32, u16)|
            q != pid ==> #[trigger] annots_slot(*final(d), q) == annots_slot(*old(d), q),
        r matches Ok(_) && pages_unaliased(*old(d)) ==> forall|q: (u32, u16)|
            q != pid ==> #[trigger] annots_ids(*final(d), q) == annots_ids(*old(d), q),
        r matches Ok(_) ==> forall|q: (u32, u16)| #[trigger]
            is_highlight_annot(*final(d), q) == is_highlight_annot(*old(d), q),
        r matches Ok(_) ==> forall|q: (u32, u16)| #[trigger]
            annot_rect_of(*final(d), q) == annot_rect_of(*old(d), q),
        r matches Ok(_) ==> forall|q: (u32, u16)| #[trigger]
            annot_quad_of(*final(d), q) == annot_quad_of(*old(d), q),
        r matches Err(_) ==> *final(d) == *old(d),
{
    let page = d.get_dictionary_mut(pid)?;
    page.set("Annots", vec![lopdf::Object::Reference(annot)]);
    Ok(())
}

/// Relies on `lopdf::Document::get_dictionary_mut`,
/// `lopdf::Dictionary::get_mut` with the Annots key and
/// `lopdf::Object::as_array_mut`: appending a reference to `annot` to the
/// page's inline annotation array, preserving the existing entries and
/// their order. With the slot known to be inline the page dictionary is
/// reachable, the key present and its value an array, so every step
/// succeeds. The push mutates that array in place: the object map's key
/// set, the page tree and every dictionary's Rect, QuadPoints, Type and
/// Subtype entries are untouched, and — when no other identifier shares
/// this page's dictionary — so is every other identifier's annotation
/// storage.
#[verifier::external_body]
pub(crate) fn push_inline_annot(d: &mut lopdf::Document, pid: (u32, u16), annot: (u32, u16)) -> (r:
    Result<(), lopdf::Error>)
    requires
        annots_slot(*old(d), pid) is Inline,
    ensures
        r is Ok,
        annots_slot(*final(d), pid) is Inline,
        annots_ids(*final(d), pid) == annots_ids(*old(d), pid).push(annot),
        used_ids(*final(d)) == used_ids(*old(d)),
        page_table(*final(d)) == page_table(*old(d)),
        id_space_full(*final(d)) == id_space_full(*old(d)),
        pages_unaliased(*old(d)) ==> forall|q: (u32, u16)|
            q != pid ==> #[trigger] annots_slot(*final(d), q) == annots_slot(*old(d), q),
        pages_unaliased(*old(d)) ==> forall|q: (u32, u16)|
            q != pid ==> #[trigger] annots_ids(*final(d), q) == annots_ids(*old(d), q),
        forall|q: (u32, u16)| #[trigger]
            is_highlight_annot(*final(d), q) == is_highlight_annot(*old(d), q),
        forall|q: (u32, u16)| #[trigger] annot_rect_of(*final(d), q) == annot_rect_of(*old(d), q),
        forall|q: (u32, u16)| #[trigger] annot_quad_of(*final(d), q) == annot_quad_of(*old(d), q),
{
    let array = d.get_dictionary_mut(pid)?.get_mut(b"Annots")?.as_array_mut()?;
    array.push(lopdf::Object::Reference(annot));
    Ok(())
}

/// Relies on `lopdf::Document::get_object_mut` (which dereferences exactly
/// as the read path does) and `lopdf::Object::as_array_mut`: appending a
/// reference to `annot`, in place, to the array the page's Annots reference
/// leads to. With the slot known to be an indirect reference leading to an
/// array, both steps succeed. The page dictionary itself is not touched, so
/// its key still holds the same reference afterwards; the push mutates the
/// referenced array in place: the object map's key set, every dictionary's
/// entries and every page's storage shape are untouched, and so is the list
/// of every page that stores its own inline (or no) array — another page
/// referencing this very array moves with it, and a crafted graph may even
/// thread the array through the page tree, so nothing is claimed of the
/// page table here.
#[verifier::external_body]
pub(crate) fn push_referenced_annot(
    d: &mut lopdf::Document,
    pid: (u32, u16),
    target: (u32, u16),
    annot: (u32, u16),
) -> (r: Result<(), lopdf::Error>)
    requires
        annots_slot(*old(d), pid) == AnnotsSlot::Indirect(target),
    ensures
        r is Ok,
        annots_slot(*final(d), pid) == AnnotsSlot::Indirect(target),
        annots_ids(*final(d), pid) == annots_ids(*old(d), pid).push(annot),
        used_ids(*final(d)) == used_ids(*old(d)),
        id_space_full(*final(d)) == id_space_full(*old(d)),
        forall|q: (u32, u16)|
            q != pid ==> #[trigger] annots_slot(*final(d), q) == annots_slot(*old(d), q),
        forall|q: (u32, u16)|
            q != pid && (annots_slot(*old(d), q) is Inline || annots_slot(*old(d), q) is Absent)
                ==> #[trigger] annots_ids(*final(d), q) == annots_ids(*old(d), q),
        forall|q: (u32, u16)| #[trigger]
            is_highlight_annot(*final(d), q) == is_highlight_annot(*old(d), q),
        forall|q: (u32, u16)| #[trigger] annot_rect_of(*final(d), q) == annot_rect_of(*old(d), q),
        forall|q: (u32, u16)| #[trigger] annot_quad_of(*final(d), q) == annot_quad_of(*old(d), q),
{
    let _ = pid;
    let array = d.get_object_mut(target)?.as_array_mut()?;
    array.push(lopdf::Object::Reference(annot));
    Ok(())
}

/// Relies on `lopdf::Document::add_object`, which allocates the identifier
/// `(max_id + 1, 0)`, and on `lopdf::Dictionary::set` to shape the
/// annotation dictionary: a Type marker `Annot`, a Subtype marker
/// `Highlight`, the rectangle values under Rect and the corner values under
/// QuadPoints, each value array inline. A `max_id` already at its cap would
/// make the increment overflow, so that case is refused up front with
/// nothing written. Freshness of the identifier and the page-walk frame
/// hold only where the allocation bookkeeping is sound (`well_allocated`):
/// a graph whose `max_id` was lowered by hand can make `add_object`
/// overwrite a live object, and one whose page walk is cut short by its
/// iteration limit can gain a page when the object count grows.
#[verifier::external_body]
pub(crate) fn add_annot_object(d: &mut lopdf::Document, rect: &Vec<i64>, quad: &Vec<i64>) -> (r:
    Option<(u32, u16)>)
    ensures
        r is None <==> id_space_full(*old(d)),
        r is None ==> *final(d) == *old(d),
        r matches Some(id) ==> used_ids(*final(d)) == used_ids(*old(d)).insert(id)
            && is_highlight_annot(*final(d), id) && annot_rect_of(*final(d), id) == rect@
            && annot_quad_of(*final(d), id) == quad@,
        well_allocated(*old(d)) ==> (r matches Some(id) ==> !used_ids(*old(d)).contains(id)
            && page_table(*final(d)) == page_table(*old(d)) && well_allocated(*final(d)) && (
        pages_unaliased(*old(d)) ==> pages_unaliased(*final(d)))),
        r is Some && well_allocated(*old(d)) ==> forall|pid: (u32, u16)| #[trigger]
            annots_slot(*final(d), pid) == annots_slot(*old(d), pid),
        r is Some && well_allocated(*old(d)) ==> forall|pid: (u32, u16)| #[trigger]
            annots_ids(*final(d), pid) == annots_ids(*old(d), pid),
        r matches Some(id) ==> forall|q: (u32, u16)|
            q != id ==> #[trigger] is_highlight_annot(*final(d), q) == is_highlight_annot(
                *old(d),
                q,
            ),
        r matches Some(id) ==> forall|q: (u32, u16)|
            q != id ==> #[trigger] annot_rect_of(*final(d), q) == annot_rect_of(*old(d), q),
        r matches Some(id) ==> forall|q: (u32, u16)|
            q != id ==> #[trigger] annot_quad_of(*final(d), q) == annot_quad_of(*old(d), q),
{
    if d.max_id == u32::MAX {
        return None;
    }
    let mut dict = lopdf::Dictionary::new();
    dict.set("Type", lopdf::Object::Name(b"Annot".to_vec()));
    dict.set("Subtype", lopdf::Object::Name(b"Highlight".to_vec()));
    dict.set("Rect", rect.iter().map(|v| lopdf::Object::Integer(*v)).collect::<Vec<_>>());
    dict.set("QuadPoints", quad.iter().map(|v| lopdf::Object::Integer(*v)).collect::<Vec<_>>());
    Some(d.add_object(dict))
}

/// Relies on `lopdf::Document::catalog`, `lopdf::Dictionary::get_deref`
/// with the Pages key, `lopdf::Object::as_dict` and
/// `lopdf::Dictionary::get` with the MediaBox key: the page-tree root's
/// bounding-box entry, `Ok(None)` when the resolving root has no such
/// entry, `Err` exactly when the root itself cannot be reached.
#[verifier::external_body]
pub(crate) fn root_media_entry<'a>(d: &'a lopdf::Document) -> (r: Result<
    Option<&'a lopdf::Object>,
    lopdf::Error,
>)
    ensures
        r is Ok <==> root_resolves(*d),
        r matches Ok(Some(o)) ==> root_media(*d) == Some(*o),
        r matches Ok(e) && e is None ==> root_media(*d) is None,
{
    let pages = d.catalog()?.get_deref(b"Pages", d)?.as_dict()?;
    Ok(pages.get(b"MediaBox").ok())
}

/// Relies on `lopdf::Document::get_dictionary` and `lopdf::Dictionary::get`
/// with the MediaBox key: the page's own bounding-box entry, `Ok(None)`
/// when the page has no such entry. For a page-table `pid` the dictionary
/// fetch succeeds (the page-tree walk checked it), so the result is `Ok`;
/// `Err` surfaces a failed fetch.
#[verifier::external_body]
pub(crate) fn page_media_entry<'a>(d: &'a lopdf::Document, pid: (u32, u16)) -> (r: Result<
    Option<&'a lopdf::Object>,
    lopdf::Error,
>)
    ensures
        is_page_id(*d, pid) ==> r is Ok,
        r matches Ok(Some(o)) ==> page_media(*d, pid) == Some(*o),
        r matches Ok(e) && e is None ==> page_media(*d, pid) is None,
{
    let page = d.get_dictionary(pid)?;
    Ok(page.get(b"MediaBox").ok())
}

/// Relies on `lopdf::Object::as_array`: the object's entries when it is an
/// array, `None` otherwise.
#[verifier::external_body]
pub(crate) fn obj_as_array<'a>(o: &'a lopdf::Object) -> (r: Option<&'a Vec<lopdf::Object>>)
    ensures
        r matches Some(a) ==> obj_array(*o) == Some(a@),
        r is None ==> obj_array(*o) is None,
{
    o.as_array().ok()
}

/// Relies on `lopdf::Object::as_i64` and `lopdf::Object::as_float`: the
/// whole-unit value of a numeric object — an Integer's value exactly, a
/// Real's value through the integer cast (truncating, saturating at the
/// range ends, zero for a non-number) — and `None` for a non-numeric
/// object.
#[verifier::external_body]
pub(crate) fn obj_as_int(o: &lopdf::Object) -> (r: Option<i64>)
    ensures
        r == obj_int(*o),
{
    match o.as_i64() {
        Ok(v) => Some(v),
        Err(_) => o.as_float().ok().map(|v| v as i64),
    }
}

} // verus!
