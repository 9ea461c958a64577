//! Extraction of highlight and comment annotations from a PDF document.

use crate::pdf_model::{
    contents_of, document_object, document_objects, document_page_refs, load_document, lookup,
    name_bytes, numbered_from_one, PageRef, PdfContents, PdfDictionary, PdfObject,
};
use crate::pdf_text::{decode_pdf_bytes, decoded_text};
use crate::text::{text_view, trim, trimmed};
use vstd::prelude::*;

verus! {

/// One component of an annotation's colour, as the file wrote it.
#[derive(Clone, Copy, Debug, PartialEq, Eq)]
pub enum ColorComponent {
    /// A real number, held as the bit pattern of its 32-bit float.
    Real(u32),
    Integer(i64),
}

/// One annotation found on one page.
#[derive(Clone, Debug, PartialEq, Eq)]
pub struct Highlight {
    pub page: u32,
    /// The text under the annotation. It is not recovered and stays empty.
    pub highlighted_text: String,
    pub annotation_text: Option<String>,
    pub date: Option<String>,
    /// `"annotation"` where the annotation carries text, else `"highlight"`.
    pub highlight_type: String,
    /// Three components for RGB, four for CMYK.
    pub color: Option<Vec<ColorComponent>>,
}

/// A `Highlight` as a mathematical value.
pub struct HighlightView {
    pub page: u32,
    pub highlighted_text: Seq<char>,
    pub annotation_text: Option<Seq<char>>,
    pub date: Option<Seq<char>>,
    pub highlight_type: Seq<char>,
    pub color: Option<Seq<ColorComponent>>,
}

/// Why no highlights could be read from a file.
#[derive(Clone, Copy, Debug, PartialEq, Eq)]
pub enum ExtractionError {
    /// The bytes are not a PDF document that can be loaded.
    Unreadable,
    /// The page tree lists a page whose object is missing or is no dictionary.
    MissingPage { number: u32 },
}

pub open spec fn color_view(color: Option<Vec<ColorComponent>>) -> Option<Seq<ColorComponent>> {
    match color {
        Some(c) => Some(c@),
        None => None,
    }
}

impl View for Highlight {
    type V = HighlightView;

    open spec fn view(&self) -> HighlightView {
        HighlightView {
            page: self.page,
            highlighted_text: self.highlighted_text@,
            annotation_text: text_view(self.annotation_text),
            date: text_view(self.date),
            highlight_type: self.highlight_type@,
            color: color_view(self.color),
        }
    }
}

/// The views of a list of highlights.
pub open spec fn views(highlights: Seq<Highlight>) -> Seq<HighlightView> {
    highlights.map_values(|h: Highlight| h@)
}

/// The text of a string object; nothing for any other object.
pub open spec fn object_text(obj: PdfObject) -> Option<Seq<char>> {
    match obj {
        PdfObject::Text(bytes) => Some(decoded_text(bytes@)),
        _ => None,
    }
}

/// The text of the string stored under `key`, if there is one and it decodes.
pub open spec fn entry_text(dict: PdfDictionary, key: Seq<char>) -> Option<Seq<char>> {
    match lookup(dict.entries@, name_bytes(key)) {
        Some(obj) => object_text(obj),
        None => None,
    }
}

/// `text` unless it is absent or empty.
pub open spec fn non_empty(text: Option<Seq<char>>) -> Option<Seq<char>> {
    match text {
        Some(t) if t.len() > 0 => Some(t),
        _ => None,
    }
}

/// The comment of an annotation: its `Contents`, trimmed, unless that is empty.
pub open spec fn annotation_text_of(dict: PdfDictionary) -> Option<Seq<char>> {
    match entry_text(dict, "Contents"@) {
        Some(t) => non_empty(Some(trimmed(t))),
        None => None,
    }
}

/// The modification date of an annotation: its `M`, unless that is empty.
pub open spec fn date_of(dict: PdfDictionary) -> Option<Seq<char>> {
    non_empty(entry_text(dict, "M"@))
}

/// A number as a colour component; nothing for any other object.
pub open spec fn component_of(obj: PdfObject) -> Option<ColorComponent> {
    match obj {
        PdfObject::Real(bits) => Some(ColorComponent::Real(bits)),
        PdfObject::Integer(i) => Some(ColorComponent::Integer(i)),
        _ => None,
    }
}

/// Whether every element of `items` is a number.
pub open spec fn all_numbers(items: Seq<PdfObject>) -> bool {
    forall|i: int| 0 <= i < items.len() ==> (#[trigger] component_of(items[i])) is Some
}

/// The colour of an annotation: the numbers of its `C` array, provided the
/// array is not empty and holds nothing but numbers.
pub open spec fn color_of(dict: PdfDictionary) -> Option<Seq<ColorComponent>> {
    match lookup(dict.entries@, name_bytes("C"@)) {
        Some(PdfObject::Array(items)) if items@.len() > 0 && all_numbers(items@) => Some(
            Seq::new(items@.len(), |i: int| component_of(items@[i])->0),
        ),
        _ => None,
    }
}

/// Whether the annotation's `Subtype` is one of `Highlight`, `Text`, `FreeText`.
pub open spec fn is_supported(dict: PdfDictionary) -> bool {
    match lookup(dict.entries@, name_bytes("Subtype"@)) {
        Some(PdfObject::Name(n)) => n@ == name_bytes("Highlight"@) || n@ == name_bytes("Text"@)
            || n@ == name_bytes("FreeText"@),
        _ => false,
    }
}

/// The record made from a supported annotation on page `page`.
pub open spec fn highlight_of(page: u32, dict: PdfDictionary) -> HighlightView {
    HighlightView {
        page,
        highlighted_text: Seq::empty(),
        annotation_text: annotation_text_of(dict),
        date: date_of(dict),
        highlight_type: if annotation_text_of(dict) is Some {
            "annotation"@
        } else {
            "highlight"@
        },
        color: color_of(dict),
    }
}

/// The records that one annotation dictionary gives: one or none.
pub open spec fn annotation_highlights(page: u32, dict: PdfDictionary) -> Seq<HighlightView> {
    if is_supported(dict) {
        seq![highlight_of(page, dict)]
    } else {
        Seq::empty()
    }
}

/// The dictionary behind one element of an `Annots` array: the element
/// itself, or the dictionary that its reference resolves to.
pub open spec fn entry_dictionary(
    objects: Map<(u32, u16), PdfObject>,
    entry: PdfObject,
) -> Option<PdfDictionary> {
    match entry {
        PdfObject::Dictionary(d) => Some(d),
        PdfObject::Reference(number, generation) => {
            if objects.contains_key((number, generation)) {
                match objects[(number, generation)] {
                    PdfObject::Dictionary(d) => Some(d),
                    _ => None,
                }
            } else {
                None
            }
        },
        _ => None,
    }
}

/// The records that one element of an `Annots` array gives.
pub open spec fn entry_highlights(
    objects: Map<(u32, u16), PdfObject>,
    page: u32,
    entry: PdfObject,
) -> Seq<HighlightView> {
    match entry_dictionary(objects, entry) {
        Some(d) => annotation_highlights(page, d),
        None => Seq::empty(),
    }
}

/// The records of the first `n` elements of an `Annots` array, in order.
pub open spec fn entries_highlights(
    objects: Map<(u32, u16), PdfObject>,
    page: u32,
    entries: Seq<PdfObject>,
    n: int,
) -> Seq<HighlightView>
    decreases n,
{
    if n <= 0 {
        Seq::empty()
    } else {
        entries_highlights(objects, page, entries, n - 1) + entry_highlights(
            objects,
            page,
            entries[n - 1],
        )
    }
}

/// The `Annots` array of a page, written in place or behind a reference.
/// `None` where the page has none or the reference leads to no array.
pub open spec fn page_annotations(
    objects: Map<(u32, u16), PdfObject>,
    page_dict: PdfDictionary,
) -> Option<Seq<PdfObject>> {
    match lookup(page_dict.entries@, name_bytes("Annots"@)) {
        Some(PdfObject::Array(items)) => Some(items@),
        Some(PdfObject::Reference(number, generation)) => {
            if objects.contains_key((number, generation)) {
                match objects[(number, generation)] {
                    PdfObject::Array(items) => Some(items@),
                    _ => None,
                }
            } else {
                None
            }
        },
        _ => None,
    }
}

/// The records of one page, given its dictionary. A page whose `Annots`
/// cannot be resolved gives none.
pub open spec fn page_dict_highlights(
    objects: Map<(u32, u16), PdfObject>,
    page: u32,
    page_dict: PdfDictionary,
) -> Seq<HighlightView> {
    match page_annotations(objects, page_dict) {
        Some(entries) => entries_highlights(objects, page, entries, entries.len() as int),
        None => Seq::empty(),
    }
}

/// The dictionary of a page, if its id resolves to one.
pub open spec fn page_dictionary(
    objects: Map<(u32, u16), PdfObject>,
    page: PageRef,
) -> Option<PdfDictionary> {
    if objects.contains_key(page.id) {
        match objects[page.id] {
            PdfObject::Dictionary(d) => Some(d),
            _ => None,
        }
    } else {
        None
    }
}

/// The records of the first `n` pages, in page order.
pub open spec fn pages_highlights(contents: PdfContents, n: int) -> Seq<HighlightView>
    decreases n,
{
    if n <= 0 {
        Seq::empty()
    } else {
        pages_highlights(contents, n - 1) + match page_dictionary(
            contents.objects,
            contents.pages[n - 1],
        ) {
            Some(d) => page_dict_highlights(contents.objects, contents.pages[n - 1].number, d),
            None => Seq::empty(),
        }
    }
}

/// Whether `res` is what extraction owes for a document with these contents:
/// the records of all pages where every page has a dictionary, and else the
/// number of the first page that has none.
pub open spec fn is_extraction_of(
    contents: PdfContents,
    res: Result<Vec<Highlight>, ExtractionError>,
) -> bool {
    match res {
        Ok(highlights) => {
            &&& forall|i: int|
                0 <= i < contents.pages.len() ==> (#[trigger] page_dictionary(
                    contents.objects,
                    contents.pages[i],
                )) is Some
            &&& views(highlights@) == pages_highlights(contents, contents.pages.len() as int)
        },
        Err(ExtractionError::MissingPage { number }) => exists|i: int|
            {
                &&& 0 <= i < contents.pages.len()
                &&& #[trigger] page_dictionary(contents.objects, contents.pages[i]) is None
                &&& contents.pages[i].number == number
                &&& forall|j: int|
                    0 <= j < i ==> (#[trigger] page_dictionary(
                        contents.objects,
                        contents.pages[j],
                    )) is Some
            },
        Err(ExtractionError::Unreadable) => false,
    }
}

/// Whether every record carries the page number `page`.
pub open spec fn all_on_page(records: Seq<HighlightView>, page: u32) -> bool {
    forall|j: int| 0 <= j < records.len() ==> (#[trigger] records[j]).page == page
}

/// Whether `number` is the number of one of the first `n` pages.
pub open spec fn is_listed_page(pages: Seq<PageRef>, n: int, number: u32) -> bool {
    exists|k: int| 0 <= k < n && k < pages.len() && (#[trigger] pages[k]).number == number
}

/// The records of an `Annots` array carry the number of its page.
pub proof fn lemma_entries_on_page(
    objects: Map<(u32, u16), PdfObject>,
    page: u32,
    entries: Seq<PdfObject>,
    n: int,
)
    ensures
        all_on_page(entries_highlights(objects, page, entries, n), page),
    decreases n,
{
    if n > 0 {
        lemma_entries_on_page(objects, page, entries, n - 1);
    }
}

/// Every record of a document carries the number of one of its pages.
pub proof fn lemma_highlights_on_listed_pages(contents: PdfContents, n: int)
    requires
        0 <= n <= contents.pages.len(),
    ensures
        forall|j: int|
            0 <= j < pages_highlights(contents, n).len() ==> is_listed_page(
                contents.pages,
                n,
                (#[trigger] pages_highlights(contents, n)[j]).page,
            ),
    decreases n,
{
    if n > 0 {
        lemma_highlights_on_listed_pages(contents, n - 1);
        let before = pages_highlights(contents, n - 1);
        let page = contents.pages[n - 1];
        let here = match page_dictionary(contents.objects, page) {
            Some(d) => page_dict_highlights(contents.objects, page.number, d),
            None => Seq::empty(),
        };
        match page_dictionary(contents.objects, page) {
            Some(d) => {
                match page_annotations(contents.objects, d) {
                    Some(entries) => {
                        lemma_entries_on_page(
                            contents.objects,
                            page.number,
                            entries,
                            entries.len() as int,
                        );
                    },
                    None => {},
                }
            },
            None => {},
        }
        assert(all_on_page(here, page.number));
        assert forall|j: int| 0 <= j < pages_highlights(contents, n).len() implies is_listed_page(
            contents.pages,
            n,
            (#[trigger] pages_highlights(contents, n)[j]).page,
        ) by {
            if j < before.len() {
                assert(pages_highlights(contents, n)[j] == before[j]);
                let k = choose|k: int|
                    0 <= k < n - 1 && k < contents.pages.len() && (#[trigger] contents.pages[k]).number
                        == before[j].page;
                assert(contents.pages[k].number == before[j].page);
            } else {
                assert(pages_highlights(contents, n)[j] == here[j - before.len()]);
                assert(contents.pages[n - 1].number == page.number);
            }
        }
    }
}

/// Where the pages are numbered from 1, every record of the document
/// carries a page number between 1 and the number of pages.
pub proof fn lemma_highlight_pages_from_one(contents: PdfContents)
    requires
        numbered_from_one(contents.pages),
    ensures
        forall|j: int|
            0 <= j < pages_highlights(contents, contents.pages.len() as int).len() ==> 1 <= (
            #[trigger] pages_highlights(contents, contents.pages.len() as int)[j]).page
                <= contents.pages.len(),
{
    let n = contents.pages.len() as int;
    lemma_highlights_on_listed_pages(contents, n);
    assert forall|j: int| 0 <= j < pages_highlights(contents, n).len() implies 1 <= (
    #[trigger] pages_highlights(contents, n)[j]).page <= contents.pages.len() by {
        let number = pages_highlights(contents, n)[j].page;
        assert(is_listed_page(contents.pages, n, number));
        let k = choose|k: int|
            0 <= k < n && k < contents.pages.len() && (#[trigger] contents.pages[k]).number
                == number;
        assert(contents.pages[k].number == k + 1);
    }
}

/// Appending one record to a list appends its view to the views.
pub proof fn lemma_views_push(highlights: Seq<Highlight>, h: Highlight)
    ensures
        views(highlights.push(h)) == views(highlights).push(h@),
{
    assert(views(highlights.push(h)) =~= views(highlights).push(h@));
}

/// The text of a string object, decoded; nothing for any other object.
pub fn decode_pdf_string(obj: &PdfObject) -> (res: Option<String>)
    ensures
        text_view(res) == object_text(*obj),
{
    match obj {
        PdfObject::Text(bytes) => Some(decode_pdf_bytes(bytes.as_slice())),
        _ => None,
    }
}

/// The colour of an annotation, from its `C` entry.
pub fn extract_color(dict: &PdfDictionary) -> (res: Option<Vec<ColorComponent>>)
    ensures
        color_view(res) == color_of(*dict),
{
    match dict.get("C") {
        Some(PdfObject::Array(items)) => {
            let mut color: Vec<ColorComponent> = Vec::new();
            let mut i: usize = 0;
            while i < items.len()
                invariant
                    i <= items.len(),
                    color@.len() == i,
                    lookup(dict.entries@, name_bytes("C"@)) == Some(PdfObject::Array(*items)),
                    forall|j: int|
                        0 <= j < i ==> component_of(items@[j]) == Some(#[trigger] color@[j]),
                decreases items.len() - i,
            {
                match &items[i] {
                    PdfObject::Real(bits) => color.push(ColorComponent::Real(*bits)),
                    PdfObject::Integer(value) => color.push(ColorComponent::Integer(*value)),
                    _ => {
                        assert(component_of(items@[i as int]) is None);
                        return None;
                    },
                }
                i += 1;
            }
            if color.len() == 0 {
                None
            } else {
                assert(all_numbers(items@)) by {
                    assert forall|j: int| 0 <= j < items@.len() implies (#[trigger] component_of(
                        items@[j],
                    )) is Some by {
                        assert(component_of(items@[j]) == Some(color@[j]));
                    }
                }
                assert(color@ =~= Seq::new(items@.len(), |i: int| component_of(items@[i])->0));
                Some(color)
            }
        },
        _ => None,
    }
}

/// The decoded text of the string stored under `key`.
fn entry_string(dict: &PdfDictionary, key: &str) -> (res: Option<String>)
    ensures
        text_view(res) == entry_text(*dict, key@),
{
    match dict.get(key) {
        Some(obj) => decode_pdf_string(obj),
        None => None,
    }
}

/// Whether the annotation is of a kind that is reported.
pub fn is_supported_annotation(dict: &PdfDictionary) -> (res: bool)
    ensures
        res == is_supported(*dict),
{
    match dict.get("Subtype") {
        Some(subtype) => subtype.is_name("Highlight") || subtype.is_name("Text")
            || subtype.is_name("FreeText"),
        None => false,
    }
}

/// The record for one annotation dictionary on page `page`: `Some` exactly
/// for the subtypes `Highlight`, `Text` and `FreeText`.
pub fn annotation_highlight(page: u32, dict: &PdfDictionary) -> (res: Option<Highlight>)
    ensures
        res is Some <==> is_supported(*dict),
        res matches Some(h) ==> h@ == highlight_of(page, *dict),
{
    if !is_supported_annotation(dict) {
        return None;
    }
    let annotation_text = match entry_string(dict, "Contents") {
        Some(raw) => {
            let text = trim(raw.as_str());
            if text.as_str().is_empty() {
                None
            } else {
                Some(text)
            }
        },
        None => None,
    };
    let date = match entry_string(dict, "M") {
        Some(text) => {
            if text.as_str().is_empty() {
                None
            } else {
                Some(text)
            }
        },
        None => None,
    };
    let color = extract_color(dict);
    let highlight_type = if annotation_text.is_some() {
        "annotation".to_owned()
    } else {
        "highlight".to_owned()
    };
    Some(
        Highlight {
            page,
            highlighted_text: String::new(),
            annotation_text,
            date,
            highlight_type,
            color,
        },
    )
}

/// Appends the records of the elements of one `Annots` array.
fn append_entries(
    doc: &lopdf::Document,
    page: u32,
    entries: &Vec<PdfObject>,
    out: &mut Vec<Highlight>,
)
    ensures
        views(final(out)@) == views(old(out)@) + entries_highlights(
            document_objects(*doc),
            page,
            entries@,
            entries@.len() as int,
        ),
{
    let ghost objects = document_objects(*doc);
    let ghost before = views(out@);
    let mut i: usize = 0;
    assert(before + entries_highlights(objects, page, entries@, 0) =~= before);
    while i < entries.len()
        invariant
            i <= entries.len(),
            objects == document_objects(*doc),
            views(out@) == before + entries_highlights(objects, page, entries@, i as int),
        decreases entries.len() - i,
    {
        let ghost so_far = entries_highlights(objects, page, entries@, i as int);
        let ghost step = entry_highlights(objects, page, entries@[i as int]);
        assert(before + (so_far + step) =~= (before + so_far) + step);
        let found: Option<Highlight> = match &entries[i] {
            PdfObject::Dictionary(dict) => annotation_highlight(page, dict),
            PdfObject::Reference(number, generation) => match document_object(
                doc,
                (*number, *generation),
            ) {
                Some(PdfObject::Dictionary(dict)) => annotation_highlight(page, &dict),
                _ => None,
            },
            _ => None,
        };
        match found {
            Some(h) => {
                proof {
                    lemma_views_push(out@, h);
                    assert(step =~= seq![h@]);
                    assert(views(out@).push(h@) =~= views(out@) + step);
                }
                out.push(h);
            },
            None => {
                assert(step =~= Seq::<HighlightView>::empty());
                assert(views(out@) + step =~= views(out@));
            },
        }
        i += 1;
    }
}

/// Appends the records of one page, given its dictionary.
fn append_page(doc: &lopdf::Document, page: u32, page_dict: &PdfDictionary, out: &mut Vec<Highlight>)
    ensures
        views(final(out)@) == views(old(out)@) + page_dict_highlights(
            document_objects(*doc),
            page,
            *page_dict,
        ),
{
    match page_dict.get("Annots") {
        Some(PdfObject::Array(entries)) => {
            append_entries(doc, page, entries, out);
        },
        Some(PdfObject::Reference(number, generation)) => {
            match document_object(doc, (*number, *generation)) {
                Some(PdfObject::Array(entries)) => {
                    append_entries(doc, page, &entries, out);
                },
                _ => {
                    assert(views(out@) + Seq::<HighlightView>::empty() =~= views(out@));
                },
            }
        },
        _ => {
            assert(views(out@) + Seq::<HighlightView>::empty() =~= views(out@));
        },
    }
}

/// Reads the annotations of every page of a loaded document, in page order.
///
/// Fails with `MissingPage` at the first page whose object is no dictionary;
/// a page whose `Annots` does not resolve to an array is passed over. Pages
/// are numbered from 1, so every record carries a page number from 1 up
/// (`lemma_highlight_pages_from_one`).
pub fn extract_highlights(doc: &lopdf::Document) -> (res: Result<Vec<Highlight>, ExtractionError>)
    ensures
        is_extraction_of(contents_of(*doc), res),
        contents_of(*doc).pages.len() <= u32::MAX ==> numbered_from_one(contents_of(*doc).pages),
{
    let ghost contents = contents_of(*doc);
    let pages = document_page_refs(doc);
    let mut out: Vec<Highlight> = Vec::new();
    let mut i: usize = 0;
    assert(views(out@) =~= pages_highlights(contents, 0));
    while i < pages.len()
        invariant
            i <= pages.len(),
            pages@ == contents.pages,
            contents == contents_of(*doc),
            pages@.len() <= u32::MAX ==> numbered_from_one(pages@),
            forall|j: int|
                0 <= j < i ==> (#[trigger] page_dictionary(contents.objects, contents.pages[j]))
                    is Some,
            views(out@) == pages_highlights(contents, i as int),
        decreases pages.len() - i,
    {
        let number = pages[i].number;
        match document_object(doc, pages[i].id) {
            Some(PdfObject::Dictionary(page_dict)) => {
                append_page(doc, number, &page_dict, &mut out);
            },
            _ => {
                assert(page_dictionary(contents.objects, contents.pages[i as int]) is None);
                return Err(ExtractionError::MissingPage { number });
            },
        }
        i += 1;
    }
    Ok(out)
}

/// Whether `res` is what extraction owes after an attempt to load a
/// document: `Unreadable` where the load failed, else what the loaded
/// document gives.
pub open spec fn is_extraction_of_loaded(
    loaded: Result<lopdf::Document, lopdf::Error>,
    res: Result<Vec<Highlight>, ExtractionError>,
) -> bool {
    match loaded {
        Ok(doc) => is_extraction_of(contents_of(doc), res),
        Err(_) => res == Err::<Vec<Highlight>, ExtractionError>(ExtractionError::Unreadable),
    }
}

/// Whether `res` is `Unreadable` or what some loaded document gives.
pub open spec fn is_extraction_of_some_document(
    res: Result<Vec<Highlight>, ExtractionError>,
) -> bool {
    res == Err::<Vec<Highlight>, ExtractionError>(ExtractionError::Unreadable) || exists|
        doc: lopdf::Document,
    | #[trigger] is_extraction_of(contents_of(doc), res)
}

/// Reads the annotations after an attempt to load a document: fails with
/// `Unreadable` exactly when the load failed; what a loaded document gives
/// is said by `extract_highlights`.
pub fn loaded_highlights(loaded: Result<lopdf::Document, lopdf::Error>) -> (res: Result<
    Vec<Highlight>,
    ExtractionError,
>)
    ensures
        is_extraction_of_loaded(loaded, res),
{
    match loaded {
        Ok(doc) => extract_highlights(&doc),
        Err(_) => Err(ExtractionError::Unreadable),
    }
}

/// Reads the annotations of the PDF file with the given bytes.
///
/// The bytes are loaded as a document, and the outcome is that of
/// `loaded_highlights`: `Unreadable` where they did not load, else the
/// records, or the missing page, of the document they loaded to. Which
/// bytes load, and to what document, is not said here.
pub fn get_file_highlights(bytes: &[u8]) -> (res: Result<Vec<Highlight>, ExtractionError>)
    ensures
        is_extraction_of_some_document(res),
{
    let loaded = load_document(bytes);
    let res = loaded_highlights(loaded);
    proof {
        if loaded is Ok {
            assert(is_extraction_of(contents_of(loaded->Ok_0), res));
        }
    }
    res
}

} // verus!
