//! The part of a PDF document that annotation extraction reads: objects as
//! plain values, dictionaries with lookup by name, and the document loaded
//! through `lopdf`.

use vstd::prelude::*;
use vstd::utf8::encode_utf8;

verus! {

/// A PDF object, reduced to the kinds that the extraction tells apart.
#[derive(Debug, PartialEq, Eq)]
pub enum PdfObject {
    Integer(i64),
    /// A real number, held as the bit pattern of its 32-bit float.
    Real(u32),
    Name(Vec<u8>),
    Text(Vec<u8>),
    Array(Vec<PdfObject>),
    Dictionary(PdfDictionary),
    /// An indirect reference: object number and generation.
    Reference(u32, u16),
    /// Null, boolean or stream.
    Other,
}

/// A dictionary: names with their values, in the order of the file.
#[derive(Debug, PartialEq, Eq)]
pub struct PdfDictionary {
    pub entries: Vec<(Vec<u8>, PdfObject)>,
}

/// A page of the page tree: its number and the id of its page object.
#[derive(Clone, Copy, Debug, PartialEq, Eq)]
pub struct PageRef {
    pub number: u32,
    pub id: (u32, u16),
}

/// What a loaded document holds, as far as the extraction is concerned.
pub struct PdfContents {
    /// The pages in page order.
    pub pages: Seq<PageRef>,
    /// The object found under each id that resolves, references followed.
    pub objects: Map<(u32, u16), PdfObject>,
}

/// The bytes of a name written as text.
pub open spec fn name_bytes(name: Seq<char>) -> Seq<u8> {
    encode_utf8(name)
}

/// The value of the first entry of `entries` whose name is `key`.
pub open spec fn lookup(entries: Seq<(Vec<u8>, PdfObject)>, key: Seq<u8>) -> Option<PdfObject>
    decreases entries.len(),
{
    if entries.len() == 0 {
        None
    } else if entries[0].0@ == key {
        Some(entries[0].1)
    } else {
        lookup(entries.skip(1), key)
    }
}

/// Whether two byte strings are the same.
pub fn bytes_equal(a: &[u8], b: &[u8]) -> (res: bool)
    ensures
        res == (a@ == b@),
{
    if a.len() != b.len() {
        return false;
    }
    let mut i: usize = 0;
    while i < a.len()
        invariant
            i <= a.len(),
            a.len() == b.len(),
            forall|j: int| 0 <= j < i ==> a@[j] == b@[j],
        decreases a.len() - i,
    {
        if a[i] != b[i] {
            return false;
        }
        i += 1;
    }
    assert(a@ =~= b@);
    true
}

impl PdfDictionary {
    /// The value stored under `key`, if the dictionary has that name.
    pub fn get(&self, key: &str) -> (res: Option<&PdfObject>)
        ensures
            match res {
                Some(value) => lookup(self.entries@, name_bytes(key@)) == Some(*value),
                None => lookup(self.entries@, name_bytes(key@)) is None,
            },
    {
        let wanted = key.as_bytes();
        let mut i: usize = 0;
        assert(self.entries@.skip(0) =~= self.entries@);
        while i < self.entries.len()
            invariant
                i <= self.entries.len(),
                wanted@ == name_bytes(key@),
                lookup(self.entries@, wanted@) == lookup(self.entries@.skip(i as int), wanted@),
            decreases self.entries.len() - i,
        {
            let entry = &self.entries[i];
            proof {
                let rest = self.entries@.skip(i as int);
                assert(rest[0] == self.entries@[i as int]);
                assert(rest.skip(1) =~= self.entries@.skip(i + 1));
            }
            if bytes_equal(entry.0.as_slice(), wanted) {
                return Some(&entry.1);
            }
            i += 1;
        }
        None
    }
}

impl PdfObject {
    /// Whether this object is the name `name`.
    pub fn is_name(&self, name: &str) -> (res: bool)
        ensures
            res == (self matches PdfObject::Name(n) && n@ == name_bytes(name@)),
    {
        match self {
            PdfObject::Name(n) => bytes_equal(n.as_slice(), name.as_bytes()),
            _ => false,
        }
    }
}

/// `lopdf::Document`: a loaded PDF document. Nothing of its inside is
/// known here; what it holds is read through the functions below.
#[verifier::external_type_specification]
#[verifier::external_body]
pub struct ExDocument(lopdf::Document);

/// `lopdf::Object`: one object of a document, as `lopdf` holds it.
#[verifier::external_type_specification]
#[verifier::external_body]
pub struct ExObject(lopdf::Object);

/// `lopdf::Error`: why `lopdf` could not do what it was asked.
#[verifier::external_type_specification]
#[verifier::external_body]
pub struct ExError(lopdf::Error);

/// The pages that `Document::get_pages` reports for `doc`, by ascending page number.
pub uninterp spec fn document_pages(doc: lopdf::Document) -> Seq<PageRef>;

/// The objects of `doc`: each id for which `Document::get_object` succeeds,
/// with the object it yields.
pub uninterp spec fn document_objects(doc: lopdf::Document) -> Map<(u32, u16), PdfObject>;

/// The pages and objects of a loaded document.
pub open spec fn contents_of(doc: lopdf::Document) -> PdfContents {
    PdfContents { pages: document_pages(doc), objects: document_objects(doc) }
}

/// `lopdf::Document::load_mem`: parses a whole PDF file held in memory.
/// Nothing is claimed of what comes back: whether a file loads, and to
/// what, is up to `lopdf`, and two loads of the same bytes need not agree.
#[verifier::external_body]
pub(crate) fn load_document(bytes: &[u8]) -> Result<lopdf::Document, lopdf::Error> {
    lopdf::Document::load_mem(bytes)
}

/// Whether the pages are numbered 1, 2, 3 and so on, in order.
pub open spec fn numbered_from_one(pages: Seq<PageRef>) -> bool {
    forall|i: int| 0 <= i < pages.len() ==> (#[trigger] pages[i]).number == i + 1
}

/// `lopdf::Document::get_pages`: the page numbers with the ids of the page
/// objects, handed out in the order of the numbers. `lopdf` numbers the
/// pages of the page tree from 1 in the order in which it walks them, in
/// 32 bits; so long as there are no more pages than 32 bits count, the
/// numbers handed out are 1, 2, 3 and so on.
#[verifier::external_body]
pub(crate) fn document_page_refs(doc: &lopdf::Document) -> (res: Vec<PageRef>)
    ensures
        res@ == document_pages(*doc),
        res@.len() <= u32::MAX ==> numbered_from_one(res@),
{
    doc.get_pages().into_iter().map(|(number, id)| PageRef { number, id }).collect()
}

/// `lopdf::Document::get_object`: the object stored under `id`, with any
/// chain of references followed to its end; nothing where the id or a link
/// of the chain is missing.
#[verifier::external_body]
pub(crate) fn document_object(doc: &lopdf::Document, id: (u32, u16)) -> (res: Option<PdfObject>)
    ensures
        res == if document_objects(*doc).contains_key(id) {
            Some(document_objects(*doc)[id])
        } else {
            None::<PdfObject>
        },
{
    doc.get_object(id).ok().map(object_model)
}

/// Carries a `lopdf::Object` over into a `PdfObject`, variant by variant and
/// all the way down.
#[verifier::external_body]
fn object_model(obj: &lopdf::Object) -> PdfObject {
    match obj {
        lopdf::Object::Integer(i) => PdfObject::Integer(*i),
        lopdf::Object::Real(r) => PdfObject::Real(r.to_bits()),
        lopdf::Object::Name(n) => PdfObject::Name(n.clone()),
        lopdf::Object::String(s, _) => PdfObject::Text(s.clone()),
        lopdf::Object::Array(a) => PdfObject::Array(a.iter().map(object_model).collect()),
        lopdf::Object::Dictionary(d) => PdfObject::Dictionary(
            PdfDictionary { entries: d.iter().map(|(k, v)| (k.clone(), object_model(v))).collect() },
        ),
        lopdf::Object::Reference(id) => PdfObject::Reference(id.0, id.1),
        _ => PdfObject::Other,
    }
}

} // verus!
