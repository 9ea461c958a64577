//! The creator-tool identity that the application stamps into a document.
//!
//! A document is identified by the value of its creator-tool property once
//! that value starts with `id_`. A document without such a value is given a
//! fresh one: the prefix and twelve random letters and digits.

use crate::text::{has_prefix, starts_with};
use vstd::prelude::*;
use vstd::string::*;

verus! {

/// Number of random characters in a fresh identity.
pub const CREATOR_ID_RANDOM_LEN: usize = 12;

/// What to do about a document's creator-tool property.
#[derive(Clone, Debug, PartialEq, Eq)]
pub struct CreatorId {
    /// The identity of the document from now on.
    pub id: String,
    /// Whether the identity is new and has to be written into the document.
    pub is_new: bool,
}

/// Whether `c` is an ASCII letter or digit.
pub open spec fn is_alphanumeric_char(c: char) -> bool {
    ('0' <= c <= '9') || ('a' <= c <= 'z') || ('A' <= c <= 'Z')
}

/// Whether `value` is an identity already: whether it starts with `id_`.
pub open spec fn is_creator_id(value: Seq<char>) -> bool {
    has_prefix(value, "id_"@)
}

/// The identity of a document whose creator-tool property reads `current`,
/// where `fresh` are the random characters to use if a new one is due.
pub open spec fn creator_id_for(current: Seq<char>, fresh: Seq<char>) -> (Seq<char>, bool) {
    if is_creator_id(current) {
        (current, false)
    } else {
        ("id_"@ + fresh, true)
    }
}

/// `rand::thread_rng().sample_iter(&Alphanumeric)`, `len` samples of it as
/// characters: each is one of `a-z`, `A-Z`, `0-9`. Which ones is up to chance.
#[verifier::external_body]
fn random_alphanumeric(len: usize) -> (res: String)
    ensures
        res@.len() == len,
        forall|i: int| 0 <= i < res@.len() ==> is_alphanumeric_char(#[trigger] res@[i]),
{
    rand::Rng::sample_iter(rand::thread_rng(), &rand::distributions::Alphanumeric)
        .take(len)
        .map(char::from)
        .collect()
}

/// Whether `value` is an identity already.
pub fn has_creator_id(value: &str) -> (res: bool)
    ensures
        res == is_creator_id(value@),
{
    starts_with(value, "id_")
}

/// Decides the identity of a document from the current value of its
/// creator-tool property and the random characters at hand: an identity
/// that is there is kept as it is, else a new one is made of `fresh`.
pub fn creator_id_from(current: &str, fresh: &str) -> (res: CreatorId)
    ensures
        (res.id@, res.is_new) == creator_id_for(current@, fresh@),
{
    if has_creator_id(current) {
        CreatorId { id: current.to_owned(), is_new: false }
    } else {
        CreatorId { id: "id_".to_owned().concat(fresh), is_new: true }
    }
}

/// Decides the identity of a document whose creator-tool property reads
/// `current` (empty where the document has none).
///
/// An identity that is there is returned unchanged and is not new. Any
/// other value is replaced: the new identity is `id_` followed by twelve
/// letters and digits drawn at random.
pub fn set_creator(current: &str) -> (res: CreatorId)
    ensures
        is_creator_id(current@) ==> res.id@ == current@ && !res.is_new,
        !is_creator_id(current@) ==> {
            &&& res.is_new
            &&& exists|fresh: Seq<char>|
                {
                    &&& fresh.len() == CREATOR_ID_RANDOM_LEN
                    &&& forall|i: int|
                        0 <= i < fresh.len() ==> is_alphanumeric_char(#[trigger] fresh[i])
                    &&& #[trigger] creator_id_for(current@, fresh) == (res.id@, res.is_new)
                }
        },
        is_creator_id(res.id@),
{
    if has_creator_id(current) {
        creator_id_from(current, "")
    } else {
        let fresh = random_alphanumeric(CREATOR_ID_RANDOM_LEN);
        let res = creator_id_from(current, fresh.as_str());
        proof {
            assert(creator_id_for(current@, fresh@) == (res.id@, res.is_new));
            lemma_fresh_id_is_creator_id(current@, fresh@);
        }
        res
    }
}

/// Whatever the property held and whatever was drawn, the identity decided
/// on starts with `id_`.
pub proof fn lemma_fresh_id_is_creator_id(current: Seq<char>, fresh: Seq<char>)
    ensures
        is_creator_id(creator_id_for(current, fresh).0),
{
    if !is_creator_id(current) {
        assert(("id_"@ + fresh).take("id_"@.len() as int) =~= "id_"@);
    }
}

/// Deciding twice gives the same identity: once the first identity stands in
/// the document, a second decision keeps it and asks for no write, whatever
/// random characters it was handed.
pub proof fn lemma_creator_id_idempotent(
    current: Seq<char>,
    first_fresh: Seq<char>,
    second_fresh: Seq<char>,
)
    ensures
        creator_id_for(creator_id_for(current, first_fresh).0, second_fresh) == (
            creator_id_for(current, first_fresh).0,
            false,
        ),
{
    lemma_fresh_id_is_creator_id(current, first_fresh);
}

/// An identity that is there is never rewritten.
pub proof fn lemma_existing_id_kept(current: Seq<char>, fresh: Seq<char>)
    requires
        is_creator_id(current),
    ensures
        creator_id_for(current, fresh) == (current, false),
{
}

} // verus!
