use vstd::prelude::*;


verus! {

/// The document id type of the database; carried through unchanged.
#[verifier::external_type_specification]
#[verifier::external_body]
pub struct ExObjectId(mongodb::bson::oid::ObjectId);

/// A database document; only whether it has any field is read.
#[verifier::external_type_specification]
#[verifier::external_body]
pub struct ExDocument(mongodb::bson::Document);

/// A JSON value; carried through unchanged.
#[verifier::external_type_specification]
#[verifier::external_body]
pub struct ExValue(serde_json::Value);

/// The error of an object id that does not parse.
#[verifier::external_type_specification]
#[verifier::external_body]
pub struct ExOidError(mongodb::bson::oid::Error);

/// A character that `ObjectId::parse_str` accepts as a hex digit.
pub open spec fn is_hex_digit(c: char) -> bool {
    ('0' <= c && c <= '9') || ('a' <= c && c <= 'f') || ('A' <= c && c <= 'F')
}

/// Text that `ObjectId::parse_str` accepts: 24 hex digits, of either case.
pub open spec fn is_object_id_hex(text: Seq<char>) -> bool {
    &&& text.len() == 24
    &&& forall|i: int| 0 <= i < text.len() ==> #[trigger] is_hex_digit(text[i])
}

/// The object id whose 12 bytes the 24 hex digits of `text` spell.
pub uninterp spec fn object_id_from_hex(text: Seq<char>) -> mongodb::bson::oid::ObjectId;

/// Field names of a document, in order.
pub uninterp spec fn document_keys(doc: mongodb::bson::Document) -> Seq<Seq<char>>;

/// Calls bson's `ObjectId::parse_str`, which hex-decodes the text and
/// accepts it exactly when it decodes to 12 bytes; claimed: success exactly on
/// 24 hex digits, and the id then is the one those digits spell.
#[verifier::external_body]
pub(crate) fn parse_object_id(text: &str) -> (res: Result<mongodb::bson::oid::ObjectId, mongodb::bson::oid::Error>)
    ensures
        res is Ok <==> is_object_id_hex(text@),
        res matches Ok(id) ==> id == object_id_from_hex(text@),
{
    mongodb::bson::oid::ObjectId::parse_str(text)
}

/// Calls bson's `Document::clone`, the derived copy of every field and value;
/// claimed: the copy equals the document.
#[verifier::external_body]
pub(crate) fn copy_document(doc: &mongodb::bson::Document) -> (copy: mongodb::bson::Document)
    ensures
        copy == *doc,
{
    doc.clone()
}

/// Calls bson's `Document::is_empty`; claimed: true exactly when the
/// document has no field.
#[verifier::external_body]
pub(crate) fn document_is_empty(doc: &mongodb::bson::Document) -> (empty: bool)
    ensures
        empty == (document_keys(*doc).len() == 0),
{
    doc.is_empty()
}

} // verus!
