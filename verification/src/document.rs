//! BSON documents, as far as the protocol builds them.

use mongodb::bson::Bson;
use mongodb::bson::DateTime;
use mongodb::bson::Document;
use vstd::prelude::*;

verus! {

/// An ordered list of named values, as the database takes it for a record, a
/// filter or an update.
#[verifier::external_type_specification]
#[verifier::external_body]
pub struct ExDocument(Document);

/// One value of a document.
#[verifier::external_type_specification]
#[verifier::external_body]
pub struct ExBson(Bson);

/// The values that the protocol puts into its documents.
pub ghost enum Value {
    /// A UTF-8 string.
    Text(Seq<char>),
    /// An instant, in milliseconds since the Unix epoch.
    Date(int),
    /// A 32-bit integer.
    Int32(int),
    /// An embedded document: its fields in order.
    Nested(Seq<(Seq<char>, Value)>),
}

/// The fields of a document, in order: each a name and its value.
pub uninterp spec fn fields(doc: Document) -> Seq<(Seq<char>, Value)>;

/// What a BSON value holds.
pub uninterp spec fn value_of(value: Bson) -> Value;

/// No field of `doc` is called `name`.
pub open spec fn lacks(doc: Document, name: Seq<char>) -> bool {
    forall|i: int| 0 <= i < fields(doc).len() ==> (#[trigger] fields(doc)[i]).0 != name
}

/// Calls `Document::new`: a document without fields.
#[verifier::external_body]
pub(crate) fn empty_document() -> (doc: Document)
    ensures
        fields(doc) == Seq::<(Seq<char>, Value)>::empty(),
{
    Document::new()
}

/// Calls `Document::insert` with a name that the document does not hold yet:
/// the field is added behind the others. (On a name that it holds the call
/// would replace that field's value; the protocol never does so.)
#[verifier::external_body]
pub(crate) fn append(doc: &mut Document, name: &str, value: Bson)
    requires
        lacks(*old(doc), name@),
    ensures
        fields(*final(doc)) == fields(*old(doc)).push((name@, value_of(value))),
{
    doc.insert(name, value);
}

/// Calls `Bson::from` on a string slice: the variant `Bson::String` with a
/// copy of it.
#[verifier::external_body]
pub(crate) fn text(value: &str) -> (bson: Bson)
    ensures
        value_of(bson) == Value::Text(value@),
{
    Bson::from(value)
}

/// Calls `DateTime::from_millis` and `Bson::from` on its result: the variant
/// `Bson::DateTime` of the instant `millis` milliseconds after the Unix epoch.
#[verifier::external_body]
pub(crate) fn date(millis: i64) -> (bson: Bson)
    ensures
        value_of(bson) == Value::Date(millis as int),
{
    Bson::from(DateTime::from_millis(millis))
}

/// Calls `Bson::from` on an `i32`: the variant `Bson::Int32`.
#[verifier::external_body]
pub(crate) fn int32(value: i32) -> (bson: Bson)
    ensures
        value_of(bson) == Value::Int32(value as int),
{
    Bson::from(value)
}

/// Calls `Bson::from` on a document: the variant `Bson::Document` that
/// embeds it.
#[verifier::external_body]
pub(crate) fn nested(value: Document) -> (bson: Bson)
    ensures
        value_of(bson) == Value::Nested(fields(value)),
{
    Bson::from(value)
}

/// A document of the one field `name`.
pub fn single(name: &str, value: Bson) -> (doc: Document)
    ensures
        fields(doc) == seq![(name@, value_of(value))],
{
    let mut doc = empty_document();
    append(&mut doc, name, value);
    doc
}

} // verus!
