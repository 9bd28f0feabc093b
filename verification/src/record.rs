//! The resolved output: one typed value per schema field, and its
//! spec-level model.

use vstd::prelude::*;

verus! {

/// One resolved field value. An enumerated field carries the index of
/// the resolved variant in its resolver's variant list.
#[derive(Debug, PartialEq)]
pub enum FieldValue {
    Text(String),
    Numeric(i64),
    Boolean(bool),
    Variant(usize),
}

/// The spec-level shape of a [`FieldValue`], with the text taken as its
/// character sequence.
pub enum ValueModel {
    Text(Seq<char>),
    Numeric(int),
    Boolean(bool),
    Variant(int),
}

/// The model of a [`FieldValue`].
pub open spec fn value_model(v: FieldValue) -> ValueModel {
    match v {
        FieldValue::Text(s) => ValueModel::Text(s@),
        FieldValue::Numeric(n) => ValueModel::Numeric(n as int),
        FieldValue::Boolean(b) => ValueModel::Boolean(b),
        FieldValue::Variant(i) => ValueModel::Variant(i as int),
    }
}

/// A fully populated configuration record: one value per field of the
/// schema it was resolved from, in schema order.
#[derive(Debug)]
pub struct ConfigRecord {
    pub values: Vec<FieldValue>,
}

} // verus!
