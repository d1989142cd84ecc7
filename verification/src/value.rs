use vstd::prelude::*;

verus! {

/// A tagged scalar value: the outcome type of property resolution.
///
/// `Null` doubles as the substitute outcome for a context that has no
/// current vertex.
#[derive(Debug, Clone, PartialEq, Eq)]
pub enum FieldValue {
    Null,
    Boolean(bool),
    Int64(i64),
    Uint64(u64),
    String(String),
}

impl From<bool> for FieldValue {
    fn from(v: bool) -> (r: Self) {
        FieldValue::Boolean(v)
    }
}

impl vstd::std_specs::convert::FromSpecImpl<bool> for FieldValue {
    open spec fn obeys_from_spec() -> bool {
        true
    }

    open spec fn from_spec(v: bool) -> Self {
        FieldValue::Boolean(v)
    }
}

impl From<i64> for FieldValue {
    fn from(v: i64) -> (r: Self) {
        FieldValue::Int64(v)
    }
}

impl vstd::std_specs::convert::FromSpecImpl<i64> for FieldValue {
    open spec fn obeys_from_spec() -> bool {
        true
    }

    open spec fn from_spec(v: i64) -> Self {
        FieldValue::Int64(v)
    }
}

impl From<u64> for FieldValue {
    fn from(v: u64) -> (r: Self) {
        FieldValue::Uint64(v)
    }
}

impl vstd::std_specs::convert::FromSpecImpl<u64> for FieldValue {
    open spec fn obeys_from_spec() -> bool {
        true
    }

    open spec fn from_spec(v: u64) -> Self {
        FieldValue::Uint64(v)
    }
}

impl From<String> for FieldValue {
    fn from(v: String) -> (r: Self) {
        FieldValue::String(v)
    }
}

impl vstd::std_specs::convert::FromSpecImpl<String> for FieldValue {
    open spec fn obeys_from_spec() -> bool {
        true
    }

    open spec fn from_spec(v: String) -> Self {
        FieldValue::String(v)
    }
}

} // verus!
