//! The query mini-language: the closed set of primitives a caller may use
//! to describe a request in backend-independent terms.

use vstd::prelude::*;

verus! {

/// One query primitive. `RawQuery` carries backend-native command text
/// verbatim; `ListAllItemsFrom` asks for the whole contents of a named
/// container; `AddDatabaseObject` asks to create a named object at a
/// location (no backend implements it yet, so backends reject it).
#[derive(Debug, PartialEq, Clone)]
pub enum QueryElement {
    RawQuery(String),
    ListAllItemsFrom(String),
    AddDatabaseObject(String, String, String),
}

} // verus!
