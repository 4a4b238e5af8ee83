//! Field-presence rules over struct-like records.
//!
//! The library models a struct instance as a [`schema::Record`]: an ordered
//! list of named fields, each declared either with an optional container type
//! (present or absent at run time) or with any other type (required, hence
//! always present). Over that model it provides three rules:
//!
//! * a missing-fields reporter ([`checks::require_fields`]), which collects
//!   the names of absent fields in input order;
//! * a presence predicate ([`checks::has_fields`]), which is true exactly
//!   when every named field is present;
//! * a populated-field counter ([`HasFields::num_fields`]), which adds the
//!   number of required-typed fields to the number of optional-typed fields
//!   currently holding a value.
//!
//! Field names handed to the reporter and the predicate are validated as
//! identifiers by [`ident::validate_field_names`].

use vstd::prelude::*;

pub mod checks;
pub mod ident;
pub mod schema;

pub use checks::has_fields;
pub use checks::require_fields;
pub use ident::validate_field_names;
pub use schema::FieldDecl;
pub use schema::FieldValue;
pub use schema::Record;

verus! {

/// A type whose instances can say how many of their fields are populated:
/// required-typed fields always count, optional-typed fields count when they
/// currently hold a value.
pub trait HasFields {
    /// The mathematical number of populated fields of `self`.
    spec fn spec_num_fields(&self) -> nat;

    /// The count of populated fields, as an executable method.
    fn num_fields(&self) -> (n: usize)
        ensures
            n as nat == self.spec_num_fields(),
    ;
}

} // verus!
