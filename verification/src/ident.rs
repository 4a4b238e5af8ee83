//! Validation of the field names handed to the reporter and predicate rules:
//! each must be a single valid Rust identifier, or the invocation is rejected
//! with a diagnostic that points at the offending name.

use vstd::prelude::*;

verus! {

/// Whether a string is one valid, non-keyword Rust identifier. What the
/// identifier grammar accepts is decided by the parser the library relies on;
/// this name stands for its answer on a given string.
pub uninterp spec fn is_ident(s: Seq<char>) -> bool;

/// Relies on `syn::parse_str::<syn::Ident>`: it returns `Ok` exactly when the
/// whole string is one identifier token that is neither a keyword nor `_`,
/// and its answer is a function of the string alone.
#[verifier::external_body]
fn parse_as_ident(s: &str) -> (r: bool)
    ensures
        r == is_ident(s@),
{
    syn::parse_str::<syn::Ident>(s).is_ok()
}

/// Check every field name of an invocation. Returns `None` when all names are
/// valid identifiers, and otherwise the index of the first name that is not:
/// the place the diagnostic points at.
pub fn validate_field_names(names: &Vec<String>) -> (r: Option<usize>)
    ensures
        r is None <==> (forall|i: int| 0 <= i < names@.len() ==> is_ident(#[trigger] names@[i]@)),
        r matches Some(j) ==> 0 <= j < names@.len() && !is_ident(names@[j as int]@) && (forall|
            i: int,
        |
            0 <= i < j ==> is_ident(#[trigger] names@[i]@)),
{
    let mut i: usize = 0;
    while i < names.len()
        invariant
            i <= names@.len(),
            forall|k: int| 0 <= k < i ==> is_ident(#[trigger] names@[k]@),
        decreases names@.len() - i,
    {
        if !parse_as_ident(names[i].as_str()) {
            return Some(i);
        }
        i = i + 1;
    }
    None
}

} // verus!
