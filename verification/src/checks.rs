//! The reporter and predicate rules: given a record and an ordered list of
//! field names, collect the names whose field is absent, or decide whether
//! every named field is present.

use vstd::prelude::*;

use crate::schema::FieldValue;
use crate::schema::Record;

verus! {

/// Whether `fields` declares a field named `name`.
pub open spec fn spec_has_field(fields: Seq<FieldValue>, name: Seq<char>) -> bool {
    exists|i: int| 0 <= i < fields.len() && (#[trigger] fields[i]).decl.name@ == name
}

/// Whether the field named `name` currently holds a value.
pub open spec fn spec_field_present(fields: Seq<FieldValue>, name: Seq<char>) -> bool {
    exists|i: int|
        0 <= i < fields.len() && (#[trigger] fields[i]).decl.name@ == name && fields[i].present
}

/// Whether every field named in `names` is present.
pub open spec fn spec_all_present(fields: Seq<FieldValue>, names: Seq<String>) -> bool {
    forall|i: int| 0 <= i < names.len() ==> spec_field_present(fields, (#[trigger] names[i])@)
}

/// The names in `names` whose field is absent: the ordered subsequence of the
/// input names, in input order, that fail the presence test.
pub open spec fn spec_missing_fields(fields: Seq<FieldValue>, names: Seq<String>) -> Seq<String>
    decreases names.len(),
{
    if names.len() == 0 {
        Seq::empty()
    } else {
        let rest = spec_missing_fields(fields, names.drop_last());
        if spec_field_present(fields, names.last()@) {
            rest
        } else {
            rest.push(names.last())
        }
    }
}

/// Look one field up by name. Returns its presence, or `None` when the record
/// declares no field of that name.
pub fn get_field_present(rec: &Record, name: &String) -> (r: Option<bool>)
    requires
        rec.wf(),
    ensures
        r is Some <==> spec_has_field(rec.fields@, name@),
        r matches Some(p) ==> p == spec_field_present(rec.fields@, name@),
{
    let mut i: usize = 0;
    while i < rec.fields.len()
        invariant
            rec.wf(),
            i <= rec.fields@.len(),
            forall|k: int| 0 <= k < i ==> (#[trigger] rec.fields@[k]).decl.name@ != name@,
        decreases rec.fields@.len() - i,
    {
        if rec.fields[i].decl.name.eq(name) {
            let p = rec.fields[i].present;
            proof {
                assert(spec_has_field(rec.fields@, name@));
                if p {
                    assert(spec_field_present(rec.fields@, name@));
                } else {
                    assert forall|j: int|
                        0 <= j < rec.fields@.len() && (#[trigger] rec.fields@[j]).decl.name@
                            == name@ implies !rec.fields@[j].present by {
                        assert(j == i as int);
                    }
                }
            }
            return Some(p);
        }
        i = i + 1;
    }
    None
}

/// The reporter rule: test each named field in input order, collect the names
/// of the absent ones, and succeed exactly when none was absent. On failure
/// the missing names come back in input order.
pub fn require_fields(rec: &Record, names: &Vec<String>) -> (r: Result<(), Vec<String>>)
    requires
        rec.wf(),
        forall|i: int| 0 <= i < names@.len() ==> spec_has_field(rec.fields@, (#[trigger] names@[i])@),
    ensures
        r is Ok <==> spec_missing_fields(rec.fields@, names@).len() == 0,
        r matches Err(m) ==> m@ == spec_missing_fields(rec.fields@, names@) && m@.len() > 0,
{
    let mut missing: Vec<String> = Vec::new();
    let mut i: usize = 0;
    while i < names.len()
        invariant
            rec.wf(),
            i <= names@.len(),
            forall|k: int|
                0 <= k < names@.len() ==> spec_has_field(rec.fields@, (#[trigger] names@[k])@),
            missing@ == spec_missing_fields(rec.fields@, names@.take(i as int)),
        decreases names@.len() - i,
    {
        let p = get_field_present(rec, &names[i]);
        if !p.unwrap() {
            missing.push(names[i].clone());
        }
        proof {
            assert(names@.take(i + 1).drop_last() =~= names@.take(i as int));
            assert(names@.take(i + 1).last() == names@[i as int]);
        }
        i = i + 1;
    }
    proof {
        assert(names@.take(names@.len() as int) =~= names@);
    }
    if missing.is_empty() {
        Ok(())
    } else {
        Err(missing)
    }
}

/// The predicate rule: test the named fields in input order and return false
/// at the first absent one; true only when every named field is present.
pub fn has_fields(rec: &Record, names: &Vec<String>) -> (r: bool)
    requires
        rec.wf(),
        forall|i: int| 0 <= i < names@.len() ==> spec_has_field(rec.fields@, (#[trigger] names@[i])@),
    ensures
        r == spec_all_present(rec.fields@, names@),
{
    let mut i: usize = 0;
    while i < names.len()
        invariant
            rec.wf(),
            i <= names@.len(),
            forall|k: int|
                0 <= k < names@.len() ==> spec_has_field(rec.fields@, (#[trigger] names@[k])@),
            forall|k: int| 0 <= k < i ==> spec_field_present(rec.fields@, (#[trigger] names@[k])@),
        decreases names@.len() - i,
    {
        let p = get_field_present(rec, &names[i]);
        if !p.unwrap() {
            return false;
        }
        i = i + 1;
    }
    true
}

/// The predicate agrees with the reporter: every named field is present
/// exactly when the reporter's missing-field list is empty.
pub proof fn lemma_predicate_matches_report(fields: Seq<FieldValue>, names: Seq<String>)
    ensures
        spec_all_present(fields, names) <==> spec_missing_fields(fields, names).len() == 0,
    decreases names.len(),
{
    if names.len() > 0 {
        lemma_predicate_matches_report(fields, names.drop_last());
        assert(forall|i: int|
            0 <= i < names.drop_last().len() ==> #[trigger] names.drop_last()[i] == names[i]);
        if spec_all_present(fields, names) {
            assert(spec_all_present(fields, names.drop_last()));
        }
        if spec_all_present(fields, names.drop_last()) && spec_field_present(
            fields,
            names.last()@,
        ) {
            assert forall|i: int| 0 <= i < names.len() implies spec_field_present(
                fields,
                (#[trigger] names[i])@,
            ) by {
                if i < names.len() - 1 {
                    assert(names[i] == names.drop_last()[i]);
                }
            }
        }
    }
}

/// With no field names at all, the predicate holds and the reporter's
/// missing-field list is empty, whatever the record holds.
pub proof fn lemma_no_names_trivially_ok(fields: Seq<FieldValue>, names: Seq<String>)
    requires
        names.len() == 0,
    ensures
        spec_all_present(fields, names),
        spec_missing_fields(fields, names).len() == 0,
{
}

/// The checks are free of side effects on the record: the predicate's answer
/// and the reporter's missing-field list are functions of the record's fields
/// and the names alone, so repeating a check on an unchanged record yields
/// the identical result.
pub proof fn lemma_checks_deterministic(
    fields: Seq<FieldValue>,
    names: Seq<String>,
    r1: bool,
    r2: bool,
    m1: Seq<String>,
    m2: Seq<String>,
)
    requires
        r1 == spec_all_present(fields, names),
        r2 == spec_all_present(fields, names),
        m1 == spec_missing_fields(fields, names),
        m2 == spec_missing_fields(fields, names),
    ensures
        r1 == r2,
        m1 == m2,
{
}

} // verus!
