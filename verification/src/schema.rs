//! The field-schema model: declared fields, their syntactic classification
//! into optional-typed and required-typed, and records built from them.

use vstd::prelude::*;

verus! {

/// A field as declared on a struct with named fields: the field's name and
/// the path segments of its declared type (`name: std::option::Option<u32>`
/// has segments `["std", "option", "Option"]`).
pub struct FieldDecl {
    pub name: String,
    pub type_segments: Vec<String>,
}

/// A declared type counts as the optional container exactly when the last
/// segment of its path is `Option`. The classification is purely syntactic:
/// it looks at the written shape of the type, never at a value.
pub open spec fn spec_decl_is_optional(d: FieldDecl) -> bool {
    d.type_segments@.len() > 0 && d.type_segments@.last()@ == "Option"@
}

/// Classify one declared field by the shape of its type.
pub fn decl_is_optional(d: &FieldDecl) -> (r: bool)
    ensures
        r == spec_decl_is_optional(*d),
{
    if d.type_segments.len() == 0 {
        false
    } else {
        let opt: String = String::from_str("Option");
        let last: &String = &d.type_segments[d.type_segments.len() - 1];
        last.eq(&opt)
    }
}

/// The number of required-typed declarations in `decls`.
pub open spec fn spec_count_required(decls: Seq<FieldDecl>) -> nat
    decreases decls.len(),
{
    if decls.len() == 0 {
        0nat
    } else {
        spec_count_required(decls.drop_last()) + (if spec_decl_is_optional(decls.last()) {
            0nat
        } else {
            1nat
        })
    }
}

/// The names of the optional-typed declarations in `decls`, in declaration
/// order.
pub open spec fn spec_optional_names(decls: Seq<FieldDecl>) -> Seq<String>
    decreases decls.len(),
{
    if decls.len() == 0 {
        Seq::empty()
    } else {
        let rest = spec_optional_names(decls.drop_last());
        if spec_decl_is_optional(decls.last()) {
            rest.push(decls.last().name)
        } else {
            rest
        }
    }
}

/// The fixed part of the populated-field count: how many of the declared
/// fields are required-typed. The counter rule settles this number once from
/// the declarations; it never depends on an instance.
pub fn required_field_count(decls: &Vec<FieldDecl>) -> (n: usize)
    ensures
        n as nat == spec_count_required(decls@),
{
    let mut n: usize = 0;
    let mut i: usize = 0;
    while i < decls.len()
        invariant
            i <= decls@.len(),
            n <= i,
            n as nat == spec_count_required(decls@.take(i as int)),
        decreases decls@.len() - i,
    {
        if !decl_is_optional(&decls[i]) {
            n = n + 1;
        }
        proof {
            assert(decls@.take(i + 1).drop_last() =~= decls@.take(i as int));
            assert(decls@.take(i + 1).last() == decls@[i as int]);
        }
        i = i + 1;
    }
    proof {
        assert(decls@.take(decls@.len() as int) =~= decls@);
    }
    n
}

/// The variable part of the counter rule: the names of the optional-typed
/// fields, in declaration order. These are the fields whose presence must be
/// tested on each instance.
pub fn optional_field_names(decls: &Vec<FieldDecl>) -> (v: Vec<String>)
    ensures
        v@ == spec_optional_names(decls@),
{
    let mut v: Vec<String> = Vec::new();
    let mut i: usize = 0;
    while i < decls.len()
        invariant
            i <= decls@.len(),
            v@ == spec_optional_names(decls@.take(i as int)),
        decreases decls@.len() - i,
    {
        if decl_is_optional(&decls[i]) {
            v.push(decls[i].name.clone());
        }
        proof {
            assert(decls@.take(i + 1).drop_last() =~= decls@.take(i as int));
            assert(decls@.take(i + 1).last() == decls@[i as int]);
        }
        i = i + 1;
    }
    proof {
        assert(decls@.take(decls@.len() as int) =~= decls@);
    }
    v
}

/// A field of a struct instance: its declaration, and whether its value is
/// present at this moment. For a required-typed field, `present` is true by
/// construction.
pub struct FieldValue {
    pub decl: FieldDecl,
    pub present: bool,
}

/// A struct instance, modelled as its fields in declaration order.
pub struct Record {
    pub fields: Vec<FieldValue>,
}

/// The number of required-typed fields among `fields`.
pub open spec fn spec_count_required_fields(fields: Seq<FieldValue>) -> nat
    decreases fields.len(),
{
    if fields.len() == 0 {
        0nat
    } else {
        spec_count_required_fields(fields.drop_last()) + (if spec_decl_is_optional(
            fields.last().decl,
        ) {
            0nat
        } else {
            1nat
        })
    }
}

/// The number of optional-typed fields among `fields` that currently hold a
/// value.
pub open spec fn spec_count_present_optional(fields: Seq<FieldValue>) -> nat
    decreases fields.len(),
{
    if fields.len() == 0 {
        0nat
    } else {
        spec_count_present_optional(fields.drop_last()) + (if spec_decl_is_optional(
            fields.last().decl,
        ) && fields.last().present {
            1nat
        } else {
            0nat
        })
    }
}

impl Record {
    /// A record is well formed when its field names are distinct (as they are
    /// on any struct with named fields) and every required-typed field is
    /// present.
    pub open spec fn wf(&self) -> bool {
        &&& forall|i: int, j: int|
            0 <= i < j < self.fields@.len() ==> self.fields@[i].decl.name@
                != self.fields@[j].decl.name@
        &&& forall|i: int|
            0 <= i < self.fields@.len() && !spec_decl_is_optional(#[trigger] self.fields@[i].decl)
                ==> self.fields@[i].present
    }
}

impl crate::HasFields for Record {
    /// The populated-field count of a record: every required-typed field
    /// counts, and an optional-typed field counts exactly when it holds a
    /// value.
    open spec fn spec_num_fields(&self) -> nat {
        spec_count_required_fields(self.fields@) + spec_count_present_optional(self.fields@)
    }

    fn num_fields(&self) -> (n: usize) {
        let mut n: usize = 0;
        let mut i: usize = 0;
        while i < self.fields.len()
            invariant
                i <= self.fields@.len(),
                n <= i,
                n as nat == spec_count_required_fields(self.fields@.take(i as int))
                    + spec_count_present_optional(self.fields@.take(i as int)),
            decreases self.fields@.len() - i,
        {
            let f = &self.fields[i];
            if !decl_is_optional(&f.decl) {
                n = n + 1;
            } else if f.present {
                n = n + 1;
            }
            proof {
                assert(self.fields@.take(i + 1).drop_last() =~= self.fields@.take(i as int));
                assert(self.fields@.take(i + 1).last() == self.fields@[i as int]);
            }
            i = i + 1;
        }
        proof {
            assert(self.fields@.take(self.fields@.len() as int) =~= self.fields@);
        }
        n
    }
}

/// The declared shape alone fixes the counter rule's base: the number of
/// required-typed fields among a record's fields is the required count of
/// their declarations, the constant that the counter rule settles before it
/// ever sees an instance.
pub proof fn lemma_required_count_from_declarations(fields: Seq<FieldValue>)
    ensures
        spec_count_required(fields.map_values(|f: FieldValue| f.decl)) == spec_count_required_fields(
            fields,
        ),
    decreases fields.len(),
{
    let decls = fields.map_values(|f: FieldValue| f.decl);
    if fields.len() > 0 {
        lemma_required_count_from_declarations(fields.drop_last());
        assert(fields.drop_last().map_values(|f: FieldValue| f.decl) =~= decls.drop_last());
        assert(decls.last() == fields.last().decl);
    }
}

/// On a struct with no optional-typed fields the populated-field count is the
/// number of declared fields, whatever state the instance is in: no summand
/// below depends on a `present` flag.
pub proof fn lemma_all_required_counts_all(fields: Seq<FieldValue>)
    requires
        forall|i: int|
            0 <= i < fields.len() ==> !spec_decl_is_optional(#[trigger] fields[i].decl),
    ensures
        spec_count_required_fields(fields) + spec_count_present_optional(fields) == fields.len(),
    decreases fields.len(),
{
    if fields.len() > 0 {
        assert(forall|i: int|
            0 <= i < fields.drop_last().len() ==> !spec_decl_is_optional(
                #[trigger] fields.drop_last()[i].decl,
            ));
        lemma_all_required_counts_all(fields.drop_last());
    }
}

} // verus!
