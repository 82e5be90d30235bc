use vstd::prelude::*;
use crate::field::FieldSpec;

verus! {

/// A field can be satisfied: it names an environment key, a default, or both.
pub open spec fn has_source(f: FieldSpec) -> bool {
    f.env is Some || f.default is Some
}

/// Every field of `fields` can be satisfied.
pub open spec fn all_have_source(fields: Seq<FieldSpec>) -> bool {
    forall|i: int| 0 <= i < fields.len() ==> has_source(#[trigger] fields[i])
}

/// A field that has neither an environment key nor a default.
#[derive(Debug, Clone, PartialEq, Eq)]
pub struct SchemaError {
    /// The name of the first such field.
    pub field: String,
}

/// The field specs of one record, in declaration order. Every field in it
/// can be satisfied.
#[derive(Debug)]
pub struct Catalog {
    fields: Vec<FieldSpec>,
}

impl View for Catalog {
    type V = Seq<FieldSpec>;

    closed spec fn view(&self) -> Seq<FieldSpec> {
        self.fields@
    }
}

impl Catalog {
    #[verifier::type_invariant]
    spec fn well_formed(self) -> bool {
        all_have_source(self.fields@)
    }

    /// Builds a catalog from the field specs of a record, in declaration
    /// order. Fails on the first field that has neither an environment key
    /// nor a default.
    pub fn new(fields: Vec<FieldSpec>) -> (r: Result<Catalog, SchemaError>)
        ensures
            match r {
                Ok(c) => c@ == fields@ && all_have_source(fields@),
                Err(e) => exists|i: int|
                    0 <= i < fields@.len() && !has_source(#[trigger] fields@[i])
                        && all_have_source(fields@.subrange(0, i)) && e.field@ == fields@[i].name@,
            },
    {
        let mut i: usize = 0;
        while i < fields.len()
            invariant
                i <= fields@.len(),
                all_have_source(fields@.subrange(0, i as int)),
            decreases fields@.len() - i,
        {
            if fields[i].env.is_none() && fields[i].default.is_none() {
                return Err(SchemaError { field: fields[i].name.clone() });
            }
            proof {
                assert forall|j: int| 0 <= j < i + 1 implies has_source(
                    #[trigger] fields@.subrange(0, i + 1)[j],
                ) by {
                    if j < i {
                        assert(fields@.subrange(0, i + 1)[j] == fields@.subrange(0, i as int)[j]);
                    }
                }
            }
            i = i + 1;
        }
        assert(fields@.subrange(0, i as int) =~= fields@);
        Ok(Catalog { fields })
    }

    /// The field specs, in declaration order.
    pub fn fields(&self) -> (r: &Vec<FieldSpec>)
        ensures
            r@ == self@,
            all_have_source(self@),
    {
        proof {
            use_type_invariant(self);
        }
        &self.fields
    }

    /// The number of fields.
    pub fn len(&self) -> (r: usize)
        ensures
            r == self@.len(),
    {
        self.fields.len()
    }
}

} // verus!
