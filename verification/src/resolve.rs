//! A model of the substitution step that the generated routine performs at
//! run time: given the parsed external representation of a record (each field
//! individually optional) and the record's default value, every supplied
//! field keeps its supplied value and every absent field takes its default.
use vstd::prelude::*;

verus! {

/// A plain field value of a record instance.
#[derive(PartialEq, Eq, Debug)]
pub enum FieldValue {
    Int(i64),
    Boolean(bool),
    Text(String),
}

impl Clone for FieldValue {
    fn clone(&self) -> (r: Self)
        ensures
            r == *self,
    {
        match self {
            FieldValue::Int(i) => FieldValue::Int(*i),
            FieldValue::Boolean(b) => FieldValue::Boolean(*b),
            FieldValue::Text(s) => FieldValue::Text(s.clone()),
        }
    }
}

/// The value the external input supplies for the field called `name`, if it
/// supplies one. The earliest entry with that name wins.
pub open spec fn lookup_spec(entries: Seq<(String, FieldValue)>, name: Seq<char>) -> Option<
    FieldValue,
>
    decreases entries.len(),
{
    if entries.len() == 0 {
        None
    } else if entries[0].0@ == name {
        Some(entries[0].1)
    } else {
        lookup_spec(entries.drop_first(), name)
    }
}

/// Looks the field called `name` up among the supplied entries.
pub fn lookup(entries: &Vec<(String, FieldValue)>, name: &String) -> (r: Option<FieldValue>)
    ensures
        r == lookup_spec(entries@, name@),
{
    let n = entries.len();
    proof {
        assert(entries@.skip(0) =~= entries@);
    }
    for i in 0..n
        invariant
            n == entries.len(),
            lookup_spec(entries@, name@) == lookup_spec(entries@.skip(i as int), name@),
    {
        proof {
            assert(entries@.skip(i as int)[0] == entries@[i as int]);
            assert(entries@.skip(i as int).drop_first() =~= entries@.skip(i + 1));
            assert(entries@.skip(i as int).len() > 0);
        }
        if entries[i].0.eq(name) {
            proof {
                assert(lookup_spec(entries@.skip(i as int), name@) == Some(
                    entries@[i as int].1,
                ));
            }
            return Some(entries[i].1.clone());
        }
        proof {
            assert(lookup_spec(entries@.skip(i as int), name@) == lookup_spec(
                entries@.skip(i + 1),
                name@,
            ));
        }
    }
    proof {
        assert(entries@.skip(n as int) =~= Seq::<(String, FieldValue)>::empty());
    }
    None
}

/// What the generated routine leaves in the field called `name` whose
/// default is `d`: the supplied value when the input has one, `d` otherwise.
pub open spec fn resolved_field(
    entries: Seq<(String, FieldValue)>,
    name: Seq<char>,
    d: FieldValue,
) -> FieldValue {
    match lookup_spec(entries, name) {
        Some(v) => v,
        None => d,
    }
}

/// The whole resolved record, field by field in declaration order.
pub open spec fn resolved_record(
    names: Seq<String>,
    entries: Seq<(String, FieldValue)>,
    defaults: Seq<FieldValue>,
) -> Seq<FieldValue> {
    Seq::new(names.len(), |i: int| resolved_field(entries, names[i]@, defaults[i]))
}

/// Resolves a record: `names` are the record's field names in declaration
/// order, `entries` is the parsed external input (each field individually
/// optional: a missing name means the field was absent), and `defaults` is
/// the record's default instance, field by field. Every supplied field
/// carries its supplied value and every absent field its default.
pub fn resolve_record(
    names: &Vec<String>,
    entries: &Vec<(String, FieldValue)>,
    defaults: &Vec<FieldValue>,
) -> (r: Vec<FieldValue>)
    requires
        defaults@.len() == names@.len(),
    ensures
        r@ == resolved_record(names@, entries@, defaults@),
{
    let mut r: Vec<FieldValue> = Vec::new();
    let n = names.len();
    for i in 0..n
        invariant
            n == names.len(),
            defaults@.len() == names@.len(),
            r@ =~= resolved_record(names@, entries@, defaults@).take(i as int),
    {
        match lookup(entries, &names[i]) {
            Some(v) => r.push(v),
            None => r.push(defaults[i].clone()),
        }
    }
    proof {
        assert(resolved_record(names@, entries@, defaults@).take(n as int) =~= resolved_record(
            names@,
            entries@,
            defaults@,
        ));
    }
    r
}

/// Substitution is total: whatever subset of fields the input supplies, the
/// resolved record has every supplied field carrying its supplied value and
/// every other field equal to the corresponding field of the default
/// instance.
pub proof fn lemma_substitution_total(
    names: Seq<String>,
    entries: Seq<(String, FieldValue)>,
    defaults: Seq<FieldValue>,
)
    requires
        defaults.len() == names.len(),
    ensures
        resolved_record(names, entries, defaults).len() == names.len(),
        forall|i: int|
            0 <= i < names.len() && lookup_spec(entries, names[i]@) is Some
                ==> resolved_record(names, entries, defaults)[i] == lookup_spec(
                entries,
                names[i]@,
            )->0,
        forall|i: int|
            0 <= i < names.len() && lookup_spec(entries, names[i]@) is None
                ==> resolved_record(names, entries, defaults)[i] == defaults[i],
{
}

/// When the input supplies every field of the record, the defaults are never
/// consulted: the resolved record is the same whatever default instance is
/// at hand.
pub proof fn lemma_full_input_ignores_defaults(
    names: Seq<String>,
    entries: Seq<(String, FieldValue)>,
    d1: Seq<FieldValue>,
    d2: Seq<FieldValue>,
)
    requires
        d1.len() == names.len(),
        d2.len() == names.len(),
        forall|i: int| 0 <= i < names.len() ==> lookup_spec(entries, names[i]@) is Some,
    ensures
        resolved_record(names, entries, d1) == resolved_record(names, entries, d2),
{
    assert(resolved_record(names, entries, d1) =~= resolved_record(names, entries, d2));
}

/// When the input supplies no field at all, the resolved record is exactly
/// the default instance.
pub proof fn lemma_empty_input_gives_defaults(names: Seq<String>, defaults: Seq<FieldValue>)
    requires
        defaults.len() == names.len(),
    ensures
        resolved_record(names, Seq::empty(), defaults) == defaults,
{
    assert(resolved_record(names, Seq::empty(), defaults) =~= defaults);
}

} // verus!
