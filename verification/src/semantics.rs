use vstd::prelude::*;
use crate::synth::{MethodBody, MethodBodyView, MethodDef, MethodDefView};

verus! {

/// A field's runtime value, as far as the evaluator models one: integral or
/// textual.
#[derive(Debug, PartialEq, Eq)]
pub enum Value {
    Int(i64),
    Text(String),
}

impl Clone for Value {
    fn clone(&self) -> (r: Self)
        ensures
            r == *self,
    {
        match self {
            Value::Int(n) => Value::Int(*n),
            Value::Text(t) => Value::Text(t.clone()),
        }
    }
}

/// One field of a structure value: the field's identifier and its value.
#[derive(Debug)]
pub struct FieldBinding {
    pub name: String,
    pub value: Value,
}

/// A structure value the synthesized methods can be evaluated against: its
/// fields in declaration order.
#[derive(Debug)]
pub struct StructValue {
    pub fields: Vec<FieldBinding>,
}

/// The value stored under the first binding of this name.
pub open spec fn spec_lookup(s: Seq<FieldBinding>, name: Seq<char>) -> Option<Value>
    decreases s.len(),
{
    if s.len() == 0 {
        None
    } else if s[0].name@ == name {
        Some(s[0].value)
    } else {
        spec_lookup(s.drop_first(), name)
    }
}

/// The bindings after the first binding of this name is set to `v`; bindings
/// of other names, and the order, are untouched.
pub open spec fn spec_store(s: Seq<FieldBinding>, name: Seq<char>, v: Value) -> Seq<FieldBinding>
    decreases s.len(),
{
    if s.len() == 0 {
        s
    } else if s[0].name@ == name {
        seq![FieldBinding { name: s[0].name, value: v }] + s.drop_first()
    } else {
        seq![s[0]] + spec_store(s.drop_first(), name, v)
    }
}

/// What a synthesized method returns when read against a structure value: a
/// setter returns nothing; either getter returns the value stored under the
/// field its body reads (by copy, or the value an alias points to).
pub open spec fn spec_getter_result(m: MethodDefView, s: Seq<FieldBinding>) -> Option<Value> {
    match m.body {
        MethodBodyView::AssignParamToField(_) => None,
        MethodBodyView::ReadField(f) => spec_lookup(s, f),
        MethodBodyView::ReadFieldRef(f) => spec_lookup(s, f),
    }
}

/// What a synthesized method does to a structure value: a setter assigns its
/// argument to the field its body names; a getter changes nothing.
pub open spec fn spec_setter_effect(m: MethodDefView, s: Seq<FieldBinding>, v: Value) -> Seq<
    FieldBinding,
> {
    match m.body {
        MethodBodyView::AssignParamToField(f) => spec_store(s, f, v),
        MethodBodyView::ReadField(_) => s,
        MethodBodyView::ReadFieldRef(_) => s,
    }
}

/// Reading what a stored value is after storing: storing under a present name
/// and looking the same name up yields the stored value.
pub proof fn lemma_lookup_after_store(s: Seq<FieldBinding>, name: Seq<char>, v: Value)
    requires
        spec_lookup(s, name) is Some,
    ensures
        spec_lookup(spec_store(s, name, v), name) == Some(v),
    decreases s.len(),
{
    if s.len() == 0 {
    } else if s[0].name@ == name {
        let t = seq![FieldBinding { name: s[0].name, value: v }] + s.drop_first();
        assert(t[0].name@ == name);
    } else {
        let rest = spec_store(s.drop_first(), name, v);
        let t = seq![s[0]] + rest;
        assert(t[0].name@ != name);
        assert(t.drop_first() =~= rest);
        lemma_lookup_after_store(s.drop_first(), name, v);
    }
}

/// The value stored under the binding of this name, from position `i` on.
fn lookup_from(fields: &Vec<FieldBinding>, i: usize, name: &String) -> (r: Option<Value>)
    requires
        i <= fields@.len(),
    ensures
        r == spec_lookup(fields@.skip(i as int), name@),
    decreases fields@.len() - i,
{
    if i == fields.len() {
        proof {
            assert(fields@.skip(i as int).len() == 0);
        }
        None
    } else {
        proof {
            assert(fields@.skip(i as int)[0] == fields@[i as int]);
            assert(fields@.skip(i as int).drop_first() =~= fields@.skip(i as int + 1));
        }
        if fields[i].name == *name {
            Some(fields[i].value.clone())
        } else {
            lookup_from(fields, i + 1, name)
        }
    }
}

/// Sets the first binding of this name to `v`, from position `i` on; bindings
/// of other names are untouched.
fn store_from(fields: &mut Vec<FieldBinding>, i: usize, name: &String, v: Value)
    requires
        i <= old(fields)@.len(),
    ensures
        final(fields)@ == old(fields)@.take(i as int) + spec_store(
            old(fields)@.skip(i as int),
            name@,
            v,
        ),
    decreases old(fields)@.len() - i,
{
    let ghost orig = fields@;
    if i == fields.len() {
        proof {
            assert(orig.skip(i as int).len() == 0);
            assert(orig.take(i as int) + orig.skip(i as int) =~= orig);
        }
    } else {
        proof {
            assert(orig.skip(i as int)[0] == orig[i as int]);
            assert(orig.skip(i as int).drop_first() =~= orig.skip(i as int + 1));
        }
        if fields[i].name == *name {
            let old_binding = fields.remove(i);
            let new_binding = FieldBinding { name: old_binding.name, value: v };
            proof {
                assert(new_binding == (FieldBinding { name: orig[i as int].name, value: v }));
            }
            fields.insert(i, new_binding);
            proof {
                assert(fields@ =~= orig.take(i as int) + (seq![
                    FieldBinding { name: orig[i as int].name, value: v },
                ] + orig.skip(i as int + 1)));
            }
        } else {
            store_from(fields, i + 1, name, v);
            proof {
                assert(orig.take(i as int + 1) =~= orig.take(i as int) + seq![orig[i as int]]);
                assert(orig.take(i as int) + (seq![orig[i as int]] + spec_store(
                    orig.skip(i as int + 1),
                    name@,
                    v,
                )) =~= orig.take(i as int + 1) + spec_store(orig.skip(i as int + 1), name@, v));
            }
        }
    }
}

/// Evaluates a synthesized getter against a structure value: the value stored
/// under the field the method's body reads, or nothing for a setter body.
pub fn invoke_getter(m: &MethodDef, st: &StructValue) -> (r: Option<Value>)
    ensures
        r == spec_getter_result(m@, st.fields@),
{
    proof {
        assert(st.fields@.skip(0) =~= st.fields@);
    }
    match &m.body {
        MethodBody::AssignParamToField(_) => None,
        MethodBody::ReadField(f) => lookup_from(&st.fields, 0, f),
        MethodBody::ReadFieldRef(f) => lookup_from(&st.fields, 0, f),
    }
}

/// Evaluates a synthesized setter against a structure value: assigns `v` to
/// the field the method's body names; a getter body changes nothing.
pub fn invoke_setter(m: &MethodDef, st: &mut StructValue, v: Value)
    ensures
        final(st).fields@ == spec_setter_effect(m@, old(st).fields@, v),
{
    proof {
        assert(old(st).fields@.skip(0) =~= old(st).fields@);
        assert(old(st).fields@.take(0) + old(st).fields@.skip(0) =~= old(st).fields@);
    }
    match &m.body {
        MethodBody::AssignParamToField(f) => {
            store_from(&mut st.fields, 0, f, v);
            proof {
                assert(old(st).fields@.take(0) + spec_store(old(st).fields@.skip(0), m@.body->AssignParamToField_0, v)
                    =~= spec_store(old(st).fields@, m@.body->AssignParamToField_0, v));
            }
        },
        MethodBody::ReadField(_) => {},
        MethodBody::ReadFieldRef(_) => {},
    }
}

} // verus!
