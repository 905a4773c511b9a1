//! The structured-data model of an article's metadata block.

use vstd::prelude::*;

verus! {

/// A YAML node. Numbers are kept in their written form, so that reading and
/// writing them never changes their value.
#[derive(Debug, PartialEq)]
pub enum YamlValue {
    Null,
    Bool(bool),
    Number(String),
    String(String),
    Sequence(Vec<YamlValue>),
    Mapping(Vec<(YamlValue, YamlValue)>),
    Tagged(String, Box<YamlValue>),
}

impl Clone for YamlValue {
    fn clone(&self) -> (r: Self)
        ensures
            same_value(*self, r),
            is_scalar(*self) ==> r == *self,
    {
        copy_value(self)
    }
}

/// `a` and `b` are the same node: equal scalars, and children that are the
/// same node by node (entry by entry for mappings).
pub open spec fn same_value(a: YamlValue, b: YamlValue) -> bool
    decreases a,
{
    match a {
        YamlValue::Sequence(x) => b matches YamlValue::Sequence(y) && x@.len() == y@.len() && forall|
            i: int,
        |
            0 <= i < x@.len() ==> same_value(#[trigger] x@[i], y@[i]),
        YamlValue::Mapping(x) => b matches YamlValue::Mapping(y) && x@.len() == y@.len() && forall|
            i: int,
        |
            0 <= i < x@.len() ==> same_value((#[trigger] x@[i]).0, y@[i].0) && same_value(
                x@[i].1,
                y@[i].1,
            ),
        YamlValue::Tagged(t, inner) => b matches YamlValue::Tagged(u, other) && t == u
            && same_value(*inner, *other),
        _ => a == b,
    }
}

/// A node without children.
pub open spec fn is_scalar(v: YamlValue) -> bool {
    v is Null || v is Bool || v is Number || v is String
}

/// A deep copy of `v`; a node without children is copied exactly.
#[verifier::loop_isolation(false)]
pub fn copy_value(v: &YamlValue) -> (r: YamlValue)
    ensures
        same_value(*v, r),
        is_scalar(*v) ==> r == *v,
    decreases v,
{
        match v {
            YamlValue::Null => YamlValue::Null,
            YamlValue::Bool(b) => YamlValue::Bool(*b),
            YamlValue::Number(n) => YamlValue::Number(n.clone()),
            YamlValue::String(s) => YamlValue::String(s.clone()),
            YamlValue::Sequence(items) => {
                let mut out: Vec<YamlValue> = Vec::new();
                let mut i: usize = 0;
                while i < items.len()
                    invariant
                        i <= items@.len(),
                        out@.len() == i,
                        forall|j: int| 0 <= j < i ==> same_value(#[trigger] items@[j], out@[j]),
                    decreases items@.len() - i,
                {
                    proof {
                        assert(decreases_to!(*v => items[i as int]));
                    }
                    let item = copy_value(&items[i]);
                    let ghost before = out@;
                    out.push(item);
                    proof {
                        assert forall|j: int| 0 <= j <= i implies same_value(#[trigger] items@[j], out@[j]) by {
                            if j < i {
                                assert(same_value(items@[j], before[j]));
                                assert(out@[j] == before[j]);
                            }
                        }
                    }
                    i = i + 1;
                }
                let ghost ys = out@;
                let r = YamlValue::Sequence(out);
                assert(r->Sequence_0@ == ys);
                assert(forall|j: int| 0 <= j < items@.len() ==> same_value(#[trigger] items@[j], ys[j]));
                assert(same_value(*v, r));
                r
            },
            YamlValue::Mapping(entries) => {
                let mut out: Vec<(YamlValue, YamlValue)> = Vec::new();
                let mut i: usize = 0;
                while i < entries.len()
                    invariant
                        i <= entries@.len(),
                        out@.len() == i,
                        forall|j: int| 0 <= j < i ==> same_value((#[trigger] entries@[j]).0, out@[j].0) && same_value(entries@[j].1, out@[j].1),
                    decreases entries@.len() - i,
                {
                    proof {
                        assert(decreases_to!(*v => entries[i as int].0));
                        assert(decreases_to!(*v => entries[i as int].1));
                    }
                    let k = copy_value(&entries[i].0);
                    let w = copy_value(&entries[i].1);
                    let ghost before = out@;
                    out.push((k, w));
                    proof {
                        assert forall|j: int| 0 <= j <= i implies same_value((#[trigger] entries@[j]).0, out@[j].0) && same_value(entries@[j].1, out@[j].1) by {
                            if j < i {
                                assert(same_value(entries@[j].0, before[j].0) && same_value(entries@[j].1, before[j].1));
                                assert(out@[j] == before[j]);
                            }
                        }
                    }
                    i = i + 1;
                }
                let ghost ys = out@;
                let r = YamlValue::Mapping(out);
                assert(r->Mapping_0@ == ys);
                assert(forall|j: int| 0 <= j < entries@.len() ==> same_value((#[trigger] entries@[j]).0, ys[j].0) && same_value(entries@[j].1, ys[j].1));
                assert(same_value(*v, r));
                r
            },
            YamlValue::Tagged(tag, inner) => {
                let w = copy_value(&**inner);
                YamlValue::Tagged(tag.clone(), Box::new(w))
            },
        }
}

} // verus!
