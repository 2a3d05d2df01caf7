//! The format-agnostic tree value that unifies TOML, JSON, YAML and
//! environment data before it becomes a template context.

use vstd::prelude::*;

verus! {

/// A structured value parsed from one of the context sources.
///
/// Mapping keys are kept as full values: YAML allows arbitrary keys, and the
/// pipeline rejects non-string keys with a dedicated error instead of
/// accepting them silently. Non-integer numbers are carried as their decimal
/// rendering, so the tree itself stays free of machine floating point.
#[derive(Debug, PartialEq)]
pub enum StructuredValue {
    Null,
    Bool(bool),
    Int(i64),
    Num(String),
    Str(String),
    List(Vec<StructuredValue>),
    Dict(Vec<(StructuredValue, StructuredValue)>),
}

/// The mathematical model of a `StructuredValue`: the same tree over `Seq`.
pub enum ValueModel {
    Null,
    Bool(bool),
    Int(i64),
    Num(Seq<char>),
    Str(Seq<char>),
    List(Seq<ValueModel>),
    Dict(Seq<(ValueModel, ValueModel)>),
}

impl StructuredValue {
    pub open spec fn model(self) -> ValueModel
        decreases self,
    {
        match self {
            StructuredValue::Null => ValueModel::Null,
            StructuredValue::Bool(b) => ValueModel::Bool(b),
            StructuredValue::Int(i) => ValueModel::Int(i),
            StructuredValue::Num(s) => ValueModel::Num(s@),
            StructuredValue::Str(s) => ValueModel::Str(s@),
            StructuredValue::List(items) => ValueModel::List(
                Seq::new(
                    items@.len(),
                    |i: int|
                        if 0 <= i < items@.len() {
                            items@[i].model()
                        } else {
                            ValueModel::Null
                        },
                ),
            ),
            StructuredValue::Dict(entries) => ValueModel::Dict(
                Seq::new(
                    entries@.len(),
                    |i: int|
                        if 0 <= i < entries@.len() {
                            (entries@[i].0.model(), entries@[i].1.model())
                        } else {
                            (ValueModel::Null, ValueModel::Null)
                        },
                ),
            ),
        }
    }
}

impl View for StructuredValue {
    type V = ValueModel;

    open spec fn view(&self) -> ValueModel {
        self.model()
    }
}

impl DeepView for StructuredValue {
    type V = ValueModel;

    open spec fn deep_view(&self) -> ValueModel {
        self.model()
    }
}

/// `k` occurs somewhere in `v` as a mapping key.
pub open spec fn key_occurs(k: ValueModel, v: ValueModel) -> bool
    decreases v,
{
    match v {
        ValueModel::List(items) => exists|i: int|
            0 <= i < items.len() && key_occurs(k, #[trigger] items[i]),
        ValueModel::Dict(entries) => (exists|i: int|
            0 <= i < entries.len() && (#[trigger] entries[i]).0 == k) || (exists|i: int|
            0 <= i < entries.len() && key_occurs(k, (#[trigger] entries[i]).1)),
        _ => false,
    }
}

/// Every mapping anywhere in the tree uses only string keys.
pub open spec fn string_keyed(v: ValueModel) -> bool
    decreases v,
{
    match v {
        ValueModel::List(items) => forall|i: int|
            0 <= i < items.len() ==> string_keyed(#[trigger] items[i]),
        ValueModel::Dict(entries) => forall|i: int|
            0 <= i < entries.len() ==> (#[trigger] entries[i]).0 is Str && string_keyed(
                entries[i].1,
            ),
        _ => true,
    }
}

proof fn lemma_list_item_not_string_keyed(s: Seq<ValueModel>, i: int)
    requires
        0 <= i < s.len(),
        !string_keyed(s[i]),
    ensures
        !string_keyed(ValueModel::List(s)),
{
    let m = ValueModel::List(s);
    assert(m->List_0 == s);
    if string_keyed(m) {
        assert(forall|j: int| 0 <= j < s.len() ==> string_keyed(#[trigger] s[j]));
        assert(string_keyed(s[i]));
        assert(false);
    }
}

proof fn lemma_dict_entry_not_string_keyed(s: Seq<(ValueModel, ValueModel)>, i: int)
    requires
        0 <= i < s.len(),
        !((s[i]).0 is Str) || !string_keyed(s[i].1),
    ensures
        !string_keyed(ValueModel::Dict(s)),
{
    let m = ValueModel::Dict(s);
    assert(m->Dict_0 == s);
    if string_keyed(m) {
        assert(forall|j: int|
            0 <= j < s.len() ==> (#[trigger] s[j]).0 is Str && string_keyed(s[j].1));
        assert((s[i]).0 is Str && string_keyed(s[i].1));
        assert(false);
    }
}

proof fn lemma_list_item_key_occurs(k: ValueModel, s: Seq<ValueModel>, i: int)
    requires
        0 <= i < s.len(),
        key_occurs(k, s[i]),
    ensures
        key_occurs(k, ValueModel::List(s)),
{
    let m = ValueModel::List(s);
    assert(m->List_0 == s);
    assert(exists|j: int| 0 <= j < s.len() && key_occurs(k, #[trigger] s[j]));
}

proof fn lemma_dict_entry_key_occurs(k: ValueModel, s: Seq<(ValueModel, ValueModel)>, i: int)
    requires
        0 <= i < s.len(),
        (s[i]).0 == k || key_occurs(k, s[i].1),
    ensures
        key_occurs(k, ValueModel::Dict(s)),
{
    let m = ValueModel::Dict(s);
    assert(m->Dict_0 == s);
    if (s[i]).0 == k {
        assert(exists|j: int| 0 <= j < s.len() && (#[trigger] s[j]).0 == k);
    } else {
        assert(exists|j: int| 0 <= j < s.len() && key_occurs(k, (#[trigger] s[j]).1));
    }
}

/// Makes an owned copy of the tree with the same model.
pub fn clone_value(v: &StructuredValue) -> (r: StructuredValue)
    ensures
        r@ == v@,
    decreases *v,
{
    match v {
        StructuredValue::Null => StructuredValue::Null,
        StructuredValue::Bool(b) => StructuredValue::Bool(*b),
        StructuredValue::Int(i) => StructuredValue::Int(*i),
        StructuredValue::Num(s) => StructuredValue::Num(s.clone()),
        StructuredValue::Str(s) => StructuredValue::Str(s.clone()),
        StructuredValue::List(items) => {
            let ghost s = v@->List_0;
            proof {
                assert forall|j: int| 0 <= j < items@.len() implies s[j] == items@[j].model()
                by {}
            }
            let mut out: Vec<StructuredValue> = Vec::new();
            let mut i: usize = 0;
            while i < items.len()
                invariant
                    0 <= i <= items@.len(),
                    *v == StructuredValue::List(*items),
                    v@ == ValueModel::List(s),
                    s.len() == items@.len(),
                    forall|j: int| 0 <= j < items@.len() ==> s[j] == items@[j].model(),
                    out@.len() == i,
                    forall|j: int| 0 <= j < i ==> #[trigger] out@[j].model() == s[j],
                decreases items@.len() - i,
            {
                proof {
                    assert(decreases_to!(*v => *items));
                    assert(decreases_to!(*items => items@[i as int]));
                }
                let c = clone_value(&items[i]);
                out.push(c);
                i += 1;
            }
            let result = StructuredValue::List(out);
            proof {
                let t = result@->List_0;
                assert(t.len() == out@.len());
                assert forall|j: int| 0 <= j < t.len() implies t[j] == s[j] by {
                    assert(t[j] == out@[j].model());
                }
                assert(t =~= s);
            }
            result
        },
        StructuredValue::Dict(entries) => {
            let ghost s = v@->Dict_0;
            proof {
                assert forall|j: int|
                    0 <= j < entries@.len() implies s[j] == (
                    entries@[j].0.model(),
                    entries@[j].1.model(),
                ) by {}
            }
            let mut out: Vec<(StructuredValue, StructuredValue)> = Vec::new();
            let mut i: usize = 0;
            while i < entries.len()
                invariant
                    0 <= i <= entries@.len(),
                    *v == StructuredValue::Dict(*entries),
                    v@ == ValueModel::Dict(s),
                    s.len() == entries@.len(),
                    forall|j: int|
                        0 <= j < entries@.len() ==> s[j] == (
                            entries@[j].0.model(),
                            entries@[j].1.model(),
                        ),
                    out@.len() == i,
                    forall|j: int|
                        0 <= j < i ==> (
                            #[trigger] out@[j].0.model(),
                            out@[j].1.model(),
                        ) == s[j],
                decreases entries@.len() - i,
            {
                proof {
                    assert(decreases_to!(*v => *entries));
                    assert(decreases_to!(*entries => entries@[i as int]));
                    assert(decreases_to!(entries@[i as int] => entries@[i as int].0));
                    assert(decreases_to!(entries@[i as int] => entries@[i as int].1));
                }
                let ck = clone_value(&entries[i].0);
                let cv = clone_value(&entries[i].1);
                out.push((ck, cv));
                i += 1;
            }
            let result = StructuredValue::Dict(out);
            proof {
                let t = result@->Dict_0;
                assert(t.len() == out@.len());
                assert forall|j: int| 0 <= j < t.len() implies t[j] == s[j] by {
                    assert(t[j] == (out@[j].0.model(), out@[j].1.model()));
                }
                assert(t =~= s);
            }
            result
        },
    }
}

/// Finds a mapping key somewhere in the tree that is not a string,
/// if the tree holds one.
pub fn find_non_string_key<'a>(v: &'a StructuredValue) -> (r: Option<&'a StructuredValue>)
    ensures
        r is None <==> string_keyed(v@),
        r matches Some(k) ==> !(k@ is Str) && key_occurs(k@, v@),
    decreases *v,
{
    match v {
        StructuredValue::List(items) => {
            let ghost s = v@->List_0;
            proof {
                assert forall|j: int| 0 <= j < items@.len() implies s[j] == items@[j].model()
                by {}
            }
            let mut i: usize = 0;
            while i < items.len()
                invariant
                    0 <= i <= items@.len(),
                    *v == StructuredValue::List(*items),
                    v@ == ValueModel::List(s),
                    s.len() == items@.len(),
                    forall|j: int| 0 <= j < items@.len() ==> s[j] == items@[j].model(),
                    forall|j: int| 0 <= j < i ==> string_keyed(#[trigger] s[j]),
                decreases items@.len() - i,
            {
                proof {
                    assert(decreases_to!(*v => *items));
                    assert(decreases_to!(*items => items@[i as int]));
                }
                let found = find_non_string_key(&items[i]);
                if found.is_some() {
                    proof {
                        lemma_list_item_not_string_keyed(s, i as int);
                        lemma_list_item_key_occurs(found->Some_0@, s, i as int);
                    }
                    return found;
                }
                i += 1;
            }
            None
        },
        StructuredValue::Dict(entries) => {
            let ghost s = v@->Dict_0;
            proof {
                assert forall|j: int|
                    0 <= j < entries@.len() implies s[j] == (
                    entries@[j].0.model(),
                    entries@[j].1.model(),
                ) by {}
            }
            let mut i: usize = 0;
            while i < entries.len()
                invariant
                    0 <= i <= entries@.len(),
                    *v == StructuredValue::Dict(*entries),
                    v@ == ValueModel::Dict(s),
                    s.len() == entries@.len(),
                    forall|j: int|
                        0 <= j < entries@.len() ==> s[j] == (
                            entries@[j].0.model(),
                            entries@[j].1.model(),
                        ),
                    forall|j: int|
                        0 <= j < i ==> (#[trigger] s[j]).0 is Str && string_keyed(s[j].1),
                decreases entries@.len() - i,
            {
                proof {
                    assert(decreases_to!(*v => *entries));
                    assert(decreases_to!(*entries => entries@[i as int]));
                    assert(decreases_to!(entries@[i as int] => entries@[i as int].1));
                }
                let is_str = match &entries[i].0 {
                    StructuredValue::Str(_) => true,
                    _ => false,
                };
                if !is_str {
                    proof {
                        lemma_dict_entry_not_string_keyed(s, i as int);
                        lemma_dict_entry_key_occurs(s[i as int].0, s, i as int);
                    }
                    return Some(&entries[i].0);
                }
                let found = find_non_string_key(&entries[i].1);
                if found.is_some() {
                    proof {
                        lemma_dict_entry_not_string_keyed(s, i as int);
                        lemma_dict_entry_key_occurs(found->Some_0@, s, i as int);
                    }
                    return found;
                }
                i += 1;
            }
            None
        },
        _ => None,
    }
}

} // verus!
