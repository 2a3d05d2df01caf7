//! The template-evaluation context: a mapping from variable names to values,
//! built from a parsed document (or the environment) either nested under a
//! single root key or flattened one level.

use vstd::prelude::*;
use crate::errors::Error;
use crate::value::{clone_value, string_keyed, ValueModel, StructuredValue};

verus! {

/// What a sequence of (name, value) entries denotes: the mapping in which a
/// later entry for the same name wins.
pub open spec fn entries_map(s: Seq<(String, StructuredValue)>) -> Map<Seq<char>, ValueModel>
    decreases s.len(),
{
    if s.len() == 0 {
        Map::empty()
    } else {
        entries_map(s.drop_last()).insert(s.last().0@, s.last().1@)
    }
}

/// The context handed to the template engine. Its model is a mapping from
/// variable names to value models; an entry shadowed by a later one for the
/// same name is not part of the model.
#[derive(Debug)]
pub struct Context {
    pub(crate) entries: Vec<(String, StructuredValue)>,
}

impl View for Context {
    type V = Map<Seq<char>, ValueModel>;

    closed spec fn view(&self) -> Map<Seq<char>, ValueModel> {
        entries_map(self.entries@)
    }
}

impl Context {
    /// The empty context: valid, and renders templates that reference no
    /// external variables.
    pub fn new() -> (c: Context)
        ensures
            c@ == Map::<Seq<char>, ValueModel>::empty(),
    {
        Context { entries: Vec::new() }
    }

    /// Binds `key` to `value`, replacing any earlier binding of `key`.
    pub fn insert(&mut self, key: String, value: StructuredValue)
        ensures
            final(self)@ == old(self)@.insert(key@, value@),
    {
        let ghost s = self.entries@;
        let ghost e = (key, value);
        self.entries.push((key, value));
        proof {
            assert(self.entries@.drop_last() =~= s);
            assert(self.entries@.last() == e);
        }
    }

    /// Looks a variable up, honouring the latest binding.
    pub fn get<'a>(&'a self, key: &str) -> (r: Option<&'a StructuredValue>)
        ensures
            match r {
                Some(v) => self@.contains_key(key@) && v@ == self@[key@],
                None => !self@.contains_key(key@),
            },
    {
        let k: String = key.to_owned();
        let ghost s = self.entries@;
        let ghost full = entries_map(s);
        let mut j: usize = self.entries.len();
        proof {
            assert(s.take(s.len() as int) =~= s);
        }
        while j > 0
            invariant
                j <= self.entries@.len(),
                s == self.entries@,
                full == entries_map(s),
                full == self@,
                k@ == key@,
                full.contains_key(key@) == entries_map(s.take(j as int)).contains_key(key@),
                full.contains_key(key@) ==> full[key@] == entries_map(s.take(j as int))[key@],
            decreases j,
        {
            j = j - 1;
            proof {
                assert(s.take(j as int + 1).drop_last() =~= s.take(j as int));
                assert(s.take(j as int + 1).last() == s[j as int]);
            }
            if self.entries[j].0 == k {
                return Some(&self.entries[j].1);
            }
        }
        proof {
            assert(s.take(0) =~= Seq::<(String, StructuredValue)>::empty());
        }
        None
    }
}

/// The spec-level reasons for which no context can be built.
pub enum ContextFault {
    NotMapping,
    NonStringKey,
}

/// The value that a root key is bound to: the parsed document, or an empty
/// mapping when no context source was chosen.
pub open spec fn nested_value(v: Option<ValueModel>) -> ValueModel {
    match v {
        Some(m) => m,
        None => ValueModel::Dict(Seq::empty()),
    }
}

/// Every top-level key of the mapping `m` is a string.
pub open spec fn top_string_keyed(m: ValueModel) -> bool {
    forall|i: int| 0 <= i < m->Dict_0.len() ==> (#[trigger] m->Dict_0[i]).0 is Str
}

/// The mapping denoted by the entries of a string-keyed dictionary, with a
/// later entry for the same key winning.
pub open spec fn dict_map(entries: Seq<(ValueModel, ValueModel)>) -> Map<Seq<char>, ValueModel>
    decreases entries.len(),
{
    if entries.len() == 0 {
        Map::empty()
    } else {
        dict_map(entries.drop_last()).insert(entries.last().0->Str_0, entries.last().1)
    }
}

/// What building a context yields: with a root key, the single binding of
/// that key to the whole document (or to an empty mapping); without one, the
/// flattened top-level entries of the document, which must be a string-keyed
/// mapping.
pub open spec fn spec_build_context(v: Option<ValueModel>, root: Option<Seq<char>>) -> Result<
    Map<Seq<char>, ValueModel>,
    ContextFault,
> {
    match root {
        Some(k) => Ok(Map::empty().insert(k, nested_value(v))),
        None => match v {
            None => Ok(Map::<Seq<char>, ValueModel>::empty()),
            Some(m) => if !(m is Dict) {
                Err(ContextFault::NotMapping)
            } else if !top_string_keyed(m) {
                Err(ContextFault::NonStringKey)
            } else {
                Ok(dict_map(m->Dict_0))
            },
        },
    }
}

/// Builds the template-evaluation context from an optionally parsed document
/// and an optional root key.
pub fn build_context(value: Option<StructuredValue>, root_key: Option<String>) -> (r: Result<
    Context,
    Error,
>)
    ensures
        (r is Ok) == (spec_build_context(value.deep_view(), root_key.deep_view()) is Ok),
        r matches Ok(c) ==> c@ == spec_build_context(
            value.deep_view(),
            root_key.deep_view(),
        )->Ok_0,
        r matches Err(e) ==> match spec_build_context(value.deep_view(), root_key.deep_view()) {
            Err(ContextFault::NotMapping) => e is InvalidValueType,
            Err(ContextFault::NonStringKey) => (e matches Error::YamlInvalidKey { key } && {
                &&& !(key@ is Str)
                &&& value matches Some(v)
                &&& exists|i: int|
                    0 <= i < v@->Dict_0.len() && (#[trigger] v@->Dict_0[i]).0 == key@
            }),
            _ => false,
        },
{
    match root_key {
        Some(k) => {
            let v = match value {
                Some(v) => v,
                None => {
                    let d = StructuredValue::Dict(Vec::new());
                    proof {
                        assert(d@->Dict_0 =~= Seq::<(ValueModel, ValueModel)>::empty());
                        assert(d@ == ValueModel::Dict(Seq::<(ValueModel, ValueModel)>::empty()));
                    }
                    d
                },
            };
            proof {
                assert(v@ == nested_value(value.deep_view()));
            }
            let mut c = Context::new();
            c.insert(k, v);
            Ok(c)
        },
        None => match value {
            None => Ok(Context::new()),
            Some(v) => match v {
                StructuredValue::Dict(entries) => {
                    let ghost s = v@->Dict_0;
                    proof {
                        assert(value.deep_view() == Some(v@));
                        assert forall|j: int|
                            0 <= j < entries@.len() implies s[j] == (
                            entries@[j].0.model(),
                            entries@[j].1.model(),
                        ) by {}
                    }
                    let mut c = Context::new();
                    let mut i: usize = 0;
                    proof {
                        assert(s.take(0) =~= Seq::<(ValueModel, ValueModel)>::empty());
                    }
                    while i < entries.len()
                        invariant
                            0 <= i <= entries@.len(),
                            v == StructuredValue::Dict(entries),
                            v@ == ValueModel::Dict(s),
                            value.deep_view() == Some(v@),
                            root_key.deep_view() is None,
                            s.len() == entries@.len(),
                            forall|j: int|
                                0 <= j < entries@.len() ==> s[j] == (
                                    entries@[j].0.model(),
                                    entries@[j].1.model(),
                                ),
                            forall|j: int| 0 <= j < i ==> (#[trigger] s[j]).0 is Str,
                            c@ == dict_map(s.take(i as int)),
                        decreases entries@.len() - i,
                    {
                        proof {
                            assert(s.take(i as int + 1).drop_last() =~= s.take(i as int));
                            assert(s.take(i as int + 1).last() == s[i as int]);
                        }
                        match &entries[i].0 {
                            StructuredValue::Str(ks) => {
                                let kc = ks.clone();
                                let vc = clone_value(&entries[i].1);
                                c.insert(kc, vc);
                            },
                            _ => {
                                let bad = clone_value(&entries[i].0);
                                proof {
                                    assert(!(s[i as int].0 is Str));
                                    assert(!top_string_keyed(v@));
                                    let d = v@->Dict_0;
                                    assert(exists|t: int|
                                        0 <= t < d.len() && (#[trigger] d[t]).0 == bad@);
                                }
                                return Err(Error::YamlInvalidKey { key: bad });
                            },
                        }
                        i += 1;
                    }
                    proof {
                        assert(s.take(s.len() as int) =~= s);
                        assert(top_string_keyed(v@));
                    }
                    Ok(c)
                },
                other => {
                    proof {
                        assert(value.deep_view() == Some(other@));
                        assert(!(other@ is Dict));
                    }
                    Err(Error::InvalidValueType)
                },
            },
        },
    }
}

/// The environment given as a value: a flat mapping of variable names to
/// their (string) values.
pub fn env_value(vars: Vec<(String, String)>) -> (v: StructuredValue)
    ensures
        v@ is Dict,
        v@->Dict_0.len() == vars@.len(),
        forall|i: int|
            0 <= i < vars@.len() ==> v@->Dict_0[i] == (
                ValueModel::Str(vars@[i].0@),
                ValueModel::Str(vars@[i].1@),
            ),
        string_keyed(v@),
{
    let mut out: Vec<(StructuredValue, StructuredValue)> = Vec::new();
    let mut i: usize = 0;
    while i < vars.len()
        invariant
            0 <= i <= vars@.len(),
            out@.len() == i,
            forall|j: int|
                0 <= j < i ==> (#[trigger] out@[j].0.model(), out@[j].1.model()) == (
                    ValueModel::Str(vars@[j].0@),
                    ValueModel::Str(vars@[j].1@),
                ),
        decreases vars@.len() - i,
    {
        let k = vars[i].0.clone();
        let val = vars[i].1.clone();
        out.push((StructuredValue::Str(k), StructuredValue::Str(val)));
        i += 1;
    }
    let result = StructuredValue::Dict(out);
    proof {
        let t = result@->Dict_0;
        assert(t.len() == out@.len());
        assert forall|j: int| 0 <= j < t.len() implies t[j] == (
            ValueModel::Str(vars@[j].0@),
            ValueModel::Str(vars@[j].1@),
        ) by {
            assert(t[j] == (out@[j].0.model(), out@[j].1.model()));
        }
        assert forall|j: int|
            0 <= j < t.len() implies (#[trigger] t[j]).0 is Str && string_keyed(t[j].1) by {
            assert(t[j].1 == ValueModel::Str(vars@[j].1@));
        }
    }
    result
}

} // verus!
