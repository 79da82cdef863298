//! The resources a raw pipeline draw binds: a table of what was supplied for
//! each descriptor set and binding, and the check of that table against the
//! set layouts the pipeline declares, which yields the descriptor writes of
//! each set.
use vstd::prelude::*;
use std::collections::BTreeMap;
use vstd::std_specs::iter::IteratorSpec;
use vstd::std_specs::cmp::OrdSpec;
use crate::error::{VMNLError, VMNLErrorKind, VMNLResult};
use crate::raw::{unsupported_type_message, DescriptorType, RawDescriptorBinding};
use crate::text::{append_decimal, decimal};

verus! {

/// `(set, binding)` comes before `(set2, binding2)`: by set, then binding.
pub open spec fn key_less(a: (u32, u32), b: (u32, u32)) -> bool {
    a.0 < b.0 || (a.0 == b.0 && a.1 < b.1)
}

/// The key of an entry: its set and binding.
pub open spec fn entry_key<V>(e: (u32, u32, V)) -> (u32, u32) {
    (e.0, e.1)
}

/// Entries in strictly increasing key order.
pub open spec fn sorted_entries<V>(entries: Seq<(u32, u32, V)>) -> bool {
    forall|i: int, j: int|
        0 <= i < j < entries.len() ==> key_less(entry_key(#[trigger] entries[i]), entry_key(
            #[trigger] entries[j],
        ))
}

/// `binding` of `set` holds something in the nested map.
pub open spec fn holds<V>(m: Map<u32, Map<u32, V>>, set: u32, binding: u32) -> bool {
    m.contains_key(set) && m[set].contains_key(binding)
}

/// `s` lists what `m` holds: one entry per set and binding, in key order,
/// each with the value held there.
pub open spec fn lists_bindings<V>(m: Map<u32, Map<u32, V>>, s: Seq<(u32, u32, V)>) -> bool {
    &&& sorted_entries(s)
    &&& forall|i: int|
        0 <= i < s.len() ==> holds(m, (#[trigger] s[i]).0, s[i].1) && m[s[i].0][s[i].1] == s[i].2
    &&& forall|set: u32, binding: u32| #[trigger] holds(m, set, binding) ==> supplies(s, set, binding)
}

/// The map after `value` is supplied for `binding` of `set`.
pub open spec fn with_binding<V>(m: Map<u32, Map<u32, V>>, set: u32, binding: u32, value: V) -> Map<
    u32,
    Map<u32, V>,
> {
    m.insert(
        set,
        (if m.contains_key(set) {
            m[set]
        } else {
            Map::empty()
        }).insert(binding, value),
    )
}

/// What was supplied for descriptor bindings, by set and then by binding,
/// and the first key that was supplied twice.
pub struct ResourceTable<V> {
    bindings: BTreeMap<u32, BTreeMap<u32, V>>,
    duplicate: Option<(u32, u32)>,
}

impl<V> ResourceTable<V> {
    /// What was supplied, by set and then by binding.
    pub closed spec fn spec_bindings(&self) -> Map<u32, Map<u32, V>> {
        self.bindings@.map_values(|inner: BTreeMap<u32, V>| inner@)
    }

    /// What was supplied, one entry per set and binding, in key order.
    pub open spec fn spec_entries(&self) -> Seq<(u32, u32, V)> {
        choose|s: Seq<(u32, u32, V)>| lists_bindings(self.spec_bindings(), s)
    }

    /// The first key supplied a second time, if any.
    pub closed spec fn spec_duplicate(&self) -> Option<(u32, u32)> {
        self.duplicate
    }

    /// An empty table.
    pub fn new() -> (t: Self)
        ensures
            t.spec_bindings() == Map::<u32, Map<u32, V>>::empty(),
            t.spec_duplicate() is None,
    {
        let t = ResourceTable { bindings: BTreeMap::new(), duplicate: None };
        proof {
            assert(t.spec_bindings() =~= Map::<u32, Map<u32, V>>::empty());
        }
        t
    }

    /// The first key supplied a second time, if any.
    pub fn duplicate(&self) -> (d: Option<(u32, u32)>)
        ensures
            d == self.spec_duplicate(),
    {
        self.duplicate
    }

    /// Supply `value` for `binding` of `set`. A value already supplied for
    /// that key is replaced, and the first key supplied twice is remembered.
    pub fn uniform(self, set: u32, binding: u32, value: V) -> (t: Self)
        ensures
            t.spec_bindings() == with_binding(self.spec_bindings(), set, binding, value),
            t.spec_duplicate() == (if holds(self.spec_bindings(), set, binding)
                && self.spec_duplicate() is None {
                Some((set, binding))
            } else {
                self.spec_duplicate()
            }),
    {
        broadcast use {vstd::std_specs::btree::group_btree_axioms, vstd::laws_cmp::group_laws_cmp};

        let mut t = self;
        let mut inner = match t.bindings.remove(&set) {
            Some(m) => m,
            None => BTreeMap::new(),
        };
        let previous = inner.insert(binding, value);
        t.bindings.insert(set, inner);
        if previous.is_some() && t.duplicate.is_none() {
            t.duplicate = Some((set, binding));
        }
        proof {
            assert(t.spec_bindings() =~= with_binding(self.spec_bindings(), set, binding, value));
        }
        t
    }

    /// What was supplied, one entry per set and binding, in key order.
    pub fn entries(&self) -> (e: Vec<(u32, u32, &V)>)
        ensures
            lists_bindings(self.spec_bindings(), self.spec_entries()),
            same_keys(e@, self.spec_entries()),
            forall|i: int| 0 <= i < e@.len() ==> (#[trigger] e@[i]).2 == self.spec_entries()[i].2,
    {
        broadcast use {vstd::std_specs::btree::group_btree_axioms, vstd::laws_cmp::group_laws_cmp};

        let ghost m = self.spec_bindings();
        let mut e: Vec<(u32, u32, &V)> = Vec::new();
        let ghost mut g: Seq<(u32, u32, V)> = Seq::empty();
        proof {
            assert(vstd::laws_cmp::obeys_cmp::<u32>());
            assert(vstd::std_specs::btree::key_obeys_cmp_spec::<u32>());
        }
        let outer_iter = self.bindings.iter();
        let ghost os = outer_iter.remaining();
        proof {
            let ks = os.map_values(|kv: (&u32, &BTreeMap<u32, V>)| *kv.0);
            assert(vstd::std_specs::btree::increasing_seq(ks));
            assert forall|a: int, b: int| 0 <= a < b < os.len() implies *os[a].0 < *os[b].0 by {
                assert(ks[a].cmp_spec(&ks[b]) is Less);
            }
            assert(os == vstd::std_specs::btree::spec_btree_map_iter(&self.bindings).remaining());
        }
        for pair in outer: outer_iter
            invariant
                m == self.spec_bindings(),
                outer.seq() == os,
                forall|a: int, b: int| 0 <= a < b < os.len() ==> *os[a].0 < *os[b].0,
                forall|i: int|
                    0 <= i < os.len() ==> self.bindings@.contains_key(*(#[trigger] os[i]).0)
                        && self.bindings@[*os[i].0] == *os[i].1,
                forall|k: u32| #[trigger] self.bindings@.contains_key(k) ==> os.contains((&k, &self.bindings@[k])),
                e@.len() == g.len(),
                forall|i: int|
                    0 <= i < g.len() ==> entry_key(#[trigger] e@[i]) == entry_key(g[i]) && e@[i].2
                        == g[i].2,
                sorted_entries(g),
                forall|i: int|
                    0 <= i < g.len() ==> holds(m, (#[trigger] g[i]).0, g[i].1) && m[g[i].0][g[i].1]
                        == g[i].2,
                outer.index() == 0 ==> g.len() == 0,
                outer.index() > 0 ==> forall|i: int|
                    0 <= i < g.len() ==> (#[trigger] g[i]).0 <= *outer.seq()[outer.index() - 1].0,
                forall|q: int, b: u32|
                    0 <= q < outer.index() && #[trigger] holds(m, *outer.seq()[q].0, b) ==> supplies(
                        g,
                        *outer.seq()[q].0,
                        b,
                    ),
        {
            let (set_ref, inner) = pair;
            let set: u32 = *set_ref;
            let ghost p = outer.index();
            proof {
                assert(pair == os[p]);
                assert(self.bindings@.contains_key(set) && self.bindings@[set] == *inner);
                assert(m[set] == inner@);
                if p > 0 {
                    assert(*os[p - 1].0 < *os[p].0);
                }
            }
            let inner_iter = inner.iter();
            let ghost is = inner_iter.remaining();
            proof {
                let ks = is.map_values(|kv: (&u32, &V)| *kv.0);
                assert(vstd::std_specs::btree::increasing_seq(ks));
                assert forall|a: int, b: int| 0 <= a < b < is.len() implies *is[a].0 < *is[b].0 by {
                    assert(ks[a].cmp_spec(&ks[b]) is Less);
                }
                assert(is == vstd::std_specs::btree::spec_btree_map_iter(inner).remaining());
            }
            for kv in it: inner_iter
                invariant
                    m == self.spec_bindings(),
                    it.seq() == is,
                    forall|a: int, b: int| 0 <= a < b < is.len() ==> *is[a].0 < *is[b].0,
                    forall|i: int|
                        0 <= i < is.len() ==> inner@.contains_key(*(#[trigger] is[i]).0)
                            && inner@[*is[i].0] == *is[i].1,
                    forall|k: u32| #[trigger] inner@.contains_key(k) ==> is.contains((&k, &inner@[k])),
                    outer.seq() == os,
                    m.contains_key(set),
                    m[set] == inner@,
                    e@.len() == g.len(),
                    forall|i: int|
                        0 <= i < g.len() ==> entry_key(#[trigger] e@[i]) == entry_key(g[i]) && e@[i].2
                            == g[i].2,
                    sorted_entries(g),
                    forall|i: int|
                        0 <= i < g.len() ==> holds(m, (#[trigger] g[i]).0, g[i].1) && m[g[i].0][g[i].1]
                            == g[i].2,
                    forall|i: int| 0 <= i < g.len() ==> (#[trigger] g[i]).0 <= set,
                    it.index() == 0 ==> forall|i: int| 0 <= i < g.len() ==> (#[trigger] g[i]).0 < set,
                    it.index() > 0 ==> forall|i: int|
                        0 <= i < g.len() ==> key_less(entry_key(#[trigger] g[i]), (set, *it.seq()[it.index() - 1].0))
                            || entry_key(g[i]) == (set, *it.seq()[it.index() - 1].0),
                    forall|t: int| 0 <= t < it.index() ==> supplies(g, set, #[trigger] *it.seq()[t].0),
                    forall|q: int, b: u32|
                        0 <= q < p && #[trigger] holds(m, *outer.seq()[q].0, b) ==> supplies(
                            g,
                            *outer.seq()[q].0,
                            b,
                        ),
            {
                let (binding_ref, value) = kv;
                let binding: u32 = *binding_ref;
                let ghost t = it.index();
                let ghost before = g;
                proof {
                    assert(kv == is[t]);
                    assert(inner@.contains_key(binding) && inner@[binding] == *value);
                    if t > 0 {
                        assert(*is[t - 1].0 < *is[t].0);
                    }
                    g = g.push((set, binding, *value));
                    assert forall|a: int, b: int| 0 <= a < b < g.len() implies key_less(
                        entry_key(#[trigger] g[a]),
                        entry_key(#[trigger] g[b]),
                    ) by {
                        if b < before.len() {
                            assert(key_less(entry_key(before[a]), entry_key(before[b])));
                        } else {
                            assert(g[a] == before[a]);
                        }
                    }
                    assert forall|t2: int| 0 <= t2 < t + 1 implies supplies(g, set, #[trigger] *it.seq()[t2].0) by {
                        if t2 < t {
                            assert(supplies(before, set, *it.seq()[t2].0));
                            let w = choose|w: int| 0 <= w < before.len() && entry_key(#[trigger] before[w]) == (set, *it.seq()[t2].0);
                            assert(g[w] == before[w]);
                        } else {
                            assert(entry_key(g.last()) == (set, binding));
                        }
                    }
                    assert forall|q: int, b: u32|
                        0 <= q < p && #[trigger] holds(m, *outer.seq()[q].0, b) implies supplies(
                            g,
                            *outer.seq()[q].0,
                            b,
                        ) by {
                        assert(supplies(before, *outer.seq()[q].0, b));
                        let w = choose|w: int| 0 <= w < before.len() && entry_key(#[trigger] before[w]) == (*outer.seq()[q].0, b);
                        assert(g[w] == before[w]);
                    }
                }
                e.push((set, binding, value));
            }
            proof {
                assert forall|b: u32| #[trigger] holds(m, set, b) implies supplies(g, set, b) by {
                    assert(inner@.contains_key(b));
                    assert(is.contains((&b, &inner@[b])));
                    let t = choose|t: int| 0 <= t < is.len() && is[t] == (&b, &inner@[b]);
                    assert(supplies(g, set, *is[t].0));
                }
            }
        }
        proof {
            assert(lists_bindings(m, g)) by {
                assert forall|set: u32, b: u32| #[trigger] holds(m, set, b) implies supplies(g, set, b) by {
                    assert(self.bindings@.contains_key(set));
                    assert(os.contains((&set, &self.bindings@[set])));
                    let q = choose|q: int| 0 <= q < os.len() && os[q] == (&set, &self.bindings@[set]);
                    assert(holds(m, *os[q].0, b));
                }
            }
            lemma_lists_bindings_unique(m, g, self.spec_entries());
        }
        e
    }
}

/// Two lists of entries name the same keys in the same order.
pub open spec fn same_keys<A, B>(s: Seq<(u32, u32, A)>, t: Seq<(u32, u32, B)>) -> bool {
    &&& s.len() == t.len()
    &&& forall|i: int| 0 <= i < s.len() ==> #[trigger] entry_key(s[i]) == entry_key(t[i])
}

/// Two lists in strictly increasing key order that hold the same entries
/// are equal.
proof fn lemma_sorted_unique<V>(s1: Seq<(u32, u32, V)>, s2: Seq<(u32, u32, V)>)
    requires
        sorted_entries(s1),
        sorted_entries(s2),
        forall|i: int| 0 <= i < s1.len() ==> s2.contains(#[trigger] s1[i]),
        forall|i: int| 0 <= i < s2.len() ==> s1.contains(#[trigger] s2[i]),
    ensures
        s1 == s2,
    decreases s1.len(),
{
    if s1.len() == 0 {
        if s2.len() > 0 {
            assert(s1.contains(s2[0]));
        }
        assert(s1 =~= s2);
    } else {
        assert(s2.contains(s1[0]));
        let j = choose|j: int| 0 <= j < s2.len() && s2[j] == s1[0];
        assert(s1.contains(s2[0]));
        let k = choose|k: int| 0 <= k < s1.len() && s1[k] == s2[0];
        if j > 0 {
            assert(key_less(entry_key(s2[0]), entry_key(s2[j])));
            if k > 0 {
                assert(key_less(entry_key(s1[0]), entry_key(s1[k])));
            }
        }
        let t1 = s1.drop_first();
        let t2 = s2.drop_first();
        assert forall|i: int| 0 <= i < t1.len() implies t2.contains(#[trigger] t1[i]) by {
            assert(t1[i] == s1[i + 1]);
            assert(s2.contains(s1[i + 1]));
            let q = choose|q: int| 0 <= q < s2.len() && s2[q] == s1[i + 1];
            if q == 0 {
                assert(key_less(entry_key(s1[0]), entry_key(s1[i + 1])));
            }
            assert(t2[q - 1] == s2[q]);
        }
        assert forall|i: int| 0 <= i < t2.len() implies t1.contains(#[trigger] t2[i]) by {
            assert(t2[i] == s2[i + 1]);
            assert(s1.contains(s2[i + 1]));
            let q = choose|q: int| 0 <= q < s1.len() && s1[q] == s2[i + 1];
            if q == 0 {
                assert(key_less(entry_key(s2[0]), entry_key(s2[i + 1])));
            }
            assert(t1[q - 1] == s1[q]);
        }
        assert(sorted_entries(t1)) by {
            assert forall|a: int, b: int| 0 <= a < b < t1.len() implies key_less(
                entry_key(#[trigger] t1[a]),
                entry_key(#[trigger] t1[b]),
            ) by {
                assert(key_less(entry_key(s1[a + 1]), entry_key(s1[b + 1])));
            }
        }
        assert(sorted_entries(t2)) by {
            assert forall|a: int, b: int| 0 <= a < b < t2.len() implies key_less(
                entry_key(#[trigger] t2[a]),
                entry_key(#[trigger] t2[b]),
            ) by {
                assert(key_less(entry_key(s2[a + 1]), entry_key(s2[b + 1])));
            }
        }
        lemma_sorted_unique(t1, t2);
        assert forall|i: int| 0 <= i < s1.len() implies s1[i] == s2[i] by {
            if i > 0 {
                assert(s1[i] == t1[i - 1]);
                assert(s2[i] == t2[i - 1]);
            }
        }
        assert(s1 =~= s2);
    }
}

/// At most one list holds what a nested map holds in key order.
proof fn lemma_lists_bindings_unique<V>(m: Map<u32, Map<u32, V>>, s1: Seq<(u32, u32, V)>, s2: Seq<(u32, u32, V)>)
    requires
        lists_bindings(m, s1),
        lists_bindings(m, s2),
    ensures
        s1 == s2,
{
    assert forall|i: int| 0 <= i < s1.len() implies s2.contains(#[trigger] s1[i]) by {
        assert(holds(m, s1[i].0, s1[i].1));
        assert(supplies(s2, s1[i].0, s1[i].1));
        let j = choose|j: int| 0 <= j < s2.len() && entry_key(#[trigger] s2[j]) == (s1[i].0, s1[i].1);
        assert(s2[j] == s1[i]);
    }
    assert forall|i: int| 0 <= i < s2.len() implies s1.contains(#[trigger] s2[i]) by {
        assert(holds(m, s2[i].0, s2[i].1));
        assert(supplies(s1, s2[i].0, s2[i].1));
        let j = choose|j: int| 0 <= j < s1.len() && entry_key(#[trigger] s1[j]) == (s2[i].0, s2[i].1);
        assert(s1[j] == s2[i]);
    }
    lemma_sorted_unique(s1, s2);
}

/// Which supplied entry is the first the pipeline does not declare depends
/// on the keys alone.
proof fn lemma_first_undeclared_keys<A, B>(
    s: Seq<(u32, u32, A)>,
    t: Seq<(u32, u32, B)>,
    layouts: Seq<Seq<RawDescriptorBinding>>,
)
    requires
        same_keys(s, t),
    ensures
        first_undeclared(s, layouts) == first_undeclared(t, layouts),
    decreases s.len(),
{
    if s.len() > 0 {
        assert forall|i: int| 0 <= i < s.drop_last().len() implies #[trigger] entry_key(
            s.drop_last()[i],
        ) == entry_key(t.drop_last()[i]) by {
            assert(entry_key(s[i]) == entry_key(t[i]));
        }
        lemma_first_undeclared_keys(s.drop_last(), t.drop_last(), layouts);
        assert(entry_key(s[s.len() - 1]) == entry_key(t[t.len() - 1]));
    }
}

/// The writes of one set depend on the keys of the entries alone.
proof fn lemma_set_writes_keys<A, B>(
    s: Seq<(u32, u32, A)>,
    t: Seq<(u32, u32, B)>,
    belongs: Seq<bool>,
    set: u32,
    layout: Seq<RawDescriptorBinding>,
)
    requires
        same_keys(s, t),
    ensures
        set_writes(s, belongs, set, layout) == set_writes(t, belongs, set, layout),
    decreases layout.len(),
{
    if layout.len() > 0 {
        lemma_set_writes_keys(s, t, belongs, set, layout.drop_last());
        let b = layout.last().binding;
        assert(supplies(s, set, b) == supplies(t, set, b)) by {
            if supplies(s, set, b) {
                let i = choose|i: int| 0 <= i < s.len() && entry_key(#[trigger] s[i]) == (set, b);
                assert(entry_key(t[i]) == (set, b));
            }
            if supplies(t, set, b) {
                let i = choose|i: int| 0 <= i < t.len() && entry_key(#[trigger] t[i]) == (set, b);
                assert(entry_key(s[i]) == entry_key(t[i]));
            }
        }
        assert(supplied_belongs(s, belongs, set, b) == supplied_belongs(t, belongs, set, b)) by {
            assert forall|i: int| 0 <= i < s.len() implies (entry_key(#[trigger] s[i]) == (set, b)
                <==> entry_key(t[i]) == (set, b)) by {
                assert(entry_key(s[i]) == entry_key(t[i]));
            }
            assert forall|i: int| 0 <= i < t.len() implies (entry_key(#[trigger] t[i]) == (set, b)
                <==> entry_key(s[i]) == (set, b)) by {
                assert(entry_key(s[i]) == entry_key(t[i]));
            }
        }
    }
}

/// The writes of the first `n` sets depend on the keys of the entries alone.
proof fn lemma_sets_writes_keys<A, B>(
    s: Seq<(u32, u32, A)>,
    t: Seq<(u32, u32, B)>,
    belongs: Seq<bool>,
    layouts: Seq<Seq<RawDescriptorBinding>>,
    n: nat,
)
    requires
        same_keys(s, t),
    ensures
        sets_writes(s, belongs, layouts, n) == sets_writes(t, belongs, layouts, n),
    decreases n,
{
    if n > 0 {
        lemma_sets_writes_keys(s, t, belongs, layouts, (n - 1) as nat);
        if n - 1 <= u32::MAX {
            lemma_set_writes_keys(s, t, belongs, (n - 1) as u32, layouts[n - 1]);
        }
    }
}

/// Text of the error for a key supplied twice.
pub open spec fn duplicate_message(set: nat, binding: nat) -> Seq<char> {
    "raw resources duplicate binding set "@ + decimal(set) + " binding "@ + decimal(binding)
}

/// Text of the error for a supplied set the pipeline does not declare.
pub open spec fn undeclared_set_message(set: nat) -> Seq<char> {
    "raw resources set "@ + decimal(set) + " is not declared by the pipeline"@
}

/// Text of the error for a supplied binding the pipeline does not declare.
pub open spec fn undeclared_binding_message(set: nat, binding: nat) -> Seq<char> {
    "raw resources set "@ + decimal(set) + " binding "@ + decimal(binding)
        + " is not declared by the pipeline"@
}

/// Text of the error for a declared binding that is an array.
pub open spec fn resource_array_message(set: nat, binding: nat) -> Seq<char> {
    "raw resources set "@ + decimal(set) + " binding "@ + decimal(binding)
        + " descriptor arrays are not supported yet"@
}

/// Text of the error for a declared binding nothing was supplied for.
pub open spec fn missing_binding_message(set: nat, binding: nat) -> Seq<char> {
    "raw resources missing set "@ + decimal(set) + " binding "@ + decimal(binding)
}

/// Text of the error for a supplied resource made by another context.
pub open spec fn foreign_resource_message(set: nat, binding: nat) -> Seq<char> {
    "raw resources set "@ + decimal(set) + " binding "@ + decimal(binding)
        + " must belong to this context"@
}

/// The set layout declares `binding`.
pub open spec fn declares_binding(layout: Seq<RawDescriptorBinding>, binding: u32) -> bool {
    exists|k: int| 0 <= k < layout.len() && (#[trigger] layout[k]).binding == binding
}

/// What is wrong with a supplied key, if anything: its set or its binding is
/// not declared by the pipeline.
pub open spec fn supplied_key_error(layouts: Seq<Seq<RawDescriptorBinding>>, key: (u32, u32)) -> Option<
    Seq<char>,
> {
    if key.0 >= layouts.len() {
        Some(undeclared_set_message(key.0 as nat))
    } else if !declares_binding(layouts[key.0 as int], key.1) {
        Some(undeclared_binding_message(key.0 as nat, key.1 as nat))
    } else {
        None
    }
}

/// The error of the first supplied entry the pipeline does not declare.
pub open spec fn first_undeclared<V>(entries: Seq<(u32, u32, V)>, layouts: Seq<Seq<RawDescriptorBinding>>) -> Option<
    Seq<char>,
>
    decreases entries.len(),
{
    if entries.len() == 0 {
        None
    } else {
        match first_undeclared(entries.drop_last(), layouts) {
            Some(m) => Some(m),
            None => supplied_key_error(layouts, entry_key(entries.last())),
        }
    }
}

/// Something was supplied for `binding` of `set`.
pub open spec fn supplies<V>(entries: Seq<(u32, u32, V)>, set: u32, binding: u32) -> bool {
    exists|i: int| 0 <= i < entries.len() && entry_key(#[trigger] entries[i]) == (set, binding)
}

/// What was supplied for `binding` of `set` belongs to the drawing context.
pub open spec fn supplied_belongs<V>(
    entries: Seq<(u32, u32, V)>,
    belongs: Seq<bool>,
    set: u32,
    binding: u32,
) -> bool {
    forall|i: int|
        0 <= i < entries.len() && entry_key(#[trigger] entries[i]) == (set, binding) ==> belongs[i]
}

/// What is wrong with a declared binding when its write is prepared, if
/// anything: checked in this order, its type, its array size, whether
/// something was supplied for it, and whether that belongs to the context.
pub open spec fn write_error<V>(
    entries: Seq<(u32, u32, V)>,
    belongs: Seq<bool>,
    set: u32,
    b: RawDescriptorBinding,
) -> Option<Seq<char>> {
    if b.descriptor_type != DescriptorType::UniformBuffer {
        Some(unsupported_type_message(set as nat, b.binding as nat))
    } else if b.descriptor_count != 1 {
        Some(resource_array_message(set as nat, b.binding as nat))
    } else if !supplies(entries, set, b.binding) {
        Some(missing_binding_message(set as nat, b.binding as nat))
    } else if !supplied_belongs(entries, belongs, set, b.binding) {
        Some(foreign_resource_message(set as nat, b.binding as nat))
    } else {
        None
    }
}

/// The bindings written for one set, in the order the layout declares them,
/// or the error of the first binding that cannot be written.
pub open spec fn set_writes<V>(
    entries: Seq<(u32, u32, V)>,
    belongs: Seq<bool>,
    set: u32,
    layout: Seq<RawDescriptorBinding>,
) -> Result<Seq<u32>, Seq<char>>
    decreases layout.len(),
{
    if layout.len() == 0 {
        Ok(Seq::empty())
    } else {
        match set_writes(entries, belongs, set, layout.drop_last()) {
            Err(m) => Err(m),
            Ok(done) => match write_error(entries, belongs, set, layout.last()) {
                Some(m) => Err(m),
                None => Ok(done.push(layout.last().binding)),
            },
        }
    }
}

/// The bindings written for each of the first `n` sets, or the first error:
/// the text of an invalid request, or `None` for a set index beyond `u32`.
pub open spec fn sets_writes<V>(
    entries: Seq<(u32, u32, V)>,
    belongs: Seq<bool>,
    layouts: Seq<Seq<RawDescriptorBinding>>,
    n: nat,
) -> Result<Seq<Seq<u32>>, Option<Seq<char>>>
    decreases n,
{
    if n == 0 {
        Ok(Seq::empty())
    } else {
        match sets_writes(entries, belongs, layouts, (n - 1) as nat) {
            Err(e) => Err(e),
            Ok(done) => if n - 1 > u32::MAX {
                Err(None)
            } else {
                match set_writes(entries, belongs, (n - 1) as u32, layouts[n - 1]) {
                    Err(m) => Err(Some(m)),
                    Ok(bs) => Ok(done.push(bs)),
                }
            },
        }
    }
}

/// Number of sets a draw binds: up to and including the last set layout
/// that declares a binding.
pub open spec fn required_set_count(layouts: Seq<Seq<RawDescriptorBinding>>) -> nat
    decreases layouts.len(),
{
    if layouts.len() == 0 {
        0
    } else if layouts.last().len() > 0 {
        layouts.len()
    } else {
        required_set_count(layouts.drop_last())
    }
}

/// The answer for a table, the set layouts and which supplied entries belong
/// to the drawing context: a duplicate key is refused first, then a supplied
/// key the pipeline does not declare, then the writes of each required set.
pub open spec fn resources_outcome<V>(
    entries: Seq<(u32, u32, V)>,
    duplicate: Option<(u32, u32)>,
    belongs: Seq<bool>,
    layouts: Seq<Seq<RawDescriptorBinding>>,
) -> Result<Seq<Seq<u32>>, Option<Seq<char>>> {
    match duplicate {
        Some((set, binding)) => Err(Some(duplicate_message(set as nat, binding as nat))),
        None => match first_undeclared(entries, layouts) {
            Some(m) => Err(Some(m)),
            None => sets_writes(entries, belongs, layouts, required_set_count(layouts)),
        },
    }
}

/// An error is what an outcome describes: an invalid request with that
/// text, or a Vulkan validation failure.
pub open spec fn error_matches(e: VMNLError, expected: Option<Seq<char>>) -> bool {
    match expected {
        Some(m) => e.kind matches VMNLErrorKind::InvalidState(text) && text@ == m,
        None => e.kind == VMNLErrorKind::VulkanValidationFailed,
    }
}

/// The set layouts as sequences of bindings.
pub open spec fn layouts_view(layouts: Seq<Vec<RawDescriptorBinding>>) -> Seq<Seq<RawDescriptorBinding>> {
    layouts.map_values(|l: Vec<RawDescriptorBinding>| l@)
}

/// Once a prefix of the layout fails, the whole layout fails the same way.
proof fn lemma_set_writes_err_extends<V>(
    entries: Seq<(u32, u32, V)>,
    belongs: Seq<bool>,
    set: u32,
    layout: Seq<RawDescriptorBinding>,
    k: int,
)
    requires
        0 <= k <= layout.len(),
        set_writes(entries, belongs, set, layout.subrange(0, k)) is Err,
    ensures
        set_writes(entries, belongs, set, layout) == set_writes(
            entries,
            belongs,
            set,
            layout.subrange(0, k),
        ),
    decreases layout.len(),
{
    if k == layout.len() {
        assert(layout.subrange(0, k) =~= layout);
    } else {
        assert(layout.drop_last().subrange(0, k) =~= layout.subrange(0, k));
        lemma_set_writes_err_extends(entries, belongs, set, layout.drop_last(), k);
    }
}

/// Once a prefix of the entries holds an undeclared key, so do all entries,
/// with the same error.
proof fn lemma_first_undeclared_extends<V>(
    entries: Seq<(u32, u32, V)>,
    layouts: Seq<Seq<RawDescriptorBinding>>,
    k: int,
)
    requires
        0 <= k <= entries.len(),
        first_undeclared(entries.subrange(0, k), layouts) is Some,
    ensures
        first_undeclared(entries, layouts) == first_undeclared(entries.subrange(0, k), layouts),
    decreases entries.len(),
{
    if k == entries.len() {
        assert(entries.subrange(0, k) =~= entries);
    } else {
        assert(entries.drop_last().subrange(0, k) =~= entries.subrange(0, k));
        lemma_first_undeclared_extends(entries.drop_last(), layouts, k);
    }
}

/// Text `prefix` + set + `middle` + binding + `suffix`.
fn set_binding_text(prefix: &str, set: u32, middle: &str, binding: u32, suffix: &str) -> (m: String)
    ensures
        m@ == prefix@ + decimal(set as nat) + middle@ + decimal(binding as nat) + suffix@,
{
    let mut m = String::from_str(prefix);
    append_decimal(&mut m, set as u64);
    m.append(middle);
    append_decimal(&mut m, binding as u64);
    m.append(suffix);
    m
}

/// An invalid-request error with the given text.
fn invalid(m: String) -> (e: VMNLError)
    ensures
        e.kind == VMNLErrorKind::InvalidState(m),
{
    VMNLError { kind: VMNLErrorKind::InvalidState(m) }
}

/// Whether the set layout declares `binding`.
fn layout_declares(layout: &Vec<RawDescriptorBinding>, binding: u32) -> (b: bool)
    ensures
        b == declares_binding(layout@, binding),
{
    let mut k: usize = 0;
    while k < layout.len()
        invariant
            k <= layout@.len(),
            forall|j: int| 0 <= j < k ==> (#[trigger] layout@[j]).binding != binding,
        decreases layout@.len() - k,
    {
        if layout[k].binding == binding {
            return true;
        }
        k = k + 1;
    }
    false
}

/// Check that the pipeline declares every supplied set and binding; the
/// first entry, in key order, that it does not declare gives the error.
pub fn validate_supplied_resource_bindings<V>(
    layouts: &[Vec<RawDescriptorBinding>],
    entries: &Vec<(u32, u32, V)>,
) -> (r: VMNLResult<()>)
    ensures
        r is Ok <==> first_undeclared(entries@, layouts_view(layouts@)) is None,
        r matches Err(e) ==> first_undeclared(entries@, layouts_view(layouts@)) matches Some(m)
            && error_matches(e, Some(m)),
{
    let ghost lv = layouts_view(layouts@);
    let mut i: usize = 0;
    while i < entries.len()
        invariant
            i <= entries@.len(),
            lv == layouts_view(layouts@),
            first_undeclared(entries@.subrange(0, i as int), lv) is None,
        decreases entries@.len() - i,
    {
        let set = entries[i].0;
        let binding = entries[i].1;
        proof {
            let pre = entries@.subrange(0, i + 1);
            assert(pre.drop_last() =~= entries@.subrange(0, i as int));
            assert(pre.last() == entries@[i as int]);
        }
        if set as usize >= layouts.len() {
            proof {
                lemma_first_undeclared_extends(entries@, lv, i + 1);
            }
            return Err(invalid(set_binding_text_set(set)));
        }
        assert(lv[set as int] == layouts@[set as int]@);
        if !layout_declares(&layouts[set as usize], binding) {
            proof {
                lemma_first_undeclared_extends(entries@, lv, i + 1);
            }
            return Err(invalid(set_binding_text(
                "raw resources set ",
                set,
                " binding ",
                binding,
                " is not declared by the pipeline",
            )));
        }
        i = i + 1;
    }
    assert(entries@.subrange(0, i as int) =~= entries@);
    Ok(())
}

/// Text of the error for an undeclared set.
fn set_binding_text_set(set: u32) -> (m: String)
    ensures
        m@ == undeclared_set_message(set as nat),
{
    let mut m = String::from_str("raw resources set ");
    append_decimal(&mut m, set as u64);
    m.append(" is not declared by the pipeline");
    m
}

/// Index of the entry supplied for `binding` of `set`, if any.
fn find_entry<V>(entries: &Vec<(u32, u32, V)>, set: u32, binding: u32) -> (r: Option<usize>)
    ensures
        r matches Some(i) ==> i < entries@.len() && entry_key(entries@[i as int]) == (set, binding),
        r is None ==> !supplies(entries@, set, binding),
{
    let mut i: usize = 0;
    while i < entries.len()
        invariant
            i <= entries@.len(),
            forall|j: int| 0 <= j < i ==> entry_key(#[trigger] entries@[j]) != (set, binding),
        decreases entries@.len() - i,
    {
        if entries[i].0 == set && entries[i].1 == binding {
            return Some(i);
        }
        i = i + 1;
    }
    None
}

/// The writes of one set: for each binding the layout declares, in order,
/// the index of the entry supplied for it; the first binding that cannot be
/// written gives the error.
pub fn descriptor_writes_for_set<V>(
    entries: &Vec<(u32, u32, V)>,
    belongs: &[bool],
    set: u32,
    layout: &Vec<RawDescriptorBinding>,
) -> (r: VMNLResult<Vec<usize>>)
    requires
        sorted_entries(entries@),
        belongs@.len() == entries@.len(),
    ensures
        r is Ok <==> set_writes(entries@, belongs@, set, layout@) is Ok,
        r matches Ok(w) ==> set_writes(entries@, belongs@, set, layout@) matches Ok(bs) && w@.len()
            == bs.len() && forall|k: int|
            0 <= k < w@.len() ==> #[trigger] w@[k] < entries@.len() && entry_key(
                entries@[w@[k] as int],
            ) == (set, bs[k]),
        r matches Err(e) ==> set_writes(entries@, belongs@, set, layout@) matches Err(m)
            && error_matches(e, Some(m)),
{
    let mut writes: Vec<usize> = Vec::new();
    let mut k: usize = 0;
    while k < layout.len()
        invariant
            k <= layout@.len(),
            sorted_entries(entries@),
            belongs@.len() == entries@.len(),
            set_writes(entries@, belongs@, set, layout@.subrange(0, k as int)) matches Ok(bs)
                && writes@.len() == bs.len() && forall|j: int|
                0 <= j < writes@.len() ==> #[trigger] writes@[j] < entries@.len() && entry_key(
                    entries@[writes@[j] as int],
                ) == (set, bs[j]),
        decreases layout@.len() - k,
    {
        let b = layout[k];
        proof {
            let pre = layout@.subrange(0, k + 1);
            assert(pre.drop_last() =~= layout@.subrange(0, k as int));
            assert(pre.last() == b);
        }
        if b.descriptor_type != DescriptorType::UniformBuffer {
            proof {
                lemma_set_writes_err_extends(entries@, belongs@, set, layout@, k + 1);
            }
            return Err(invalid(set_binding_text(
                "raw pipeline set ",
                set,
                " binding ",
                b.binding,
                " only supports uniform buffers for now",
            )));
        }
        if b.descriptor_count != 1 {
            proof {
                lemma_set_writes_err_extends(entries@, belongs@, set, layout@, k + 1);
            }
            return Err(invalid(set_binding_text(
                "raw resources set ",
                set,
                " binding ",
                b.binding,
                " descriptor arrays are not supported yet",
            )));
        }
        match find_entry(entries, set, b.binding) {
            None => {
                proof {
                    lemma_set_writes_err_extends(entries@, belongs@, set, layout@, k + 1);
                    reveal_strlit("");
                    assert(missing_binding_message(set as nat, b.binding as nat) + ""@
                        =~= missing_binding_message(set as nat, b.binding as nat));
                }
                return Err(invalid(set_binding_text(
                    "raw resources missing set ",
                    set,
                    " binding ",
                    b.binding,
                    "",
                )));
            },
            Some(i) => {
                proof {
                    assert forall|j: int|
                        0 <= j < entries@.len() && entry_key(#[trigger] entries@[j]) == (
                            set,
                            b.binding,
                        ) implies j == i by {
                        if j < i {
                            assert(key_less(entry_key(entries@[j]), entry_key(entries@[i as int])));
                        } else if j > i {
                            assert(key_less(entry_key(entries@[i as int]), entry_key(entries@[j])));
                        }
                    }
                }
                if !belongs[i] {
                    proof {
                        lemma_set_writes_err_extends(entries@, belongs@, set, layout@, k + 1);
                    }
                    return Err(invalid(set_binding_text(
                        "raw resources set ",
                        set,
                        " binding ",
                        b.binding,
                        " must belong to this context",
                    )));
                }
                writes.push(i);
            },
        }
        k = k + 1;
    }
    assert(layout@.subrange(0, k as int) =~= layout@);
    Ok(writes)
}

/// Once the first `k` sets fail, the first `n` fail the same way, for any
/// `n` from `k` on.
proof fn lemma_sets_writes_err_extends<V>(
    entries: Seq<(u32, u32, V)>,
    belongs: Seq<bool>,
    layouts: Seq<Seq<RawDescriptorBinding>>,
    k: nat,
    n: nat,
)
    requires
        k <= n,
        sets_writes(entries, belongs, layouts, k) is Err,
    ensures
        sets_writes(entries, belongs, layouts, n) == sets_writes(entries, belongs, layouts, k),
    decreases n,
{
    if n > k {
        lemma_sets_writes_err_extends(entries, belongs, layouts, k, (n - 1) as nat);
    }
}

/// The count `required_descriptor_set_count_from_layouts` returns is the
/// required set count.
proof fn lemma_required_set_count(layouts: Seq<Seq<RawDescriptorBinding>>, n: nat)
    requires
        n <= layouts.len(),
        n > 0 ==> layouts[n - 1].len() > 0,
        forall|j: int| n <= j < layouts.len() ==> (#[trigger] layouts[j]).len() == 0,
    ensures
        required_set_count(layouts) == n,
    decreases layouts.len(),
{
    if layouts.len() > n {
        let shorter = layouts.drop_last();
        assert(layouts.last().len() == 0);
        assert forall|j: int| n <= j < shorter.len() implies (#[trigger] shorter[j]).len() == 0 by {
            assert(shorter[j] == layouts[j]);
        }
        if n > 0 {
            assert(shorter[n - 1] == layouts[n - 1]);
        }
        lemma_required_set_count(shorter, n);
    }
}

/// The descriptor writes for entries listed in key order, as
/// `ResourceTable::build` describes them.
fn plan_resource_writes<W>(
    entries: &Vec<(u32, u32, W)>,
    duplicate: Option<(u32, u32)>,
    layouts: &[Vec<RawDescriptorBinding>],
    belongs: &[bool],
) -> (r: VMNLResult<Vec<Vec<usize>>>)
    requires
        sorted_entries(entries@),
        belongs@.len() == entries@.len(),
    ensures
        r is Ok <==> resources_outcome(
            entries@,
            duplicate,
            belongs@,
            layouts_view(layouts@),
        ) is Ok,
        r matches Ok(w) ==> resources_outcome(
            entries@,
            duplicate,
            belongs@,
            layouts_view(layouts@),
        ) matches Ok(ws) && w@.len() == ws.len() && forall|s: int|
            0 <= s < w@.len() ==> (#[trigger] w@[s])@.len() == ws[s].len() && forall|k: int|
                0 <= k < w@[s]@.len() ==> #[trigger] w@[s]@[k] < entries@.len()
                    && entry_key(entries@[w@[s]@[k] as int]) == (
                    s as u32,
                    ws[s][k],
                ),
        r matches Err(e) ==> resources_outcome(
            entries@,
            duplicate,
            belongs@,
            layouts_view(layouts@),
        ) matches Err(x) && error_matches(e, x),
{
    let ghost lv = layouts_view(layouts@);
    if let Some((set, binding)) = duplicate {
        proof {
            reveal_strlit("");
            assert(duplicate_message(set as nat, binding as nat) + ""@ =~= duplicate_message(
                set as nat,
                binding as nat,
            ));
        }
        return Err(invalid(set_binding_text(
            "raw resources duplicate binding set ",
            set,
            " binding ",
            binding,
            "",
        )));
    }
    match validate_supplied_resource_bindings(layouts, entries) {
        Err(e) => {
            return Err(e);
        },
        Ok(()) => {},
    }
    let count = crate::raw::required_descriptor_set_count_from_layouts(layouts);
    proof {
        assert forall|j: int| count <= j < lv.len() implies (#[trigger] lv[j]).len() == 0 by {
            assert(lv[j] == layouts@[j]@);
        }
        if count > 0 {
            assert(lv[count - 1] == layouts@[count - 1]@);
        }
        lemma_required_set_count(lv, count as nat);
    }
    let mut sets: Vec<Vec<usize>> = Vec::new();
    let mut index: usize = 0;
    while index < count
        invariant
            index <= count,
            count <= layouts@.len(),
            lv == layouts_view(layouts@),
            sorted_entries(entries@),
            duplicate is None,
            first_undeclared(entries@, lv) is None,
            required_set_count(lv) == count,
            sets@.len() == index,
            belongs@.len() == entries@.len(),
            sets_writes(entries@, belongs@, lv, index as nat) matches Ok(ws)
                && sets@.len() == ws.len() && forall|s: int|
                0 <= s < sets@.len() ==> (#[trigger] sets@[s])@.len() == ws[s].len()
                    && forall|k: int|
                    0 <= k < sets@[s]@.len() ==> #[trigger] sets@[s]@[k]
                        < entries@.len() && entry_key(
                        entries@[sets@[s]@[k] as int],
                    ) == (s as u32, ws[s][k]),
        decreases count - index,
    {
        if index as u64 > u32::MAX as u64 {
            proof {
                assert(sets_writes(entries@, belongs@, lv, (index + 1) as nat) is Err);
                lemma_sets_writes_err_extends(
                    entries@,
                    belongs@,
                    lv,
                    (index + 1) as nat,
                    count as nat,
                );
            }
            return Err(VMNLError { kind: VMNLErrorKind::VulkanValidationFailed });
        }
        let set = index as u32;
        assert(lv[index as int] == layouts@[index as int]@);
        match descriptor_writes_for_set(entries, belongs, set, &layouts[index]) {
            Err(e) => {
                proof {
                    assert(sets_writes(entries@, belongs@, lv, (index + 1) as nat)
                        == Err::<Seq<Seq<u32>>, Option<Seq<char>>>(Some(e.kind->InvalidState_0@)));
                    lemma_sets_writes_err_extends(
                        entries@,
                        belongs@,
                        lv,
                        (index + 1) as nat,
                        count as nat,
                    );
                }
                return Err(e);
            },
            Ok(w) => {
                let ghost prev = sets@;
                sets.push(w);
                proof {
                    let entries = entries@;
                    let ws = sets_writes(entries, belongs@, lv, index as nat)->Ok_0;
                    let bs = set_writes(entries, belongs@, set, lv[index as int])->Ok_0;
                    assert(sets_writes(entries, belongs@, lv, (index + 1) as nat) == Ok::<
                        Seq<Seq<u32>>,
                        Option<Seq<char>>,
                    >(ws.push(bs)));
                    assert forall|s: int| 0 <= s < sets@.len() implies (#[trigger] sets@[s])@.len()
                        == ws.push(bs)[s].len() && forall|k: int|
                        0 <= k < sets@[s]@.len() ==> #[trigger] sets@[s]@[k] < entries.len()
                            && entry_key(entries[sets@[s]@[k] as int]) == (
                            s as u32,
                            ws.push(bs)[s][k],
                        ) by {
                        if s < index {
                            assert(sets@[s] == prev[s]);
                        } else {
                            assert(s as u32 == set);
                            assert(sets@[s] == w);
                        }
                    }
                }
            },
        }
        index = index + 1;
    }
    Ok(sets)
}

impl<V> ResourceTable<V> {
    /// Check the table against the set layouts the pipeline declares and
    /// prepare the descriptor writes: for each set a draw binds, the
    /// positions in `entries()` of the entries to write, in the order the
    /// layout declares their bindings. `belongs[i]` tells whether entry `i`
    /// was made by the drawing context.
    ///
    /// A key supplied twice is refused first, then a supplied set or binding
    /// the pipeline does not declare, then, set by set, the first binding
    /// that cannot be written.
    pub fn build(&self, layouts: &[Vec<RawDescriptorBinding>], belongs: &[bool]) -> (r: VMNLResult<
        Vec<Vec<usize>>,
    >)
        requires
            belongs@.len() == self.spec_entries().len(),
        ensures
            r is Ok <==> resources_outcome(
                self.spec_entries(),
                self.spec_duplicate(),
                belongs@,
                layouts_view(layouts@),
            ) is Ok,
            r matches Ok(w) ==> resources_outcome(
                self.spec_entries(),
                self.spec_duplicate(),
                belongs@,
                layouts_view(layouts@),
            ) matches Ok(ws) && w@.len() == ws.len() && forall|s: int|
                0 <= s < w@.len() ==> (#[trigger] w@[s])@.len() == ws[s].len() && forall|k: int|
                    0 <= k < w@[s]@.len() ==> #[trigger] w@[s]@[k] < self.spec_entries().len()
                        && entry_key(self.spec_entries()[w@[s]@[k] as int]) == (
                        s as u32,
                        ws[s][k],
                    ),
            r matches Err(e) ==> resources_outcome(
                self.spec_entries(),
                self.spec_duplicate(),
                belongs@,
                layouts_view(layouts@),
            ) matches Err(x) && error_matches(e, x),
    {
        let entries = self.entries();
        let ghost se = self.spec_entries();
        let ghost lv = layouts_view(layouts@);
        proof {
            assert forall|a: int, b: int| 0 <= a < b < entries@.len() implies key_less(
                entry_key(#[trigger] entries@[a]),
                entry_key(#[trigger] entries@[b]),
            ) by {
                assert(entry_key(entries@[a]) == entry_key(se[a]));
                assert(entry_key(entries@[b]) == entry_key(se[b]));
                assert(key_less(entry_key(se[a]), entry_key(se[b])));
            }
            lemma_first_undeclared_keys(entries@, se, lv);
            lemma_sets_writes_keys(entries@, se, belongs@, lv, required_set_count(lv));
        }
        let r = plan_resource_writes(&entries, self.duplicate, layouts, belongs);
        proof {
            if r is Ok {
                let w = r->Ok_0;
                let ws = resources_outcome(se, self.spec_duplicate(), belongs@, lv)->Ok_0;
                assert forall|s: int, k: int| 0 <= s < w@.len() && 0 <= k < w@[s]@.len() implies entry_key(
                    se[#[trigger] w@[s]@[k] as int],
                ) == (s as u32, ws[s][k]) by {
                    assert(entry_key(entries@[w@[s]@[k] as int]) == entry_key(se[w@[s]@[k] as int]));
                }
            }
        }
        r
    }
}

/// A set's writes are refused whenever the entry supplied for one of the
/// bindings its layout declares was not made by the drawing context; when
/// every binding before it can be written and it is a single uniform
/// buffer, the refusal names that binding as foreign.
pub proof fn lemma_foreign_entry_refuses_set<V>(
    entries: Seq<(u32, u32, V)>,
    belongs: Seq<bool>,
    set: u32,
    layout: Seq<RawDescriptorBinding>,
    k: int,
    i: int,
)
    requires
        0 <= k < layout.len(),
        0 <= i < entries.len(),
        i < belongs.len(),
        entries[i].0 == set,
        entries[i].1 == layout[k].binding,
        !belongs[i],
    ensures
        set_writes(entries, belongs, set, layout) is Err,
        set_writes(entries, belongs, set, layout.subrange(0, k)) is Ok
            && layout[k].descriptor_type == DescriptorType::UniformBuffer
            && layout[k].descriptor_count == 1 ==> set_writes(entries, belongs, set, layout)
            == Err::<Seq<u32>, Seq<char>>(foreign_resource_message(set as nat, layout[k].binding as nat)),
{
    let pre = layout.subrange(0, k + 1);
    assert(pre.drop_last() =~= layout.subrange(0, k));
    assert(pre.last() == layout[k]);
    assert(entry_key(entries[i]) == (set, layout[k].binding));
    assert(supplies(entries, set, layout[k].binding));
    assert(!supplied_belongs(entries, belongs, set, layout[k].binding));
    assert(set_writes(entries, belongs, set, pre) is Err);
    lemma_set_writes_err_extends(entries, belongs, set, layout, k + 1);
}

/// Sets a draw binds never lie past the layouts.
proof fn lemma_required_set_count_bound(layouts: Seq<Seq<RawDescriptorBinding>>)
    ensures
        required_set_count(layouts) <= layouts.len(),
    decreases layouts.len(),
{
    if layouts.len() > 0 {
        lemma_required_set_count_bound(layouts.drop_last());
    }
}

/// Building the resources of a draw fails whenever an entry supplied for a
/// binding that a bound set's layout declares was not made by the drawing
/// context.
pub proof fn lemma_foreign_entry_refuses_build<V>(
    entries: Seq<(u32, u32, V)>,
    duplicate: Option<(u32, u32)>,
    belongs: Seq<bool>,
    layouts: Seq<Seq<RawDescriptorBinding>>,
    set: u32,
    k: int,
    i: int,
)
    requires
        set < required_set_count(layouts),
        0 <= k < layouts[set as int].len(),
        0 <= i < entries.len(),
        i < belongs.len(),
        entries[i].0 == set,
        entries[i].1 == layouts[set as int][k].binding,
        !belongs[i],
    ensures
        resources_outcome(entries, duplicate, belongs, layouts) is Err,
{
    lemma_required_set_count_bound(layouts);
    lemma_foreign_entry_refuses_set(entries, belongs, set, layouts[set as int], k, i);
    assert(sets_writes(entries, belongs, layouts, (set + 1) as nat) is Err);
    lemma_sets_writes_err_extends(
        entries,
        belongs,
        layouts,
        (set + 1) as nat,
        required_set_count(layouts),
    );
}

} // verus!
