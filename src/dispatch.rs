//! Resolution of a planned expansion under one build configuration: which
//! candidate fills each lifecycle slot, and the virtual dispatch table.
use vstd::prelude::*;
use crate::cfg::{evaluate, holds};
use crate::declaration::{AttrValue, Attribute, Impl, ImplMember};
use crate::expander::{virtual_view, VirtualMethod};
use crate::text::str_eq;

verus! {

/// Whether every build predicate among `attrs` holds.
pub open spec fn declaration_active(attrs: Seq<Attribute>, enabled: Seq<String>) -> bool {
    forall|i: int|
        0 <= i < attrs.len() ==> match (#[trigger] attrs[i]).value {
            AttrValue::Predicate(p) => holds(p, enabled),
            _ => true,
        }
}

/// The attributes of a member of an impl block.
pub open spec fn member_attributes(m: ImplMember) -> Seq<Attribute> {
    match m {
        ImplMember::Method(f) => f.attributes@,
        ImplMember::Constant(c) => c.attributes@,
        ImplMember::Other => Seq::empty(),
    }
}

/// Whether the member at `i` survives conditional compilation.
pub open spec fn member_active(items: Seq<ImplMember>, i: usize, enabled: Seq<String>) -> bool {
    declaration_active(member_attributes(items[i as int]), enabled)
}

/// Whether every index of `arms` names a member.
pub open spec fn valid_indices(items: Seq<ImplMember>, arms: Seq<usize>) -> bool {
    forall|p: int| 0 <= p < arms.len() ==> (#[trigger] arms[p]) < items.len()
}

/// The first candidate of `arms` that survives, if any.
pub open spec fn first_active(items: Seq<ImplMember>, arms: Seq<usize>, enabled: Seq<String>) -> Option<usize>
    decreases arms.len(),
{
    if arms.len() == 0 {
        None
    } else if member_active(items, arms[0], enabled) {
        Some(arms[0])
    } else {
        first_active(items, arms.drop_first(), enabled)
    }
}

/// Whether two candidates of `arms` survive together.
pub open spec fn two_active(items: Seq<ImplMember>, arms: Seq<usize>, enabled: Seq<String>) -> bool {
    exists|p: int, q: int|
        0 <= p < q < arms.len() && #[trigger] member_active(items, arms[p], enabled)
            && #[trigger] member_active(items, arms[q], enabled)
}

/// Two surviving definitions of one slot or one virtual name: a build error.
#[derive(Clone, Copy, Debug, PartialEq, Eq, Structural)]
pub struct DuplicateDefinition {
    pub first: usize,
    pub second: usize,
}

/// Whether every build predicate among `attrs` holds under `enabled`.
pub fn attributes_active(attrs: &Vec<Attribute>, enabled: &Vec<String>) -> (r: bool)
    ensures
        r == declaration_active(attrs@, enabled@),
{
    let mut i: usize = 0;
    while i < attrs.len()
        invariant
            i <= attrs@.len(),
            forall|j: int|
                0 <= j < i ==> match (#[trigger] attrs@[j]).value {
                    AttrValue::Predicate(p) => holds(p, enabled@),
                    _ => true,
                },
        decreases attrs.len() - i,
    {
        if let AttrValue::Predicate(p) = &attrs[i].value {
            if !evaluate(p, enabled) {
                return false;
            }
        }
        i = i + 1;
    }
    true
}

/// Whether the member at `index` survives under `enabled`.
pub fn is_member_active(decl: &Impl, index: usize, enabled: &Vec<String>) -> (r: bool)
    requires
        index < decl.body_items@.len(),
    ensures
        r == member_active(decl.body_items@, index, enabled@),
{
    match &decl.body_items[index] {
        ImplMember::Method(f) => attributes_active(&f.attributes, enabled),
        ImplMember::Constant(c) => attributes_active(&c.attributes, enabled),
        ImplMember::Other => true,
    }
}

/// The selection that a slot's candidates make: the first candidate that survives
/// conditional compilation, or `None` when none does.
pub fn convert_to_match_expression_or_none(decl: &Impl, enabled: &Vec<String>, arms: &Vec<usize>) -> (r: Option<usize>)
    requires
        valid_indices(decl.body_items@, arms@),
    ensures
        r == first_active(decl.body_items@, arms@, enabled@),
{
    let mut i: usize = 0;
    assert(arms@.subrange(0, arms@.len() as int) == arms@);
    while i < arms.len()
        invariant
            valid_indices(decl.body_items@, arms@),
            i <= arms@.len(),
            first_active(decl.body_items@, arms@, enabled@) == first_active(
                decl.body_items@,
                arms@.subrange(i as int, arms@.len() as int),
                enabled@,
            ),
        decreases arms.len() - i,
    {
        let a = arms[i];
        let ghost rest = arms@.subrange(i as int, arms@.len() as int);
        assert(rest[0] == a);
        assert(rest.drop_first() == arms@.subrange(i + 1, arms@.len() as int));
        if is_member_active(decl, a, enabled) {
            return Some(a);
        }
        i = i + 1;
    }
    None
}

/// Resolves one lifecycle slot: the surviving candidate, `None` when none
/// survives, and an error when two survive.
pub fn resolve_slot(decl: &Impl, enabled: &Vec<String>, arms: &Vec<usize>) -> (r: Result<Option<usize>, DuplicateDefinition>)
    requires
        valid_indices(decl.body_items@, arms@),
    ensures
        r is Err <==> two_active(decl.body_items@, arms@, enabled@),
        r is Ok ==> r->Ok_0 == first_active(decl.body_items@, arms@, enabled@),
        r is Err ==> member_active(decl.body_items@, r->Err_0.first, enabled@) && member_active(
            decl.body_items@,
            r->Err_0.second,
            enabled@,
        ),
{
    let mut found: Option<usize> = None;
    let mut p: usize = 0;
    while p < arms.len()
        invariant
            valid_indices(decl.body_items@, arms@),
            p <= arms@.len(),
            found is None ==> forall|j: int|
                0 <= j < p ==> !#[trigger] member_active(decl.body_items@, arms@[j], enabled@),
            found is Some ==> exists|j: int|
                0 <= j < p && arms@[j] == found->Some_0 && #[trigger] member_active(
                    decl.body_items@,
                    arms@[j],
                    enabled@,
                ) && forall|k: int|
                    0 <= k < p && k != j ==> !#[trigger] member_active(
                        decl.body_items@,
                        arms@[k],
                        enabled@,
                    ),
        decreases arms.len() - p,
    {
        let a = arms[p];
        if is_member_active(decl, a, enabled) {
            if let Some(f) = found {
                assert(two_active(decl.body_items@, arms@, enabled@));
                return Err(DuplicateDefinition { first: f, second: a });
            }
            found = Some(a);
        }
        p = p + 1;
    }
    let r = convert_to_match_expression_or_none(decl, enabled, arms);
    proof {
        if two_active(decl.body_items@, arms@, enabled@) {
            let (x, y) = choose|x: int, y: int|
                0 <= x < y < arms@.len() && #[trigger] member_active(decl.body_items@, arms@[x], enabled@)
                    && #[trigger] member_active(decl.body_items@, arms@[y], enabled@);
            assert(false);
        }
    }
    Ok(r)
}

/// The host-facing virtual dispatch table of a class: host name to implementing
/// member.
pub struct DispatchTable {
    pub entries: Vec<VirtualMethod>,
}

/// The entries of a dispatch table, as (member index, host name).
pub open spec fn entry_views(entries: Seq<VirtualMethod>) -> Seq<(usize, Seq<char>)> {
    entries.map_values(|v: VirtualMethod| virtual_view(v))
}

/// The virtual methods of `vs` that survive conditional compilation, in order.
pub open spec fn active_entries(
    items: Seq<ImplMember>,
    vs: Seq<(usize, Seq<char>)>,
    enabled: Seq<String>,
) -> Seq<(usize, Seq<char>)>
    decreases vs.len(),
{
    if vs.len() == 0 {
        Seq::empty()
    } else {
        let rest = active_entries(items, vs.drop_last(), enabled);
        if member_active(items, vs.last().0, enabled) {
            rest.push(vs.last())
        } else {
            rest
        }
    }
}

/// Whether a host name has more than one surviving virtual method: some
/// surviving method's name is already taken by an earlier surviving one.
pub open spec fn duplicate_virtuals(
    items: Seq<ImplMember>,
    vs: Seq<(usize, Seq<char>)>,
    enabled: Seq<String>,
) -> bool
    decreases vs.len(),
{
    if vs.len() == 0 {
        false
    } else {
        let pre = vs.drop_last();
        ||| duplicate_virtuals(items, pre, enabled)
        ||| (member_active(items, vs.last().0, enabled) && name_taken(
            active_entries(items, pre, enabled),
            vs.last().1,
        ))
    }
}

/// Whether some entry of `es` has the host name `name`.
pub open spec fn name_taken(es: Seq<(usize, Seq<char>)>, name: Seq<char>) -> bool {
    exists|k: int| 0 <= k < es.len() && (#[trigger] es[k]).1 == name
}

/// The member that a table's first entry named `name` points to.
pub open spec fn lookup_entry(es: Seq<(usize, Seq<char>)>, name: Seq<char>) -> Option<usize>
    decreases es.len(),
{
    if es.len() == 0 {
        None
    } else if es[0].1 == name {
        Some(es[0].0)
    } else {
        lookup_entry(es.drop_first(), name)
    }
}

/// Whether `e` is one of the surviving virtual methods of `vs`.
pub open spec fn surviving_in(
    items: Seq<ImplMember>,
    vs: Seq<(usize, Seq<char>)>,
    enabled: Seq<String>,
    e: (usize, Seq<char>),
) -> bool {
    exists|q: int| 0 <= q < vs.len() && #[trigger] vs[q] == e && member_active(items, e.0, enabled)
}

/// Every surviving entry is a surviving virtual method.
proof fn lemma_active_entries_members(
    items: Seq<ImplMember>,
    vs: Seq<(usize, Seq<char>)>,
    enabled: Seq<String>,
)
    ensures
        forall|k: int|
            0 <= k < active_entries(items, vs, enabled).len() ==> surviving_in(
                items,
                vs,
                enabled,
                #[trigger] active_entries(items, vs, enabled)[k],
            ),
    decreases vs.len(),
{
    if vs.len() > 0 {
        let pre = vs.drop_last();
        lemma_active_entries_members(items, pre, enabled);
        let es0 = active_entries(items, pre, enabled);
        let es = active_entries(items, vs, enabled);
        assert forall|k: int| 0 <= k < es.len() implies surviving_in(items, vs, enabled, #[trigger] es[k]) by {
            if k < es0.len() {
                assert(es[k] == es0[k]);
                assert(surviving_in(items, pre, enabled, es0[k]));
                let q = choose|q: int| 0 <= q < pre.len() && #[trigger] pre[q] == es0[k] && member_active(items, es0[k].0, enabled);
                assert(vs[q] == pre[q]);
            } else {
                assert(vs[vs.len() - 1] == es[k]);
            }
        }
    }
}

/// What `lookup_entry` finds: nothing exactly when no entry has the name, and
/// otherwise an entry of that name.
proof fn lemma_lookup_entry(es: Seq<(usize, Seq<char>)>, name: Seq<char>)
    ensures
        lookup_entry(es, name) is None <==> !name_taken(es, name),
        lookup_entry(es, name) is Some ==> exists|k: int|
            0 <= k < es.len() && #[trigger] es[k] == (lookup_entry(es, name)->Some_0, name),
    decreases es.len(),
{
    if es.len() > 0 {
        let tail = es.drop_first();
        lemma_lookup_entry(tail, name);
        if es[0].1 != name {
            if name_taken(es, name) {
                let k = choose|k: int| 0 <= k < es.len() && (#[trigger] es[k]).1 == name;
                assert(tail[k - 1] == es[k]);
            }
            if name_taken(tail, name) {
                let k = choose|k: int| 0 <= k < tail.len() && (#[trigger] tail[k]).1 == name;
                assert(es[k + 1] == tail[k]);
            }
            if lookup_entry(es, name) is Some {
                let k = choose|k: int| 0 <= k < tail.len() && #[trigger] tail[k] == (
                    lookup_entry(es, name)->Some_0, name);
                assert(es[k + 1] == tail[k]);
            }
        } else {
            assert(es[0] == (es[0].0, name));
        }
    }
}

/// The position of an entry with the host name `name`, if any.
fn find_name(entries: &Vec<VirtualMethod>, name: &str) -> (r: Option<usize>)
    ensures
        r is None <==> !name_taken(entry_views(entries@), name@),
        r is Some ==> r->Some_0 < entries@.len() && entries@[r->Some_0 as int].host_name@ == name@,
{
    let ghost es = entry_views(entries@);
    let mut k: usize = 0;
    while k < entries.len()
        invariant
            es == entry_views(entries@),
            0 <= k <= entries@.len(),
            forall|j: int| 0 <= j < k ==> (#[trigger] es[j]).1 != name@,
        decreases entries.len() - k,
    {
        if str_eq(entries[k].host_name.as_str(), name) {
            assert(es[k as int].1 == name@);
            return Some(k);
        }
        k = k + 1;
    }
    None
}

/// Once a prefix holds a duplicate, so do all longer ones.
proof fn lemma_duplicate_stays(
    items: Seq<ImplMember>,
    vs: Seq<(usize, Seq<char>)>,
    enabled: Seq<String>,
    n: int,
)
    requires
        0 <= n <= vs.len(),
        duplicate_virtuals(items, vs.subrange(0, n), enabled),
    ensures
        duplicate_virtuals(items, vs, enabled),
    decreases vs.len() - n,
{
    if n < vs.len() {
        assert(vs.subrange(0, n + 1).drop_last() == vs.subrange(0, n));
        lemma_duplicate_stays(items, vs, enabled, n + 1);
    } else {
        assert(vs.subrange(0, n) == vs);
    }
}

/// Resolves the dispatch table of a class under `enabled`: the surviving virtual
/// methods, or an error when two of them share a host name.
pub fn resolve_dispatch_table(decl: &Impl, enabled: &Vec<String>, virtuals: &Vec<VirtualMethod>) -> (r: Result<DispatchTable, DuplicateDefinition>)
    requires
        forall|p: int| 0 <= p < virtuals@.len() ==> (#[trigger] virtuals@[p]).index < decl.body_items@.len(),
    ensures
        r is Err <==> duplicate_virtuals(decl.body_items@, entry_views(virtuals@), enabled@),
        r is Ok ==> entry_views(r->Ok_0.entries@) == active_entries(
            decl.body_items@,
            entry_views(virtuals@),
            enabled@,
        ),
{
    let ghost items = decl.body_items@;
    let ghost vs = entry_views(virtuals@);
    let mut entries: Vec<VirtualMethod> = Vec::new();
    let mut i: usize = 0;
    while i < virtuals.len()
        invariant
            items == decl.body_items@,
            vs == entry_views(virtuals@),
            forall|p: int| 0 <= p < virtuals@.len() ==> (#[trigger] virtuals@[p]).index < items.len(),
            i <= virtuals@.len(),
            entry_views(entries@) == active_entries(items, vs.subrange(0, i as int), enabled@),
            !duplicate_virtuals(items, vs.subrange(0, i as int), enabled@),
        decreases virtuals.len() - i,
    {
        let v = &virtuals[i];
        let ghost next = vs.subrange(0, i + 1);
        assert(next.drop_last() == vs.subrange(0, i as int));
        assert(next.last() == (v.index, v.host_name@));
        if is_member_active(decl, v.index, enabled) {
            if let Some(k) = find_name(&entries, v.host_name.as_str()) {
                proof {
                    lemma_duplicate_stays(items, vs, enabled@, i + 1);
                }
                return Err(DuplicateDefinition { first: entries[k].index, second: v.index });
            }
            let ghost before = entries@;
            entries.push(VirtualMethod { index: v.index, host_name: v.host_name.clone() });
            assert(entry_views(entries@) == entry_views(before).push(next.last()));
        }
        i = i + 1;
    }
    assert(vs.subrange(0, i as int) == vs);
    Ok(DispatchTable { entries })
}

impl DispatchTable {
    /// The member that the host reaches under `name`; `None` when the table has no
    /// entry for it.
    pub fn lookup(&self, name: &str) -> (r: Option<usize>)
        ensures
            r == lookup_entry(entry_views(self.entries@), name@),
    {
        let ghost es = entry_views(self.entries@);
        let mut i: usize = 0;
        assert(es.subrange(0, es.len() as int) == es);
        while i < self.entries.len()
            invariant
                es == entry_views(self.entries@),
                i <= self.entries@.len(),
                lookup_entry(es, name@) == lookup_entry(es.subrange(i as int, es.len() as int), name@),
            decreases self.entries.len() - i,
        {
            let ghost rest = es.subrange(i as int, es.len() as int);
            assert(rest[0] == virtual_view(self.entries@[i as int]));
            assert(rest.drop_first() == es.subrange(i + 1, es.len() as int));
            if str_eq(self.entries[i].host_name.as_str(), name) {
                return Some(self.entries[i].index);
            }
            i = i + 1;
        }
        None
    }
}

/// Dispatch is unambiguous: once resolution succeeds, the table holds at most one
/// entry per host name; a name whose candidates were all compiled out resolves to
/// nothing; and a name that resolves reaches a member that survives under that name.
pub proof fn lemma_dispatch_unambiguous(
    items: Seq<ImplMember>,
    vs: Seq<(usize, Seq<char>)>,
    enabled: Seq<String>,
    name: Seq<char>,
)
    requires
        !duplicate_virtuals(items, vs, enabled),
    ensures
        forall|k1: int, k2: int|
            0 <= k1 < k2 < active_entries(items, vs, enabled).len() ==> (#[trigger] active_entries(
                items,
                vs,
                enabled,
            )[k1]).1 != (#[trigger] active_entries(items, vs, enabled)[k2]).1,
        (forall|q: int|
            0 <= q < vs.len() && #[trigger] member_active(items, vs[q].0, enabled) ==> vs[q].1 != name)
            ==> lookup_entry(active_entries(items, vs, enabled), name) is None,
        lookup_entry(active_entries(items, vs, enabled), name) is Some ==> exists|q: int|
            0 <= q < vs.len() && vs[q] == (lookup_entry(active_entries(items, vs, enabled), name)->Some_0, name)
                && #[trigger] member_active(items, vs[q].0, enabled),
    decreases vs.len(),
{
    let es = active_entries(items, vs, enabled);
    lemma_active_entries_members(items, vs, enabled);
    lemma_lookup_entry(es, name);
    if vs.len() > 0 {
        let pre = vs.drop_last();
        lemma_dispatch_unambiguous(items, pre, enabled, name);
        let es0 = active_entries(items, pre, enabled);
        assert forall|k1: int, k2: int| 0 <= k1 < k2 < es.len() implies (#[trigger] es[k1]).1 != (#[trigger] es[k2]).1 by {
            if k2 < es0.len() {
                assert(es[k1] == es0[k1] && es[k2] == es0[k2]);
            } else {
                assert(es[k1] == es0[k1]);
                assert(es[k2] == vs.last());
            }
        }
    }
    if lookup_entry(es, name) is Some {
        let k = choose|k: int| 0 <= k < es.len() && #[trigger] es[k] == (lookup_entry(es, name)->Some_0, name);
        assert(surviving_in(items, vs, enabled, es[k]));
        let q = choose|q: int| 0 <= q < vs.len() && #[trigger] vs[q] == es[k] && member_active(items, es[k].0, enabled);
        assert(vs[q] == (lookup_entry(es, name)->Some_0, name));
    }
    if forall|q: int| 0 <= q < vs.len() && #[trigger] member_active(items, vs[q].0, enabled) ==> vs[q].1 != name {
        if name_taken(es, name) {
            let k = choose|k: int| 0 <= k < es.len() && (#[trigger] es[k]).1 == name;
            assert(surviving_in(items, vs, enabled, es[k]));
            let q = choose|q: int| 0 <= q < vs.len() && #[trigger] vs[q] == es[k] && member_active(items, es[k].0, enabled);
            assert(member_active(items, vs[q].0, enabled));
        }
    }
}

} // verus!
