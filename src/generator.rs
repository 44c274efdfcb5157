//! The binding generator's decisions over a host API description: which classes
//! and methods are bound, under which names, and whether the class graph is sound.
use vstd::prelude::*;
use crate::api::{BuildConfig, ClassDescriptor, ClassMethod, TyName};
use crate::special_cases::{
    is_class_deleted, is_deleted, is_excluded_from_default_params, is_private, keeps_get_prefix,
    keeps_prefix_pair, maybe_renamed, no_default_params_pair, private_pair, renamed,
    spec_is_class_deleted, spec_is_deleted,
};
use crate::text::{has_prefix, str_eq, suffix_from};

verus! {

/// Whether a name begins with the accessor prefix "get_".
pub open spec fn begins_with_get(name: Seq<char>) -> bool {
    4 <= name.len() && name.subrange(0, 4) == "get_"@
}

/// The name under which the method `name` of `class`, with `arg_count` parameters,
/// is bound: renamed first; then an accessor (no parameters) loses its "get_"
/// prefix, unless the class keeps it.
pub open spec fn binding_name(class: Seq<char>, name: Seq<char>, arg_count: nat) -> Seq<char> {
    let r = renamed(name);
    if arg_count == 0 && begins_with_get(r) && !keeps_prefix_pair(class, name) {
        r.subrange(4, r.len() as int)
    } else {
        r
    }
}

/// The binding name of a method.
pub fn binding_method_name(class_name: &TyName, method: &ClassMethod) -> (r: String)
    ensures
        r@ == binding_name(class_name.godot_ty@, method.name@, method.arg_count as nat),
{
    let name = maybe_renamed(class_name, method.name.as_str());
    proof {
        reveal_strlit("get_");
    }
    if method.arg_count == 0 && has_prefix(name, "get_") && !keeps_get_prefix(class_name, method) {
        suffix_from(name, 4)
    } else {
        String::from_str(name)
    }
}

/// An accessor whose name, with "get_" taken off, would be changed again by the
/// rules: it begins with "get_" once more or is "new".
pub open spec fn prefix_stacked(class: Seq<char>, name: Seq<char>) -> bool {
    let rest = name.subrange(4, name.len() as int);
    &&& begins_with_get(name)
    &&& !keeps_prefix_pair(class, name)
    &&& (rest == "new"@ || (begins_with_get(rest) && !keeps_prefix_pair(class, rest)))
}

/// Naming a method is idempotent: the binding name of a binding name is itself,
/// for every method but an accessor whose prefix is stacked.
pub proof fn lemma_binding_name_idempotent(class: Seq<char>, name: Seq<char>, arg_count: nat)
    requires
        !(arg_count == 0 && prefix_stacked(class, name)),
    ensures
        binding_name(class, binding_name(class, name, arg_count), arg_count) == binding_name(
            class,
            name,
            arg_count,
        ),
{
    reveal_strlit("get_");
    reveal_strlit("new");
    reveal_strlit("instantiate");
    let b = binding_name(class, name, arg_count);
    assert(!begins_with_get("instantiate"@)) by {
        assert("instantiate"@.subrange(0, 4)[0] != "get_"@[0]);
    }
    if name == "new"@ {
        assert(b == "instantiate"@);
        assert(b != "new"@) by {
            assert(b.len() != "new"@.len());
        }
    } else if arg_count == 0 && begins_with_get(name) && !keeps_prefix_pair(class, name) {
        assert(b == name.subrange(4, name.len() as int));
    } else {
        assert(b == name);
    }
}

/// How one retained method of a class is bound.
pub struct MethodBinding {
    /// Where the method stands in its class.
    pub index: usize,
    pub name: String,
    /// Kept off the public surface, reachable through an internal accessor.
    pub private: bool,
    /// Trailing default arguments may be left out.
    pub default_params: bool,
}

/// The bindings of the first `n` methods of `class`, in order: deleted methods have
/// none.
pub open spec fn method_bindings(class: ClassDescriptor, n: int) -> Seq<(usize, Seq<char>, bool, bool)>
    decreases n,
{
    if n <= 0 {
        Seq::empty()
    } else {
        let rest = method_bindings(class, n - 1);
        let m = class.methods@[n - 1];
        let c = class.name.godot_ty@;
        if spec_is_deleted(c, m) {
            rest
        } else {
            rest.push(
                (
                    (n - 1) as usize,
                    binding_name(c, m.name@, m.arg_count as nat),
                    private_pair(c, m.name@),
                    !no_default_params_pair(c, m.name@),
                ),
            )
        }
    }
}

pub open spec fn binding_view(b: MethodBinding) -> (usize, Seq<char>, bool, bool) {
    (b.index, b.name@, b.private, b.default_params)
}

/// Binds the methods of a class: each method that is not deleted gets its binding
/// name, its visibility and its default-parameter policy.
pub fn bind_methods(class: &ClassDescriptor) -> (r: Vec<MethodBinding>)
    ensures
        r@.map_values(|b: MethodBinding| binding_view(b)) == method_bindings(
            *class,
            class.methods@.len() as int,
        ),
{
    let mut out: Vec<MethodBinding> = Vec::new();
    let methods = &class.methods;
    let mut i: usize = 0;
    while i < methods.len()
        invariant
            methods == &class.methods,
            i <= methods@.len(),
            out@.map_values(|b: MethodBinding| binding_view(b)) == method_bindings(*class, i as int),
        decreases methods.len() - i,
    {
        let m = &methods[i];
        if !is_deleted(&class.name, m) {
            let ghost before = out@;
            let b = MethodBinding {
                index: i,
                name: binding_method_name(&class.name, m),
                private: is_private(&class.name, m.name.as_str()),
                default_params: !is_excluded_from_default_params(Some(&class.name), m.name.as_str()),
            };
            out.push(b);
            assert(out@.map_values(|b: MethodBinding| binding_view(b)) == before.map_values(
                |b: MethodBinding| binding_view(b),
            ).push(binding_view(b)));
        }
        i = i + 1;
    }
    out
}

/// The indices of the classes among the first `n` that are bound under `cfg`.
pub open spec fn retained_indices(cfg: BuildConfig, classes: Seq<ClassDescriptor>, n: int) -> Seq<usize>
    decreases n,
{
    if n <= 0 {
        Seq::empty()
    } else {
        let rest = retained_indices(cfg, classes, n - 1);
        if spec_is_class_deleted(cfg, classes[n - 1].name.godot_ty@) {
            rest
        } else {
            rest.push((n - 1) as usize)
        }
    }
}

/// The classes that are bound under `cfg`, in order. A deleted class, an
/// experimental one without the opt-in among them, is left out whole.
pub fn retained_classes(cfg: &BuildConfig, classes: &Vec<ClassDescriptor>) -> (r: Vec<usize>)
    ensures
        r@ == retained_indices(*cfg, classes@, classes@.len() as int),
{
    let mut out: Vec<usize> = Vec::new();
    let mut i: usize = 0;
    while i < classes.len()
        invariant
            i <= classes@.len(),
            out@ == retained_indices(*cfg, classes@, i as int),
        decreases classes.len() - i,
    {
        if !is_class_deleted(cfg, &classes[i].name) {
            out.push(i);
        }
        i = i + 1;
    }
    out
}

/// The first class of `classes` named `name`.
pub open spec fn index_of(classes: Seq<ClassDescriptor>, name: Seq<char>) -> Option<int>
    decreases classes.len(),
{
    if classes.len() == 0 {
        None
    } else {
        match index_of(classes.drop_last(), name) {
            Some(i) => Some(i),
            None => if classes.last().name.godot_ty@ == name {
                Some(classes.len() - 1)
            } else {
                None
            },
        }
    }
}

/// The parent of class `j`: `None` for a root, and for a parent name that no
/// class has.
pub open spec fn parent_of(classes: Seq<ClassDescriptor>, j: int) -> Option<int> {
    match classes[j].parent {
        None => None,
        Some(p) => index_of(classes, p@),
    }
}

/// The `s`-th ancestor of class `i`, following parents; `None` once the chain has
/// ended or broken.
pub open spec fn ancestor(classes: Seq<ClassDescriptor>, i: int, s: nat) -> Option<int>
    decreases s,
{
    if s == 0 {
        Some(i)
    } else {
        match ancestor(classes, i, (s - 1) as nat) {
            None => None,
            Some(j) => parent_of(classes, j),
        }
    }
}

/// Whether the chain of class `i` reaches a root class in `d` steps.
pub open spec fn rooted_at(classes: Seq<ClassDescriptor>, i: int, d: nat) -> bool {
    ancestor(classes, i, d) is Some && classes[ancestor(classes, i, d)->Some_0].parent is None
}

/// Whether the parent chain of class `i` is finite and ends at a root class.
pub open spec fn chain_rooted(classes: Seq<ClassDescriptor>, i: int) -> bool {
    exists|d: nat| d < classes.len() && #[trigger] rooted_at(classes, i, d)
}

/// Why a class graph is rejected.
#[derive(Clone, Copy, Debug, PartialEq, Eq, Structural)]
pub enum SchemaErrorKind {
    /// A parent name that no class has.
    UnresolvedParent,
    /// A parent chain that never reaches a root.
    CyclicParent,
}

/// A rejected class graph, with the first class whose chain fails.
#[derive(Clone, Copy, Debug, PartialEq, Eq, Structural)]
pub struct SchemaError {
    pub kind: SchemaErrorKind,
    pub class: usize,
}

proof fn lemma_index_of(classes: Seq<ClassDescriptor>, name: Seq<char>)
    ensures
        index_of(classes, name) is Some ==> {
            let i = index_of(classes, name)->Some_0;
            0 <= i < classes.len() && classes[i].name.godot_ty@ == name
        },
        index_of(classes, name) is None ==> forall|i: int|
            0 <= i < classes.len() ==> (#[trigger] classes[i]).name.godot_ty@ != name,
    decreases classes.len(),
{
    if classes.len() > 0 {
        let pre = classes.drop_last();
        lemma_index_of(pre, name);
        assert forall|i: int| 0 <= i < pre.len() implies pre[i] == classes[i] by {}
    }
}

/// Finds the first class named `name`.
fn find_class(classes: &Vec<ClassDescriptor>, name: &str) -> (r: Option<usize>)
    ensures
        r is None ==> index_of(classes@, name@) is None,
        r is Some ==> index_of(classes@, name@) == Some(r->Some_0 as int),
{
    let mut i: usize = 0;
    while i < classes.len()
        invariant
            i <= classes@.len(),
            index_of(classes@.subrange(0, i as int), name@) is None,
        decreases classes.len() - i,
    {
        let ghost pre = classes@.subrange(0, i as int);
        let ghost next = classes@.subrange(0, i + 1);
        assert(next.drop_last() == pre);
        if str_eq(classes[i].name.godot_ty.as_str(), name) {
            proof {
                lemma_index_of_prefix(classes@, name@, i as int + 1);
            }
            return Some(i);
        }
        i = i + 1;
    }
    assert(classes@.subrange(0, i as int) == classes@);
    None
}

/// A name found in a prefix is found at the same place in the whole list.
proof fn lemma_index_of_prefix(classes: Seq<ClassDescriptor>, name: Seq<char>, n: int)
    requires
        0 <= n <= classes.len(),
        index_of(classes.subrange(0, n), name) is Some,
    ensures
        index_of(classes, name) == index_of(classes.subrange(0, n), name),
    decreases classes.len() - n,
{
    if n < classes.len() {
        assert(classes.subrange(0, n + 1).drop_last() == classes.subrange(0, n));
        lemma_index_of_prefix(classes, name, n + 1);
    } else {
        assert(classes.subrange(0, n) == classes);
    }
}

/// Once the chain has ended, it stays ended.
proof fn lemma_ancestor_none_stays(classes: Seq<ClassDescriptor>, i: int, s: nat, t: nat)
    requires
        s <= t,
        ancestor(classes, i, s) is None,
    ensures
        ancestor(classes, i, t) is None,
    decreases t - s,
{
    if s < t {
        lemma_ancestor_none_stays(classes, i, s, (t - 1) as nat);
    }
}

/// Following `s` steps and then `t` more is following `s + t` steps.
proof fn lemma_ancestor_compose(classes: Seq<ClassDescriptor>, i: int, s: nat, t: nat)
    requires
        ancestor(classes, i, s) is Some,
    ensures
        ancestor(classes, i, s + t) == ancestor(classes, ancestor(classes, i, s)->Some_0, t),
    decreases t,
{
    if t > 0 {
        lemma_ancestor_compose(classes, i, s, (t - 1) as nat);
        assert((s + t - 1) as nat == s + (t - 1) as nat);
    }
}

/// Checks that the parent chain of every class is finite and ends at a root; the
/// first class whose chain breaks or loops is reported.
pub fn check_parent_chains(classes: &Vec<ClassDescriptor>) -> (r: Result<(), SchemaError>)
    ensures
        r is Ok <==> forall|i: int| 0 <= i < classes@.len() ==> #[trigger] chain_rooted(classes@, i),
        r is Err ==> {
            let c = r->Err_0.class as int;
            &&& 0 <= c < classes@.len()
            &&& !chain_rooted(classes@, c)
            &&& forall|i: int| 0 <= i < c ==> #[trigger] chain_rooted(classes@, i)
        },
{
    let n = classes.len();
    let mut i: usize = 0;
    while i < n
        invariant
            n == classes@.len(),
            i <= n,
            forall|k: int| 0 <= k < i ==> #[trigger] chain_rooted(classes@, k),
        decreases n - i,
    {
        let mut j: usize = i;
        let mut s: usize = 0;
        let mut found_root = false;
        while s < n && !found_root
            invariant
                n == classes@.len(),
                i < n,
                j < n,
                s <= n,
                forall|k: int| 0 <= k < i ==> #[trigger] chain_rooted(classes@, k),
                ancestor(classes@, i as int, s as nat) == Some(j as int),
                found_root ==> s < n && rooted_at(classes@, i as int, s as nat),
                forall|d: nat| d < s ==> !#[trigger] rooted_at(classes@, i as int, d),
            decreases n - s + (if found_root { 0int } else { 1int }),
        {
            match &classes[j].parent {
                None => {
                    found_root = true;
                },
                Some(p) => {
                    match find_class(classes, p.as_str()) {
                        None => {
                            proof {
                                assert(ancestor(classes@, i as int, (s + 1) as nat) is None);
                                assert forall|d: nat| d < classes@.len() implies !#[trigger] rooted_at(classes@, i as int, d) by {
                                    if d > s {
                                        lemma_ancestor_none_stays(classes@, i as int, (s + 1) as nat, d);
                                    }
                                }
                                assert(!chain_rooted(classes@, i as int));
                            }
                            return Err(SchemaError { kind: SchemaErrorKind::UnresolvedParent, class: i });
                        },
                        Some(k) => {
                            proof {
                                lemma_index_of(classes@, p@);
                            }
                            j = k;
                            s = s + 1;
                        },
                    }
                },
            }
        }
        if !found_root {
            assert forall|d: nat| d < classes@.len() implies !#[trigger] rooted_at(classes@, i as int, d) by {}
            assert(!chain_rooted(classes@, i as int));
            return Err(SchemaError { kind: SchemaErrorKind::CyclicParent, class: i });
        }
        assert(chain_rooted(classes@, i as int));
        i = i + 1;
    }
    Ok(())
}

/// The class graph is sound once checked: the parent chain of every class is
/// finite, ends at a root class, and passes no class twice.
pub proof fn lemma_parent_chains_rooted(classes: Seq<ClassDescriptor>, i: int)
    requires
        0 <= i < classes.len(),
        forall|k: int| 0 <= k < classes.len() ==> #[trigger] chain_rooted(classes, k),
    ensures
        exists|d: nat|
            d < classes.len() && #[trigger] rooted_at(classes, i, d) && forall|s1: nat, s2: nat|
                s1 < s2 <= d ==> #[trigger] ancestor(classes, i, s1) != #[trigger] ancestor(
                    classes,
                    i,
                    s2,
                ),
{
    assert(chain_rooted(classes, i));
    let d = choose|d: nat| d < classes.len() && #[trigger] rooted_at(classes, i, d);
    assert forall|s1: nat, s2: nat| s1 < s2 <= d implies #[trigger] ancestor(classes, i, s1) != #[trigger] ancestor(classes, i, s2) by {
        lemma_ancestor_some_before(classes, i, s1, d);
        lemma_ancestor_some_before(classes, i, s2, d);
        if ancestor(classes, i, s1) == ancestor(classes, i, s2) {
            let x = ancestor(classes, i, s1)->Some_0;
            let root = ancestor(classes, i, d)->Some_0;
            lemma_ancestor_compose(classes, i, s2, (d - s2) as nat);
            lemma_ancestor_compose(classes, i, s1, (d - s1) as nat);
            assert(ancestor(classes, x, (d - s2) as nat) == Some(root));
            assert(ancestor(classes, x, (d - s2 + 1) as nat) is None);
            lemma_ancestor_none_stays(classes, x, (d - s2 + 1) as nat, (d - s1) as nat);
        }
    }
}

/// Before the chain ends, every step has an ancestor.
proof fn lemma_ancestor_some_before(classes: Seq<ClassDescriptor>, i: int, s: nat, d: nat)
    requires
        s <= d,
        ancestor(classes, i, d) is Some,
    ensures
        ancestor(classes, i, s) is Some,
{
    if ancestor(classes, i, s) is None {
        lemma_ancestor_none_stays(classes, i, s, d);
    }
}

} // verus!
