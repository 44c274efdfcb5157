//! The registration expander: validates a host-facing impl block and plans the
//! registration of its members.
use vstd::prelude::*;
use crate::declaration::{
    AttrValue, Attribute, Constant, Declaration, FnParam, FnQualifiers, Function, Impl,
    ImplMember,
};
use crate::text::str_eq;

verus! {

/// The role that an attribute gives a declaration.
#[derive(Clone, Copy, Debug, PartialEq, Eq, Structural)]
pub enum BoundAttrType {
    /// `#[func]`: an exported function.
    Func,
    /// `#[signal]`: a signal.
    Signal,
    /// `#[constant]`: an exported constant.
    Const,
}

/// The role attribute found on a declaration, with its place in the attribute list.
#[derive(Clone, Copy, Debug, PartialEq, Eq, Structural)]
pub struct BoundAttr {
    pub index: usize,
    pub ty: BoundAttrType,
}

/// Why an impl block cannot be expanded.
#[derive(Clone, Copy, Debug, PartialEq, Eq, Structural)]
pub enum ErrorKind {
    /// The marker stands on something other than an impl block.
    NotAnImpl,
    /// The impl block has generic parameters.
    GenericImpl,
    /// The implementing type is not a path.
    InvalidSelfType,
    /// A declaration has more than one of `#[func]`, `#[signal]`, `#[constant]`.
    MultipleRoles,
    /// An exported function or signal is `default`, `const`, `async`, `unsafe` or `extern`.
    FnQualifiers(BoundAttrType),
    /// An exported function or signal has generic parameters.
    GenericFn(BoundAttrType),
    /// A `#[func(gd_self)]` function has no parameter for the receiver.
    MissingGdSelf,
    /// A signal declares a return type.
    SignalReturnType,
    /// `#[constant]` stands on a function.
    ConstantOnFunction,
    /// `#[func]` stands on a constant.
    FuncOnConstant,
    /// `#[signal]` stands on a constant.
    SignalOnConstant,
    /// An exported constant has no value.
    MissingInitializer,
}

/// An expansion error, with the index of the offending member of the impl block
/// when one member is at fault.
#[derive(Clone, Copy, Debug, PartialEq, Eq, Structural)]
pub struct ExpandError {
    pub kind: ErrorKind,
    pub member: Option<usize>,
}

/// The role that an attribute names: one of a single path segment `func`, `signal`
/// or `constant`.
pub open spec fn role_of(a: Attribute) -> Option<BoundAttrType> {
    if a.path@.len() == 1 {
        let n = a.path@[0]@;
        if n == "func"@ {
            Some(BoundAttrType::Func)
        } else if n == "signal"@ {
            Some(BoundAttrType::Signal)
        } else if n == "constant"@ {
            Some(BoundAttrType::Const)
        } else {
            None
        }
    } else {
        None
    }
}

/// Whether two attributes of the list name a role.
pub open spec fn multiple_roles(attrs: Seq<Attribute>) -> bool {
    exists|i: int, j: int|
        0 <= i < j < attrs.len() && (#[trigger] role_of(attrs[i])) is Some && (#[trigger] role_of(
            attrs[j],
        )) is Some
}

/// Whether no attribute of the list names a role.
pub open spec fn no_role(attrs: Seq<Attribute>) -> bool {
    forall|i: int| 0 <= i < attrs.len() ==> (#[trigger] role_of(attrs[i])) is None
}

/// The role attribute of a list that names exactly one.
pub open spec fn single_role(attrs: Seq<Attribute>) -> BoundAttr {
    let i = choose|i: int| 0 <= i < attrs.len() && (#[trigger] role_of(attrs[i])) is Some;
    BoundAttr { index: i as usize, ty: role_of(attrs[i])->Some_0 }
}

/// What `extract_attributes` finds in an attribute list.
pub open spec fn extracted(attrs: Seq<Attribute>) -> Result<Option<BoundAttr>, ErrorKind> {
    if multiple_roles(attrs) {
        Err(ErrorKind::MultipleRoles)
    } else if no_role(attrs) {
        Ok(None)
    } else {
        Ok(Some(single_role(attrs)))
    }
}

/// The role that an attribute names, if any.
pub fn attribute_role(a: &Attribute) -> (r: Option<BoundAttrType>)
    ensures
        r == role_of(*a),
{
    if a.path.len() != 1 {
        return None;
    }
    let n = a.path[0].as_str();
    if str_eq(n, "func") {
        Some(BoundAttrType::Func)
    } else if str_eq(n, "signal") {
        Some(BoundAttrType::Signal)
    } else if str_eq(n, "constant") {
        Some(BoundAttrType::Const)
    } else {
        None
    }
}

/// Finds the one role attribute of a declaration; more than one is an error.
fn extract_attributes(attributes: &Vec<Attribute>) -> (r: Result<Option<BoundAttr>, ErrorKind>)
    ensures
        r == extracted(attributes@),
{
    let mut found: Option<BoundAttr> = None;
    let mut index: usize = 0;
    while index < attributes.len()
        invariant
            index <= attributes@.len(),
            !multiple_roles(attributes@.subrange(0, index as int)),
            found is None ==> forall|i: int| 0 <= i < index ==> (#[trigger] role_of(attributes@[i])) is None,
            found is Some ==> {
                let b = found->Some_0;
                &&& b.index < index
                &&& role_of(attributes@[b.index as int]) == Some(b.ty)
                &&& forall|i: int|
                    0 <= i < index && i != b.index ==> (#[trigger] role_of(attributes@[i])) is None
            },
        decreases attributes.len() - index,
    {
        let role = attribute_role(&attributes[index]);
        match role {
            Some(ty) => {
                if let Some(b) = found {
                    assert(role_of(attributes@[b.index as int]) is Some);
                    assert(role_of(attributes@[index as int]) is Some);
                    assert(multiple_roles(attributes@));
                    return Err(ErrorKind::MultipleRoles);
                }
                found = Some(BoundAttr { index, ty });
            },
            None => {},
        }
        index = index + 1;
        proof {
            let s = attributes@.subrange(0, index as int);
            if multiple_roles(s) {
                let (i, j) = choose|i: int, j: int|
                    0 <= i < j < s.len() && (#[trigger] role_of(s[i])) is Some && (#[trigger] role_of(s[j])) is Some;
                assert(role_of(attributes@[i]) is Some);
                assert(role_of(attributes@[j]) is Some);
            }
        }
    }
    assert(attributes@.subrange(0, index as int) == attributes@);
    match found {
        None => Ok(None),
        Some(b) => {
            assert(!no_role(attributes@));
            let ghost i = choose|i: int| 0 <= i < attributes@.len() && (#[trigger] role_of(attributes@[i])) is Some;
            assert(i == b.index);
            Ok(Some(b))
        },
    }
}

/// An exported function: the member at `index` of the impl block, whose attribute
/// at `attr_index` is its `#[func]`. Its signature is the function's with that
/// attribute left out, and without its first parameter when `has_gd_self` holds.
#[derive(Clone, Copy, Debug, PartialEq, Eq, Structural)]
pub struct FuncDefinition {
    pub index: usize,
    pub attr_index: usize,
    pub has_gd_self: bool,
}

/// A signal: the member at `index` of the impl block, whose attribute at
/// `attr_index` is its `#[signal]`. The member is taken out of the impl block.
#[derive(Clone, Copy, Debug, PartialEq, Eq, Structural)]
pub struct SignalDefinition {
    pub index: usize,
    pub attr_index: usize,
}

/// An exported constant: the member at `index` of the impl block, whose attribute
/// at `attr_index` is its `#[constant]`.
#[derive(Clone, Copy, Debug, PartialEq, Eq, Structural)]
pub struct ConstantDefinition {
    pub index: usize,
    pub attr_index: usize,
}

/// What a function of an impl block turns into.
pub enum MethodOutcome {
    /// It carries no role and stays as it is.
    Plain,
    Func(FuncDefinition),
    Signal(SignalDefinition),
}

/// The `gd_self` key of a `#[func]` attribute.
pub open spec fn gd_self_key(a: Attribute) -> bool {
    match a.value {
        AttrValue::Keys { gd_self, .. } => gd_self,
        _ => false,
    }
}

pub open spec fn disallowed_qualifier(q: FnQualifiers) -> bool {
    q.tk_default || q.tk_const || q.tk_async || q.tk_unsafe || q.tk_extern || q.extern_abi
}

/// What the function `f`, the member at `index`, turns into, or why it is rejected.
pub open spec fn method_outcome(f: Function, index: usize) -> Result<MethodOutcome, ErrorKind> {
    match extracted(f.attributes@) {
        Err(e) => Err(e),
        Ok(None) => Ok(MethodOutcome::Plain),
        Ok(Some(b)) => if disallowed_qualifier(f.qualifiers) {
            Err(ErrorKind::FnQualifiers(b.ty))
        } else if f.has_generic_params {
            Err(ErrorKind::GenericFn(b.ty))
        } else {
            match b.ty {
                BoundAttrType::Func => {
                    let gd = gd_self_key(f.attributes@[b.index as int]);
                    if gd && f.params@.len() == 0 {
                        Err(ErrorKind::MissingGdSelf)
                    } else {
                        Ok(
                            MethodOutcome::Func(
                                FuncDefinition { index, attr_index: b.index, has_gd_self: gd },
                            ),
                        )
                    }
                },
                BoundAttrType::Signal => if f.return_ty is Some {
                    Err(ErrorKind::SignalReturnType)
                } else {
                    Ok(MethodOutcome::Signal(SignalDefinition { index, attr_index: b.index }))
                },
                BoundAttrType::Const => Err(ErrorKind::ConstantOnFunction),
            }
        },
    }
}

/// The exported functions and signals of the first `n` members, in order, or the
/// error of the first function that is rejected.
pub open spec fn fns_result(items: Seq<ImplMember>, n: int) -> Result<
    (Seq<FuncDefinition>, Seq<SignalDefinition>),
    ExpandError,
>
    decreases n,
{
    if n <= 0 {
        Ok((Seq::empty(), Seq::empty()))
    } else {
        match fns_result(items, n - 1) {
            Err(e) => Err(e),
            Ok((fs, ss)) => match items[n - 1] {
                ImplMember::Method(f) => match method_outcome(f, (n - 1) as usize) {
                    Err(k) => Err(ExpandError { kind: k, member: Some((n - 1) as usize) }),
                    Ok(MethodOutcome::Plain) => Ok((fs, ss)),
                    Ok(MethodOutcome::Func(d)) => Ok((fs.push(d), ss)),
                    Ok(MethodOutcome::Signal(d)) => Ok((fs, ss.push(d))),
                },
                _ => Ok((fs, ss)),
            },
        }
    }
}

/// Once the first `n` members hold an error, so do all longer prefixes.
proof fn lemma_fns_error_stays(items: Seq<ImplMember>, n: int, m: int)
    requires
        0 <= n <= m,
        fns_result(items, n) is Err,
    ensures
        fns_result(items, m) == fns_result(items, n),
    decreases m - n,
{
    if m > n {
        lemma_fns_error_stays(items, n, m - 1);
    }
}

/// Decides what the function `method`, the member at `index`, turns into.
fn process_method(method: &Function, index: usize) -> (r: Result<MethodOutcome, ErrorKind>)
    ensures
        r == method_outcome(*method, index),
{
    let attr = match extract_attributes(&method.attributes) {
        Err(e) => return Err(e),
        Ok(None) => return Ok(MethodOutcome::Plain),
        Ok(Some(b)) => b,
    };
    let q = method.qualifiers;
    if q.tk_default || q.tk_const || q.tk_async || q.tk_unsafe || q.tk_extern || q.extern_abi {
        return Err(ErrorKind::FnQualifiers(attr.ty));
    }
    if method.has_generic_params {
        return Err(ErrorKind::GenericFn(attr.ty));
    }
    match attr.ty {
        BoundAttrType::Func => {
            let has_gd_self = match &method.attributes[attr.index].value {
                AttrValue::Keys { gd_self, .. } => *gd_self,
                _ => false,
            };
            if has_gd_self && method.params.len() == 0 {
                Err(ErrorKind::MissingGdSelf)
            } else {
                Ok(MethodOutcome::Func(FuncDefinition { index, attr_index: attr.index, has_gd_self }))
            }
        },
        BoundAttrType::Signal => {
            if method.return_ty.is_some() {
                Err(ErrorKind::SignalReturnType)
            } else {
                Ok(MethodOutcome::Signal(SignalDefinition { index, attr_index: attr.index }))
            }
        },
        BoundAttrType::Const => Err(ErrorKind::ConstantOnFunction),
    }
}

/// Collects the exported functions and signals of an impl block, in order.
fn process_godot_fns(decl: &Impl) -> (r: Result<(Vec<FuncDefinition>, Vec<SignalDefinition>), ExpandError>)
    ensures
        match fns_result(decl.body_items@, decl.body_items@.len() as int) {
            Err(e) => r == Err::<(Vec<FuncDefinition>, Vec<SignalDefinition>), ExpandError>(e),
            Ok((fs, ss)) => r is Ok && r->Ok_0.0@ == fs && r->Ok_0.1@ == ss,
        },
{
    let mut func_definitions: Vec<FuncDefinition> = Vec::new();
    let mut signal_definitions: Vec<SignalDefinition> = Vec::new();
    let items = &decl.body_items;
    let mut index: usize = 0;
    while index < items.len()
        invariant
            items == &decl.body_items,
            index <= items@.len(),
            fns_result(items@, index as int) == Ok::<(Seq<FuncDefinition>, Seq<SignalDefinition>), ExpandError>(
                (func_definitions@, signal_definitions@),
            ),
        decreases items.len() - index,
    {
        if let ImplMember::Method(method) = &items[index] {
            match process_method(method, index) {
                Err(kind) => {
                    let e = ExpandError { kind, member: Some(index) };
                    proof {
                        lemma_fns_error_stays(items@, index + 1, items@.len() as int);
                    }
                    return Err(e);
                },
                Ok(MethodOutcome::Plain) => {},
                Ok(MethodOutcome::Func(d)) => func_definitions.push(d),
                Ok(MethodOutcome::Signal(d)) => signal_definitions.push(d),
            }
        }
        index = index + 1;
    }
    Ok((func_definitions, signal_definitions))
}

/// What the constant `c`, the member at `index`, turns into, or why it is rejected.
pub open spec fn constant_outcome(c: Constant, index: usize) -> Result<Option<ConstantDefinition>, ErrorKind> {
    match extracted(c.attributes@) {
        Err(e) => Err(e),
        Ok(None) => Ok(None),
        Ok(Some(b)) => match b.ty {
            BoundAttrType::Func => Err(ErrorKind::FuncOnConstant),
            BoundAttrType::Signal => Err(ErrorKind::SignalOnConstant),
            BoundAttrType::Const => if !c.has_initializer {
                Err(ErrorKind::MissingInitializer)
            } else {
                Ok(Some(ConstantDefinition { index, attr_index: b.index }))
            },
        },
    }
}

/// The exported constants of the first `n` members, in order, or the error of the
/// first constant that is rejected.
pub open spec fn consts_result(items: Seq<ImplMember>, n: int) -> Result<Seq<ConstantDefinition>, ExpandError>
    decreases n,
{
    if n <= 0 {
        Ok(Seq::empty())
    } else {
        match consts_result(items, n - 1) {
            Err(e) => Err(e),
            Ok(cs) => match items[n - 1] {
                ImplMember::Constant(c) => match constant_outcome(c, (n - 1) as usize) {
                    Err(k) => Err(ExpandError { kind: k, member: Some((n - 1) as usize) }),
                    Ok(None) => Ok(cs),
                    Ok(Some(d)) => Ok(cs.push(d)),
                },
                _ => Ok(cs),
            },
        }
    }
}

proof fn lemma_consts_error_stays(items: Seq<ImplMember>, n: int, m: int)
    requires
        0 <= n <= m,
        consts_result(items, n) is Err,
    ensures
        consts_result(items, m) == consts_result(items, n),
    decreases m - n,
{
    if m > n {
        lemma_consts_error_stays(items, n, m - 1);
    }
}

/// Collects the exported constants of an impl block, in order.
fn process_godot_constants(decl: &Impl) -> (r: Result<Vec<ConstantDefinition>, ExpandError>)
    ensures
        match consts_result(decl.body_items@, decl.body_items@.len() as int) {
            Err(e) => r == Err::<Vec<ConstantDefinition>, ExpandError>(e),
            Ok(cs) => r is Ok && r->Ok_0@ == cs,
        },
{
    let mut constant_signatures: Vec<ConstantDefinition> = Vec::new();
    let items = &decl.body_items;
    let mut index: usize = 0;
    while index < items.len()
        invariant
            items == &decl.body_items,
            index <= items@.len(),
            consts_result(items@, index as int) == Ok::<Seq<ConstantDefinition>, ExpandError>(
                constant_signatures@,
            ),
        decreases items.len() - index,
    {
        if let ImplMember::Constant(constant) = &items[index] {
            let outcome: Result<Option<ConstantDefinition>, ErrorKind> = match extract_attributes(&constant.attributes) {
                Err(e) => Err(e),
                Ok(None) => Ok(None),
                Ok(Some(attr)) => match attr.ty {
                    BoundAttrType::Func => Err(ErrorKind::FuncOnConstant),
                    BoundAttrType::Signal => Err(ErrorKind::SignalOnConstant),
                    BoundAttrType::Const => {
                        if !constant.has_initializer {
                            Err(ErrorKind::MissingInitializer)
                        } else {
                            Ok(Some(ConstantDefinition { index, attr_index: attr.index }))
                        }
                    },
                },
            };
            match outcome {
                Err(kind) => {
                    proof {
                        lemma_consts_error_stays(items@, index + 1, items@.len() as int);
                    }
                    return Err(ExpandError { kind, member: Some(index) });
                },
                Ok(None) => {},
                Ok(Some(d)) => constant_signatures.push(d),
            }
        }
        index = index + 1;
    }
    Ok(constant_signatures)
}

/// One parameter of a signal's registration descriptor.
pub struct SignalParam {
    pub name: String,
    /// The parameter's type, as source text.
    pub ty: String,
}

pub open spec fn param_view(p: SignalParam) -> (Seq<char>, Seq<char>) {
    (p.name@, p.ty@)
}

/// The typed parameters of a parameter list, in order, as (name, type); the
/// receiver is left out.
pub open spec fn typed_params(params: Seq<FnParam>) -> Seq<(Seq<char>, Seq<char>)>
    decreases params.len(),
{
    if params.len() == 0 {
        Seq::empty()
    } else {
        let rest = typed_params(params.drop_last());
        match params.last() {
            FnParam::Typed { name, ty } => rest.push((name@, ty@)),
            FnParam::Receiver => rest,
        }
    }
}

/// The registration descriptor of a signal's parameters: one entry per typed
/// parameter, in declaration order.
pub fn signal_parameters(signature: &Function) -> (r: Vec<SignalParam>)
    ensures
        r@.map_values(|p: SignalParam| param_view(p)) == typed_params(signature.params@),
{
    let mut out: Vec<SignalParam> = Vec::new();
    let params = &signature.params;
    let mut i: usize = 0;
    while i < params.len()
        invariant
            params == &signature.params,
            i <= params@.len(),
            out@.map_values(|p: SignalParam| param_view(p)) == typed_params(params@.subrange(0, i as int)),
        decreases params.len() - i,
    {
        let ghost before = out@;
        assert(params@.subrange(0, i + 1).drop_last() == params@.subrange(0, i as int));
        match &params[i] {
            FnParam::Typed { name, ty } => {
                out.push(SignalParam { name: name.clone(), ty: ty.clone() });
                assert(out@.map_values(|p: SignalParam| param_view(p)) == before.map_values(
                    |p: SignalParam| param_view(p),
                ).push((name@, ty@)));
            },
            FnParam::Receiver => {},
        }
        i = i + 1;
    }
    assert(params@.subrange(0, params@.len() as int) == params@);
    out
}

/// Signals are collected from functions only.
proof fn lemma_signals_are_methods(items: Seq<ImplMember>, n: int)
    requires
        0 <= n <= items.len() <= usize::MAX,
        fns_result(items, n) is Ok,
    ensures
        forall|k: int|
            0 <= k < fns_result(items, n)->Ok_0.1.len() ==> {
                let d = #[trigger] fns_result(items, n)->Ok_0.1[k];
                &&& d.index < n
                &&& items[d.index as int] is Method
            },
    decreases n,
{
    if n > 0 {
        lemma_signals_are_methods(items, n - 1);
        let ss0 = fns_result(items, n - 1)->Ok_0.1;
        let ss = fns_result(items, n)->Ok_0.1;
        assert forall|k: int| 0 <= k < ss.len() implies ss[k].index < n && items[ss[k].index as int] is Method by {
            if k < ss0.len() {
                assert(ss[k] == ss0[k]);
            } else {
                let f = items[n - 1]->Method_0;
                assert(items[n - 1] is Method);
                assert(method_outcome(f, (n - 1) as usize) is Ok);
                assert(ss[k] == method_outcome(f, (n - 1) as usize)->Ok_0->Signal_0);
            }
        }
    }
}

/// A signal as it is registered with the host: its name, and its parameters in
/// declaration order.
pub struct SignalRegistration {
    /// Where the signal stands in the impl block.
    pub index: usize,
    /// Its `#[signal]` attribute, which the rewritten block leaves out.
    pub attr_index: usize,
    pub name: String,
    pub params: Vec<SignalParam>,
}

/// The registration plan of an inherent impl block.
pub struct InherentPlan {
    pub class_name: String,
    pub funcs: Vec<FuncDefinition>,
    pub signals: Vec<SignalRegistration>,
    pub constants: Vec<ConstantDefinition>,
}

/// The signature of the function that stands at `index` of `items`.
pub open spec fn method_at(items: Seq<ImplMember>, index: usize) -> Function {
    items[index as int]->Method_0
}

/// Whether `regs` registers the signals `ss` of `items`, in order.
pub open spec fn registers_signals(
    items: Seq<ImplMember>,
    ss: Seq<SignalDefinition>,
    regs: Seq<SignalRegistration>,
) -> bool {
    &&& regs.len() == ss.len()
    &&& forall|k: int|
        0 <= k < ss.len() ==> {
            let reg = #[trigger] regs[k];
            let f = method_at(items, ss[k].index);
            &&& reg.index == ss[k].index
            &&& reg.attr_index == ss[k].attr_index
            &&& reg.name@ == f.name@
            &&& reg.params@.map_values(|p: SignalParam| param_view(p)) == typed_params(f.params@)
        }
}

/// What expanding an inherent impl block yields.
pub open spec fn inherent_result(decl: Impl, r: Result<InherentPlan, ExpandError>) -> bool {
    let items = decl.body_items@;
    let n = items.len() as int;
    match fns_result(items, n) {
        Err(e) => r == Err::<InherentPlan, ExpandError>(e),
        Ok((fs, ss)) => match consts_result(items, n) {
            Err(e) => r == Err::<InherentPlan, ExpandError>(e),
            Ok(cs) => {
                &&& r is Ok
                &&& r->Ok_0.class_name@ == decl.self_ty->Some_0@
                &&& r->Ok_0.funcs@ == fs
                &&& r->Ok_0.constants@ == cs
                &&& registers_signals(items, ss, r->Ok_0.signals@)
            },
        },
    }
}

/// Plans the registration of an inherent impl block: its exported functions, its
/// signals with their parameters, and its exported constants.
fn transform_inherent_impl(decl: &Impl) -> (r: Result<InherentPlan, ExpandError>)
    requires
        decl.self_ty is Some,
    ensures
        inherent_result(*decl, r),
{
    let class_name = match &decl.self_ty {
        Some(name) => name.clone(),
        None => String::new(),
    };
    let (funcs, signals) = match process_godot_fns(decl) {
        Err(e) => return Err(e),
        Ok(pair) => pair,
    };
    let items = &decl.body_items;
    let n_items = items.len();
    proof {
        lemma_signals_are_methods(items@, items@.len() as int);
        assert forall|j: int| 0 <= j < signals@.len() implies signals@[j].index < items@.len()
            && items@[signals@[j].index as int] is Method by {
            assert(signals@[j] == fns_result(items@, items@.len() as int)->Ok_0.1[j]);
        }
    }
    let mut registrations: Vec<SignalRegistration> = Vec::new();
    let mut k: usize = 0;
    while k < signals.len()
        invariant
            items == &decl.body_items,
            fns_result(items@, items@.len() as int) is Ok,
            signals@ == fns_result(items@, items@.len() as int)->Ok_0.1,
            k <= signals@.len(),
            forall|j: int| 0 <= j < signals@.len() ==> (#[trigger] signals@[j]).index < items@.len()
                && items@[signals@[j].index as int] is Method,
            registers_signals(items@, signals@.subrange(0, k as int), registrations@),
        decreases signals.len() - k,
    {
        let d = signals[k];
        assert(signals@[k as int] == d);
        let ghost before = registrations@;
        if let ImplMember::Method(signature) = &items[d.index] {
            let params = signal_parameters(signature);
            registrations.push(
                SignalRegistration {
                    index: d.index,
                    attr_index: d.attr_index,
                    name: signature.name.clone(),
                    params,
                },
            );
        }
        k = k + 1;
        assert(registers_signals(items@, signals@.subrange(0, k as int), registrations@)) by {
            let ss = signals@.subrange(0, k as int);
            assert forall|j: int| 0 <= j < ss.len() implies {
                let reg = #[trigger] registrations@[j];
                let f = method_at(items@, ss[j].index);
                &&& reg.index == ss[j].index
                &&& reg.attr_index == ss[j].attr_index
                &&& reg.name@ == f.name@
                &&& reg.params@.map_values(|p: SignalParam| param_view(p)) == typed_params(f.params@)
            } by {
                if j < k - 1 {
                    assert(registrations@[j] == before[j]);
                    assert(ss[j] == signals@.subrange(0, k - 1)[j]);
                }
            }
        }
    }
    assert(signals@.subrange(0, k as int) == signals@);
    let constants = match process_godot_constants(decl) {
        Err(e) => return Err(e),
        Ok(cs) => cs,
    };
    Ok(InherentPlan { class_name, funcs, signals: registrations, constants })
}

/// A virtual method other than the lifecycle hooks: the member at `index`, which
/// the host calls under `host_name`.
pub struct VirtualMethod {
    pub index: usize,
    pub host_name: String,
}

pub open spec fn virtual_view(v: VirtualMethod) -> (usize, Seq<char>) {
    (v.index, v.host_name@)
}

/// The registration plan of a virtual-override impl block. Each lifecycle slot
/// lists its candidate members, whose build predicates select at most one.
pub struct TraitPlan {
    pub class_name: String,
    pub trait_name: String,
    pub register_class: Vec<usize>,
    pub init: Vec<usize>,
    /// The recreation hook: the `init` candidates, on hosts that have the hook.
    pub recreate: Vec<usize>,
    pub to_string: Vec<usize>,
    pub on_notification: Vec<usize>,
    pub virtuals: Vec<VirtualMethod>,
}

/// The lifecycle hooks, which each have a slot of their own.
pub open spec fn lifecycle_name(name: Seq<char>) -> bool {
    name == "register_class"@ || name == "init"@ || name == "to_string"@ || name
        == "on_notification"@
}

/// The name under which the host calls a virtual method: the method's own name
/// after an underscore; `init_ext` stands for the host's `_init`.
pub open spec fn host_virtual_name(name: Seq<char>) -> Seq<char> {
    if name == "init_ext"@ {
        "_init"@
    } else {
        "_"@ + name
    }
}

/// The indices of the functions named `hook` among the first `n` members.
pub open spec fn hook_indices(items: Seq<ImplMember>, n: int, hook: Seq<char>) -> Seq<usize>
    decreases n,
{
    if n <= 0 {
        Seq::empty()
    } else {
        let rest = hook_indices(items, n - 1, hook);
        match items[n - 1] {
            ImplMember::Method(f) => if f.name@ == hook {
                rest.push((n - 1) as usize)
            } else {
                rest
            },
            _ => rest,
        }
    }
}

/// The virtual methods among the first `n` members, as (index, host name).
pub open spec fn virtual_entries(items: Seq<ImplMember>, n: int) -> Seq<(usize, Seq<char>)>
    decreases n,
{
    if n <= 0 {
        Seq::empty()
    } else {
        let rest = virtual_entries(items, n - 1);
        match items[n - 1] {
            ImplMember::Method(f) => if lifecycle_name(f.name@) {
                rest
            } else {
                rest.push(((n - 1) as usize, host_virtual_name(f.name@)))
            },
            _ => rest,
        }
    }
}

/// Whether `p` is the plan of the virtual-override impl block `decl`.
pub open spec fn trait_plan_of(decl: Impl, since_api_4_2: bool, p: TraitPlan) -> bool {
    let items = decl.body_items@;
    let n = items.len() as int;
    &&& p.class_name@ == decl.self_ty->Some_0@
    &&& p.trait_name@ == decl.trait_ty->Some_0@
    &&& p.register_class@ == hook_indices(items, n, "register_class"@)
    &&& p.init@ == hook_indices(items, n, "init"@)
    &&& p.recreate@ == (if since_api_4_2 { p.init@ } else { Seq::empty() })
    &&& p.to_string@ == hook_indices(items, n, "to_string"@)
    &&& p.on_notification@ == hook_indices(items, n, "on_notification"@)
    &&& p.virtuals@.map_values(|v: VirtualMethod| virtual_view(v)) == virtual_entries(items, n)
}

/// The host's name for the virtual method `method_name`.
pub fn virtual_method_name(method_name: &str) -> (r: String)
    ensures
        r@ == host_virtual_name(method_name@),
{
    if str_eq(method_name, "init_ext") {
        String::from_str("_init")
    } else {
        String::from_str("_").concat(method_name)
    }
}

/// Plans the registration of a virtual-override impl block: one slot per
/// lifecycle hook, and the host name of every other virtual method.
fn transform_trait_impl(decl: &Impl, since_api_4_2: bool) -> (r: TraitPlan)
    requires
        decl.self_ty is Some,
        decl.trait_ty is Some,
    ensures
        trait_plan_of(*decl, since_api_4_2, r),
{
    let class_name = match &decl.self_ty {
        Some(name) => name.clone(),
        None => String::new(),
    };
    let trait_name = match &decl.trait_ty {
        Some(name) => name.clone(),
        None => String::new(),
    };
    let mut register_fn: Vec<usize> = Vec::new();
    let mut create_fn: Vec<usize> = Vec::new();
    let mut recreate_fn: Vec<usize> = Vec::new();
    let mut to_string_fn: Vec<usize> = Vec::new();
    let mut on_notification_fn: Vec<usize> = Vec::new();
    let mut virtual_methods: Vec<VirtualMethod> = Vec::new();
    let items = &decl.body_items;
    let mut index: usize = 0;
    while index < items.len()
        invariant
            items == &decl.body_items,
            index <= items@.len(),
            register_fn@ == hook_indices(items@, index as int, "register_class"@),
            create_fn@ == hook_indices(items@, index as int, "init"@),
            recreate_fn@ == (if since_api_4_2 { create_fn@ } else { Seq::empty() }),
            to_string_fn@ == hook_indices(items@, index as int, "to_string"@),
            on_notification_fn@ == hook_indices(items@, index as int, "on_notification"@),
            virtual_methods@.map_values(|v: VirtualMethod| virtual_view(v)) == virtual_entries(
                items@,
                index as int,
            ),
        decreases items.len() - index,
    {
        if let ImplMember::Method(method) = &items[index] {
            let name = method.name.as_str();
            if str_eq(name, "register_class") {
                register_fn.push(index);
            } else if str_eq(name, "init") {
                create_fn.push(index);
                if since_api_4_2 {
                    recreate_fn.push(index);
                }
            } else if str_eq(name, "to_string") {
                to_string_fn.push(index);
            } else if str_eq(name, "on_notification") {
                on_notification_fn.push(index);
            } else {
                let ghost before = virtual_methods@;
                let host_name = virtual_method_name(name);
                virtual_methods.push(VirtualMethod { index, host_name });
                assert(virtual_methods@.map_values(|v: VirtualMethod| virtual_view(v))
                    == before.map_values(|v: VirtualMethod| virtual_view(v)).push(
                    (index, host_virtual_name(method.name@)),
                ));
            }
            proof {
                reveal_strlit("register_class");
                reveal_strlit("init");
                reveal_strlit("to_string");
                reveal_strlit("on_notification");
            }
        }
        index = index + 1;
    }
    TraitPlan {
        class_name,
        trait_name,
        register_class: register_fn,
        init: create_fn,
        recreate: recreate_fn,
        to_string: to_string_fn,
        on_notification: on_notification_fn,
        virtuals: virtual_methods,
    }
}

/// The glue planned for a host-facing impl block.
pub enum Expansion {
    Inherent(InherentPlan),
    Trait(TraitPlan),
}

/// What expanding the declaration `d` yields.
pub open spec fn expansion_of(d: Declaration, since_api_4_2: bool, r: Result<Expansion, ExpandError>) -> bool {
    match d {
        Declaration::Other => r == Err::<Expansion, ExpandError>(
            ExpandError { kind: ErrorKind::NotAnImpl, member: None },
        ),
        Declaration::Impl(decl) => if decl.has_generic_params {
            r == Err::<Expansion, ExpandError>(
                ExpandError { kind: ErrorKind::GenericImpl, member: None },
            )
        } else if decl.self_ty is None {
            r == Err::<Expansion, ExpandError>(
                ExpandError { kind: ErrorKind::InvalidSelfType, member: None },
            )
        } else if decl.trait_ty is Some {
            r is Ok && r->Ok_0 is Trait && trait_plan_of(decl, since_api_4_2, r->Ok_0->Trait_0)
        } else {
            match r {
                Ok(Expansion::Inherent(p)) => inherent_result(decl, Ok(p)),
                Ok(Expansion::Trait(_)) => false,
                Err(e) => inherent_result(decl, Err(e)),
            }
        },
    }
}

/// Expands a declaration marked as host-facing: an inherent impl block registers
/// its exported functions, signals and constants; a trait impl block registers its
/// lifecycle hooks and virtual methods. `since_api_4_2` says whether the host has
/// the recreation hook.
pub fn attribute_godot_api(input_decl: &Declaration, since_api_4_2: bool) -> (r: Result<Expansion, ExpandError>)
    ensures
        expansion_of(*input_decl, since_api_4_2, r),
{
    let decl = match input_decl {
        Declaration::Impl(decl) => decl,
        Declaration::Other => {
            return Err(ExpandError { kind: ErrorKind::NotAnImpl, member: None });
        },
    };
    if decl.has_generic_params {
        return Err(ExpandError { kind: ErrorKind::GenericImpl, member: None });
    }
    if decl.self_ty.is_none() {
        return Err(ExpandError { kind: ErrorKind::InvalidSelfType, member: None });
    }
    if decl.trait_ty.is_some() {
        Ok(Expansion::Trait(transform_trait_impl(decl, since_api_4_2)))
    } else {
        match transform_inherent_impl(decl) {
            Ok(p) => Ok(Expansion::Inherent(p)),
            Err(e) => Err(e),
        }
    }
}

/// The diagnostic for each kind of expansion error.
pub open spec fn message_of(kind: ErrorKind) -> Seq<char> {
    match kind {
        ErrorKind::NotAnImpl => "#[godot_api] can only be applied on impl blocks"@,
        ErrorKind::GenericImpl => "#[godot_api] currently does not support generic parameters"@,
        ErrorKind::InvalidSelfType => "invalid Self type for #[godot_api] impl"@,
        ErrorKind::MultipleRoles => "at most one #[func], #[signal], or #[constant] attribute per declaration allowed"@,
        ErrorKind::FnQualifiers(BoundAttrType::Func) => "#[func]: fn qualifiers are not allowed"@,
        ErrorKind::FnQualifiers(BoundAttrType::Signal) => "#[signal]: fn qualifiers are not allowed"@,
        ErrorKind::FnQualifiers(BoundAttrType::Const) => "#[constant]: fn qualifiers are not allowed"@,
        ErrorKind::GenericFn(BoundAttrType::Func) => "#[func]: generic fn parameters are not supported"@,
        ErrorKind::GenericFn(BoundAttrType::Signal) => "#[signal]: generic fn parameters are not supported"@,
        ErrorKind::GenericFn(BoundAttrType::Const) => "#[constant]: generic fn parameters are not supported"@,
        ErrorKind::MissingGdSelf => "#[func]: with attribute key `gd_self`, the method must have a first parameter of type Gd<Self>"@,
        ErrorKind::SignalReturnType => "#[signal]: return types are not supported"@,
        ErrorKind::ConstantOnFunction => "#[constant]: #[constant] can only be used on associated constant"@,
        ErrorKind::FuncOnConstant => "#[func] can only be used on functions"@,
        ErrorKind::SignalOnConstant => "#[signal] can only be used on functions"@,
        ErrorKind::MissingInitializer => "exported constant must have initializer"@,
    }
}

impl ExpandError {
    /// The diagnostic shown for this error.
    pub fn message(&self) -> (r: String)
        ensures
            r@ == message_of(self.kind),
    {
        let text: &str = match self.kind {
            ErrorKind::NotAnImpl => "#[godot_api] can only be applied on impl blocks",
            ErrorKind::GenericImpl => "#[godot_api] currently does not support generic parameters",
            ErrorKind::InvalidSelfType => "invalid Self type for #[godot_api] impl",
            ErrorKind::MultipleRoles => "at most one #[func], #[signal], or #[constant] attribute per declaration allowed",
            ErrorKind::FnQualifiers(BoundAttrType::Func) => "#[func]: fn qualifiers are not allowed",
            ErrorKind::FnQualifiers(BoundAttrType::Signal) => "#[signal]: fn qualifiers are not allowed",
            ErrorKind::FnQualifiers(BoundAttrType::Const) => "#[constant]: fn qualifiers are not allowed",
            ErrorKind::GenericFn(BoundAttrType::Func) => "#[func]: generic fn parameters are not supported",
            ErrorKind::GenericFn(BoundAttrType::Signal) => "#[signal]: generic fn parameters are not supported",
            ErrorKind::GenericFn(BoundAttrType::Const) => "#[constant]: generic fn parameters are not supported",
            ErrorKind::MissingGdSelf => "#[func]: with attribute key `gd_self`, the method must have a first parameter of type Gd<Self>",
            ErrorKind::SignalReturnType => "#[signal]: return types are not supported",
            ErrorKind::ConstantOnFunction => "#[constant]: #[constant] can only be used on associated constant",
            ErrorKind::FuncOnConstant => "#[func] can only be used on functions",
            ErrorKind::SignalOnConstant => "#[signal] can only be used on functions",
            ErrorKind::MissingInitializer => "exported constant must have initializer",
        };
        String::from_str(text)
    }
}

/// A signal's registration descriptor mirrors its parameter list: for a signal
/// without a receiver, one entry per parameter, in order, with the parameter's
/// name and type.
pub proof fn lemma_signal_params_round_trip(params: Seq<FnParam>)
    requires
        forall|i: int| 0 <= i < params.len() ==> (#[trigger] params[i]) is Typed,
    ensures
        typed_params(params).len() == params.len(),
        forall|i: int|
            0 <= i < params.len() ==> #[trigger] typed_params(params)[i] == (
                params[i]->Typed_name@,
                params[i]->Typed_ty@,
            ),
    decreases params.len(),
{
    if params.len() > 0 {
        let pre = params.drop_last();
        assert forall|i: int| 0 <= i < pre.len() implies (#[trigger] pre[i]) is Typed by {
            assert(pre[i] == params[i]);
        }
        lemma_signal_params_round_trip(pre);
        assert(params.last() is Typed);
        assert forall|i: int| 0 <= i < params.len() implies #[trigger] typed_params(params)[i] == (
            params[i]->Typed_name@,
            params[i]->Typed_ty@,
        ) by {
            if i < pre.len() {
                assert(pre[i] == params[i]);
            }
        }
    }
}

} // verus!
