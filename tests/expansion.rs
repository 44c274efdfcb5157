use godot_bindings::cfg::{evaluate, CfgPredicate};
use godot_bindings::declaration::{
    AttrValue, Attribute, Constant, Declaration, FnParam, FnQualifiers, Function, Impl, ImplMember,
};
use godot_bindings::dispatch::{
    attributes_active, convert_to_match_expression_or_none, resolve_dispatch_table, resolve_slot,
};
use godot_bindings::expander::{
    attribute_godot_api, signal_parameters, virtual_method_name, BoundAttrType, ErrorKind,
    Expansion, ExpandError, InherentPlan, TraitPlan,
};

fn attr(name: &str) -> Attribute {
    Attribute { path: vec![name.to_string()], value: AttrValue::Opaque }
}

fn func_attr(rename: Option<&str>, gd_self: bool) -> Attribute {
    Attribute {
        path: vec!["func".to_string()],
        value: AttrValue::Keys { rename: rename.map(|r| r.to_string()), gd_self },
    }
}

fn option(name: &str) -> CfgPredicate {
    CfgPredicate::Option(name.to_string())
}

fn cfg_attr(p: CfgPredicate) -> Attribute {
    Attribute { path: vec!["cfg".to_string()], value: AttrValue::Predicate(p) }
}

fn no_qualifiers() -> FnQualifiers {
    FnQualifiers {
        tk_default: false,
        tk_const: false,
        tk_async: false,
        tk_unsafe: false,
        tk_extern: false,
        extern_abi: false,
    }
}

fn typed(name: &str, ty: &str) -> FnParam {
    FnParam::Typed { name: name.to_string(), ty: ty.to_string() }
}

fn function(name: &str, attributes: Vec<Attribute>, params: Vec<FnParam>) -> Function {
    Function {
        name: name.to_string(),
        attributes,
        qualifiers: no_qualifiers(),
        has_generic_params: false,
        params,
        return_ty: None,
    }
}

fn inherent(items: Vec<ImplMember>) -> Declaration {
    Declaration::Impl(Impl {
        self_ty: Some("Player".to_string()),
        has_generic_params: false,
        trait_ty: None,
        body_items: items,
    })
}

fn trait_impl(items: Vec<ImplMember>) -> Impl {
    Impl {
        self_ty: Some("Player".to_string()),
        has_generic_params: false,
        trait_ty: Some("IArea2D".to_string()),
        body_items: items,
    }
}

fn expand_inherent(items: Vec<ImplMember>) -> Result<InherentPlan, ExpandError> {
    match attribute_godot_api(&inherent(items), true)? {
        Expansion::Inherent(p) => Ok(p),
        Expansion::Trait(_) => panic!("inherent impl planned as trait impl"),
    }
}

fn expand_trait(decl: Impl, since_api_4_2: bool) -> TraitPlan {
    match attribute_godot_api(&Declaration::Impl(decl), since_api_4_2) {
        Ok(Expansion::Trait(p)) => p,
        _ => panic!("trait impl not planned as trait impl"),
    }
}

fn error_kind(items: Vec<ImplMember>) -> ErrorKind {
    expand_inherent(items).err().unwrap().kind
}

#[test]
fn signal_with_return_type_is_rejected() {
    let mut f = function("hit", vec![attr("signal")], vec![]);
    f.return_ty = Some("i32".to_string());
    let e = expand_inherent(vec![ImplMember::Method(f)]).err().unwrap();
    assert_eq!(e.kind, ErrorKind::SignalReturnType);
    assert_eq!(e.member, Some(0));
    assert!(e.message().contains("return types are not supported"));
    assert_eq!(e.message(), "#[signal]: return types are not supported");
}

#[test]
fn signal_parameters_keep_order_names_and_types() {
    let f = function("hit", vec![attr("signal")], vec![typed("p1", "TypeA"), typed("p2", "TypeB")]);
    let plan = expand_inherent(vec![ImplMember::Other, ImplMember::Method(f)]).unwrap();
    assert_eq!(plan.class_name, "Player");
    assert_eq!(plan.signals.len(), 1);
    let s = &plan.signals[0];
    assert_eq!(s.index, 1);
    assert_eq!(s.attr_index, 0);
    assert_eq!(s.name, "hit");
    assert_eq!(s.params.len(), 2);
    assert_eq!((s.params[0].name.as_str(), s.params[0].ty.as_str()), ("p1", "TypeA"));
    assert_eq!((s.params[1].name.as_str(), s.params[1].ty.as_str()), ("p2", "TypeB"));
}

#[test]
fn signal_descriptor_skips_receiver() {
    let f = function("moved", vec![], vec![FnParam::Receiver, typed("to", "Vector2")]);
    let params = signal_parameters(&f);
    assert_eq!(params.len(), 1);
    assert_eq!(params[0].name, "to");
    assert_eq!(params[0].ty, "Vector2");
}

#[test]
fn funcs_and_constants_are_planned() {
    let items = vec![
        ImplMember::Method(function("speed", vec![attr("doc"), func_attr(Some("get_speed"), false)], vec![FnParam::Receiver])),
        ImplMember::Method(function("helper", vec![attr("inline")], vec![])),
        ImplMember::Constant(Constant { name: "MAX".to_string(), attributes: vec![attr("constant")], has_initializer: true }),
        ImplMember::Method(function("hurt", vec![func_attr(None, true)], vec![typed("this", "Gd<Self>")])),
    ];
    let plan = expand_inherent(items).unwrap();
    assert_eq!(plan.funcs.len(), 2);
    assert_eq!((plan.funcs[0].index, plan.funcs[0].attr_index, plan.funcs[0].has_gd_self), (0, 1, false));
    assert_eq!((plan.funcs[1].index, plan.funcs[1].attr_index, plan.funcs[1].has_gd_self), (3, 0, true));
    assert_eq!(plan.constants.len(), 1);
    assert_eq!((plan.constants[0].index, plan.constants[0].attr_index), (2, 0));
    assert!(plan.signals.is_empty());
}

#[test]
fn declaration_errors() {
    assert_eq!(attribute_godot_api(&Declaration::Other, true).err().unwrap().kind, ErrorKind::NotAnImpl);
    let generic = Declaration::Impl(Impl {
        self_ty: Some("Player".to_string()),
        has_generic_params: true,
        trait_ty: None,
        body_items: vec![],
    });
    assert_eq!(attribute_godot_api(&generic, true).err().unwrap().kind, ErrorKind::GenericImpl);
    let no_path = Declaration::Impl(Impl { self_ty: None, has_generic_params: false, trait_ty: None, body_items: vec![] });
    let e = attribute_godot_api(&no_path, true).err().unwrap();
    assert_eq!(e.kind, ErrorKind::InvalidSelfType);
    assert_eq!(e.member, None);
    assert_eq!(e.message(), "invalid Self type for #[godot_api] impl");
}

#[test]
fn member_errors() {
    let two_roles = function("f", vec![attr("func"), attr("signal")], vec![]);
    assert_eq!(error_kind(vec![ImplMember::Method(two_roles)]), ErrorKind::MultipleRoles);

    let mut unsafe_fn = function("f", vec![attr("func")], vec![]);
    unsafe_fn.qualifiers.tk_unsafe = true;
    assert_eq!(error_kind(vec![ImplMember::Method(unsafe_fn)]), ErrorKind::FnQualifiers(BoundAttrType::Func));

    let mut generic_signal = function("s", vec![attr("signal")], vec![]);
    generic_signal.has_generic_params = true;
    assert_eq!(error_kind(vec![ImplMember::Method(generic_signal)]), ErrorKind::GenericFn(BoundAttrType::Signal));

    let gd_self = function("f", vec![func_attr(None, true)], vec![]);
    assert_eq!(error_kind(vec![ImplMember::Method(gd_self)]), ErrorKind::MissingGdSelf);

    let const_fn = function("f", vec![attr("constant")], vec![]);
    assert_eq!(error_kind(vec![ImplMember::Method(const_fn)]), ErrorKind::ConstantOnFunction);

    let func_const = Constant { name: "A".to_string(), attributes: vec![attr("func")], has_initializer: true };
    assert_eq!(error_kind(vec![ImplMember::Constant(func_const)]), ErrorKind::FuncOnConstant);

    let signal_const = Constant { name: "A".to_string(), attributes: vec![attr("signal")], has_initializer: true };
    assert_eq!(error_kind(vec![ImplMember::Constant(signal_const)]), ErrorKind::SignalOnConstant);

    let bare_const = Constant { name: "A".to_string(), attributes: vec![attr("constant")], has_initializer: false };
    let e = expand_inherent(vec![ImplMember::Other, ImplMember::Constant(bare_const)]).err().unwrap();
    assert_eq!(e.kind, ErrorKind::MissingInitializer);
    assert_eq!(e.member, Some(1));
}

#[test]
fn path_attribute_is_no_role() {
    let path_attr = Attribute { path: vec!["other".to_string(), "func".to_string()], value: AttrValue::Opaque };
    let f = function("f", vec![path_attr, attr("signal")], vec![]);
    let plan = expand_inherent(vec![ImplMember::Method(f)]).unwrap();
    assert_eq!(plan.signals.len(), 1);
    assert_eq!(plan.signals[0].attr_index, 1);
}

#[test]
fn lifecycle_hooks_and_virtual_names() {
    let items = vec![
        ImplMember::Method(function("init", vec![], vec![typed("base", "Base<Area2D>")])),
        ImplMember::Method(function("ready", vec![], vec![FnParam::Receiver])),
        ImplMember::Method(function("to_string", vec![], vec![FnParam::Receiver])),
        ImplMember::Method(function("init_ext", vec![], vec![FnParam::Receiver])),
        ImplMember::Method(function("on_notification", vec![], vec![FnParam::Receiver])),
        ImplMember::Method(function("register_class", vec![], vec![])),
    ];
    let plan = expand_trait(trait_impl(items), true);
    assert_eq!(plan.class_name, "Player");
    assert_eq!(plan.trait_name, "IArea2D");
    assert_eq!(plan.init, vec![0]);
    assert_eq!(plan.recreate, vec![0]);
    assert_eq!(plan.to_string, vec![2]);
    assert_eq!(plan.on_notification, vec![4]);
    assert_eq!(plan.register_class, vec![5]);
    assert_eq!(plan.virtuals.len(), 2);
    assert_eq!((plan.virtuals[0].index, plan.virtuals[0].host_name.as_str()), (1, "_ready"));
    assert_eq!((plan.virtuals[1].index, plan.virtuals[1].host_name.as_str()), (3, "_init"));
    let old_host = expand_trait(trait_impl(vec![ImplMember::Method(function("init", vec![], vec![]))]), false);
    assert_eq!(old_host.init, vec![0]);
    assert!(old_host.recreate.is_empty());
    assert_eq!(virtual_method_name("process"), "_process");
}

#[test]
fn predicates_evaluate() {
    let enabled = vec!["a".to_string()];
    assert!(evaluate(&option("a"), &enabled));
    assert!(!evaluate(&option("b"), &enabled));
    assert!(evaluate(&CfgPredicate::Not(Box::new(option("b"))), &enabled));
    assert!(!evaluate(&CfgPredicate::All(Box::new(option("a")), Box::new(option("b"))), &enabled));
    assert!(evaluate(&CfgPredicate::Any(Box::new(option("b")), Box::new(option("a"))), &enabled));
    assert!(evaluate(&CfgPredicate::Literal(true), &enabled));
    assert!(attributes_active(&vec![attr("doc"), cfg_attr(option("a"))], &enabled));
    assert!(!attributes_active(&vec![cfg_attr(option("a")), cfg_attr(option("b"))], &enabled));
}

fn two_init_variants() -> Impl {
    trait_impl(vec![
        ImplMember::Method(function("init", vec![cfg_attr(option("variant1"))], vec![])),
        ImplMember::Method(function("init", vec![cfg_attr(option("variant2"))], vec![])),
    ])
}

#[test]
fn construction_hook_selection() {
    let decl = two_init_variants();
    let plan = expand_trait(two_init_variants(), true);
    assert_eq!(plan.init, vec![0, 1]);
    let only_first = vec!["variant1".to_string()];
    assert_eq!(resolve_slot(&decl, &only_first, &plan.init), Ok(Some(0)));
    let only_second = vec!["variant2".to_string()];
    assert_eq!(resolve_slot(&decl, &only_second, &plan.init), Ok(Some(1)));
    let both = vec!["variant1".to_string(), "variant2".to_string()];
    let dup = resolve_slot(&decl, &both, &plan.init).unwrap_err();
    assert_eq!((dup.first, dup.second), (0, 1));
    let neither: Vec<String> = vec![];
    assert_eq!(resolve_slot(&decl, &neither, &plan.init), Ok(None));
    assert_eq!(convert_to_match_expression_or_none(&decl, &both, &plan.init), Some(0));
    assert_eq!(convert_to_match_expression_or_none(&decl, &neither, &plan.init), None);
}

fn ready_variants() -> Impl {
    trait_impl(vec![
        ImplMember::Method(function("ready", vec![cfg_attr(option("editor"))], vec![])),
        ImplMember::Method(function("ready", vec![cfg_attr(CfgPredicate::Not(Box::new(option("editor"))))], vec![])),
        ImplMember::Method(function("process", vec![cfg_attr(option("never"))], vec![])),
        ImplMember::Method(function("input", vec![], vec![])),
    ])
}

fn ready_twice() -> Impl {
    trait_impl(vec![
        ImplMember::Method(function("ready", vec![], vec![])),
        ImplMember::Method(function("ready", vec![], vec![])),
    ])
}

#[test]
fn dispatch_table_one_entry_per_name() {
    let decl = ready_variants();
    let plan = expand_trait(ready_variants(), true);
    assert_eq!(plan.virtuals.len(), 4);
    let table = resolve_dispatch_table(&decl, &vec!["editor".to_string()], &plan.virtuals).unwrap();
    assert_eq!(table.entries.len(), 2);
    assert_eq!(table.lookup("_ready"), Some(0));
    assert_eq!(table.lookup("_input"), Some(3));
    assert_eq!(table.lookup("_process"), None);
    let table = resolve_dispatch_table(&decl, &vec![], &plan.virtuals).unwrap();
    assert_eq!(table.lookup("_ready"), Some(1));
}

#[test]
fn dispatch_table_duplicate_is_rejected() {
    let decl = ready_twice();
    let plan = expand_trait(ready_twice(), true);
    let dup = resolve_dispatch_table(&decl, &vec![], &plan.virtuals).err().unwrap();
    assert_eq!((dup.first, dup.second), (0, 1));
}
