use godot_bindings::api::{BuildConfig, BuiltinClassMethod, ClassDescriptor, ClassMethod, TyName};
use godot_bindings::generator::{
    bind_methods, binding_method_name, check_parent_chains, retained_classes, SchemaErrorKind,
};
use godot_bindings::special_cases::{
    is_builtin_deleted, is_builtin_scalar, is_builtin_type_deleted, is_class_deleted,
    is_class_experimental, is_deleted, is_excluded_from_default_params,
    is_named_accessor_in_table, is_private, keeps_get_prefix, maybe_renamed,
};

fn ty(name: &str) -> TyName {
    TyName { godot_ty: name.to_string() }
}

fn method(name: &str, arg_count: usize) -> ClassMethod {
    ClassMethod { name: name.to_string(), arg_count, unsupported_signature: false }
}

fn cfg(experimental: bool, before_4_2: bool, macos: bool) -> BuildConfig {
    BuildConfig { experimental_godot_api: experimental, before_api_4_2: before_4_2, target_macos: macos }
}

fn class(name: &str, parent: Option<&str>, methods: Vec<ClassMethod>) -> ClassDescriptor {
    ClassDescriptor { name: ty(name), parent: parent.map(|p| p.to_string()), methods }
}

#[test]
fn object_get_instance_id_is_deleted() {
    assert!(is_deleted(&ty("Object"), &method("get_instance_id", 0)));
    let c = class("Object", None, vec![method("get_instance_id", 0), method("get_class", 0)]);
    let bound = bind_methods(&c);
    assert_eq!(bound.len(), 1);
    assert_eq!(bound[0].index, 1);
    assert_eq!(bound[0].name, "get_class");
}

#[test]
fn thread_loader_methods_are_deleted() {
    assert!(is_deleted(&ty("ResourceLoader"), &method("load_threaded_get", 1)));
    assert!(is_deleted(&ty("ResourceLoader"), &method("load_threaded_get_status", 1)));
    assert!(is_deleted(&ty("ResourceLoader"), &method("load_threaded_request", 3)));
    assert!(!is_deleted(&ty("ResourceLoader"), &method("load", 3)));
    assert!(!is_deleted(&ty("Node"), &method("get_instance_id", 0)));
}

#[test]
fn unsupported_signature_is_deleted() {
    let m = ClassMethod { name: "get_data".to_string(), arg_count: 0, unsupported_signature: true };
    assert!(is_deleted(&ty("Image"), &m));
    let b = BuiltinClassMethod { name: "ptr".to_string(), unsupported_signature: true };
    assert!(is_builtin_deleted(&ty("String"), &b));
    let b = BuiltinClassMethod { name: "length".to_string(), unsupported_signature: false };
    assert!(!is_builtin_deleted(&ty("String"), &b));
}

#[test]
fn file_access_get_32_keeps_prefix() {
    assert!(keeps_get_prefix(&ty("FileAccess"), &method("get_32", 0)));
    assert_eq!(binding_method_name(&ty("FileAccess"), &method("get_32", 0)), "get_32");
    assert!(keeps_get_prefix(&ty("StreamPeer"), &method("get_u8", 0)));
    assert!(keeps_get_prefix(&ty("AnimationPlayer"), &method("get_queue", 0)));
    assert!(!keeps_get_prefix(&ty("FileAccess"), &method("get_length", 0)));
}

#[test]
fn accessor_prefix_is_stripped() {
    assert_eq!(binding_method_name(&ty("Node"), &method("get_name", 0)), "name");
    assert_eq!(binding_method_name(&ty("Node"), &method("get_child", 1)), "get_child");
    assert_eq!(binding_method_name(&ty("Node"), &method("add_child", 0)), "add_child");
}

#[test]
fn generic_new_is_renamed_to_instantiate() {
    assert_eq!(maybe_renamed(&ty("GDScript"), "new"), "instantiate");
    assert_eq!(maybe_renamed(&ty("Node"), "newer"), "newer");
    assert_eq!(binding_method_name(&ty("GDScript"), &method("new", 0)), "instantiate");
}

#[test]
fn binding_name_twice_is_binding_name() {
    for (c, n, k) in [("FileAccess", "get_32", 0), ("GDScript", "new", 0), ("Node", "get_name", 0), ("Node", "queue_free", 0)] {
        let once = binding_method_name(&ty(c), &method(n, k));
        let twice = binding_method_name(&ty(c), &method(&once, k));
        assert_eq!(once, twice);
    }
}

#[test]
fn private_methods_stay_in_table() {
    assert!(is_private(&ty("Object"), "to_string"));
    assert!(is_private(&ty("RefCounted"), "unreference"));
    assert!(!is_private(&ty("Node"), "to_string"));
    assert!(is_named_accessor_in_table(&ty("Object"), "notification"));
    assert!(!is_named_accessor_in_table(&ty("Object"), "free"));
}

#[test]
fn default_params_rules() {
    assert!(is_excluded_from_default_params(Some(&ty("Object")), "notification"));
    assert!(!is_excluded_from_default_params(Some(&ty("Node")), "notification"));
    assert!(!is_excluded_from_default_params(None, "notification"));
    let c = class("Object", None, vec![method("notification", 2), method("connect", 3)]);
    let bound = bind_methods(&c);
    assert_eq!(bound.len(), 2);
    assert!(!bound[0].default_params);
    assert!(bound[0].private);
    assert!(bound[1].default_params);
    assert!(!bound[1].private);
}

#[test]
fn experimental_class_absent_without_opt_in() {
    assert!(is_class_experimental(&ty("NavigationMesh")));
    assert!(!is_class_experimental(&ty("Node")));
    assert!(is_class_deleted(&cfg(false, false, false), &ty("NavigationMesh")));
    assert!(!is_class_deleted(&cfg(true, false, false), &ty("NavigationMesh")));
    let classes = vec![
        class("Object", None, vec![]),
        class("NavigationMesh", Some("Object"), vec![method("get_cell_size", 0)]),
        class("Node", Some("Object"), vec![]),
    ];
    assert_eq!(retained_classes(&cfg(false, false, false), &classes), vec![0, 2]);
    assert_eq!(retained_classes(&cfg(true, false, false), &classes), vec![0, 1, 2]);
}

#[test]
fn platform_and_version_gated_classes() {
    assert!(is_class_deleted(&cfg(true, true, true), &ty("OpenXRInterface")));
    assert!(!is_class_deleted(&cfg(true, false, true), &ty("OpenXRInterface")));
    assert!(!is_class_deleted(&cfg(true, true, false), &ty("OpenXRInterface")));
    assert!(is_class_deleted(&cfg(true, true, false), &ty("ThemeDB")));
    assert!(!is_class_deleted(&cfg(true, false, false), &ty("ThemeDB")));
    assert!(is_class_deleted(&cfg(true, false, false), &ty("Thread")));
    assert!(is_class_deleted(&cfg(true, false, false), &ty("JavaScriptBridge")));
    assert!(is_class_deleted(&cfg(true, false, false), &ty("IPUnix")));
    assert!(!is_class_deleted(&cfg(false, false, false), &ty("Node3D")));
}

#[test]
fn builtin_scalars_and_nil_are_not_bound() {
    assert!(is_builtin_scalar("int"));
    assert!(is_builtin_scalar("float"));
    assert!(!is_builtin_scalar("Vector2"));
    assert!(is_builtin_type_deleted(&ty("Nil")));
    assert!(is_builtin_type_deleted(&ty("bool")));
    assert!(!is_builtin_type_deleted(&ty("Color")));
}

#[test]
fn parent_chains_rooted() {
    let classes = vec![
        class("Node", Some("Object"), vec![]),
        class("Object", None, vec![]),
        class("Node3D", Some("Node"), vec![]),
    ];
    assert_eq!(check_parent_chains(&classes), Ok(()));
}

#[test]
fn unresolved_parent_is_rejected() {
    let classes = vec![class("Object", None, vec![]), class("Node", Some("Missing"), vec![])];
    let e = check_parent_chains(&classes).unwrap_err();
    assert_eq!(e.kind, SchemaErrorKind::UnresolvedParent);
    assert_eq!(e.class, 1);
}

#[test]
fn cyclic_parent_is_rejected() {
    let classes = vec![
        class("Object", None, vec![]),
        class("A", Some("B"), vec![]),
        class("B", Some("A"), vec![]),
    ];
    let e = check_parent_chains(&classes).unwrap_err();
    assert_eq!(e.kind, SchemaErrorKind::CyclicParent);
    assert_eq!(e.class, 1);
    let classes = vec![class("Self", Some("Self"), vec![])];
    assert_eq!(check_parent_chains(&classes).unwrap_err().kind, SchemaErrorKind::CyclicParent);
}
