//! The special-case rule set: which classes and methods of the host API are left
//! out of the bindings, hidden, or bound under another name.
use vstd::prelude::*;
use crate::api::{BuildConfig, BuiltinClassMethod, ClassMethod, TyName};
use crate::text::{has_prefix, str_eq};

verus! {

/// Methods removed from the bindings by name, whatever their signature.
pub open spec fn deleted_method_pair(class: Seq<char>, method: Seq<char>) -> bool {
    // already covered by hand-written API
    ||| (class == "Object"@ && method == "get_instance_id"@)
    // thread APIs
    ||| (class == "ResourceLoader"@ && method == "load_threaded_get"@)
    ||| (class == "ResourceLoader"@ && method == "load_threaded_get_status"@)
    ||| (class == "ResourceLoader"@ && method == "load_threaded_request"@)
}

pub open spec fn spec_is_deleted(class: Seq<char>, method: ClassMethod) -> bool {
    method.unsupported_signature || deleted_method_pair(class, method.name@)
}

/// Whether a class method is left out of the generated bindings.
pub fn is_deleted(class_name: &TyName, method: &ClassMethod) -> (r: bool)
    ensures
        r == spec_is_deleted(class_name.godot_ty@, *method),
{
    if method.unsupported_signature {
        return true;
    }
    let c = class_name.godot_ty.as_str();
    let m = method.name.as_str();
    (str_eq(c, "Object") && str_eq(m, "get_instance_id"))
        || (str_eq(c, "ResourceLoader") && str_eq(m, "load_threaded_get"))
        || (str_eq(c, "ResourceLoader") && str_eq(m, "load_threaded_get_status"))
        || (str_eq(c, "ResourceLoader") && str_eq(m, "load_threaded_request"))
}

/// Classes listed as experimental by the host.
pub open spec fn experimental_class(class: Seq<char>) -> bool {
    ||| class == "GraphEdit"@
    ||| class == "GraphNode"@
    ||| class == "NavigationAgent2D"@
    ||| class == "NavigationAgent3D"@
    ||| class == "NavigationLink2D"@
    ||| class == "NavigationLink3D"@
    ||| class == "NavigationMesh"@
    ||| class == "NavigationMeshSourceGeometryData3D"@
    ||| class == "NavigationObstacle2D"@
    ||| class == "NavigationObstacle3D"@
    ||| class == "NavigationPathQueryParameters2D"@
    ||| class == "NavigationPathQueryParameters3D"@
    ||| class == "NavigationPathQueryResult2D"@
    ||| class == "NavigationPathQueryResult3D"@
    ||| class == "NavigationPolygon"@
    ||| class == "NavigationRegion2D"@
    ||| class == "NavigationRegion3D"@
    ||| class == "NavigationServer2D"@
    ||| class == "NavigationServer3D"@
    ||| class == "SkeletonModification2D"@
    ||| class == "SkeletonModification2DCCDIK"@
    ||| class == "SkeletonModification2DFABRIK"@
    ||| class == "SkeletonModification2DJiggle"@
    ||| class == "SkeletonModification2DLookAt"@
    ||| class == "SkeletonModification2DPhysicalBones"@
    ||| class == "SkeletonModification2DStackHolder"@
    ||| class == "SkeletonModification2DTwoBoneIK"@
    ||| class == "SkeletonModificationStack2D"@
    ||| class == "StreamPeerGZIP"@
    ||| class == "TextureRect"@
}

/// Whether the host marks a class as experimental.
pub fn is_class_experimental(class_name: &TyName) -> (r: bool)
    ensures
        r == experimental_class(class_name.godot_ty@),
{
    let c = class_name.godot_ty.as_str();
    str_eq(c, "GraphEdit")
        || str_eq(c, "GraphNode")
        || str_eq(c, "NavigationAgent2D")
        || str_eq(c, "NavigationAgent3D")
        || str_eq(c, "NavigationLink2D")
        || str_eq(c, "NavigationLink3D")
        || str_eq(c, "NavigationMesh")
        || str_eq(c, "NavigationMeshSourceGeometryData3D")
        || str_eq(c, "NavigationObstacle2D")
        || str_eq(c, "NavigationObstacle3D")
        || str_eq(c, "NavigationPathQueryParameters2D")
        || str_eq(c, "NavigationPathQueryParameters3D")
        || str_eq(c, "NavigationPathQueryResult2D")
        || str_eq(c, "NavigationPathQueryResult3D")
        || str_eq(c, "NavigationPolygon")
        || str_eq(c, "NavigationRegion2D")
        || str_eq(c, "NavigationRegion3D")
        || str_eq(c, "NavigationServer2D")
        || str_eq(c, "NavigationServer3D")
        || str_eq(c, "SkeletonModification2D")
        || str_eq(c, "SkeletonModification2DCCDIK")
        || str_eq(c, "SkeletonModification2DFABRIK")
        || str_eq(c, "SkeletonModification2DJiggle")
        || str_eq(c, "SkeletonModification2DLookAt")
        || str_eq(c, "SkeletonModification2DPhysicalBones")
        || str_eq(c, "SkeletonModification2DStackHolder")
        || str_eq(c, "SkeletonModification2DTwoBoneIK")
        || str_eq(c, "SkeletonModificationStack2D")
        || str_eq(c, "StreamPeerGZIP")
        || str_eq(c, "TextureRect")
}

/// Classes that are never bound: reachable only on one platform, thread
/// primitives, or internal classes that older hosts still list.
pub open spec fn always_deleted_class(class: Seq<char>) -> bool {
    ||| class == "JavaClassWrapper"@
    ||| class == "JNISingleton"@
    ||| class == "JavaClass"@
    ||| class == "JavaScriptBridge"@
    ||| class == "JavaScriptObject"@
    ||| class == "Thread"@
    ||| class == "Mutex"@
    ||| class == "Semaphore"@
    ||| class == "FramebufferCacheRD"@
    ||| class == "GDScriptEditorTranslationParserPlugin"@
    ||| class == "GDScriptNativeClass"@
    ||| class == "GLTFDocumentExtensionPhysics"@
    ||| class == "GLTFDocumentExtensionTextureWebP"@
    ||| class == "GodotPhysicsServer2D"@
    ||| class == "GodotPhysicsServer3D"@
    ||| class == "IPUnix"@
    ||| class == "MovieWriterMJPEG"@
    ||| class == "MovieWriterPNGWAV"@
    ||| class == "ResourceFormatImporterSaver"@
    ||| class == "UniformSetCacheRD"@
}

/// Whether a class is left out of the bindings under the build configuration `cfg`.
pub open spec fn spec_is_class_deleted(cfg: BuildConfig, class: Seq<char>) -> bool {
    ||| (!cfg.experimental_godot_api && experimental_class(class))
    // OpenXR is not available on macOS before 4.2
    ||| (cfg.before_api_4_2 && cfg.target_macos && "OpenXR"@.len() <= class.len()
        && class.subrange(0, "OpenXR"@.len() as int) == "OpenXR"@)
    // loaded lazily before 4.2
    ||| (cfg.before_api_4_2 && class == "ThemeDB"@)
    ||| always_deleted_class(class)
}

/// Whether a class is left out of the generated bindings.
pub fn is_class_deleted(cfg: &BuildConfig, class_name: &TyName) -> (r: bool)
    ensures
        r == spec_is_class_deleted(*cfg, class_name.godot_ty@),
{
    if !cfg.experimental_godot_api && is_class_experimental(class_name) {
        return true;
    }
    let c = class_name.godot_ty.as_str();
    if cfg.before_api_4_2 && cfg.target_macos && has_prefix(c, "OpenXR") {
        return true;
    }
    if cfg.before_api_4_2 && str_eq(c, "ThemeDB") {
        return true;
    }
    str_eq(c, "JavaClassWrapper")
        || str_eq(c, "JNISingleton")
        || str_eq(c, "JavaClass")
        || str_eq(c, "JavaScriptBridge")
        || str_eq(c, "JavaScriptObject")
        || str_eq(c, "Thread")
        || str_eq(c, "Mutex")
        || str_eq(c, "Semaphore")
        || str_eq(c, "FramebufferCacheRD")
        || str_eq(c, "GDScriptEditorTranslationParserPlugin")
        || str_eq(c, "GDScriptNativeClass")
        || str_eq(c, "GLTFDocumentExtensionPhysics")
        || str_eq(c, "GLTFDocumentExtensionTextureWebP")
        || str_eq(c, "GodotPhysicsServer2D")
        || str_eq(c, "GodotPhysicsServer3D")
        || str_eq(c, "IPUnix")
        || str_eq(c, "MovieWriterMJPEG")
        || str_eq(c, "MovieWriterPNGWAV")
        || str_eq(c, "ResourceFormatImporterSaver")
        || str_eq(c, "UniformSetCacheRD")
}

/// Accessors whose "get_" prefix is kept in the bindings, because dropping it would
/// make the name ambiguous or read as a verb.
pub open spec fn keeps_prefix_pair(class: Seq<char>, method: Seq<char>) -> bool {
    ||| (class == "Object"@ && method == "get_class"@)
    ||| (class == "Object"@ && method == "get_instance_id"@)
    ||| (class == "Object"@ && method == "get_script"@)
    ||| (class == "Object"@ && method == "get_script_instance"@)
    ||| (class == "Object"@ && method == "get_incoming_connections"@)
    ||| (class == "Object"@ && method == "get_meta_list"@)
    ||| (class == "Object"@ && method == "get_method_list"@)
    ||| (class == "Object"@ && method == "get_property_list"@)
    ||| (class == "Object"@ && method == "get_signal_list"@)
    ||| (class == "FileAccess"@ && method == "get_16"@)
    ||| (class == "FileAccess"@ && method == "get_32"@)
    ||| (class == "FileAccess"@ && method == "get_64"@)
    ||| (class == "FileAccess"@ && method == "get_8"@)
    ||| (class == "FileAccess"@ && method == "get_as_text"@)
    ||| (class == "FileAccess"@ && method == "get_csv_line"@)
    ||| (class == "FileAccess"@ && method == "get_double"@)
    ||| (class == "FileAccess"@ && method == "get_error"@)
    ||| (class == "FileAccess"@ && method == "get_float"@)
    ||| (class == "FileAccess"@ && method == "get_line"@)
    ||| (class == "FileAccess"@ && method == "get_open_error"@)
    ||| (class == "FileAccess"@ && method == "get_pascal_string"@)
    ||| (class == "FileAccess"@ && method == "get_real"@)
    ||| (class == "FileAccess"@ && method == "get_var"@)
    ||| (class == "StreamPeer"@ && method == "get_16"@)
    ||| (class == "StreamPeer"@ && method == "get_32"@)
    ||| (class == "StreamPeer"@ && method == "get_64"@)
    ||| (class == "StreamPeer"@ && method == "get_8"@)
    ||| (class == "StreamPeer"@ && method == "get_double"@)
    ||| (class == "StreamPeer"@ && method == "get_float"@)
    ||| (class == "StreamPeer"@ && method == "get_string"@)
    ||| (class == "StreamPeer"@ && method == "get_u16"@)
    ||| (class == "StreamPeer"@ && method == "get_u32"@)
    ||| (class == "StreamPeer"@ && method == "get_u64"@)
    ||| (class == "StreamPeer"@ && method == "get_u8"@)
    ||| (class == "StreamPeer"@ && method == "get_utf8_string"@)
    ||| (class == "StreamPeer"@ && method == "get_var"@)
    ||| (class == "AnimationPlayer"@ && method == "get_queue"@)
}

/// Whether the accessor `method` of `class_name` keeps its "get_" prefix.
pub fn keeps_get_prefix(class_name: &TyName, method: &ClassMethod) -> (r: bool)
    ensures
        r == keeps_prefix_pair(class_name.godot_ty@, method.name@),
{
    let c = class_name.godot_ty.as_str();
    let m = method.name.as_str();
    proof {
        reveal_strlit("Object");
        reveal_strlit("FileAccess");
        reveal_strlit("StreamPeer");
        reveal_strlit("AnimationPlayer");
        assert("Object"@.len() != "FileAccess"@.len());
        assert("Object"@.len() != "StreamPeer"@.len());
        assert("Object"@.len() != "AnimationPlayer"@.len());
        assert("FileAccess"@[0] != "StreamPeer"@[0]);
        assert("FileAccess"@.len() != "AnimationPlayer"@.len());
        assert("StreamPeer"@.len() != "AnimationPlayer"@.len());
    }
    if str_eq(c, "Object") {
        str_eq(m, "get_class")
        || str_eq(m, "get_instance_id")
        || str_eq(m, "get_script")
        || str_eq(m, "get_script_instance")
        || str_eq(m, "get_incoming_connections")
        || str_eq(m, "get_meta_list")
        || str_eq(m, "get_method_list")
        || str_eq(m, "get_property_list")
        || str_eq(m, "get_signal_list")
    } else if str_eq(c, "FileAccess") {
        str_eq(m, "get_16")
        || str_eq(m, "get_32")
        || str_eq(m, "get_64")
        || str_eq(m, "get_8")
        || str_eq(m, "get_as_text")
        || str_eq(m, "get_csv_line")
        || str_eq(m, "get_double")
        || str_eq(m, "get_error")
        || str_eq(m, "get_float")
        || str_eq(m, "get_line")
        || str_eq(m, "get_open_error")
        || str_eq(m, "get_pascal_string")
        || str_eq(m, "get_real")
        || str_eq(m, "get_var")
    } else if str_eq(c, "StreamPeer") {
        str_eq(m, "get_16")
        || str_eq(m, "get_32")
        || str_eq(m, "get_64")
        || str_eq(m, "get_8")
        || str_eq(m, "get_double")
        || str_eq(m, "get_float")
        || str_eq(m, "get_string")
        || str_eq(m, "get_u16")
        || str_eq(m, "get_u32")
        || str_eq(m, "get_u64")
        || str_eq(m, "get_u8")
        || str_eq(m, "get_utf8_string")
        || str_eq(m, "get_var")
    } else {
        str_eq(c, "AnimationPlayer") && str_eq(m, "get_queue")
    }
}

/// Generated methods kept off the public surface, because hand-written API covers them.
pub open spec fn private_pair(class: Seq<char>, method: Seq<char>) -> bool {
    ||| (class == "Object"@ && method == "to_string"@)
    ||| (class == "RefCounted"@ && method == "init_ref"@)
    ||| (class == "RefCounted"@ && method == "reference"@)
    ||| (class == "RefCounted"@ && method == "unreference"@)
    ||| (class == "Object"@ && method == "notification"@)
}

/// Whether a class or builtin method is hidden from the public API.
pub fn is_private(class_or_builtin_ty: &TyName, godot_method_name: &str) -> (r: bool)
    ensures
        r == private_pair(class_or_builtin_ty.godot_ty@, godot_method_name@),
{
    let c = class_or_builtin_ty.godot_ty.as_str();
    let m = godot_method_name;
    (str_eq(c, "Object") && str_eq(m, "to_string"))
        || (str_eq(c, "RefCounted") && str_eq(m, "init_ref"))
        || (str_eq(c, "RefCounted") && str_eq(m, "reference"))
        || (str_eq(c, "RefCounted") && str_eq(m, "unreference"))
        || (str_eq(c, "Object") && str_eq(m, "notification"))
}

/// Whether a method is available in the method table as a named accessor: the
/// private ones are, since they are needed internally.
pub fn is_named_accessor_in_table(class_or_builtin_ty: &TyName, godot_method_name: &str) -> (r: bool)
    ensures
        r == private_pair(class_or_builtin_ty.godot_ty@, godot_method_name@),
{
    is_private(class_or_builtin_ty, godot_method_name)
}

/// Methods whose trailing default arguments are never left out, because leaving
/// them out changes what the call does.
pub open spec fn no_default_params_pair(class: Seq<char>, method: Seq<char>) -> bool {
    class == "Object"@ && method == "notification"@
}

/// Whether default parameters are disabled for a method; `class_name` is `None`
/// for a global utility function, which no rule names.
pub fn is_excluded_from_default_params(class_name: Option<&TyName>, godot_method_name: &str) -> (r: bool)
    ensures
        r == match class_name {
            Some(ty) => no_default_params_pair(ty.godot_ty@, godot_method_name@),
            None => false,
        },
{
    match class_name {
        Some(ty) => str_eq(ty.godot_ty.as_str(), "Object") && str_eq(godot_method_name, "notification"),
        None => false,
    }
}

/// Whether a builtin method is left out of the bindings. The builtin type itself is
/// judged by `is_builtin_type_deleted`.
pub fn is_builtin_deleted(class_name: &TyName, method: &BuiltinClassMethod) -> (r: bool)
    ensures
        r == method.unsupported_signature,
{
    method.unsupported_signature
}

/// A builtin type is a scalar (`int`, `float`, `bool`, ...) when its name starts
/// with a lowercase ASCII letter.
pub open spec fn scalar_name(name: Seq<char>) -> bool {
    'a' <= name[0] && name[0] <= 'z'
}

/// Whether a builtin type name denotes a scalar.
pub fn is_builtin_scalar(name: &str) -> (r: bool)
    requires
        name@.len() > 0,
    ensures
        r == scalar_name(name@),
{
    let c = name.get_char(0);
    'a' <= c && c <= 'z'
}

/// The builtin types that are not bound: the "Nil" sentinel and the scalars.
pub open spec fn deleted_builtin_type(name: Seq<char>) -> bool {
    name == "Nil"@ || scalar_name(name)
}

/// Whether a builtin type is left out of the bindings.
pub fn is_builtin_type_deleted(class_name: &TyName) -> (r: bool)
    requires
        class_name.godot_ty@.len() > 0,
    ensures
        r == deleted_builtin_type(class_name.godot_ty@),
{
    let name = class_name.godot_ty.as_str();
    str_eq(name, "Nil") || is_builtin_scalar(name)
}

/// The binding name of a method before the accessor rule: a generic construction
/// method "new" becomes "instantiate", in any class.
pub open spec fn renamed(method: Seq<char>) -> Seq<char> {
    if method == "new"@ {
        "instantiate"@
    } else {
        method
    }
}

/// The name under which a method is bound, before the accessor rule.
pub fn maybe_renamed<'m>(class_name: &TyName, godot_method_name: &'m str) -> (r: &'m str)
    ensures
        r@ == renamed(godot_method_name@),
{
    if str_eq(godot_method_name, "new") {
        "instantiate"
    } else {
        godot_method_name
    }
}

} // verus!
