//! The host API description, as the binding generator reads it.
use vstd::prelude::*;

verus! {

/// Name of a class or builtin type, as the host spells it.
pub struct TyName {
    pub godot_ty: String,
}

/// One method of a host class.
pub struct ClassMethod {
    pub name: String,
    /// Number of declared parameters.
    pub arg_count: usize,
    /// Set by the description reader when a parameter or the return type cannot be
    /// marshaled by the generated bindings.
    pub unsupported_signature: bool,
}

/// One method of a builtin value type.
pub struct BuiltinClassMethod {
    pub name: String,
    /// Set by the description reader when a parameter or the return type cannot be
    /// marshaled by the generated bindings.
    pub unsupported_signature: bool,
}

/// One class of the host API description.
pub struct ClassDescriptor {
    pub name: TyName,
    /// Name of the parent class; `None` for a root class.
    pub parent: Option<String>,
    pub methods: Vec<ClassMethod>,
}

/// The build configuration that the rule set consults.
#[derive(Clone, Copy, Debug, PartialEq, Eq, Structural)]
pub struct BuildConfig {
    /// Experimental host classes were opted into.
    pub experimental_godot_api: bool,
    /// The targeted host API is older than 4.2.
    pub before_api_4_2: bool,
    /// The build targets macOS.
    pub target_macos: bool,
}

} // verus!
