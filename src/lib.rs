//! Binding-generation rules and registration planning for extending a reflective
//! host engine through a native extension.
//!
//! The crate has two halves:
//! - the special-case rule set and the binding generator, which decide which
//!   classes and methods of the host's API description are bound, and under
//!   which names;
//! - the registration expander, which validates user declaration blocks and
//!   plans the glue that registers them with the host.
pub mod text;
pub mod api;
pub mod special_cases;
pub mod cfg;
pub mod declaration;
pub mod expander;
pub mod dispatch;
pub mod generator;
pub mod registry;
