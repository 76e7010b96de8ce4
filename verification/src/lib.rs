//! Plans the builder that accompanies a record type.
//!
//! A front end hands over the structure of one record definition: its name, its
//! generic parameters and its named fields, each with its declared type and its
//! attributes. The library classifies each field by the shape of its type
//! (`Option<T>`, `Vec<T>` or anything else), reads the one directive that it
//! knows, `builder(each = "name")`, and plans four declarations: a factory on the
//! record type, the builder type, the builder's setters and `build`. A back end
//! renders the plan as code.
//!
//! [`state::BuilderState`] says what the generated builder does when it runs,
//! and the `laws` module states what follows for every record definition.

pub mod directive;
pub mod error;
pub mod field;
pub mod first;
pub mod laws;
pub mod record;
pub mod state;
pub mod text;
pub mod type_expr;
pub mod views;

pub use directive::{Directive, DirectiveItem};
pub use error::{Error, Unsupported};
pub use field::{Assign, FieldMetadata, Setter};
pub use record::{
    impl_struct_builder, struct_builder, Body, BuilderCode, Expansion, FieldPlan, GenericParam,
    ParamKind, RecordDef,
};
pub use state::{BuilderState, MissingField, Value};
pub use type_expr::{GenericArg, Initial, Shape, TypeDef, TypeExpr};
