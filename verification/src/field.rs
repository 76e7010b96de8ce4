//! Fields of a record, and the setter that is generated for each.

use crate::directive::{Directive, DirectiveView};
use crate::error::{Error, ErrorView};
use crate::first::{first, lemma_first_is};
use crate::type_expr::{TypeDef, TypeDefView, TypeExpr, TypeExprView};
use crate::views::{view_all, view_opt, view_result};
use vstd::prelude::*;
use vstd::string::*;

verus! {

/// One named field of a record, in the form in which it is classified.
#[derive(Debug, PartialEq, Eq)]
pub struct FieldMetadata {
    /// The field's attributes, in source order.
    pub attrs: Vec<Directive>,
    /// The field's name.
    pub ident: String,
    /// The field's declared type.
    pub ty: TypeExpr,
}

/// What the body of a generated setter does with its argument `value`.
#[derive(Clone, Copy, Debug, PartialEq, Eq, Structural)]
pub enum Assign {
    /// `self.field = Some(value)`: the slot's content is replaced.
    Replace,
    /// `self.field = Some(Some(value))`: the value is stored as present.
    WrapSome,
    /// `value` is appended to the collection in the slot; an empty slot stays
    /// empty.
    Push,
}

/// One generated setter: `pub fn name(&mut self, value: value_type) -> &mut Self`,
/// which acts on the slot `field` as `assign` says and returns the builder.
#[derive(Debug, PartialEq, Eq)]
pub struct Setter {
    pub name: String,
    pub field: String,
    pub value_type: TypeExpr,
    pub assign: Assign,
}

/// Mathematical model of [`FieldMetadata`].
pub struct FieldView {
    pub attrs: Seq<DirectiveView>,
    pub ident: Seq<char>,
    pub ty: TypeExprView,
}

/// Mathematical model of [`Setter`].
pub struct SetterView {
    pub name: Seq<char>,
    pub field: Seq<char>,
    pub value_type: TypeExprView,
    pub assign: Assign,
}

impl View for FieldMetadata {
    type V = FieldView;

    open spec fn view(&self) -> FieldView {
        FieldView { attrs: view_all(self.attrs@), ident: self.ident@, ty: self.ty@ }
    }
}

impl View for Setter {
    type V = SetterView;

    open spec fn view(&self) -> SetterView {
        SetterView {
            name: self.name@,
            field: self.field@,
            value_type: self.value_type@,
            assign: self.assign,
        }
    }
}

/// The attributes that are directives of the library.
pub open spec fn builder_directives() -> spec_fn(DirectiveView) -> bool {
    |d: DirectiveView| d.is_builder()
}

impl SetterView {
    /// The setter of a field, by priority: a repeated field with an accumulator
    /// name gets an accumulator of that name, which takes one element and appends
    /// it. Any other field gets a setter of the field's name: it takes the inner
    /// type of an optional field and stores it as present, and takes the declared
    /// type of a repeated or plain field and replaces the slot's content.
    pub open spec fn plan(field: Seq<char>, typedef: TypeDefView, rename: Option<Seq<char>>) -> SetterView {
        match (typedef, rename) {
            (TypeDefView::Repeated(_, element), Some(name)) => SetterView {
                name,
                field,
                value_type: element,
                assign: Assign::Push,
            },
            _ => SetterView {
                name: field,
                field,
                value_type: typedef.attr_type(),
                assign: if typedef is Optional {
                    Assign::WrapSome
                } else {
                    Assign::Replace
                },
            },
        }
    }
}

impl FieldView {
    /// The classification of the declared type.
    pub open spec fn typedef(self) -> TypeDefView {
        self.ty.classify()
    }

    /// The position of the directive that is consulted: the first attribute
    /// that is a `builder` directive. Later ones are never read.
    pub open spec fn directive(self) -> Option<int> {
        first(self.attrs, builder_directives())
    }

    /// The accumulator name that the field's directive asks for; none without a
    /// directive; an error where the directive is not well formed.
    pub open spec fn get_ident(self) -> Result<Option<Seq<char>>, ErrorView> {
        match self.directive() {
            None => Ok(None),
            Some(a) => if self.attrs[a].well_formed() {
                Ok(self.attrs[a].rename())
            } else {
                Err(ErrorView::DirectiveSyntax { field: self.ident, attr: a })
            },
        }
    }

    /// The field's setter, or the error of its directive.
    pub open spec fn setter(self) -> Result<SetterView, ErrorView> {
        match self.get_ident() {
            Ok(rename) => Ok(SetterView::plan(self.ident, self.typedef(), rename)),
            Err(e) => Err(e),
        }
    }
}

impl Setter {
    /// Plans the setter of the field `field`, classified as `typedef`, whose
    /// directive asks for the accumulator name `rename`. The name is used for a
    /// repeated field only.
    pub fn plan(field: &str, typedef: &TypeDef, rename: Option<String>) -> (setter: Setter)
        ensures
            setter@ == SetterView::plan(field@, typedef@, view_opt(rename)),
    {
        let mut name = String::from_str(field);
        let mut value_type = typedef.get_attr_type();
        let assign = match typedef {
            TypeDef::Repeated(_, element) => match rename {
                Some(accumulator) => {
                    name = accumulator;
                    value_type = element.clone();
                    Assign::Push
                },
                None => Assign::Replace,
            },
            TypeDef::Optional(_) => Assign::WrapSome,
            TypeDef::Plain(_) => Assign::Replace,
        };
        Setter { name, field: String::from_str(field), value_type, assign }
    }
}

impl FieldMetadata {
    /// Classifies the field by the shape of its declared type.
    pub fn typedef(&self) -> (def: TypeDef)
        ensures
            def@ == self@.typedef(),
    {
        self.ty.classify()
    }

    /// Reads the field's directive. Only the first `builder` attribute is
    /// consulted. `Ok(None)` without one, `Ok(Some(name))` where it asks for the
    /// accumulator name `name`, and an error that names the field and the
    /// attribute's position where it is not of the form `builder(each = "name")`.
    /// Two forms beside that one are let pass: `builder()` asks for no name, and
    /// where `each` is given more than once the last name counts.
    pub fn get_ident(&self) -> (result: Result<Option<String>, Error>)
        ensures
            match result {
                Ok(name) => self@.get_ident() == Ok::<Option<Seq<char>>, ErrorView>(view_opt(name)),
                Err(e) => self@.get_ident() == Err::<Option<Seq<char>>, ErrorView>(e@),
            },
    {
        let ghost attrs = self@.attrs;
        let mut a: usize = 0;
        while a < self.attrs.len()
            invariant
                a <= self.attrs.len(),
                attrs == self@.attrs,
                forall|b: int| 0 <= b < a ==> !builder_directives()(#[trigger] attrs[b]),
            decreases self.attrs.len() - a,
        {
            if self.attrs[a].is_builder() {
                proof {
                    lemma_first_is(attrs, builder_directives(), a as int);
                }
                return match self.attrs[a].accumulator() {
                    Ok(name) => Ok(name),
                    Err(_) => Err(Error::DirectiveSyntax { field: self.ident.clone(), attr: a }),
                };
            }
            a += 1;
        }
        Ok(None)
    }

    /// Plans the field's setter: classifies the type, reads the directive and
    /// chooses between accumulator and plain setter.
    pub fn impl_attr_setter_fns(&self) -> (result: Result<Setter, Error>)
        ensures
            view_result(result) == self@.setter(),
    {
        match self.get_ident() {
            Ok(rename) => {
                let typedef = self.typedef();
                Ok(Setter::plan(self.ident.as_str(), &typedef, rename))
            },
            Err(e) => Err(e),
        }
    }
}

} // verus!
