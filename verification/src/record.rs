//! Record definitions, and the plan of the declarations generated for one.

use crate::error::{Error, ErrorView, Unsupported};
use crate::field::{Assign, FieldMetadata, FieldView, Setter, SetterView};
use crate::first::{first, lemma_first_is};
use crate::type_expr::{Shape, TypeExpr, TypeExprView};
use crate::views::{view_all, view_opt, view_result};
use vstd::prelude::*;
use vstd::string::*;

verus! {

/// The kinds of generic parameter.
#[derive(Clone, Copy, Debug, PartialEq, Eq, Structural)]
pub enum ParamKind {
    Lifetime,
    Type,
    Const,
}

/// One generic parameter of a definition.
#[derive(Debug, PartialEq, Eq)]
pub struct GenericParam {
    pub kind: ParamKind,
    /// The parameter's name, as it is written where the type is used.
    pub ident: String,
    /// The parameter as declared, with its bounds or its type.
    pub decl: String,
}

/// What a definition consists of.
#[derive(Debug, PartialEq, Eq)]
pub enum Body {
    /// A struct with named fields, in source order.
    Named(Vec<FieldMetadata>),
    /// A struct whose fields have no names: a tuple struct or a unit struct.
    Unnamed,
    /// An enum or a union.
    NotStruct,
}

/// One type definition, as a front end hands it over.
#[derive(Debug, PartialEq, Eq)]
pub struct RecordDef {
    /// The name of the type.
    pub ident: String,
    /// Its generic parameters, in order.
    pub params: Vec<GenericParam>,
    /// Its `where` clause as written, if it has one.
    pub where_clause: Option<String>,
    pub body: Body,
}

/// What is generated for one field: the slot `name: Option<ty>` of the builder,
/// its initial content, which follows from `shape`, and the field's setter.
#[derive(Debug, PartialEq, Eq)]
pub struct FieldPlan {
    pub name: String,
    pub ty: TypeExpr,
    pub shape: Shape,
    pub setter: Setter,
}

/// The plan of the four generated declarations: the factory `target::builder()`,
/// which returns a builder whose slots hold their initial content; the type
/// `builder` with one optional slot per field; its setters; and `build`, which
/// takes the slots in order and assembles a `target` or names the first empty
/// slot. `params` and `where_clause` stand on each declaration as they stand on
/// the definition, and `args` are the parameters' names.
#[derive(Debug, PartialEq, Eq)]
pub struct BuilderCode {
    pub target: String,
    pub builder: String,
    pub params: Vec<GenericParam>,
    pub args: Vec<String>,
    pub where_clause: Option<String>,
    pub fields: Vec<FieldPlan>,
}

/// What a definition expands to.
#[derive(Debug, PartialEq, Eq)]
pub enum Expansion {
    /// The generated declarations.
    Declarations(BuilderCode),
    /// A compile error with the text `message`, and nothing else.
    CompileError { error: Error, message: String },
}

/// Mathematical model of [`GenericParam`].
pub struct GenericParamView {
    pub kind: ParamKind,
    pub ident: Seq<char>,
    pub decl: Seq<char>,
}

/// Mathematical model of [`Body`].
pub enum BodyView {
    Named(Seq<FieldView>),
    Unnamed,
    NotStruct,
}

/// Mathematical model of [`RecordDef`].
pub struct RecordDefView {
    pub ident: Seq<char>,
    pub params: Seq<GenericParamView>,
    pub where_clause: Option<Seq<char>>,
    pub body: BodyView,
}

/// Mathematical model of [`FieldPlan`].
pub struct FieldPlanView {
    pub name: Seq<char>,
    pub ty: TypeExprView,
    pub shape: Shape,
    pub setter: SetterView,
}

/// Mathematical model of [`BuilderCode`].
pub struct BuilderCodeView {
    pub target: Seq<char>,
    pub builder: Seq<char>,
    pub params: Seq<GenericParamView>,
    pub args: Seq<Seq<char>>,
    pub where_clause: Option<Seq<char>>,
    pub fields: Seq<FieldPlanView>,
}

impl View for GenericParam {
    type V = GenericParamView;

    open spec fn view(&self) -> GenericParamView {
        GenericParamView { kind: self.kind, ident: self.ident@, decl: self.decl@ }
    }
}

impl View for Body {
    type V = BodyView;

    open spec fn view(&self) -> BodyView {
        match self {
            Body::Named(fields) => BodyView::Named(view_all(fields@)),
            Body::Unnamed => BodyView::Unnamed,
            Body::NotStruct => BodyView::NotStruct,
        }
    }
}

impl View for RecordDef {
    type V = RecordDefView;

    open spec fn view(&self) -> RecordDefView {
        RecordDefView {
            ident: self.ident@,
            params: view_all(self.params@),
            where_clause: view_opt(self.where_clause),
            body: self.body@,
        }
    }
}

impl View for FieldPlan {
    type V = FieldPlanView;

    open spec fn view(&self) -> FieldPlanView {
        FieldPlanView { name: self.name@, ty: self.ty@, shape: self.shape, setter: self.setter@ }
    }
}

impl View for BuilderCode {
    type V = BuilderCodeView;

    open spec fn view(&self) -> BuilderCodeView {
        BuilderCodeView {
            target: self.target@,
            builder: self.builder@,
            params: view_all(self.params@),
            args: view_all(self.args@),
            where_clause: view_opt(self.where_clause),
            fields: view_all(self.fields@),
        }
    }
}

impl FieldPlanView {
    /// Whether the setter fits the field: it writes the field's own slot, wraps
    /// for an optional field, replaces for a plain one, and replaces or appends
    /// for a repeated one.
    pub open spec fn consistent(self) -> bool {
        &&& self.setter.field == self.name
        &&& match self.shape {
            Shape::Plain => self.setter.assign == Assign::Replace,
            Shape::Optional => self.setter.assign == Assign::WrapSome,
            Shape::Repeated => self.setter.assign != Assign::WrapSome,
        }
    }
}

/// The fields whose directive is in error.
pub open spec fn failing_fields() -> spec_fn(FieldView) -> bool {
    |f: FieldView| f.setter() is Err
}

impl FieldView {
    /// What is generated for the field, where its directive is in order.
    pub open spec fn plan(self) -> FieldPlanView {
        FieldPlanView {
            name: self.ident,
            ty: self.ty,
            shape: self.typedef().shape(),
            setter: self.setter()->Ok_0,
        }
    }
}

impl RecordDefView {
    /// The fields of a struct with named fields, in source order.
    pub open spec fn fields(self) -> Seq<FieldView> {
        self.body->Named_0
    }

    /// Whether one of the generic parameters is a lifetime.
    pub open spec fn has_lifetime(self) -> bool {
        exists|p: int| 0 <= p < self.params.len() && (#[trigger] self.params[p]).kind == ParamKind::Lifetime
    }

    /// Why no builder is planned for a definition of this kind, if none is.
    /// Lifetimes are looked for first, then the kind of the body.
    pub open spec fn unsupported(self) -> Option<Unsupported> {
        if self.has_lifetime() {
            Some(Unsupported::Lifetime)
        } else {
            match self.body {
                BodyView::Named(_) => None,
                BodyView::Unnamed => Some(Unsupported::UnnamedFields),
                BodyView::NotStruct => Some(Unsupported::NotStruct),
            }
        }
    }

    /// The plan for the definition. An unsupported definition is refused before
    /// any field is read; else the error is that of the first field, in source
    /// order, whose directive is not well formed.
    pub open spec fn generate(self) -> Result<BuilderCodeView, ErrorView> {
        match self.unsupported() {
            Some(reason) => Err(ErrorView::UnsupportedShape { reason }),
            None => {
                let fields = self.fields();
                match first(fields, failing_fields()) {
                    Some(i) => Err(fields[i].setter()->Err_0),
                    None => Ok(
                        BuilderCodeView {
                            target: self.ident,
                            builder: self.ident + "Builder"@,
                            params: self.params,
                            args: Seq::new(self.params.len(), |p: int| self.params[p].ident),
                            where_clause: self.where_clause,
                            fields: Seq::new(fields.len(), |i: int| fields[i].plan()),
                        },
                    ),
                }
            },
        }
    }
}

impl Clone for GenericParam {
    fn clone(&self) -> (copy: Self)
        ensures
            copy@ == self@,
    {
        GenericParam { kind: self.kind, ident: self.ident.clone(), decl: self.decl.clone() }
    }
}

impl FieldMetadata {
    /// Plans what is generated for the field.
    pub fn plan(&self) -> (result: Result<FieldPlan, Error>)
        ensures
            match result {
                Ok(plan) => self@.setter() is Ok && plan@ == self@.plan(),
                Err(e) => self@.setter() == Err::<SetterView, ErrorView>(e@),
            },
    {
        match self.impl_attr_setter_fns() {
            Ok(setter) => Ok(
                FieldPlan {
                    name: self.ident.clone(),
                    ty: self.ty.clone(),
                    shape: self.typedef().shape(),
                    setter,
                },
            ),
            Err(e) => Err(e),
        }
    }
}

/// Plans the builder of `input`: the factory, the builder type, one setter per
/// field and `build`. Generic parameters and the `where` clause are carried
/// over unchanged. A definition with a lifetime parameter, without named fields
/// or that is no struct is refused, and so is one with a malformed `builder`
/// directive on any field: then nothing is planned.
pub fn struct_builder(input: &RecordDef) -> (result: Result<BuilderCode, Error>)
    ensures
        view_result(result) == input@.generate(),
{
    let mut params: Vec<GenericParam> = Vec::new();
    let mut args: Vec<String> = Vec::new();
    let mut p: usize = 0;
    while p < input.params.len()
        invariant
            p <= input.params.len(),
            params.len() == p,
            args.len() == p,
            forall|q: int| 0 <= q < p ==> (#[trigger] input@.params[q]).kind != ParamKind::Lifetime,
            forall|q: int| 0 <= q < p ==> (#[trigger] params[q])@ == input@.params[q],
            forall|q: int| 0 <= q < p ==> (#[trigger] args[q])@ == input@.params[q].ident,
        decreases input.params.len() - p,
    {
        let param = &input.params[p];
        match param.kind {
            ParamKind::Lifetime => {
                assert(input@.params[p as int].kind == ParamKind::Lifetime);
                return Err(Error::UnsupportedShape { reason: Unsupported::Lifetime });
            },
            _ => {},
        }
        params.push(param.clone());
        args.push(param.ident.clone());
        p += 1;
    }
    let fields = match &input.body {
        Body::Named(fields) => fields,
        Body::Unnamed => {
            return Err(Error::UnsupportedShape { reason: Unsupported::UnnamedFields });
        },
        Body::NotStruct => {
            return Err(Error::UnsupportedShape { reason: Unsupported::NotStruct });
        },
    };
    let ghost models = view_all(fields@);
    let mut plans: Vec<FieldPlan> = Vec::new();
    let mut i: usize = 0;
    while i < fields.len()
        invariant
            i <= fields.len(),
            plans.len() == i,
            models == view_all(fields@),
            input@.unsupported() is None,
            input@.body == BodyView::Named(models),
            forall|j: int| 0 <= j < i ==> !failing_fields()(#[trigger] models[j]),
            forall|j: int| 0 <= j < i ==> (#[trigger] plans[j])@ == models[j].plan(),
        decreases fields.len() - i,
    {
        match fields[i].plan() {
            Ok(plan) => {
                plans.push(plan);
            },
            Err(e) => {
                proof {
                    lemma_first_is(models, failing_fields(), i as int);
                }
                return Err(e);
            },
        }
        i += 1;
    }
    let where_clause = match &input.where_clause {
        Some(text) => Some(text.clone()),
        None => None,
    };
    let code = BuilderCode {
        target: input.ident.clone(),
        builder: input.ident.clone().concat("Builder"),
        params,
        args,
        where_clause,
        fields: plans,
    };
    proof {
        let expected = input@.generate()->Ok_0;
        assert(code@.params =~= expected.params);
        assert(code@.args =~= expected.args);
        assert(code@.fields =~= expected.fields);
    }
    Ok(code)
}

/// Expands one definition: to the generated declarations, or to a compile
/// error that carries the failure's message where none can be generated.
pub fn impl_struct_builder(input: &RecordDef) -> (expansion: Expansion)
    ensures
        match expansion {
            Expansion::Declarations(code) => input@.generate() == Ok::<BuilderCodeView, ErrorView>(
                code@,
            ),
            Expansion::CompileError { error, message } => {
                &&& input@.generate() == Err::<BuilderCodeView, ErrorView>(error@)
                &&& message@ == error@.message()
            },
        },
{
    match struct_builder(input) {
        Ok(code) => Expansion::Declarations(code),
        Err(error) => {
            let message = error.message();
            Expansion::CompileError { error, message }
        },
    }
}

} // verus!
