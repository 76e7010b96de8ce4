//! Type expressions as a front end hands them over, and their classification.

use crate::text::reads;
use vstd::prelude::*;
use vstd::string::*;

verus! {

/// A type as written in a field declaration.
#[derive(Debug, PartialEq, Eq)]
pub enum TypeExpr {
    /// A path type `prefix name<args>`: `prefix` is everything before the last
    /// segment as written, with the path separator that ends it (empty for a
    /// single segment), `name` the identifier of the last segment and `args` its
    /// angle-bracketed arguments (none written: empty).
    Path { prefix: String, name: String, args: Vec<GenericArg> },
    /// Any other type (reference, tuple, array, function pointer, ...), as written.
    Other(String),
}

/// One argument between the angle brackets of a path's last segment.
#[derive(Debug, PartialEq, Eq)]
pub enum GenericArg {
    /// A type argument.
    Type(TypeExpr),
    /// A lifetime, a constant or a binding, as written.
    Other(String),
}

/// What a field's declared type is taken for.
#[derive(Debug, PartialEq, Eq)]
pub enum TypeDef {
    /// `Option<T>`: holds `T`. Leaving the field out is a value, not an error.
    Optional(TypeExpr),
    /// `Vec<T>`: holds the declared type and `T`.
    Repeated(TypeExpr, TypeExpr),
    /// Anything else: holds the declared type.
    Plain(TypeExpr),
}

/// The three kinds of [`TypeDef`], without the types.
#[derive(Clone, Copy, Debug, PartialEq, Eq, Structural)]
pub enum Shape {
    Plain,
    Optional,
    Repeated,
}

/// What the factory puts into a field's slot.
#[derive(Clone, Copy, Debug, PartialEq, Eq, Structural)]
pub enum Initial {
    /// `None`: the slot is empty until the field is set.
    Missing,
    /// `Some(None)`: the slot holds "no value".
    Absent,
    /// `Some(vec![])`: the slot holds an empty collection.
    Empty,
}

/// Mathematical model of [`TypeExpr`].
pub enum TypeExprView {
    Path { prefix: Seq<char>, name: Seq<char>, args: Seq<GenericArgView> },
    Other(Seq<char>),
}

/// Mathematical model of [`GenericArg`].
pub enum GenericArgView {
    Type(TypeExprView),
    Other(Seq<char>),
}

/// Mathematical model of [`TypeDef`].
pub enum TypeDefView {
    Optional(TypeExprView),
    Repeated(TypeExprView, TypeExprView),
    Plain(TypeExprView),
}

impl View for TypeExpr {
    type V = TypeExprView;

    open spec fn view(&self) -> TypeExprView
        decreases self,
    {
        match self {
            TypeExpr::Path { prefix, name, args } => TypeExprView::Path {
                prefix: prefix@,
                name: name@,
                args: Seq::new(
                    args.len() as nat,
                    |i: int|
                        if 0 <= i < args.len() {
                            args[i]@
                        } else {
                            GenericArgView::Other(Seq::empty())
                        },
                ),
            },
            TypeExpr::Other(text) => TypeExprView::Other(text@),
        }
    }
}

impl View for GenericArg {
    type V = GenericArgView;

    open spec fn view(&self) -> GenericArgView
        decreases self,
    {
        match self {
            GenericArg::Type(t) => GenericArgView::Type(t@),
            GenericArg::Other(text) => GenericArgView::Other(text@),
        }
    }
}

impl View for TypeDef {
    type V = TypeDefView;

    open spec fn view(&self) -> TypeDefView {
        match self {
            TypeDef::Optional(inner) => TypeDefView::Optional(inner@),
            TypeDef::Repeated(container, element) => TypeDefView::Repeated(container@, element@),
            TypeDef::Plain(ty) => TypeDefView::Plain(ty@),
        }
    }
}

impl TypeExprView {
    /// The single type argument of a path whose last segment is called `name`.
    pub open spec fn wraps(self, name: Seq<char>) -> Option<TypeExprView> {
        match self {
            TypeExprView::Path { name: last, args, .. } => if last == name && args.len() == 1
                && args[0] is Type {
                Some(args[0]->Type_0)
            } else {
                None
            },
            TypeExprView::Other(_) => None,
        }
    }

    /// Classification by name and arity alone: `Option` with one type argument is
    /// optional, `Vec` with one type argument is repeated, all else is plain.
    pub open spec fn classify(self) -> TypeDefView {
        match (self.wraps("Option"@), self.wraps("Vec"@)) {
            (Some(inner), _) => TypeDefView::Optional(inner),
            (None, Some(element)) => TypeDefView::Repeated(self, element),
            (None, None) => TypeDefView::Plain(self),
        }
    }
}

/// The first `n` of `args` as written, separated by a comma and a space.
pub open spec fn args_text(args: Seq<GenericArgView>, n: nat) -> Seq<char>
    decreases args, n,
{
    if n == 0 || n > args.len() {
        Seq::empty()
    } else if n == 1 {
        args[0].text()
    } else {
        args_text(args, (n - 1) as nat) + ", "@ + args[n - 1].text()
    }
}

impl GenericArgView {
    /// The argument as written.
    pub open spec fn text(self) -> Seq<char>
        decreases self, 0nat,
    {
        match self {
            GenericArgView::Type(t) => t.text(),
            GenericArgView::Other(text) => text,
        }
    }
}

impl TypeExprView {
    /// The type as written: a path's prefix and name, followed by its
    /// arguments between angle brackets where it has any.
    pub open spec fn text(self) -> Seq<char>
        decreases self, 0nat,
    {
        match self {
            TypeExprView::Path { prefix, name, args } => if args.len() == 0 {
                prefix + name
            } else {
                prefix + name + "<"@ + args_text(args, args.len()) + ">"@
            },
            TypeExprView::Other(text) => text,
        }
    }
}

impl Shape {
    /// What the factory puts into the slot of a field of this shape: only a
    /// plain field starts out missing.
    pub open spec fn initial_content(self) -> Initial {
        match self {
            Shape::Plain => Initial::Missing,
            Shape::Optional => Initial::Absent,
            Shape::Repeated => Initial::Empty,
        }
    }

    /// What the factory puts into the slot of a field of this shape.
    pub fn initial(&self) -> (initial: Initial)
        ensures
            initial == self.initial_content(),
    {
        match self {
            Shape::Plain => Initial::Missing,
            Shape::Optional => Initial::Absent,
            Shape::Repeated => Initial::Empty,
        }
    }
}

impl TypeDefView {
    pub open spec fn shape(self) -> Shape {
        match self {
            TypeDefView::Optional(_) => Shape::Optional,
            TypeDefView::Repeated(_, _) => Shape::Repeated,
            TypeDefView::Plain(_) => Shape::Plain,
        }
    }

    /// The type that a setter for the whole field takes.
    pub open spec fn attr_type(self) -> TypeExprView {
        match self {
            TypeDefView::Optional(inner) => inner,
            TypeDefView::Repeated(container, _) => container,
            TypeDefView::Plain(ty) => ty,
        }
    }
}

impl Clone for TypeExpr {
    fn clone(&self) -> (copy: Self)
        ensures
            copy@ == self@,
        decreases self,
    {
        match self {
            TypeExpr::Path { prefix, name, args } => {
                let mut copied: Vec<GenericArg> = Vec::new();
                let mut i: usize = 0;
                while i < args.len()
                    invariant
                        *self is Path,
                        self->args == *args,
                        i <= args.len(),
                        copied.len() == i,
                        forall|j: int| 0 <= j < i ==> copied[j]@ == args[j]@,
                    decreases args.len() - i,
                {
                    copied.push(args[i].clone());
                    i += 1;
                }
                let copy = TypeExpr::Path { prefix: prefix.clone(), name: name.clone(), args: copied };
                assert(copy@->Path_args =~= self@->Path_args);
                copy
            },
            TypeExpr::Other(text) => TypeExpr::Other(text.clone()),
        }
    }
}

impl Clone for GenericArg {
    fn clone(&self) -> (copy: Self)
        ensures
            copy@ == self@,
        decreases self,
    {
        match self {
            GenericArg::Type(t) => GenericArg::Type(t.clone()),
            GenericArg::Other(text) => GenericArg::Other(text.clone()),
        }
    }
}

impl TypeExpr {
    /// The single type argument of a path whose last segment is called `name`.
    pub fn wraps(&self, name: &str) -> (inner: Option<&TypeExpr>)
        ensures
            match inner {
                Some(t) => self@.wraps(name@) == Some(t@),
                None => self@.wraps(name@) is None,
            },
    {
        match self {
            TypeExpr::Path { prefix: _, name: last, args } => {
                if args.len() == 1 && reads(last.as_str(), name) {
                    match &args[0] {
                        GenericArg::Type(t) => Some(t),
                        GenericArg::Other(_) => None,
                    }
                } else {
                    None
                }
            },
            TypeExpr::Other(_) => None,
        }
    }

    /// Classifies the type by its outermost name and the number of its
    /// arguments. Nothing is resolved: a type of the user's own that is called
    /// `Option` or `Vec` and takes one type argument is classified like std's.
    pub fn classify(&self) -> (def: TypeDef)
        ensures
            def@ == self@.classify(),
    {
        if let Some(inner) = self.wraps("Option") {
            TypeDef::Optional(inner.clone())
        } else if let Some(element) = self.wraps("Vec") {
            TypeDef::Repeated(self.clone(), element.clone())
        } else {
            TypeDef::Plain(self.clone())
        }
    }
}

impl GenericArg {
    /// The argument as written.
    pub fn text(&self) -> (text: String)
        ensures
            text@ == self@.text(),
        decreases self, 0nat,
    {
        match self {
            GenericArg::Type(t) => t.text(),
            GenericArg::Other(text) => text.clone(),
        }
    }
}

impl TypeExpr {
    /// The type as written, for a back end that renders it.
    pub fn text(&self) -> (text: String)
        ensures
            text@ == self@.text(),
        decreases self, 0nat,
    {
        match self {
            TypeExpr::Path { prefix, name, args } => {
                let mut text = prefix.clone().concat(name.as_str());
                if args.len() > 0 {
                    let ghost models = self@->Path_args;
                    text.append("<");
                    let mut i: usize = 0;
                    while i < args.len()
                        invariant
                            *self is Path,
                            self->args == *args,
                            models == self@->Path_args,
                            i <= args.len(),
                            text@ == prefix@ + name@ + "<"@ + args_text(models, i as nat),
                        decreases args.len() - i,
                    {
                        if i > 0 {
                            text.append(", ");
                        }
                        let piece = args[i].text();
                        text.append(piece.as_str());
                        i += 1;
                    }
                    text.append(">");
                }
                text
            },
            TypeExpr::Other(text) => text.clone(),
        }
    }
}

impl TypeDef {
    /// The kind of the classification.
    pub fn shape(&self) -> (shape: Shape)
        ensures
            shape == self@.shape(),
    {
        match self {
            TypeDef::Optional(_) => Shape::Optional,
            TypeDef::Repeated(_, _) => Shape::Repeated,
            TypeDef::Plain(_) => Shape::Plain,
        }
    }

    /// The type that a setter for the whole field takes: the inner type of an
    /// optional field, the declared type of any other.
    pub fn get_attr_type(&self) -> (ty: TypeExpr)
        ensures
            ty@ == self@.attr_type(),
    {
        match self {
            TypeDef::Repeated(container, _) => container.clone(),
            TypeDef::Optional(inner) => inner.clone(),
            TypeDef::Plain(ty) => ty.clone(),
        }
    }
}

} // verus!
