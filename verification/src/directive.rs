//! Attributes of a field, and the one directive that is recognised among them:
//! `builder(each = "name")`.

use crate::text::{has_ident_form, is_ident, reads};
use crate::views::{view_all, view_opt};
use vstd::prelude::*;

verus! {

/// One item of a directive's parenthesised list.
#[derive(Debug, PartialEq, Eq)]
pub enum DirectiveItem {
    /// `key = "value"`: a key bound to a string literal, whose content is `value`.
    Text { key: String, value: String },
    /// An item that begins with `key` and has any other form: `key` alone,
    /// `key = 1`, `key(...)`.
    Other { key: String },
}

/// One attribute of a field.
#[derive(Debug, PartialEq, Eq)]
pub struct Directive {
    /// The attribute's path as written, such as `builder` or `serde`.
    pub name: String,
    /// The items between the parentheses, where the attribute is a path
    /// followed by a parenthesised list of items separated by commas.
    pub items: Option<Vec<DirectiveItem>>,
}

/// Mathematical model of [`DirectiveItem`].
pub enum DirectiveItemView {
    Text { key: Seq<char>, value: Seq<char> },
    Other { key: Seq<char> },
}

/// Mathematical model of [`Directive`].
pub struct DirectiveView {
    pub name: Seq<char>,
    pub items: Option<Seq<DirectiveItemView>>,
}

impl View for DirectiveItem {
    type V = DirectiveItemView;

    open spec fn view(&self) -> DirectiveItemView {
        match self {
            DirectiveItem::Text { key, value } => DirectiveItemView::Text {
                key: key@,
                value: value@,
            },
            DirectiveItem::Other { key } => DirectiveItemView::Other { key: key@ },
        }
    }
}

impl View for Directive {
    type V = DirectiveView;

    open spec fn view(&self) -> DirectiveView {
        DirectiveView {
            name: self.name@,
            items: match self.items {
                Some(items) => Some(view_all(items@)),
                None => None,
            },
        }
    }
}

impl DirectiveItemView {
    /// The key that the item begins with.
    pub open spec fn key(self) -> Seq<char> {
        match self {
            DirectiveItemView::Text { key, .. } => key,
            DirectiveItemView::Other { key } => key,
        }
    }

    /// The accumulator name that the item asks for, where `ident_form` says
    /// whether its literal has the form of an identifier: the literal of
    /// `each = "name"`, if it has that form. Any other item asks for none.
    pub open spec fn each_with(self, ident_form: bool) -> Option<Seq<char>> {
        match self {
            DirectiveItemView::Text { key, value } => if key == "each"@ && ident_form {
                Some(value)
            } else {
                None
            },
            DirectiveItemView::Other { .. } => None,
        }
    }

    /// The accumulator name that the item asks for.
    pub open spec fn each(self) -> Option<Seq<char>> {
        match self {
            DirectiveItemView::Text { value, .. } => self.each_with(is_ident(value)),
            DirectiveItemView::Other { .. } => None,
        }
    }
}

impl DirectiveView {
    /// Whether this is a directive of the library.
    pub open spec fn is_builder(self) -> bool {
        self.name == "builder"@
    }

    /// Whether the directive is a parenthesised list in which every item asks
    /// for an accumulator name.
    pub open spec fn well_formed(self) -> bool {
        &&& self.items matches Some(items)
        &&& forall|k: int| 0 <= k < items.len() ==> (#[trigger] items[k]).each() is Some
    }

    /// The accumulator name that a well-formed directive asks for: that of its
    /// last item, or none where the list is empty.
    pub open spec fn rename(self) -> Option<Seq<char>> {
        match self.items {
            Some(items) => if items.len() > 0 {
                items.last().each()
            } else {
                None
            },
            None => None,
        }
    }
}

impl DirectiveItem {
    /// The accumulator name that the item asks for, where `ident_form` says
    /// whether its literal has the form of an identifier.
    pub fn each_with(&self, ident_form: bool) -> (name: Option<String>)
        ensures
            view_opt(name) == self@.each_with(ident_form),
    {
        match self {
            DirectiveItem::Text { key, value } => {
                if ident_form && reads(key.as_str(), "each") {
                    Some(value.clone())
                } else {
                    None
                }
            },
            DirectiveItem::Other { .. } => None,
        }
    }

    /// The accumulator name that the item asks for, if it has the form
    /// `each = "name"` and `name` that of an identifier.
    pub fn each(&self) -> (name: Option<String>)
        ensures
            view_opt(name) == self@.each(),
    {
        match self {
            DirectiveItem::Text { value, .. } => self.each_with(has_ident_form(value.as_str())),
            DirectiveItem::Other { .. } => None,
        }
    }
}

impl Directive {
    /// Whether this is a directive of the library: an attribute whose path is
    /// `builder`.
    pub fn is_builder(&self) -> (yes: bool)
        ensures
            yes == self@.is_builder(),
    {
        reads(self.name.as_str(), "builder")
    }

    /// Reads the directive: `Ok` with the accumulator name that it asks for, or
    /// `Err` where it is not well formed. An empty list, `builder()`, is well
    /// formed and asks for no name; of several `each` items the last one counts.
    pub fn accumulator(&self) -> (result: Result<Option<String>, ()>)
        ensures
            result is Ok == self@.well_formed(),
            result matches Ok(name) ==> view_opt(name) == self@.rename(),
    {
        match &self.items {
            None => Err(()),
            Some(items) => {
                let ghost models = view_all(items@);
                let mut found: Option<String> = None;
                let mut k: usize = 0;
                while k < items.len()
                    invariant
                        k <= items.len(),
                        models == view_all(items@),
                        self@.items == Some(models),
                        forall|j: int| 0 <= j < k ==> (#[trigger] models[j]).each() is Some,
                        view_opt(found) == if k == 0 {
                            None
                        } else {
                            models[k - 1].each()
                        },
                    decreases items.len() - k,
                {
                    match items[k].each() {
                        Some(name) => {
                            found = Some(name);
                        },
                        None => {
                            assert(models[k as int].each() is None);
                            return Err(());
                        },
                    }
                    k += 1;
                }
                Ok(found)
            },
        }
    }
}

} // verus!
