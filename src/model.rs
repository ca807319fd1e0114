use vstd::prelude::*;

verus! {

/// How the fields of a struct or of an enum variant are written.
#[derive(Clone, Copy, Debug, PartialEq, Eq, Structural)]
pub enum FieldKind {
    /// Fields addressed by name: `S { a: u8 }`.
    Named,
    /// Fields addressed by position: `S(u8)`.
    Unnamed,
    /// No fields at all: `S`.
    Unit,
}

/// One variant of an enum: its name and how its fields are written.
#[derive(Clone, Debug)]
pub struct Variant {
    pub name: String,
    pub fields: FieldKind,
}

/// The shape of a declaration.
#[derive(Clone, Debug)]
pub enum Shape {
    Struct(FieldKind),
    /// The variants, in declaration order.
    Enum(Vec<Variant>),
    /// A union; its fields never matter for the output.
    Union,
}

/// One generic parameter of a declaration, with its parts as source text.
#[derive(Clone, Debug)]
pub enum GenericParam {
    /// `'a: 'b + 'c` has `lifetime` `'a` and `bounds` `['b, 'c]`.
    Lifetime { lifetime: String, bounds: Vec<String> },
    /// `T: Clone + Send = u8` has `ident` `T`, `bounds` `[Clone, Send]` and
    /// `default` `u8`.
    Type { ident: String, bounds: Vec<String>, default: Option<String> },
    /// A const parameter, written out whole: `const N: usize`.
    Const { text: String },
}

/// A struct, enum or union declaration as far as a shallow `Debug` needs it.
#[derive(Clone, Debug)]
pub struct TypeDecl {
    pub name: String,
    /// The generic parameters, in declaration order.
    pub generics: Vec<GenericParam>,
    /// The predicates of the `where` clause, each as source text, in order.
    pub where_predicates: Vec<String>,
    pub shape: Shape,
}

/// The mathematical model of a [`Variant`].
pub struct VariantView {
    pub name: Seq<char>,
    pub fields: FieldKind,
}

/// The mathematical model of a [`Shape`].
pub enum ShapeView {
    Struct(FieldKind),
    Enum(Seq<VariantView>),
    Union,
}

/// The mathematical model of a [`GenericParam`].
pub enum ParamView {
    Lifetime { lifetime: Seq<char>, bounds: Seq<Seq<char>> },
    Type { ident: Seq<char>, bounds: Seq<Seq<char>>, default: Option<Seq<char>> },
    Const { text: Seq<char> },
}

/// The mathematical model of a [`TypeDecl`].
pub struct DeclView {
    pub name: Seq<char>,
    pub generics: Seq<ParamView>,
    pub where_predicates: Seq<Seq<char>>,
    pub shape: ShapeView,
}

/// The texts held by a vector of strings.
pub open spec fn texts(v: Seq<String>) -> Seq<Seq<char>> {
    v.map_values(|s: String| s@)
}

impl View for Variant {
    type V = VariantView;

    open spec fn view(&self) -> VariantView {
        VariantView { name: self.name@, fields: self.fields }
    }
}

impl View for Shape {
    type V = ShapeView;

    open spec fn view(&self) -> ShapeView {
        match self {
            Shape::Struct(k) => ShapeView::Struct(*k),
            Shape::Enum(vs) => ShapeView::Enum(vs@.map_values(|v: Variant| v@)),
            Shape::Union => ShapeView::Union,
        }
    }
}

impl View for GenericParam {
    type V = ParamView;

    open spec fn view(&self) -> ParamView {
        match self {
            GenericParam::Lifetime { lifetime, bounds } => ParamView::Lifetime {
                lifetime: lifetime@,
                bounds: texts(bounds@),
            },
            GenericParam::Type { ident, bounds, default } => ParamView::Type {
                ident: ident@,
                bounds: texts(bounds@),
                default: match default {
                    Some(t) => Some(t@),
                    None => None,
                },
            },
            GenericParam::Const { text } => ParamView::Const { text: text@ },
        }
    }
}

impl View for TypeDecl {
    type V = DeclView;

    open spec fn view(&self) -> DeclView {
        DeclView {
            name: self.name@,
            generics: self.generics@.map_values(|p: GenericParam| p@),
            where_predicates: texts(self.where_predicates@),
            shape: self.shape@,
        }
    }
}

} // verus!
