use vstd::prelude::*;

verus! {

/// One piece of the text that an extern type stands for in a target
/// language: a character, or the name of a generic parameter to fill in.
#[derive(Debug, PartialEq, Eq, Clone)]
pub enum TemplateToken {
    Char(char),
    Template(String),
}

/// A generic parameter of a definition: a type, or a constant of a type.
#[derive(Debug, PartialEq, Eq, Clone)]
pub enum GenericTy {
    Ty(String),
    Const { ty: Ty, name: String },
}

/// A generic argument at a use of a type: a type, or a number.
#[derive(Debug, PartialEq, Eq)]
pub enum GenericArg {
    Ty(Ty),
    Const(usize),
}

/// The text of an extern type in one target language.
#[derive(Debug, PartialEq, Eq, Clone)]
pub struct ConcreteImpl {
    pub lang: String,
    pub template: Vec<TemplateToken>,
}

/// A type that is defined outside, with its text for each target language.
/// Where a language occurs more than once, its last entry counts.
#[derive(Debug, PartialEq, Eq, Clone)]
pub struct Extern {
    pub ty_def: TyDef,
    pub concrete_impls: Vec<ConcreteImpl>,
}

/// The name of a definition and its generic parameters.
#[derive(Debug, PartialEq, Eq, Clone)]
pub struct TyDef {
    pub name: String,
    pub generic_tys: Vec<GenericTy>,
}

/// A record.
#[derive(Debug, PartialEq, Eq, Clone)]
pub struct Struct {
    pub ty_def: TyDef,
    pub fields: Vec<Field>,
}

/// A field of a record.
#[derive(Debug, PartialEq, Eq, Clone)]
pub struct Field {
    pub name: String,
    pub ty: Ty,
}

/// A tagged union.
#[derive(Debug, PartialEq, Eq, Clone)]
pub struct Enum {
    pub ty_def: TyDef,
    pub variants: Vec<Variant>,
}

/// A variant of a tagged union, with or without a payload.
#[derive(Debug, PartialEq, Eq, Clone)]
pub struct Variant {
    pub name: String,
    pub ty: Option<Ty>,
}

/// A service: methods with one argument and one result each.
#[derive(Debug, PartialEq, Eq, Clone)]
pub struct Service {
    pub ty_def: TyDef,
    pub methods: Vec<Method>,
}

/// A method of a service.
#[derive(Debug, PartialEq, Eq, Clone)]
pub struct Method {
    pub name: String,
    pub arg_ty: Ty,
    pub return_ty: Ty,
}

/// A bus: one-way messages.
#[derive(Debug, PartialEq, Eq, Clone)]
pub struct Bus {
    pub ty_def: TyDef,
    pub msgs: Vec<Msg>,
}

/// A message of a bus.
#[derive(Debug, PartialEq, Eq, Clone)]
pub struct Msg {
    pub name: String,
    pub ty: Ty,
}

/// A type as it is written in a definition.
#[derive(Debug, PartialEq, Eq)]
pub enum Ty {
    U64,
    U32,
    U16,
    U8,
    I64,
    I32,
    I16,
    I8,
    F32,
    F64,
    Bool,
    Array { ty: Box<Ty>, len: usize },
    Unresolved { name: String, generic_args: Vec<GenericArg> },
    Extern(String),
}

/// A top-level definition.
#[derive(Debug, Clone)]
pub enum Expr {
    Struct(Struct),
    Enum(Enum),
    Service(Service),
    Bus(Bus),
    Extern(Extern),
}

impl GenericTy {
    /// The name of the parameter.
    pub open spec fn spec_name(self) -> Seq<char> {
        match self {
            GenericTy::Ty(name) => name@,
            GenericTy::Const { name, .. } => name@,
        }
    }

    /// The name of the parameter.
    pub fn name(&self) -> (name: &str)
        ensures
            name@ == self.spec_name(),
    {
        match self {
            GenericTy::Ty(name) => name.as_str(),
            GenericTy::Const { name, .. } => name.as_str(),
        }
    }
}

impl Expr {
    /// The name and generic parameters of the definition.
    pub open spec fn spec_ty_def(self) -> TyDef {
        match self {
            Expr::Struct(s) => s.ty_def,
            Expr::Enum(e) => e.ty_def,
            Expr::Bus(b) => b.ty_def,
            Expr::Service(s) => s.ty_def,
            Expr::Extern(e) => e.ty_def,
        }
    }

    /// The name and generic parameters of the definition.
    pub fn ty_def(&self) -> (def: &TyDef)
        ensures
            *def == self.spec_ty_def(),
    {
        match self {
            Expr::Struct(s) => &s.ty_def,
            Expr::Enum(e) => &e.ty_def,
            Expr::Bus(b) => &b.ty_def,
            Expr::Service(s) => &s.ty_def,
            Expr::Extern(e) => &e.ty_def,
        }
    }
}

} // verus!
