use crate::ast::{
    Bus, ConcreteImpl, Enum, Expr, Extern, Field, GenericArg, GenericTy, Method, Msg, Service,
    Struct, TemplateToken, Ty, TyDef, Variant,
};
use vstd::prelude::*;

verus! {

/// A type as it is written, with its names as texts.
pub enum TyV {
    U64,
    U32,
    U16,
    U8,
    I64,
    I32,
    I16,
    I8,
    F32,
    F64,
    Bool,
    Array { ty: Box<TyV>, len: usize },
    Unresolved { name: Seq<char>, generic_args: Seq<GenericArgV> },
    Extern(Seq<char>),
}

/// A generic argument, with its names as texts.
pub enum GenericArgV {
    Ty(TyV),
    Const(usize),
}

/// A generic parameter, with its names as texts.
pub enum GenericTyV {
    Ty(Seq<char>),
    Const { ty: TyV, name: Seq<char> },
}

/// The name of a definition and its generic parameters, as texts.
pub struct TyDefV {
    pub name: Seq<char>,
    pub generic_tys: Seq<GenericTyV>,
}

/// A field of a record, as texts.
pub struct FieldV {
    pub name: Seq<char>,
    pub ty: TyV,
}

/// A variant of a tagged union, as texts.
pub struct VariantV {
    pub name: Seq<char>,
    pub ty: Option<TyV>,
}

/// A method of a service, as texts.
pub struct MethodV {
    pub name: Seq<char>,
    pub arg_ty: TyV,
    pub return_ty: TyV,
}

/// A message of a bus, as texts.
pub struct MsgV {
    pub name: Seq<char>,
    pub ty: TyV,
}

/// A piece of the text of an extern type.
pub enum TemplateTokenV {
    Char(char),
    Template(Seq<char>),
}

/// The text of an extern type in one language.
pub struct ConcreteImplV {
    pub lang: Seq<char>,
    pub template: Seq<TemplateTokenV>,
}

/// A top-level definition, as texts.
pub enum ExprV {
    Struct { ty_def: TyDefV, fields: Seq<FieldV> },
    Enum { ty_def: TyDefV, variants: Seq<VariantV> },
    Service { ty_def: TyDefV, methods: Seq<MethodV> },
    Bus { ty_def: TyDefV, msgs: Seq<MsgV> },
    Extern { ty_def: TyDefV, concrete_impls: Seq<ConcreteImplV> },
}

/// The values of the items, one for one.
pub open spec fn views<T: View>(items: Seq<T>) -> Seq<T::V> {
    Seq::new(items.len(), |i: int| items[i]@)
}

/// The type with its names as texts.
pub open spec fn ty_view(ty: Ty) -> TyV
    decreases ty,
{
    match ty {
        Ty::U64 => TyV::U64,
        Ty::U32 => TyV::U32,
        Ty::U16 => TyV::U16,
        Ty::U8 => TyV::U8,
        Ty::I64 => TyV::I64,
        Ty::I32 => TyV::I32,
        Ty::I16 => TyV::I16,
        Ty::I8 => TyV::I8,
        Ty::F32 => TyV::F32,
        Ty::F64 => TyV::F64,
        Ty::Bool => TyV::Bool,
        Ty::Array { ty, len } => TyV::Array { ty: Box::new(ty_view(*ty)), len },
        Ty::Unresolved { name, generic_args } => TyV::Unresolved {
            name: name@,
            generic_args: Seq::new(
                generic_args@.len(),
                |i: int|
                    if 0 <= i < generic_args@.len() {
                        arg_view(generic_args@[i])
                    } else {
                        GenericArgV::Const(0)
                    },
            ),
        },
        Ty::Extern(text) => TyV::Extern(text@),
    }
}

/// The argument with its names as texts.
pub open spec fn arg_view(arg: GenericArg) -> GenericArgV
    decreases arg,
{
    match arg {
        GenericArg::Ty(ty) => GenericArgV::Ty(ty_view(ty)),
        GenericArg::Const(n) => GenericArgV::Const(n),
    }
}

impl View for Ty {
    type V = TyV;

    open spec fn view(&self) -> TyV {
        ty_view(*self)
    }
}

impl View for GenericArg {
    type V = GenericArgV;

    open spec fn view(&self) -> GenericArgV {
        arg_view(*self)
    }
}

/// A copy of the type.
pub fn copy_ty(ty: &Ty) -> (r: Ty)
    ensures
        r@ == ty@,
    decreases ty, 1nat,
{
    match ty {
        Ty::U64 => Ty::U64,
        Ty::U32 => Ty::U32,
        Ty::U16 => Ty::U16,
        Ty::U8 => Ty::U8,
        Ty::I64 => Ty::I64,
        Ty::I32 => Ty::I32,
        Ty::I16 => Ty::I16,
        Ty::I8 => Ty::I8,
        Ty::F32 => Ty::F32,
        Ty::F64 => Ty::F64,
        Ty::Bool => Ty::Bool,
        Ty::Array { ty: elem, len } => Ty::Array { ty: Box::new(copy_ty(elem)), len: *len },
        Ty::Unresolved { name, generic_args } => {
            let mut args: Vec<GenericArg> = Vec::new();
            let mut i: usize = 0;
            while i < generic_args.len()
                invariant
                    i <= generic_args.len(),
                    *ty == (Ty::Unresolved { name: *name, generic_args: *generic_args }),
                    args@.len() == i,
                    forall|j: int| 0 <= j < i ==> (#[trigger] args@[j])@ == generic_args@[j]@,
                decreases generic_args.len() - i,
            {
                proof {
                    assert(decreases_to!(*ty => ty->generic_args));
                    assert(decreases_to!(ty->generic_args => (ty->generic_args)@));
                    assert(decreases_to!((ty->generic_args)@ => (ty->generic_args)@[i as int]));
                }
                args.push(copy_arg(&generic_args[i]));
                i += 1;
            }
            let r = Ty::Unresolved { name: name.clone(), generic_args: args };
            assert(r@->generic_args =~= ty@->generic_args);
            r
        },
        Ty::Extern(text) => Ty::Extern(text.clone()),
    }
}

/// A copy of the generic argument.
pub fn copy_arg(arg: &GenericArg) -> (r: GenericArg)
    ensures
        r@ == arg@,
    decreases arg, 0nat,
{
    match arg {
        GenericArg::Ty(ty) => GenericArg::Ty(copy_ty(ty)),
        GenericArg::Const(n) => GenericArg::Const(*n),
    }
}

impl Clone for Ty {
    fn clone(&self) -> (r: Self)
        ensures
            r@ == self@,
    {
        copy_ty(self)
    }
}

impl Clone for GenericArg {
    fn clone(&self) -> (r: Self)
        ensures
            r@ == self@,
    {
        copy_arg(self)
    }
}

impl View for GenericTy {
    type V = GenericTyV;

    open spec fn view(&self) -> GenericTyV {
        match self {
            GenericTy::Ty(name) => GenericTyV::Ty(name@),
            GenericTy::Const { ty, name } => GenericTyV::Const { ty: ty@, name: name@ },
        }
    }
}

impl View for TyDef {
    type V = TyDefV;

    open spec fn view(&self) -> TyDefV {
        TyDefV { name: self.name@, generic_tys: views(self.generic_tys@) }
    }
}

impl View for Field {
    type V = FieldV;

    open spec fn view(&self) -> FieldV {
        FieldV { name: self.name@, ty: self.ty@ }
    }
}

impl View for Variant {
    type V = VariantV;

    open spec fn view(&self) -> VariantV {
        VariantV {
            name: self.name@,
            ty: match self.ty {
                Some(ty) => Some(ty@),
                None => None,
            },
        }
    }
}

impl View for Method {
    type V = MethodV;

    open spec fn view(&self) -> MethodV {
        MethodV { name: self.name@, arg_ty: self.arg_ty@, return_ty: self.return_ty@ }
    }
}

impl View for Msg {
    type V = MsgV;

    open spec fn view(&self) -> MsgV {
        MsgV { name: self.name@, ty: self.ty@ }
    }
}

impl View for TemplateToken {
    type V = TemplateTokenV;

    open spec fn view(&self) -> TemplateTokenV {
        match self {
            TemplateToken::Char(c) => TemplateTokenV::Char(*c),
            TemplateToken::Template(key) => TemplateTokenV::Template(key@),
        }
    }
}

impl View for ConcreteImpl {
    type V = ConcreteImplV;

    open spec fn view(&self) -> ConcreteImplV {
        ConcreteImplV { lang: self.lang@, template: views(self.template@) }
    }
}

impl View for Expr {
    type V = ExprV;

    open spec fn view(&self) -> ExprV {
        match self {
            Expr::Struct(s) => ExprV::Struct { ty_def: s.ty_def@, fields: views(s.fields@) },
            Expr::Enum(e) => ExprV::Enum { ty_def: e.ty_def@, variants: views(e.variants@) },
            Expr::Service(s) => ExprV::Service { ty_def: s.ty_def@, methods: views(s.methods@) },
            Expr::Bus(b) => ExprV::Bus { ty_def: b.ty_def@, msgs: views(b.msgs@) },
            Expr::Extern(e) => ExprV::Extern {
                ty_def: e.ty_def@,
                concrete_impls: views(e.concrete_impls@),
            },
        }
    }
}

} // verus!
