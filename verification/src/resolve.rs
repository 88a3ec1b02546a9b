use crate::ast::{
    Bus, ConcreteImpl, Enum, Expr, Field, GenericArg, GenericTy, Method, Msg, Service, Struct,
    TemplateToken, Ty, TyDef, Variant,
};
use crate::render::ty_to_rust;
use crate::text::{decimal, push_decimal};
use vstd::prelude::*;

verus! {

/// Why a type cannot be resolved.
#[derive(Debug, Clone, Copy, PartialEq, Eq, Structural)]
pub enum Failure {
    /// A generic parameter is used with generic arguments.
    GenericArgs,
    /// No definition has that name.
    UnknownType,
    /// The definition has another number of generic parameters.
    ArgCount { expected: usize, found: usize },
    /// The extern type has no text for Rust.
    RustImplMissing,
    /// The text of the extern type names a parameter that it does not have.
    TemplateKey,
}

/// A type that cannot be resolved: the reason, and the name concerned.
#[derive(Debug, PartialEq, Eq)]
pub struct ResolveError {
    pub kind: Failure,
    pub name: String,
}

/// What resolving needs to know of a definition: its name, the names of
/// its generic parameters, and for an extern type its text for Rust.
#[derive(Debug)]
pub struct Known {
    pub name: String,
    pub params: Vec<String>,
    pub is_extern: bool,
    pub rust: Option<Vec<TemplateToken>>,
}

/// Resolves the names in the types of a document against its definitions.
/// Where a name is defined more than once, the last definition counts.
#[derive(Debug)]
pub struct TyChecker {
    known_tys: Vec<Known>,
}

/// A type of a definition that cannot be resolved: the field, variant,
/// method side or message it belongs to, and the reason.
#[derive(Debug, PartialEq, Eq)]
pub struct FieldError {
    pub field: String,
    pub error: ResolveError,
}

/// The last text for the language `lang`.
pub open spec fn last_lang(impls: Seq<ConcreteImpl>, lang: Seq<char>) -> Option<int>
    decreases impls.len(),
{
    if impls.len() == 0 {
        None
    } else if impls.last().lang@ == lang {
        Some(impls.len() - 1)
    } else {
        last_lang(impls.drop_last(), lang)
    }
}

/// Whether `k` is what resolving needs to know of the definition `expr`.
pub open spec fn describes(k: Known, expr: Expr) -> bool {
    let def = expr.spec_ty_def();
    &&& k.name@ == def.name@
    &&& k.params@.len() == def.generic_tys@.len()
    &&& forall|i: int|
        0 <= i < k.params@.len() ==> (#[trigger] k.params@[i])@ == def.generic_tys@[i].spec_name()
    &&& k.is_extern == (expr is Extern)
    &&& match expr {
        Expr::Extern(e) => match last_lang(e.concrete_impls@, "rust"@) {
            Some(i) => k.rust is Some && k.rust->0@ == e.concrete_impls@[i].template@,
            None => k.rust is None,
        },
        _ => k.rust is None,
    }
}

/// The types of a definition, in reading order, each in its slot; a variant
/// without a payload is an empty slot.
pub open spec fn slots(expr: Expr) -> Seq<Option<Ty>> {
    match expr {
        Expr::Struct(s) => s.fields@.map_values(|f: Field| Some(f.ty)),
        Expr::Enum(e) => e.variants@.map_values(|v: Variant| v.ty),
        Expr::Service(s) => Seq::new(
            2 * s.methods@.len(),
            |i: int|
                Some(
                    if i % 2 == 0 {
                        s.methods@[i / 2].arg_ty
                    } else {
                        s.methods@[i / 2].return_ty
                    },
                ),
        ),
        Expr::Bus(b) => b.msgs@.map_values(|m: Msg| Some(m.ty)),
        Expr::Extern(_) => Seq::empty(),
    }
}

/// The name that an error in slot `i` of a definition is reported under:
/// the field or variant, `arg` or `ret` for the two sides of a method, `arg`
/// for a message.
pub open spec fn slot_name(expr: Expr, i: int) -> Seq<char> {
    match expr {
        Expr::Struct(s) => s.fields@[i].name@,
        Expr::Enum(e) => e.variants@[i].name@,
        Expr::Service(_) => if i % 2 == 0 {
            "arg"@
        } else {
            "ret"@
        },
        Expr::Bus(_) => "arg"@,
        Expr::Extern(_) => Seq::empty(),
    }
}

/// The first slot that cannot be resolved, with the reason.
pub open spec fn first_failure(
    known: Seq<Known>,
    generics: Seq<GenericTy>,
    tys: Seq<Option<Ty>>,
) -> Option<(int, (Failure, Seq<char>))>
    decreases tys.len(),
{
    if tys.len() == 0 {
        None
    } else {
        match first_failure(known, generics, tys.drop_last()) {
            Some(f) => Some(f),
            None => match tys.last() {
                Some(ty) => match failure(known, generics, ty) {
                    Some(f) => Some((tys.len() - 1, f)),
                    None => None,
                },
                None => None,
            },
        }
    }
}

/// Whether each slot of `after` is the slot of `before`, resolved.
pub open spec fn slots_resolve(
    known: Seq<Known>,
    generics: Seq<GenericTy>,
    before: Seq<Option<Ty>>,
    after: Seq<Option<Ty>>,
) -> bool {
    &&& after.len() == before.len()
    &&& forall|i: int|
        0 <= i < before.len() ==> match #[trigger] before[i] {
            Some(ty) => after[i] is Some && resolves(known, generics, ty, after[i]->0),
            None => after[i] is None,
        }
}

/// Whether `after` is the definition `before` with the same names and the
/// same shape.
pub open spec fn same_shape(before: Expr, after: Expr) -> bool {
    &&& after.spec_ty_def() == before.spec_ty_def()
    &&& match before {
        Expr::Struct(s) => after is Struct && after->Struct_0.fields@.len() == s.fields@.len()
            && forall|i: int|
            0 <= i < s.fields@.len() ==> (#[trigger] after->Struct_0.fields@[i]).name@
                == s.fields@[i].name@,
        Expr::Enum(e) => after is Enum && after->Enum_0.variants@.len() == e.variants@.len()
            && forall|i: int|
            0 <= i < e.variants@.len() ==> (#[trigger] after->Enum_0.variants@[i]).name@
                == e.variants@[i].name@,
        Expr::Service(s) => after is Service && after->Service_0.methods@.len()
            == s.methods@.len() && forall|i: int|
            0 <= i < s.methods@.len() ==> (#[trigger] after->Service_0.methods@[i]).name@
                == s.methods@[i].name@,
        Expr::Bus(b) => after is Bus && after->Bus_0.msgs@.len() == b.msgs@.len() && forall|i: int|
            0 <= i < b.msgs@.len() ==> (#[trigger] after->Bus_0.msgs@[i]).name@ == b.msgs@[i].name@,
        Expr::Extern(e) => after == before,
    }
}

/// The types in the first `n` slots of a definition, each with the name of
/// its slot; empty slots are left out.
pub open spec fn named_tys(expr: Expr, n: int) -> Seq<(Seq<char>, Ty)>
    decreases n,
{
    if n <= 0 {
        Seq::empty()
    } else {
        named_tys(expr, n - 1) + (match slots(expr)[n - 1] {
            Some(ty) => seq![(slot_name(expr, n - 1), ty)],
            None => Seq::empty(),
        })
    }
}

/// Whether `listed` holds exactly the names and types of `wanted`.
pub open spec fn lists(listed: Seq<(String, &Ty)>, wanted: Seq<(Seq<char>, Ty)>) -> bool {
    &&& listed.len() == wanted.len()
    &&& forall|i: int|
        0 <= i < listed.len() ==> (#[trigger] listed[i]).0@ == wanted[i].0 && *listed[i].1
            == wanted[i].1
}

impl Expr {
    /// The types that the definition mentions, in reading order, each with
    /// the name it is reported under: the fields of a record; the payloads
    /// of a tagged union; `arg` and `ret` for each method of a service;
    /// `arg` for each message of a bus; none for an extern type.
    pub fn field_tys(&self) -> (tys: Vec<(String, &Ty)>)
        ensures
            lists(tys@, named_tys(*self, slots(*self).len() as int)),
    {
        let mut tys: Vec<(String, &Ty)> = Vec::new();
        match self {
            Expr::Struct(s) => {
                let mut i: usize = 0;
                while i < s.fields.len()
                    invariant
                        i <= s.fields.len(),
                        *self == Expr::Struct(*s),
                        lists(tys@, named_tys(*self, i as int)),
                    decreases s.fields.len() - i,
                {
                    tys.push((s.fields[i].name.clone(), &s.fields[i].ty));
                    i += 1;
                }
            },
            Expr::Enum(e) => {
                let mut i: usize = 0;
                while i < e.variants.len()
                    invariant
                        i <= e.variants.len(),
                        *self == Expr::Enum(*e),
                        lists(tys@, named_tys(*self, i as int)),
                    decreases e.variants.len() - i,
                {
                    match &e.variants[i].ty {
                        Some(ty) => {
                            tys.push((e.variants[i].name.clone(), ty));
                        },
                        None => {},
                    }
                    i += 1;
                }
            },
            Expr::Service(s) => {
                let mut i: usize = 0;
                while i < s.methods.len()
                    invariant
                        i <= s.methods.len(),
                        *self == Expr::Service(*s),
                        lists(tys@, named_tys(*self, 2 * i)),
                    decreases s.methods.len() - i,
                {
                    proof {
                        assert(slots(*self)[2 * i] == Some(s.methods@[i as int].arg_ty));
                        assert(slots(*self)[2 * i + 1] == Some(s.methods@[i as int].return_ty));
                        assert(named_tys(*self, 2 * i + 2) == named_tys(*self, 2 * i + 1) + seq![
                            (slot_name(*self, 2 * i + 1), s.methods@[i as int].return_ty),
                        ]);
                    }
                    tys.push(("arg".to_string(), &s.methods[i].arg_ty));
                    tys.push(("ret".to_string(), &s.methods[i].return_ty));
                    i += 1;
                }
            },
            Expr::Bus(b) => {
                let mut i: usize = 0;
                while i < b.msgs.len()
                    invariant
                        i <= b.msgs.len(),
                        *self == Expr::Bus(*b),
                        lists(tys@, named_tys(*self, i as int)),
                    decreases b.msgs.len() - i,
                {
                    tys.push(("arg".to_string(), &b.msgs[i].ty));
                    i += 1;
                }
            },
            Expr::Extern(_) => {},
        }
        tys
    }
}

/// A failure among the first slots is the failure of all of them.
pub proof fn lemma_first_failure_prefix(
    known: Seq<Known>,
    generics: Seq<GenericTy>,
    tys: Seq<Option<Ty>>,
    n: int,
)
    requires
        0 <= n <= tys.len(),
        first_failure(known, generics, tys.take(n)) is Some,
    ensures
        first_failure(known, generics, tys) == first_failure(known, generics, tys.take(n)),
    decreases tys.len() - n,
{
    if n == tys.len() {
        assert(tys.take(n) =~= tys);
    } else {
        assert(tys.take(n + 1).drop_last() =~= tys.take(n));
        lemma_first_failure_prefix(known, generics, tys, n + 1);
    }
}

/// Whether `name` is one of the generic parameters.
pub open spec fn is_param(generics: Seq<GenericTy>, name: Seq<char>) -> bool {
    exists|i: int| 0 <= i < generics.len() && (#[trigger] generics[i]).spec_name() == name
}

/// The last definition with that name.
pub open spec fn last_named(known: Seq<Known>, name: Seq<char>) -> Option<int>
    decreases known.len(),
{
    if known.len() == 0 {
        None
    } else if known.last().name@ == name {
        Some(known.len() - 1)
    } else {
        last_named(known.drop_last(), name)
    }
}

/// The last parameter with that name.
pub open spec fn last_key(params: Seq<String>, key: Seq<char>) -> Option<int>
    decreases params.len(),
{
    if params.len() == 0 {
        None
    } else if params.last()@ == key {
        Some(params.len() - 1)
    } else {
        last_key(params.drop_last(), key)
    }
}

/// The first token of the text that names a parameter which is not there.
pub open spec fn template_failure(template: Seq<TemplateToken>, params: Seq<String>) -> Option<
    (Failure, Seq<char>),
>
    decreases template.len(),
{
    if template.len() == 0 {
        None
    } else {
        match template_failure(template.drop_last(), params) {
            Some(f) => Some(f),
            None => match template.last() {
                TemplateToken::Char(_) => None,
                TemplateToken::Template(key) => if last_key(params, key@) is None {
                    Some((Failure::TemplateKey, key@))
                } else {
                    None
                },
            },
        }
    }
}

/// The text with each parameter replaced by the Rust spelling of its
/// argument.
pub open spec fn expansion(
    template: Seq<TemplateToken>,
    params: Seq<String>,
    texts: Seq<Seq<char>>,
) -> Seq<char>
    decreases template.len(),
{
    if template.len() == 0 {
        Seq::empty()
    } else {
        expansion(template.drop_last(), params, texts) + (match template.last() {
            TemplateToken::Char(c) => seq![c],
            TemplateToken::Template(key) => match last_key(params, key@) {
                Some(i) => texts[i],
                None => Seq::empty(),
            },
        })
    }
}

/// The Rust spelling of each argument.
pub open spec fn texts_of(args: Seq<GenericArg>) -> Seq<Seq<char>> {
    Seq::new(args.len(), |i: int| args[i].rust())
}

/// The texts, separated by commas.
pub open spec fn joined(texts: Seq<Seq<char>>) -> Seq<char>
    decreases texts.len(),
{
    if texts.len() == 0 {
        Seq::empty()
    } else if texts.len() == 1 {
        texts[0]
    } else {
        joined(texts.drop_last()) + seq![','] + texts.last()
    }
}

/// The Rust spelling of the type once its names are resolved.
pub open spec fn spelled(known: Seq<Known>, generics: Seq<GenericTy>, ty: Ty) -> Seq<char>
    decreases ty,
{
    match ty {
        Ty::Array { ty, len } => seq!['['] + spelled(known, generics, *ty) + "; "@ + decimal(
            len as nat,
        ) + seq![']'],
        Ty::Unresolved { name, generic_args } => {
            if is_param(generics, name@) {
                name@
            } else {
                match last_named(known, name@) {
                    None => name@,
                    Some(k) => {
                        let texts = args_spelled(known, generics, generic_args@);
                        if known[k].is_extern {
                            match known[k].rust {
                                None => name@,
                                Some(template) => expansion(template@, known[k].params@, texts),
                            }
                        } else if generic_args@.len() == 0 {
                            name@
                        } else {
                            name@ + seq!['<'] + joined(texts) + seq!['>']
                        }
                    },
                }
            }
        },
        _ => ty.rust(),
    }
}

/// The Rust spelling of each argument once its names are resolved.
pub open spec fn args_spelled(known: Seq<Known>, generics: Seq<GenericTy>, args: Seq<GenericArg>)
    -> Seq<Seq<char>>
    decreases args,
{
    if args.len() == 0 {
        Seq::empty()
    } else {
        args_spelled(known, generics, args.drop_last()).push(
            match args.last() {
                GenericArg::Ty(ty) => spelled(known, generics, ty),
                GenericArg::Const(n) => decimal(n as nat),
            },
        )
    }
}

/// The first reason, in reading order, why the type cannot be resolved; none
/// where it can.
pub open spec fn failure(known: Seq<Known>, generics: Seq<GenericTy>, ty: Ty) -> Option<
    (Failure, Seq<char>),
>
    decreases ty,
{
    match ty {
        Ty::Array { ty, .. } => failure(known, generics, *ty),
        Ty::Unresolved { name, generic_args } => {
            if is_param(generics, name@) {
                if generic_args@.len() != 0 {
                    Some((Failure::GenericArgs, name@))
                } else {
                    None
                }
            } else {
                match last_named(known, name@) {
                    None => Some((Failure::UnknownType, name@)),
                    Some(k) => {
                        if known[k].params@.len() != generic_args@.len() {
                            Some(
                                (
                                    Failure::ArgCount {
                                        expected: known[k].params@.len() as usize,
                                        found: generic_args@.len() as usize,
                                    },
                                    name@,
                                ),
                            )
                        } else {
                            match args_failure(known, generics, generic_args@) {
                                Some(f) => Some(f),
                                None => {
                                    if known[k].is_extern {
                                        match known[k].rust {
                                            None => Some((Failure::RustImplMissing, name@)),
                                            Some(template) => template_failure(
                                                template@,
                                                known[k].params@,
                                            ),
                                        }
                                    } else {
                                        None
                                    }
                                },
                            }
                        }
                    },
                }
            }
        },
        _ => None,
    }
}

/// The first reason why one of the arguments cannot be resolved.
pub open spec fn args_failure(known: Seq<Known>, generics: Seq<GenericTy>, args: Seq<GenericArg>)
    -> Option<(Failure, Seq<char>)>
    decreases args,
{
    if args.len() == 0 {
        None
    } else {
        match args_failure(known, generics, args.drop_last()) {
            Some(f) => Some(f),
            None => match args.last() {
                GenericArg::Ty(ty) => failure(known, generics, ty),
                GenericArg::Const(_) => None,
            },
        }
    }
}

/// Whether `after` is `before` with its names resolved: a use of an extern
/// type has become its text for Rust, with the resolved arguments filled in;
/// everything else is as it was.
pub open spec fn resolves(known: Seq<Known>, generics: Seq<GenericTy>, before: Ty, after: Ty)
    -> bool
    decreases before, 0nat,
{
    match before {
        Ty::Array { ty, len } => {
            &&& after is Array
            &&& after->len == len
            &&& resolves(known, generics, *ty, *after->ty)
        },
        Ty::Unresolved { name, generic_args } => resolves_named(
            known,
            generics,
            name@,
            generic_args@,
            after,
        ),
        Ty::Extern(text) => after is Extern && after->Extern_0@ == text@,
        Ty::U64 => after is U64,
        Ty::U32 => after is U32,
        Ty::U16 => after is U16,
        Ty::U8 => after is U8,
        Ty::I64 => after is I64,
        Ty::I32 => after is I32,
        Ty::I16 => after is I16,
        Ty::I8 => after is I8,
        Ty::F32 => after is F32,
        Ty::F64 => after is F64,
        Ty::Bool => after is Bool,
    }
}

/// Whether `after` is the resolved use of the name `name` with the
/// arguments `args`.
pub open spec fn resolves_named(
    known: Seq<Known>,
    generics: Seq<GenericTy>,
    name: Seq<char>,
    args: Seq<GenericArg>,
    after: Ty,
) -> bool
    decreases args, 1nat,
{
    if is_param(generics, name) {
        &&& after is Unresolved
        &&& after->name@ == name
        &&& after->generic_args@.len() == 0
    } else {
        match last_named(known, name) {
            None => false,
            Some(k) => {
                if known[k].is_extern {
                    &&& after is Extern
                    &&& known[k].rust is Some
                    &&& after->Extern_0@ == expansion(
                        known[k].rust->0@,
                        known[k].params@,
                        args_spelled(known, generics, args),
                    )
                } else {
                    &&& after is Unresolved
                    &&& after->name@ == name
                    &&& args_resolve(known, generics, args, after->generic_args@)
                }
            },
        }
    }
}

/// Whether `after` holds the arguments of `before`, each resolved.
pub open spec fn args_resolve(
    known: Seq<Known>,
    generics: Seq<GenericTy>,
    before: Seq<GenericArg>,
    after: Seq<GenericArg>,
) -> bool
    decreases before, 0nat,
{
    &&& after.len() == before.len()
    &&& forall|i: int|
        0 <= i < before.len() ==> match before[i] {
            GenericArg::Ty(ty) => (#[trigger] after[i]) is Ty && resolves(
                known,
                generics,
                ty,
                after[i]->Ty_0,
            ),
            GenericArg::Const(n) => after[i] == GenericArg::Const(n),
        }
}

/// A failure among the first arguments is the failure of all of them.
pub proof fn lemma_args_failure_prefix(
    known: Seq<Known>,
    generics: Seq<GenericTy>,
    args: Seq<GenericArg>,
    n: int,
)
    requires
        0 <= n <= args.len(),
        args_failure(known, generics, args.take(n)) is Some,
    ensures
        args_failure(known, generics, args) == args_failure(known, generics, args.take(n)),
    decreases args.len() - n,
{
    if n == args.len() {
        assert(args.take(n) =~= args);
    } else {
        assert(args.take(n + 1).drop_last() =~= args.take(n));
        lemma_args_failure_prefix(known, generics, args, n + 1);
    }
}

/// A failure among the first tokens is the failure of all of them.
pub proof fn lemma_template_failure_prefix(
    template: Seq<TemplateToken>,
    params: Seq<String>,
    n: int,
)
    requires
        0 <= n <= template.len(),
        template_failure(template.take(n), params) is Some,
    ensures
        template_failure(template, params) == template_failure(template.take(n), params),
    decreases template.len() - n,
{
    if n == template.len() {
        assert(template.take(n) =~= template);
    } else {
        assert(template.take(n + 1).drop_last() =~= template.take(n));
        lemma_template_failure_prefix(template, params, n + 1);
    }
}

/// The arguments of a resolved use are spelled as the arguments of the use
/// are once resolved.
pub proof fn lemma_args_spelled(
    known: Seq<Known>,
    generics: Seq<GenericTy>,
    before: Seq<GenericArg>,
    after: Seq<GenericArg>,
)
    requires
        args_resolve(known, generics, before, after),
        args_failure(known, generics, before) is None,
    ensures
        texts_of(after) == args_spelled(known, generics, before),
        crate::render::args_rust(after) == joined(args_spelled(known, generics, before)),
    decreases before, 0nat,
{
    if before.len() == 0 {
        assert(texts_of(after) =~= args_spelled(known, generics, before));
    } else {
        let b = before.drop_last();
        let a = after.drop_last();
        assert(args_resolve(known, generics, b, a)) by {
            assert forall|i: int| 0 <= i < b.len() implies match b[i] {
                GenericArg::Ty(ty) => (#[trigger] a[i]) is Ty && resolves(
                    known,
                    generics,
                    ty,
                    a[i]->Ty_0,
                ),
                GenericArg::Const(n) => a[i] == GenericArg::Const(n),
            } by {
                assert(b[i] == before[i]);
                assert(a[i] == after[i]);
            }
        }
        lemma_args_spelled(known, generics, b, a);
        let i = before.len() - 1;
        assert(before.last() == before[i]);
        assert(after.last() == after[i]);
        match before[i] {
            GenericArg::Ty(ty) => {
                lemma_spelled(known, generics, ty, after[i]->Ty_0);
            },
            GenericArg::Const(n) => {},
        }
        assert(texts_of(a).push(after.last().rust()) =~= texts_of(after));
        assert(texts_of(after) =~= args_spelled(known, generics, before));
        let texts = texts_of(after);
        assert(texts.drop_last() =~= texts_of(a));
        if before.len() == 1 {
            assert(joined(texts) == texts[0]);
            assert(crate::render::args_rust(after) == after[0].rust());
        }
    }
}

/// A resolved type is spelled as the type is once resolved.
pub proof fn lemma_spelled(known: Seq<Known>, generics: Seq<GenericTy>, before: Ty, after: Ty)
    requires
        resolves(known, generics, before, after),
        failure(known, generics, before) is None,
    ensures
        after.rust() == spelled(known, generics, before),
    decreases before, 1nat,
{
    match before {
        Ty::Array { ty, len } => {
            lemma_spelled(known, generics, *ty, *after->ty);
        },
        Ty::Unresolved { name, generic_args } => {
            assert(resolves_named(known, generics, name@, generic_args@, after));
            if is_param(generics, name@) {
            } else {
                let k = last_named(known, name@)->0;
                if known[k].is_extern {
                } else {
                    lemma_args_spelled(known, generics, generic_args@, after->generic_args@);
                }
            }
        },
        _ => {},
    }
}

/// Whether one of the generic parameters has that name.
pub fn has_param(generics: &Vec<GenericTy>, name: &String) -> (found: bool)
    ensures
        found == is_param(generics@, name@),
{
    let mut i: usize = 0;
    while i < generics.len()
        invariant
            i <= generics.len(),
            forall|j: int| 0 <= j < i ==> (#[trigger] generics@[j]).spec_name() != name@,
        decreases generics.len() - i,
    {
        let same = match &generics[i] {
            GenericTy::Ty(n) => *n == *name,
            GenericTy::Const { name: n, .. } => *n == *name,
        };
        if same {
            return true;
        }
        i += 1;
    }
    false
}

/// Finds the last definition with that name.
pub fn find_known(known: &Vec<Known>, name: &String) -> (found: Option<usize>)
    ensures
        found matches Some(k) ==> last_named(known@, name@) == Some(k as int) && k < known@.len(),
        found is None ==> last_named(known@, name@) is None,
{
    let mut i: usize = known.len();
    assert(known@.take(i as int) =~= known@);
    while i > 0
        invariant
            i <= known.len(),
            last_named(known@, name@) == last_named(known@.take(i as int), name@),
        decreases i,
    {
        proof {
            assert(known@.take(i as int).drop_last() =~= known@.take(i - 1));
        }
        if known[i - 1].name == *name {
            return Some(i - 1);
        }
        i -= 1;
    }
    None
}

/// Finds the last parameter with that name.
pub fn find_key(params: &Vec<String>, key: &String) -> (found: Option<usize>)
    ensures
        found matches Some(k) ==> last_key(params@, key@) == Some(k as int) && k < params@.len(),
        found is None ==> last_key(params@, key@) is None,
{
    let mut i: usize = params.len();
    assert(params@.take(i as int) =~= params@);
    while i > 0
        invariant
            i <= params.len(),
            last_key(params@, key@) == last_key(params@.take(i as int), key@),
        decreases i,
    {
        proof {
            assert(params@.take(i as int).drop_last() =~= params@.take(i - 1));
        }
        if params[i - 1] == *key {
            return Some(i - 1);
        }
        i -= 1;
    }
    None
}

/// A copy of the text of an extern type for Rust: the last entry for the
/// language `rust`, or none.
pub fn rust_template(impls: &Vec<ConcreteImpl>) -> (found: Option<Vec<TemplateToken>>)
    ensures
        match last_lang(impls@, "rust"@) {
            Some(i) => found is Some && found->0@ == impls@[i].template@,
            None => found is None,
        },
{
    let rust = "rust".to_string();
    let mut i: usize = impls.len();
    assert(impls@.take(i as int) =~= impls@);
    while i > 0
        invariant
            i <= impls.len(),
            rust@ == "rust"@,
            last_lang(impls@, "rust"@) == last_lang(impls@.take(i as int), "rust"@),
        decreases i,
    {
        proof {
            assert(impls@.take(i as int).drop_last() =~= impls@.take(i - 1));
        }
        if impls[i - 1].lang == rust {
            let template = &impls[i - 1].template;
            let mut copy: Vec<TemplateToken> = Vec::new();
            let mut j: usize = 0;
            while j < template.len()
                invariant
                    j <= template.len(),
                    copy@ == template@.take(j as int),
                decreases template.len() - j,
            {
                let token = match &template[j] {
                    TemplateToken::Char(c) => TemplateToken::Char(*c),
                    TemplateToken::Template(key) => TemplateToken::Template(key.clone()),
                };
                copy.push(token);
                j += 1;
                assert(copy@ =~= template@.take(j as int));
            }
            assert(template@.take(j as int) =~= template@);
            return Some(copy);
        }
        i -= 1;
    }
    None
}

/// Fills the Rust spelling of the arguments into the text of an extern
/// type.
pub fn expand(template: &Vec<TemplateToken>, params: &Vec<String>, args: &Vec<GenericArg>) -> (r:
    Result<String, ResolveError>)
    requires
        params@.len() == args@.len(),
    ensures
        match r {
            Ok(text) => template_failure(template@, params@) is None && text@ == expansion(
                template@,
                params@,
                texts_of(args@),
            ),
            Err(e) => template_failure(template@, params@) == Some((e.kind, e.name@)),
        },
{
    let mut text = String::new();
    let mut i: usize = 0;
    while i < template.len()
        invariant
            i <= template.len(),
            params@.len() == args@.len(),
            template_failure(template@.take(i as int), params@) is None,
            text@ == expansion(template@.take(i as int), params@, texts_of(args@)),
        decreases template.len() - i,
    {
        proof {
            assert(template@.take(i + 1).drop_last() =~= template@.take(i as int));
        }
        match &template[i] {
            TemplateToken::Char(c) => {
                text.push(*c);
            },
            TemplateToken::Template(key) => {
                match find_key(params, key) {
                    Some(k) => {
                        let spelled = args[k].to_rust();
                        text.push_str(spelled.as_str());
                    },
                    None => {
                        proof {
                            lemma_template_failure_prefix(template@, params@, i + 1);
                        }
                        return Err(ResolveError { kind: Failure::TemplateKey, name: key.clone() });
                    },
                }
            },
        }
        i += 1;
        assert(text@ =~= expansion(template@.take(i as int), params@, texts_of(args@)));
    }
    proof {
        assert(template@.take(i as int) =~= template@);
    }
    Ok(text)
}

impl ResolveError {
    /// The text that describes this error.
    pub open spec fn text(self) -> Seq<char> {
        match self.kind {
            Failure::GenericArgs => "can't use generic args in this place"@,
            Failure::UnknownType => "unknown type "@ + self.name@,
            Failure::ArgCount { expected, found } => self.name@ + " expects "@ + decimal(
                expected as nat,
            ) + " generic args not "@ + decimal(found as nat),
            Failure::RustImplMissing => "rust impl missing"@,
            Failure::TemplateKey => "invalid template key "@ + self.name@,
        }
    }

    /// Renders the error as a sentence.
    pub fn message(&self) -> (s: String)
        ensures
            s@ == self.text(),
    {
        match self.kind {
            Failure::GenericArgs => "can't use generic args in this place".to_string(),
            Failure::UnknownType => {
                let mut s = "unknown type ".to_string();
                s.push_str(self.name.as_str());
                s
            },
            Failure::ArgCount { expected, found } => {
                let mut s = self.name.clone();
                s.push_str(" expects ");
                push_decimal(&mut s, expected);
                s.push_str(" generic args not ");
                push_decimal(&mut s, found);
                s
            },
            Failure::RustImplMissing => "rust impl missing".to_string(),
            Failure::TemplateKey => {
                let mut s = "invalid template key ".to_string();
                s.push_str(self.name.as_str());
                s
            },
        }
    }
}

impl TyChecker {
    /// The definitions seen so far.
    pub closed spec fn known(self) -> Seq<Known> {
        self.known_tys@
    }

    /// A checker that knows no definition.
    pub fn new() -> (checker: Self)
        ensures
            checker.known() == Seq::<Known>::empty(),
    {
        TyChecker { known_tys: Vec::new() }
    }

    /// Takes note of a definition that types can name: a record, a tagged
    /// union or an extern type. Services and buses are no types.
    pub fn visit_expr(&mut self, expr: &Expr)
        ensures
            (*expr is Bus || *expr is Service) ==> final(self).known() == old(self).known(),
            !(*expr is Bus || *expr is Service) ==> {
                &&& final(self).known().len() == old(self).known().len() + 1
                &&& final(self).known().drop_last() == old(self).known()
                &&& describes(final(self).known().last(), *expr)
            },
    {
        let rust = match expr {
            Expr::Bus(_) => {
                return ;
            },
            Expr::Service(_) => {
                return ;
            },
            Expr::Extern(e) => rust_template(&e.concrete_impls),
            _ => None,
        };
        let def = expr.ty_def();
        let mut params: Vec<String> = Vec::new();
        let mut i: usize = 0;
        while i < def.generic_tys.len()
            invariant
                i <= def.generic_tys.len(),
                params@.len() == i,
                forall|j: int|
                    0 <= j < i ==> (#[trigger] params@[j])@ == def.generic_tys@[j].spec_name(),
            decreases def.generic_tys.len() - i,
        {
            let name = match &def.generic_tys[i] {
                GenericTy::Ty(n) => n.clone(),
                GenericTy::Const { name: n, .. } => n.clone(),
            };
            params.push(name);
            i += 1;
        }
        let is_extern = match expr {
            Expr::Extern(_) => true,
            _ => false,
        };
        let k = Known { name: def.name.clone(), params, is_extern, rust };
        assert(describes(k, *expr));
        self.known_tys.push(k);
        assert(self.known_tys@.drop_last() =~= old(self).known_tys@);
    }

    /// Resolves every type of a definition against the definitions seen and
    /// the generic parameters of the definition. Where one cannot be
    /// resolved, the first such is the error, reported under the name of its
    /// slot, and the definition stays as it was.
    pub fn resolve_expr(&self, expr: &mut Expr) -> (r: Result<(), FieldError>)
        ensures
            match r {
                Ok(()) => {
                    &&& first_failure(
                        self.known(),
                        old(expr).spec_ty_def().generic_tys@,
                        slots(*old(expr)),
                    ) is None
                    &&& same_shape(*old(expr), *final(expr))
                    &&& slots_resolve(
                        self.known(),
                        old(expr).spec_ty_def().generic_tys@,
                        slots(*old(expr)),
                        slots(*final(expr)),
                    )
                },
                Err(err) => {
                    &&& *final(expr) == *old(expr)
                    &&& first_failure(
                        self.known(),
                        old(expr).spec_ty_def().generic_tys@,
                        slots(*old(expr)),
                    ) matches Some((i, f))
                    &&& f == (err.error.kind, err.error.name@)
                    &&& err.field@ == slot_name(*old(expr), i)
                },
            },
    {
        match expr {
            Expr::Struct(s) => {
                let fields = self.resolve_fields(s)?;
                s.fields = fields;
                Ok(())
            },
            Expr::Enum(e) => {
                let variants = self.resolve_variants(e)?;
                e.variants = variants;
                Ok(())
            },
            Expr::Service(s) => {
                let ghost before = slots(Expr::Service(*s));
                let methods = self.resolve_methods(s)?;
                s.methods = methods;
                proof {
                    let after = slots(Expr::Service(*s));
                    assert forall|j: int| 0 <= j < before.len() implies match #[trigger] before[j] {
                        Some(ty) => after[j] is Some && resolves(
                            self.known(),
                            s.ty_def.generic_tys@,
                            ty,
                            after[j]->0,
                        ),
                        None => after[j] is None,
                    } by {
                        let m = j / 2;
                        assert(0 <= m < s.methods@.len());
                        assert(s.methods@[m].name@ == old(expr)->Service_0.methods@[m].name@);
                    }
                }
                Ok(())
            },
            Expr::Bus(b) => {
                let msgs = self.resolve_msgs(b)?;
                b.msgs = msgs;
                Ok(())
            },
            Expr::Extern(_) => Ok(()),
        }
    }

    /// Resolves the types of the fields of a record.
    pub fn resolve_fields(&self, s: &Struct) -> (r: Result<Vec<Field>, FieldError>)
        ensures
            match r {
                Ok(fields) => {
                    &&& first_failure(
                        self.known(),
                        s.ty_def.generic_tys@,
                        slots(Expr::Struct(*s)),
                    ) is None
                    &&& fields@.len() == s.fields@.len()
                    &&& forall|j: int|
                        0 <= j < fields@.len() ==> (#[trigger] fields@[j]).name@
                            == s.fields@[j].name@ && resolves(
                            self.known(),
                            s.ty_def.generic_tys@,
                            s.fields@[j].ty,
                            fields@[j].ty,
                        )
                },
                Err(err) => {
                    &&& first_failure(
                        self.known(),
                        s.ty_def.generic_tys@,
                        slots(Expr::Struct(*s)),
                    ) matches Some((i, f))
                    &&& f == (err.error.kind, err.error.name@)
                    &&& err.field@ == slot_name(Expr::Struct(*s), i)
                },
            },
    {
        let ghost before = slots(Expr::Struct(*s));
        let ghost generics = s.ty_def.generic_tys@;
        let mut fields: Vec<Field> = Vec::new();
        let mut i: usize = 0;
        while i < s.fields.len()
            invariant
                i <= s.fields.len(),
                before == slots(Expr::Struct(*s)),
                generics == s.ty_def.generic_tys@,
                fields@.len() == i,
                first_failure(self.known(), generics, before.take(i as int)) is None,
                forall|j: int|
                    0 <= j < i ==> (#[trigger] fields@[j]).name@ == s.fields@[j].name@
                        && resolves(self.known(), generics, s.fields@[j].ty, fields@[j].ty),
            decreases s.fields.len() - i,
        {
            proof {
                assert(before.take(i + 1).drop_last() =~= before.take(i as int));
            }
            match self.resolve_ty(&s.fields[i].ty, &s.ty_def.generic_tys) {
                Ok(ty) => {
                    fields.push(Field { name: s.fields[i].name.clone(), ty });
                },
                Err(error) => {
                    proof {
                        let upto = before.take(i + 1);
                        assert(upto.last() == Some(s.fields@[i as int].ty));
                        assert(first_failure(self.known(), generics, upto) == Some(
                            (i as int, (error.kind, error.name@)),
                        ));
                        lemma_first_failure_prefix(self.known(), generics, before, i + 1);
                    }
                    return Err(FieldError { field: s.fields[i].name.clone(), error });
                },
            }
            i += 1;
        }
        proof {
            assert(before.take(i as int) =~= before);
        }
        Ok(fields)
    }

    /// Resolves the types of the payloads of a tagged union.
    pub fn resolve_variants(&self, e: &Enum) -> (r: Result<Vec<Variant>, FieldError>)
        ensures
            match r {
                Ok(variants) => {
                    &&& first_failure(
                        self.known(),
                        e.ty_def.generic_tys@,
                        slots(Expr::Enum(*e)),
                    ) is None
                    &&& variants@.len() == e.variants@.len()
                    &&& forall|j: int|
                        0 <= j < variants@.len() ==> (#[trigger] variants@[j]).name@
                            == e.variants@[j].name@ && match e.variants@[j].ty {
                            Some(ty) => variants@[j].ty is Some && resolves(
                                self.known(),
                                e.ty_def.generic_tys@,
                                ty,
                                variants@[j].ty->0,
                            ),
                            None => variants@[j].ty is None,
                        }
                },
                Err(err) => {
                    &&& first_failure(
                        self.known(),
                        e.ty_def.generic_tys@,
                        slots(Expr::Enum(*e)),
                    ) matches Some((i, f))
                    &&& f == (err.error.kind, err.error.name@)
                    &&& err.field@ == slot_name(Expr::Enum(*e), i)
                },
            },
    {
        let ghost before = slots(Expr::Enum(*e));
        let ghost generics = e.ty_def.generic_tys@;
        let mut variants: Vec<Variant> = Vec::new();
        let mut i: usize = 0;
        while i < e.variants.len()
            invariant
                i <= e.variants.len(),
                before == slots(Expr::Enum(*e)),
                generics == e.ty_def.generic_tys@,
                variants@.len() == i,
                first_failure(self.known(), generics, before.take(i as int)) is None,
                forall|j: int|
                    0 <= j < i ==> (#[trigger] variants@[j]).name@ == e.variants@[j].name@
                        && match e.variants@[j].ty {
                        Some(ty) => variants@[j].ty is Some && resolves(
                            self.known(),
                            generics,
                            ty,
                            variants@[j].ty->0,
                        ),
                        None => variants@[j].ty is None,
                    },
            decreases e.variants.len() - i,
        {
            proof {
                assert(before.take(i + 1).drop_last() =~= before.take(i as int));
            }
            let ty = match &e.variants[i].ty {
                Some(ty) => {
                    match self.resolve_ty(ty, &e.ty_def.generic_tys) {
                        Ok(ty) => Some(ty),
                        Err(error) => {
                            proof {
                        let upto = before.take(i + 1);
                        assert(upto.last() == Some(e.variants@[i as int].ty->0));
                        assert(first_failure(self.known(), generics, upto) == Some(
                            (i as int, (error.kind, error.name@)),
                        ));
                                lemma_first_failure_prefix(
                                    self.known(),
                                    generics,
                                    before,
                                    i + 1,
                                );
                            }
                            return Err(
                                FieldError { field: e.variants[i].name.clone(), error },
                            );
                        },
                    }
                },
                None => None,
            };
            variants.push(Variant { name: e.variants[i].name.clone(), ty });
            i += 1;
        }
        proof {
            assert(before.take(i as int) =~= before);
        }
        Ok(variants)
    }

    /// Resolves the types of the arguments and results of the methods of a service.
    pub fn resolve_methods(&self, s: &Service) -> (r: Result<Vec<Method>, FieldError>)
        ensures
            match r {
                Ok(methods) => {
                    &&& first_failure(
                        self.known(),
                        s.ty_def.generic_tys@,
                        slots(Expr::Service(*s)),
                    ) is None
                    &&& methods@.len() == s.methods@.len()
                    &&& forall|j: int|
                        0 <= j < methods@.len() ==> (#[trigger] methods@[j]).name@
                            == s.methods@[j].name@ && resolves(
                            self.known(),
                            s.ty_def.generic_tys@,
                            s.methods@[j].arg_ty,
                            methods@[j].arg_ty,
                        ) && resolves(
                            self.known(),
                            s.ty_def.generic_tys@,
                            s.methods@[j].return_ty,
                            methods@[j].return_ty,
                        )
                },
                Err(err) => {
                    &&& first_failure(
                        self.known(),
                        s.ty_def.generic_tys@,
                        slots(Expr::Service(*s)),
                    ) matches Some((i, f))
                    &&& f == (err.error.kind, err.error.name@)
                    &&& err.field@ == slot_name(Expr::Service(*s), i)
                },
            },
    {
        let ghost before = slots(Expr::Service(*s));
        let ghost generics = s.ty_def.generic_tys@;
        let mut methods: Vec<Method> = Vec::new();
        let mut i: usize = 0;
        while i < s.methods.len()
            invariant
                i <= s.methods.len(),
                before == slots(Expr::Service(*s)),
                generics == s.ty_def.generic_tys@,
                methods@.len() == i,
                first_failure(self.known(), generics, before.take(2 * i)) is None,
                forall|j: int|
                    0 <= j < i ==> (#[trigger] methods@[j]).name@ == s.methods@[j].name@
                        && resolves(
                        self.known(),
                        generics,
                        s.methods@[j].arg_ty,
                        methods@[j].arg_ty,
                    ) && resolves(
                        self.known(),
                        generics,
                        s.methods@[j].return_ty,
                        methods@[j].return_ty,
                    ),
            decreases s.methods.len() - i,
        {
            proof {
                assert(before.take(2 * i + 1).drop_last() =~= before.take(2 * i));
                assert(before.take(2 * i + 2).drop_last() =~= before.take(2 * i + 1));
                assert(before[2 * i] == Some(s.methods@[i as int].arg_ty));
                assert(before[2 * i + 1] == Some(s.methods@[i as int].return_ty));
            }
            let arg_ty = match self.resolve_ty(&s.methods[i].arg_ty, &s.ty_def.generic_tys) {
                Ok(ty) => ty,
                Err(error) => {
                    proof {
                        let upto = before.take(2 * i + 1);
                        assert(upto.last() == Some(s.methods@[i as int].arg_ty));
                        assert(first_failure(self.known(), generics, upto) == Some(
                            (2 * i as int, (error.kind, error.name@)),
                        ));
                        lemma_first_failure_prefix(
                            self.known(),
                            generics,
                            before,
                            2 * i + 1,
                        );
                    }
                    return Err(FieldError { field: "arg".to_string(), error });
                },
            };
            let return_ty = match self.resolve_ty(
                &s.methods[i].return_ty,
                &s.ty_def.generic_tys,
            ) {
                Ok(ty) => ty,
                Err(error) => {
                    proof {
                        let upto = before.take(2 * i + 2);
                        assert(upto.last() == Some(s.methods@[i as int].return_ty));
                        assert(first_failure(self.known(), generics, upto) == Some(
                            (2 * i + 1, (error.kind, error.name@)),
                        ));
                        lemma_first_failure_prefix(
                            self.known(),
                            generics,
                            before,
                            2 * i + 2,
                        );
                    }
                    return Err(FieldError { field: "ret".to_string(), error });
                },
            };
            methods.push(Method { name: s.methods[i].name.clone(), arg_ty, return_ty });
            i += 1;
        }
        proof {
            assert(before.take(2 * i) =~= before);
        }
        Ok(methods)
    }

    /// Resolves the types of the messages of a bus.
    pub fn resolve_msgs(&self, b: &Bus) -> (r: Result<Vec<Msg>, FieldError>)
        ensures
            match r {
                Ok(msgs) => {
                    &&& first_failure(
                        self.known(),
                        b.ty_def.generic_tys@,
                        slots(Expr::Bus(*b)),
                    ) is None
                    &&& msgs@.len() == b.msgs@.len()
                    &&& forall|j: int|
                        0 <= j < msgs@.len() ==> (#[trigger] msgs@[j]).name@ == b.msgs@[j].name@
                            && resolves(
                            self.known(),
                            b.ty_def.generic_tys@,
                            b.msgs@[j].ty,
                            msgs@[j].ty,
                        )
                },
                Err(err) => {
                    &&& first_failure(
                        self.known(),
                        b.ty_def.generic_tys@,
                        slots(Expr::Bus(*b)),
                    ) matches Some((i, f))
                    &&& f == (err.error.kind, err.error.name@)
                    &&& err.field@ == slot_name(Expr::Bus(*b), i)
                },
            },
    {
        let ghost before = slots(Expr::Bus(*b));
        let ghost generics = b.ty_def.generic_tys@;
        let mut msgs: Vec<Msg> = Vec::new();
        let mut i: usize = 0;
        while i < b.msgs.len()
            invariant
                i <= b.msgs.len(),
                before == slots(Expr::Bus(*b)),
                generics == b.ty_def.generic_tys@,
                msgs@.len() == i,
                first_failure(self.known(), generics, before.take(i as int)) is None,
                forall|j: int|
                    0 <= j < i ==> (#[trigger] msgs@[j]).name@ == b.msgs@[j].name@
                        && resolves(self.known(), generics, b.msgs@[j].ty, msgs@[j].ty),
            decreases b.msgs.len() - i,
        {
            proof {
                assert(before.take(i + 1).drop_last() =~= before.take(i as int));
            }
            match self.resolve_ty(&b.msgs[i].ty, &b.ty_def.generic_tys) {
                Ok(ty) => {
                    msgs.push(Msg { name: b.msgs[i].name.clone(), ty });
                },
                Err(error) => {
                    proof {
                        let upto = before.take(i + 1);
                        assert(upto.last() == Some(b.msgs@[i as int].ty));
                        assert(first_failure(self.known(), generics, upto) == Some(
                            (i as int, (error.kind, error.name@)),
                        ));
                        lemma_first_failure_prefix(self.known(), generics, before, i + 1);
                    }
                    return Err(FieldError { field: "arg".to_string(), error });
                },
            }
            i += 1;
        }
        proof {
            assert(before.take(i as int) =~= before);
        }
        Ok(msgs)
    }

    /// Resolves the names in a type. A generic parameter stays a name; a
    /// use of a defined type stays a name with its arguments resolved; a
    /// use of an extern type becomes its text for Rust with the resolved
    /// arguments filled in. The first name that cannot be resolved, in
    /// reading order, is the error.
    pub fn resolve_ty(&self, ty: &Ty, generic_tys: &Vec<GenericTy>) -> (r: Result<Ty, ResolveError>)
        ensures
            match r {
                Ok(out) => failure(self.known(), generic_tys@, *ty) is None && resolves(
                    self.known(),
                    generic_tys@,
                    *ty,
                    out,
                ),
                Err(e) => failure(self.known(), generic_tys@, *ty) == Some((e.kind, e.name@)),
            },
        decreases ty,
    {
        match ty {
            Ty::Array { ty: elem, len } => {
                match self.resolve_ty(elem, generic_tys) {
                    Ok(inner) => Ok(Ty::Array { ty: Box::new(inner), len: *len }),
                    Err(e) => Err(e),
                }
            },
            Ty::Unresolved { name, generic_args } => {
                if has_param(generic_tys, name) {
                    if generic_args.len() != 0 {
                        return Err(ResolveError { kind: Failure::GenericArgs, name: name.clone() });
                    }
                    let out = Ty::Unresolved { name: name.clone(), generic_args: Vec::new() };
                    assert(resolves_named(self.known(), generic_tys@, name@, generic_args@, out));
                    return Ok(out);
                }
                let k = match find_known(&self.known_tys, name) {
                    Some(k) => k,
                    None => {
                        return Err(ResolveError { kind: Failure::UnknownType, name: name.clone() });
                    },
                };
                let def = &self.known_tys[k];
                if def.params.len() != generic_args.len() {
                    return Err(
                        ResolveError {
                            kind: Failure::ArgCount {
                                expected: def.params.len(),
                                found: generic_args.len(),
                            },
                            name: name.clone(),
                        },
                    );
                }
                let mut resolved: Vec<GenericArg> = Vec::new();
                let mut i: usize = 0;
                while i < generic_args.len()
                    invariant
                        i <= generic_args.len(),
                        *ty == (Ty::Unresolved { name: *name, generic_args: *generic_args }),
                        !is_param(generic_tys@, name@),
                        k < self.known().len(),
                        last_named(self.known(), name@) == Some(k as int),
                        self.known()[k as int].params@.len() == generic_args@.len(),
                        args_failure(self.known(), generic_tys@, generic_args@.take(i as int))
                            is None,
                        args_resolve(
                            self.known(),
                            generic_tys@,
                            generic_args@.take(i as int),
                            resolved@,
                        ),
                    decreases generic_args.len() - i,
                {
                    let ghost before = resolved@;
                    proof {
                        assert(generic_args@.take(i + 1).drop_last() =~= generic_args@.take(
                            i as int,
                        ));
                        assert(decreases_to!(*ty => ty->generic_args));
                        assert(decreases_to!(ty->generic_args => (ty->generic_args)@));
                        assert(decreases_to!((ty->generic_args)@ => (ty->generic_args)@[i as int]));
                    }
                    match &generic_args[i] {
                        GenericArg::Ty(inner) => {
                            proof {
                                assert(decreases_to!(generic_args@[i as int] => generic_args@[i as int]->Ty_0));
                            }
                            match self.resolve_ty(inner, generic_tys) {
                                Ok(out) => {
                                    resolved.push(GenericArg::Ty(out));
                                },
                                Err(e) => {
                                    proof {
                                        let upto = generic_args@.take(i + 1);
                                        assert(upto.last() == generic_args@[i as int]);
                                        assert(args_failure(self.known(), generic_tys@, upto)
                                            == failure(self.known(), generic_tys@, *inner));
                                        lemma_args_failure_prefix(
                                            self.known(),
                                            generic_tys@,
                                            generic_args@,
                                            i + 1,
                                        );
                                        assert(args_failure(
                                            self.known(),
                                            generic_tys@,
                                            generic_args@,
                                        ) == Some((e.kind, e.name@)));
                                    }
                                    return Err(e);
                                },
                            }
                        },
                        GenericArg::Const(n) => {
                            resolved.push(GenericArg::Const(*n));
                        },
                    }
                    i += 1;
                    proof {
                        let now = generic_args@.take(i as int);
                        assert forall|j: int| 0 <= j < now.len() implies match now[j] {
                            GenericArg::Ty(t) => (#[trigger] resolved@[j]) is Ty && resolves(
                                self.known(),
                                generic_tys@,
                                t,
                                resolved@[j]->Ty_0,
                            ),
                            GenericArg::Const(n) => resolved@[j] == GenericArg::Const(n),
                        } by {
                            if j < i - 1 {
                                assert(now[j] == generic_args@.take(i - 1)[j]);
                                assert(resolved@[j] == before[j]);
                            }
                        }
                    }
                }
                proof {
                    assert(generic_args@.take(i as int) =~= generic_args@);
                }
                if def.is_extern {
                    match &def.rust {
                        None => {
                            let e = ResolveError {
                                kind: Failure::RustImplMissing,
                                name: name.clone(),
                            };
                            assert(failure(self.known(), generic_tys@, *ty) == Some(
                                (e.kind, e.name@),
                            ));
                            Err(e)
                        },
                        Some(template) => {
                            match expand(template, &def.params, &resolved) {
                                Ok(text) => {
                                    let out = Ty::Extern(text);
                                    assert(failure(self.known(), generic_tys@, *ty) is None);
                                    proof {
                                        lemma_args_spelled(
                                            self.known(),
                                            generic_tys@,
                                            generic_args@,
                                            resolved@,
                                        );
                                        assert(resolves_named(
                                            self.known(),
                                            generic_tys@,
                                            name@,
                                            generic_args@,
                                            out,
                                        ));
                                    }
                                    Ok(out)
                                },
                                Err(e) => {
                                    assert(failure(self.known(), generic_tys@, *ty) == Some(
                                        (e.kind, e.name@),
                                    ));
                                    Err(e)
                                },
                            }
                        },
                    }
                } else {
                    let out = Ty::Unresolved { name: name.clone(), generic_args: resolved };
                    assert(failure(self.known(), generic_tys@, *ty) is None);
                    assert(resolves_named(self.known(), generic_tys@, name@, generic_args@, out));
                    assert(resolves(self.known(), generic_tys@, *ty, out));
                    Ok(out)
                }
            },
            Ty::Extern(text) => Ok(Ty::Extern(text.clone())),
            Ty::U64 => Ok(Ty::U64),
            Ty::U32 => Ok(Ty::U32),
            Ty::U16 => Ok(Ty::U16),
            Ty::U8 => Ok(Ty::U8),
            Ty::I64 => Ok(Ty::I64),
            Ty::I32 => Ok(Ty::I32),
            Ty::I16 => Ok(Ty::I16),
            Ty::I8 => Ok(Ty::I8),
            Ty::F32 => Ok(Ty::F32),
            Ty::F64 => Ok(Ty::F64),
            Ty::Bool => Ok(Ty::Bool),
        }
    }
}

} // verus!
