use piton::ast::{
    Bus, ConcreteImpl, Enum, Expr, Extern, Field, GenericArg, GenericTy, Method, Msg, Service,
    Struct, TemplateToken, Ty, TyDef, Variant,
};
use piton::resolve::{Failure, FieldError, ResolveError, TyChecker};

fn def(name: &str, generics: Vec<GenericTy>) -> TyDef {
    TyDef { name: name.to_string(), generic_tys: generics }
}

fn named(name: &str, args: Vec<GenericArg>) -> Ty {
    Ty::Unresolved { name: name.to_string(), generic_args: args }
}

fn param(name: &str) -> GenericTy {
    GenericTy::Ty(name.to_string())
}

fn template(text: &str) -> Vec<TemplateToken> {
    let mut tokens = Vec::new();
    let mut rest = text;
    while !rest.is_empty() {
        if let Some(tail) = rest.strip_prefix("${") {
            let end = tail.find('}').unwrap();
            tokens.push(TemplateToken::Template(tail[..end].to_string()));
            rest = &tail[end + 1..];
        } else {
            let c = rest.chars().next().unwrap();
            tokens.push(TemplateToken::Char(c));
            rest = &rest[c.len_utf8()..];
        }
    }
    tokens
}

fn bounded_vec() -> Expr {
    Expr::Extern(Extern {
        ty_def: def(
            "Vec",
            vec![param("T"), GenericTy::Const { ty: Ty::U64, name: "N".to_string() }],
        ),
        concrete_impls: vec![
            ConcreteImpl { lang: "cpp".to_string(), template: template("std::array<${T}, ${N}>") },
            ConcreteImpl { lang: "rust".to_string(), template: template("old::Vec<${T}>") },
            ConcreteImpl {
                lang: "rust".to_string(),
                template: template("piton::types::Vec<${T}, ${N}>"),
            },
        ],
    })
}

fn point() -> Expr {
    Expr::Struct(Struct {
        ty_def: def("Point", vec![]),
        fields: vec![Field { name: "x".to_string(), ty: Ty::U32 }],
    })
}

fn pair() -> Expr {
    Expr::Struct(Struct { ty_def: def("Pair", vec![param("A"), param("B")]), fields: vec![] })
}

fn checker() -> TyChecker {
    let mut checker = TyChecker::new();
    checker.visit_expr(&bounded_vec());
    checker.visit_expr(&point());
    checker.visit_expr(&pair());
    checker
}

fn fails(kind: Failure, name: &str) -> Result<Ty, ResolveError> {
    Err(ResolveError { kind, name: name.to_string() })
}

#[test]
fn primitives_resolve_to_themselves() {
    let c = checker();
    for ty in [Ty::U8, Ty::U16, Ty::U32, Ty::U64, Ty::I8, Ty::I16, Ty::I32, Ty::I64, Ty::Bool] {
        let same = c.resolve_ty(&ty, &vec![]).unwrap();
        assert_eq!(same, ty);
    }
    assert_eq!(c.resolve_ty(&Ty::F32, &vec![]), Ok(Ty::F32));
    assert_eq!(c.resolve_ty(&Ty::F64, &vec![]), Ok(Ty::F64));
    assert_eq!(
        c.resolve_ty(&Ty::Extern("a::B".to_string()), &vec![]),
        Ok(Ty::Extern("a::B".to_string()))
    );
}

#[test]
fn generic_parameter_stays_a_name() {
    let c = checker();
    let generics = vec![param("T"), GenericTy::Const { ty: Ty::U8, name: "N".to_string() }];
    assert_eq!(c.resolve_ty(&named("T", vec![]), &generics), Ok(named("T", vec![])));
    assert_eq!(c.resolve_ty(&named("N", vec![]), &generics), Ok(named("N", vec![])));
    assert_eq!(
        c.resolve_ty(&named("T", vec![GenericArg::Const(1)]), &generics),
        fails(Failure::GenericArgs, "T")
    );
    assert_eq!(c.resolve_ty(&named("T", vec![]), &vec![]), fails(Failure::UnknownType, "T"));
}

#[test]
fn parameter_hides_a_definition_of_the_same_name() {
    let c = checker();
    let generics = vec![param("Point")];
    assert_eq!(c.resolve_ty(&named("Point", vec![]), &generics), Ok(named("Point", vec![])));
}

#[test]
fn defined_type_keeps_its_name() {
    let c = checker();
    assert_eq!(c.resolve_ty(&named("Point", vec![]), &vec![]), Ok(named("Point", vec![])));
    let array = Ty::Array { ty: Box::new(named("Point", vec![])), len: 4 };
    assert_eq!(
        c.resolve_ty(&array, &vec![]),
        Ok(Ty::Array { ty: Box::new(named("Point", vec![])), len: 4 })
    );
}

#[test]
fn wrong_number_of_arguments() {
    let c = checker();
    assert_eq!(
        c.resolve_ty(&named("Point", vec![GenericArg::Const(3)]), &vec![]),
        fails(Failure::ArgCount { expected: 0, found: 1 }, "Point")
    );
    assert_eq!(
        c.resolve_ty(&named("Vec", vec![GenericArg::Ty(Ty::U8)]), &vec![]),
        fails(Failure::ArgCount { expected: 2, found: 1 }, "Vec")
    );
}

#[test]
fn extern_type_becomes_its_text() {
    let c = checker();
    let use_of = named("Vec", vec![GenericArg::Ty(Ty::U16), GenericArg::Const(16)]);
    assert_eq!(
        c.resolve_ty(&use_of, &vec![]),
        Ok(Ty::Extern("piton::types::Vec<piton::types::u16le, 16>".to_string()))
    );
    let nested = named(
        "Vec",
        vec![
            GenericArg::Ty(named("Vec", vec![GenericArg::Ty(named("Point", vec![])), GenericArg::Const(2)])),
            GenericArg::Const(3),
        ],
    );
    assert_eq!(
        c.resolve_ty(&nested, &vec![]),
        Ok(Ty::Extern("piton::types::Vec<piton::types::Vec<Point, 2>, 3>".to_string()))
    );
}

#[test]
fn arguments_of_a_defined_type_are_resolved() {
    let c = checker();
    let use_of = named(
        "Pair",
        vec![
            GenericArg::Ty(named("Vec", vec![GenericArg::Ty(Ty::Bool), GenericArg::Const(1)])),
            GenericArg::Ty(named("T", vec![])),
        ],
    );
    assert_eq!(
        c.resolve_ty(&use_of, &vec![param("T")]),
        Ok(named(
            "Pair",
            vec![
                GenericArg::Ty(Ty::Extern("piton::types::Vec<bool, 1>".to_string())),
                GenericArg::Ty(named("T", vec![])),
            ]
        ))
    );
}

#[test]
fn first_failing_argument_is_the_error() {
    let c = checker();
    let use_of = named(
        "Pair",
        vec![GenericArg::Ty(named("Nope", vec![])), GenericArg::Ty(named("Neither", vec![]))],
    );
    assert_eq!(c.resolve_ty(&use_of, &vec![]), fails(Failure::UnknownType, "Nope"));
}

#[test]
fn extern_without_rust_text() {
    let mut c = TyChecker::new();
    c.visit_expr(&Expr::Extern(Extern {
        ty_def: def("Opaque", vec![]),
        concrete_impls: vec![ConcreteImpl { lang: "cpp".to_string(), template: template("x") }],
    }));
    assert_eq!(c.resolve_ty(&named("Opaque", vec![]), &vec![]), fails(Failure::RustImplMissing, "Opaque"));
}

#[test]
fn extern_with_unknown_template_key() {
    let mut c = TyChecker::new();
    c.visit_expr(&Expr::Extern(Extern {
        ty_def: def("Odd", vec![param("T")]),
        concrete_impls: vec![ConcreteImpl {
            lang: "rust".to_string(),
            template: template("odd::<${T}, ${U}>"),
        }],
    }));
    assert_eq!(
        c.resolve_ty(&named("Odd", vec![GenericArg::Ty(Ty::U8)]), &vec![]),
        fails(Failure::TemplateKey, "U")
    );
}

#[test]
fn last_definition_of_a_name_counts() {
    let mut c = checker();
    assert!(c.resolve_ty(&named("Point", vec![GenericArg::Const(1)]), &vec![]).is_err());
    c.visit_expr(&Expr::Struct(Struct { ty_def: def("Point", vec![param("T")]), fields: vec![] }));
    assert!(c.resolve_ty(&named("Point", vec![GenericArg::Const(1)]), &vec![]).is_ok());
    assert!(c.resolve_ty(&named("Point", vec![]), &vec![]).is_err());
}

#[test]
fn services_and_buses_are_no_types() {
    let mut c = TyChecker::new();
    c.visit_expr(&Expr::Service(Service { ty_def: def("Svc", vec![]), methods: vec![] }));
    c.visit_expr(&Expr::Bus(Bus { ty_def: def("Wire", vec![]), msgs: vec![] }));
    assert_eq!(c.resolve_ty(&named("Svc", vec![]), &vec![]), fails(Failure::UnknownType, "Svc"));
    assert_eq!(c.resolve_ty(&named("Wire", vec![]), &vec![]), fails(Failure::UnknownType, "Wire"));
}

#[test]
fn record_is_resolved_in_place() {
    let c = checker();
    let mut expr = Expr::Struct(Struct {
        ty_def: def("Holder", vec![param("T")]),
        fields: vec![
            Field { name: "a".to_string(), ty: named("T", vec![]) },
            Field {
                name: "b".to_string(),
                ty: named("Vec", vec![GenericArg::Ty(named("T", vec![])), GenericArg::Const(8)]),
            },
        ],
    });
    assert_eq!(c.resolve_expr(&mut expr), Ok(()));
    let Expr::Struct(s) = &expr else { panic!("not a record") };
    assert_eq!(s.fields[0], Field { name: "a".to_string(), ty: named("T", vec![]) });
    assert_eq!(
        s.fields[1],
        Field { name: "b".to_string(), ty: Ty::Extern("piton::types::Vec<T, 8>".to_string()) }
    );
    assert_eq!(s.ty_def, def("Holder", vec![param("T")]));
}

#[test]
fn failing_record_stays_as_it_was() {
    let c = checker();
    let fields = || {
        vec![
            Field {
                name: "ok".to_string(),
                ty: named("Vec", vec![GenericArg::Ty(Ty::U8), GenericArg::Const(8)]),
            },
            Field { name: "bad".to_string(), ty: named("Missing", vec![]) },
        ]
    };
    let mut expr = Expr::Struct(Struct { ty_def: def("Holder", vec![]), fields: fields() });
    assert_eq!(
        c.resolve_expr(&mut expr),
        Err(FieldError {
            field: "bad".to_string(),
            error: ResolveError { kind: Failure::UnknownType, name: "Missing".to_string() }
        })
    );
    let Expr::Struct(s) = &expr else { panic!("not a record") };
    assert_eq!(s.fields, fields());
}

#[test]
fn union_service_and_bus_are_resolved() {
    let c = checker();
    let mut union = Expr::Enum(Enum {
        ty_def: def("Choice", vec![]),
        variants: vec![
            Variant { name: "none".to_string(), ty: None },
            Variant { name: "bad".to_string(), ty: Some(named("Missing", vec![])) },
        ],
    });
    assert_eq!(c.resolve_expr(&mut union).unwrap_err().field, "bad");
    let mut service = Expr::Service(Service {
        ty_def: def("Svc", vec![]),
        methods: vec![
            Method { name: "one".to_string(), arg_ty: named("Point", vec![]), return_ty: Ty::U8 },
            Method { name: "two".to_string(), arg_ty: Ty::U8, return_ty: named("Missing", vec![]) },
        ],
    });
    assert_eq!(c.resolve_expr(&mut service).unwrap_err().field, "ret");
    let mut service = Expr::Service(Service {
        ty_def: def("Svc", vec![]),
        methods: vec![Method {
            name: "one".to_string(),
            arg_ty: named("Missing", vec![]),
            return_ty: named("Other", vec![]),
        }],
    });
    let e = c.resolve_expr(&mut service).unwrap_err();
    assert_eq!((e.field.as_str(), e.error.name.as_str()), ("arg", "Missing"));
    let mut bus = Expr::Bus(Bus {
        ty_def: def("Wire", vec![]),
        msgs: vec![Msg {
            name: "m".to_string(),
            ty: named("Vec", vec![GenericArg::Ty(Ty::Bool), GenericArg::Const(2)]),
        }],
    });
    assert_eq!(c.resolve_expr(&mut bus), Ok(()));
    let Expr::Bus(b) = &bus else { panic!("not a bus") };
    assert_eq!(b.msgs[0].ty, Ty::Extern("piton::types::Vec<bool, 2>".to_string()));
    let mut ext = bounded_vec();
    assert_eq!(c.resolve_expr(&mut ext), Ok(()));
}

#[test]
fn named_types_of_each_definition() {
    let union = Expr::Enum(Enum {
        ty_def: def("Choice", vec![]),
        variants: vec![
            Variant { name: "a".to_string(), ty: Some(Ty::U8) },
            Variant { name: "none".to_string(), ty: None },
            Variant { name: "b".to_string(), ty: Some(Ty::Bool) },
        ],
    });
    assert_eq!(
        union.field_tys(),
        vec![("a".to_string(), &Ty::U8), ("b".to_string(), &Ty::Bool)]
    );
    let service = Expr::Service(Service {
        ty_def: def("Svc", vec![]),
        methods: vec![
            Method { name: "one".to_string(), arg_ty: Ty::U8, return_ty: Ty::U16 },
            Method { name: "two".to_string(), arg_ty: Ty::U32, return_ty: Ty::U64 },
        ],
    });
    assert_eq!(
        service.field_tys(),
        vec![
            ("arg".to_string(), &Ty::U8),
            ("ret".to_string(), &Ty::U16),
            ("arg".to_string(), &Ty::U32),
            ("ret".to_string(), &Ty::U64)
        ]
    );
    let bus = Expr::Bus(Bus {
        ty_def: def("Wire", vec![]),
        msgs: vec![Msg { name: "m".to_string(), ty: Ty::I8 }],
    });
    assert_eq!(bus.field_tys(), vec![("arg".to_string(), &Ty::I8)]);
    assert_eq!(point().field_tys(), vec![("x".to_string(), &Ty::U32)]);
    assert!(bounded_vec().field_tys().is_empty());
    assert_eq!(point().ty_def().name, "Point");
}

#[test]
fn resolve_error_messages() {
    let e = |kind| ResolveError { kind, name: "Foo".to_string() };
    assert_eq!(e(Failure::GenericArgs).message(), "can't use generic args in this place");
    assert_eq!(e(Failure::UnknownType).message(), "unknown type Foo");
    assert_eq!(
        e(Failure::ArgCount { expected: 2, found: 10 }).message(),
        "Foo expects 2 generic args not 10"
    );
    assert_eq!(e(Failure::RustImplMissing).message(), "rust impl missing");
    assert_eq!(e(Failure::TemplateKey).message(), "invalid template key Foo");
}
