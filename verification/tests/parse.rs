use piton::ast::{
    Bus, ConcreteImpl, Enum, Expr, Extern, Field, GenericArg, GenericTy, Method, Msg, Service,
    Struct, TemplateToken, Ty, TyDef, Variant,
};
use piton::builder::FieldError as Refused;
use piton::document::{known_types, pad_document, resolve_document, DocError};
use piton::layout::LayoutError;
use piton::parser::{
    expect, parse, parse_character, parse_symbol, parse_template_token, parse_ty, parse_uint,
    skip_spaces, SyntaxError,
};
use piton::resolve::Failure;

fn chars(text: &str) -> Vec<char> {
    text.chars().collect()
}

fn doc(text: &str) -> Result<Vec<Expr>, SyntaxError> {
    parse(&chars(text))
}

fn def(name: &str, generics: Vec<GenericTy>) -> TyDef {
    TyDef { name: name.to_string(), generic_tys: generics }
}

fn named(name: &str, args: Vec<GenericArg>) -> Ty {
    Ty::Unresolved { name: name.to_string(), generic_args: args }
}

fn ty(text: &str) -> Option<(Ty, usize)> {
    parse_ty(&chars(text), 0)
}

fn same(a: &[Expr], b: &[Expr]) -> bool {
    format!("{:?}", a) == format!("{:?}", b)
}

#[test]
fn words_and_spaces() {
    let input = chars("  \n\tabc_9 x");
    assert_eq!(skip_spaces(&input, 0), 4);
    assert_eq!(skip_spaces(&input, 4), 4);
    assert_eq!(skip_spaces(&input, input.len()), input.len());
    assert_eq!(parse_symbol(&input, 4), Some(("abc_9".to_string(), 9)));
    assert_eq!(parse_symbol(&input, 0), None);
    assert_eq!(parse_symbol(&chars("9a"), 0), None);
    assert_eq!(parse_symbol(&chars("_"), 0), Some(("_".to_string(), 1)));
    assert_eq!(expect(&input, 4, "abc"), Some(7));
    assert_eq!(expect(&input, 4, "abd"), None);
    assert_eq!(expect(&input, 10, "xy"), None);
    assert_eq!(expect(&input, 11, ""), Some(11));
    assert_eq!(skip_spaces(&chars("\r x"), 0), 0);
}

#[test]
fn numbers() {
    assert_eq!(parse_uint(&chars("0"), 0), Some((0, 1)));
    assert_eq!(parse_uint(&chars("007x"), 0), Some((7, 3)));
    assert_eq!(parse_uint(&chars("x1"), 0), None);
    assert_eq!(parse_uint(&chars(""), 0), None);
    let max = usize::MAX.to_string();
    assert_eq!(parse_uint(&chars(&max), 0), Some((usize::MAX, max.len())));
    let over = format!("{}0", max);
    assert_eq!(parse_uint(&chars(&over), 0), None);
    let next = format!("{}", usize::MAX as u128 + 1);
    assert_eq!(parse_uint(&chars(&next), 0), None);
}

#[test]
fn primitive_types() {
    assert_eq!(ty("u8"), Some((Ty::U8, 2)));
    assert_eq!(ty("u16"), Some((Ty::U16, 3)));
    assert_eq!(ty("u32"), Some((Ty::U32, 3)));
    assert_eq!(ty("u64"), Some((Ty::U64, 3)));
    assert_eq!(ty("i8"), Some((Ty::I8, 2)));
    assert_eq!(ty("i16"), Some((Ty::I16, 3)));
    assert_eq!(ty("i32"), Some((Ty::I32, 3)));
    assert_eq!(ty("i64"), Some((Ty::I64, 3)));
    assert_eq!(ty("f32"), Some((Ty::F32, 3)));
    assert_eq!(ty("f64"), Some((Ty::F64, 3)));
    assert_eq!(ty("bool"), Some((Ty::Bool, 4)));
}

#[test]
fn a_primitive_is_read_even_where_a_name_goes_on() {
    assert_eq!(ty("u8_t"), Some((Ty::U8, 2)));
    assert_eq!(ty("boolean"), Some((Ty::Bool, 4)));
    assert_eq!(ty("u128"), Some((named("u128", vec![]), 4)));
    assert_eq!(ty("U8"), Some((named("U8", vec![]), 2)));
}

#[test]
fn array_types() {
    assert_eq!(ty("[u8;4]"), Some((Ty::Array { ty: Box::new(Ty::U8), len: 4 }, 6)));
    assert_eq!(ty("[ u8; 20 ]"), Some((Ty::Array { ty: Box::new(Ty::U8), len: 20 }, 10)));
    assert_eq!(
        ty("[[bool; 2]; 3]"),
        Some((
            Ty::Array { ty: Box::new(Ty::Array { ty: Box::new(Ty::Bool), len: 2 }), len: 3 },
            14
        ))
    );
    assert_eq!(ty("[u8 ;4]"), None);
    assert_eq!(ty("[u8; x]"), None);
    assert_eq!(ty("[u8; 4"), None);
    assert_eq!(ty("[; 4]"), None);
}

#[test]
fn named_types_and_their_arguments() {
    assert_eq!(ty("Foo"), Some((named("Foo", vec![]), 3)));
    assert_eq!(ty("Foo<>"), Some((named("Foo", vec![]), 5)));
    assert_eq!(ty("Foo<u8, 3,Bar< [i8; 1] >>"), Some((named("Foo", vec![]), 3)));
    assert_eq!(
        ty("Foo<u8, 3,Bar<[i8; 1]>>"),
        Some((
            named(
                "Foo",
                vec![
                    GenericArg::Ty(Ty::U8),
                    GenericArg::Const(3),
                    GenericArg::Ty(named(
                        "Bar",
                        vec![GenericArg::Ty(Ty::Array { ty: Box::new(Ty::I8), len: 1 })]
                    )),
                ]
            ),
            23
        ))
    );
    assert_eq!(ty("Foo<u8,>"), Some((named("Foo", vec![]), 3)));
    assert_eq!(ty("Foo <u8>"), Some((named("Foo", vec![]), 3)));
    assert_eq!(ty("Foo< u8>"), Some((named("Foo", vec![GenericArg::Ty(Ty::U8)]), 8)));
    assert_eq!(ty("Foo<u8 >"), Some((named("Foo", vec![]), 3)));
}

#[test]
fn characters_and_escapes() {
    let read = |text: &str| parse_character(&chars(text), 0);
    assert_eq!(read("a"), Some(('a', 1)));
    assert_eq!(read("é"), Some(('é', 1)));
    assert_eq!(read("\""), None);
    assert_eq!(read("\\n"), Some(('\n', 2)));
    assert_eq!(read("\\t"), Some(('\t', 2)));
    assert_eq!(read("\\r"), Some(('\r', 2)));
    assert_eq!(read("\\x41"), Some(('A', 4)));
    assert_eq!(read("\\xfF"), Some(('ÿ', 4)));
    assert_eq!(read("\\x4"), None);
    assert_eq!(read("\\x4g"), None);
    assert_eq!(read("\\u{41}"), Some(('A', 6)));
    assert_eq!(read("\\u{0000041}"), Some(('A', 11)));
    assert_eq!(read("\\u{1F600}"), Some(('😀', 9)));
    assert_eq!(read("\\u{10FFFF}"), Some(('\u{10FFFF}', 10)));
    assert_eq!(read("\\u{110000}"), None);
    assert_eq!(read("\\u{D800}"), None);
    assert_eq!(read("\\u{}"), None);
    assert_eq!(read("\\u{41"), None);
    assert_eq!(read("\\q"), None);
    assert_eq!(read(""), None);
}

#[test]
fn template_tokens() {
    let read = |text: &str| parse_template_token(&chars(text), 0);
    assert_eq!(read("${T}"), Some((TemplateToken::Template("T".to_string()), 4)));
    assert_eq!(read("${ T }x"), Some((TemplateToken::Template("T".to_string()), 6)));
    assert_eq!(read("${}"), None);
    assert_eq!(read("$x"), Some((TemplateToken::Char('$'), 1)));
    assert_eq!(read("}"), None);
    assert_eq!(read("{"), Some((TemplateToken::Char('{'), 1)));
    assert_eq!(read("\""), None);
}

#[test]
fn empty_documents() {
    assert_eq!(doc("").map(|d| d.len()), Ok(0));
    assert_eq!(doc(" \n\t ").map(|d| d.len()), Ok(0));
    assert_eq!(doc("x").unwrap_err(), SyntaxError { offset: 0 });
    assert_eq!(doc("  x").unwrap_err(), SyntaxError { offset: 2 });
}

#[test]
fn a_whole_document() {
    let text = "struct Foo<T, const N: u32> { a: u8, b: [u16; 4], c: Bar<T, 3> }\n\
                enum Choice { none, some(u8) }\n\
                service driver<D> { method xyz(Bar<D>) -> Test<D>,method abc (u8)->u16 }\n\
                bus events { msg tick(u64); msg tock(bool) }\n\
                extern Vec<T, const N: u64> { concrete rust = t\"piton::Vec<${T}, ${ N }>\",concrete cpp = t\"\\x41\\n\" }\n";
    let expected = vec![
        Expr::Struct(Struct {
            ty_def: def(
                "Foo",
                vec![
                    GenericTy::Ty("T".to_string()),
                    GenericTy::Const { ty: Ty::U32, name: "N".to_string() },
                ],
            ),
            fields: vec![
                Field { name: "a".to_string(), ty: Ty::U8 },
                Field { name: "b".to_string(), ty: Ty::Array { ty: Box::new(Ty::U16), len: 4 } },
                Field {
                    name: "c".to_string(),
                    ty: named(
                        "Bar",
                        vec![GenericArg::Ty(named("T", vec![])), GenericArg::Const(3)],
                    ),
                },
            ],
        }),
        Expr::Enum(Enum {
            ty_def: def("Choice", vec![]),
            variants: vec![
                Variant { name: "none".to_string(), ty: None },
                Variant { name: "some".to_string(), ty: Some(Ty::U8) },
            ],
        }),
        Expr::Service(Service {
            ty_def: def("driver", vec![GenericTy::Ty("D".to_string())]),
            methods: vec![
                Method {
                    name: "xyz".to_string(),
                    arg_ty: named("Bar", vec![GenericArg::Ty(named("D", vec![]))]),
                    return_ty: named("Test", vec![GenericArg::Ty(named("D", vec![]))]),
                },
                Method { name: "abc".to_string(), arg_ty: Ty::U8, return_ty: Ty::U16 },
            ],
        }),
        Expr::Bus(Bus {
            ty_def: def("events", vec![]),
            msgs: vec![
                Msg { name: "tick".to_string(), ty: Ty::U64 },
                Msg { name: "tock".to_string(), ty: Ty::Bool },
            ],
        }),
        Expr::Extern(Extern {
            ty_def: def(
                "Vec",
                vec![
                    GenericTy::Ty("T".to_string()),
                    GenericTy::Const { ty: Ty::U64, name: "N".to_string() },
                ],
            ),
            concrete_impls: vec![
                ConcreteImpl {
                    lang: "rust".to_string(),
                    template: vec![
                        TemplateToken::Char('p'),
                        TemplateToken::Char('i'),
                        TemplateToken::Char('t'),
                        TemplateToken::Char('o'),
                        TemplateToken::Char('n'),
                        TemplateToken::Char(':'),
                        TemplateToken::Char(':'),
                        TemplateToken::Char('V'),
                        TemplateToken::Char('e'),
                        TemplateToken::Char('c'),
                        TemplateToken::Char('<'),
                        TemplateToken::Template("T".to_string()),
                        TemplateToken::Char(','),
                        TemplateToken::Char(' '),
                        TemplateToken::Template("N".to_string()),
                        TemplateToken::Char('>'),
                    ],
                },
                ConcreteImpl {
                    lang: "cpp".to_string(),
                    template: vec![TemplateToken::Char('A'), TemplateToken::Char('\n')],
                },
            ],
        }),
    ];
    let parsed = doc(text).unwrap();
    assert!(same(&parsed, &expected), "{:#?}", parsed);
}

#[test]
fn definitions_need_no_space_between_them() {
    let parsed = doc("struct A{}struct B { }enum C{x}").unwrap();
    assert_eq!(parsed.len(), 3);
    assert_eq!(parsed[1].ty_def().name, "B");
    let glued = doc("structFoo{}").unwrap();
    assert_eq!(glued[0].ty_def().name, "Foo");
}

#[test]
fn the_error_is_behind_the_last_definition_that_was_read() {
    assert_eq!(doc("struct A {} struct B { a: u8x }").unwrap_err(), SyntaxError { offset: 12 });
    assert_eq!(doc("struct A { a: u8, }").unwrap_err(), SyntaxError { offset: 0 });
    assert_eq!(doc("struct A { a: u8 } }").unwrap_err(), SyntaxError { offset: 19 });
    assert_eq!(doc("struct A { a : u8 }").unwrap_err(), SyntaxError { offset: 0 });
    assert_eq!(doc("enum E { a (u8) }").unwrap_err(), SyntaxError { offset: 0 });
    assert_eq!(doc("service s { method a(u8) -> u8, method b(u8) -> u8 }").unwrap_err().offset, 0);
    assert_eq!(doc("bus b { msg a (u8) }").unwrap_err().offset, 0);
    assert_eq!(doc("extern X { concrete rust = \"x\" }").unwrap_err().offset, 0);
    assert_eq!(doc("struct A { a: [u8; 99999999999999999999999] }").unwrap_err().offset, 0);
}

#[test]
fn optional_parts() {
    let parsed = doc("struct A<> {}\nstruct B<T,U> { }\nextern X {}\nservice s {}\nbus b{}").unwrap();
    assert_eq!(parsed.len(), 5);
    assert!(parsed[0].ty_def().generic_tys.is_empty());
    assert_eq!(parsed[1].ty_def().generic_tys.len(), 2);
    let parsed = doc("struct A<T, > {}");
    assert!(parsed.is_err());
}

#[test]
fn a_document_is_resolved_and_padded() {
    let text = "extern Vec<T, const N: u64> { concrete rust = t\"piton::types::Vec<${T}, ${N}>\" }\n\
                struct Point { x: u32, y: u32, tag: bool }\n\
                struct Line<T> { from: Point, to: Point, label: Vec<T, 4> }\n\
                service geometry { method length(Line<u8>) -> u64 }";
    let mut parsed = doc(text).unwrap();
    let checker = known_types(&parsed);
    assert_eq!(resolve_document(&checker, &mut parsed), Ok(()));
    assert_eq!(pad_document(&mut parsed), Ok(()));
    let Expr::Struct(point) = &parsed[1] else { panic!("not a record") };
    assert_eq!(point.fields.len(), 4);
    assert_eq!(point.fields[3].name, "_pad");
    assert_eq!(point.fields[3].ty, Ty::Extern("piton::ZeroPad<7>".to_string()));
    let Expr::Struct(line) = &parsed[2] else { panic!("not a record") };
    assert_eq!(line.fields.len(), 3);
    assert_eq!(line.fields[2].ty, Ty::Extern("piton::types::Vec<T, 4>".to_string()));
    let Expr::Service(service) = &parsed[3] else { panic!("not a service") };
    assert_eq!(
        service.methods[0].arg_ty,
        named("Line", vec![GenericArg::Ty(Ty::U8)])
    );
}

#[test]
fn the_first_definition_that_fails_is_reported() {
    let mut parsed = doc("struct A { a: u8 }\nstruct B { a: A, b: Missing }\nstruct C { c: Gone }").unwrap();
    let checker = known_types(&parsed);
    let err = resolve_document(&checker, &mut parsed).unwrap_err();
    assert_eq!(err.index, 1);
    assert_eq!(err.error.field, "b");
    assert_eq!(err.error.error.kind, Failure::UnknownType);
    assert_eq!(err.error.error.name, "Missing");
    let mut parsed = doc("struct A { a: u32 }\nenum E { x }\nstruct B { a: bool, b: u64 }").unwrap();
    assert_eq!(
        pad_document(&mut parsed),
        Err(DocError {
            index: 2,
            error: Refused { field: 1, error: LayoutError::Padding { pad: 7 } }
        })
    );
    let Expr::Struct(a) = &parsed[0] else { panic!("not a record") };
    assert_eq!(a.fields.len(), 2);
    let Expr::Struct(b) = &parsed[2] else { panic!("not a record") };
    assert_eq!(b.fields.len(), 2);
}

#[test]
fn definitions_can_be_copied() {
    let parsed = doc("struct A<T> { a: Foo<[T; 2], 3, Bar<u8>>, b: bool }").unwrap();
    let copy = parsed.clone();
    assert!(same(&parsed, &copy));
    let Expr::Struct(s) = &copy[0] else { panic!("not a record") };
    assert_eq!(s.fields[0].ty.clone(), s.fields[0].ty);
    assert_eq!(GenericArg::Const(4).clone(), GenericArg::Const(4));
}
