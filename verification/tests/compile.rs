use piton::ast::{Field, GenericArg, GenericTy, Struct, Ty, TyDef};
use piton::builder::{pad_struct, FieldError, Generator, RustBuilder};
use piton::layout::{Layout, LayoutChecker, LayoutError};
use piton::render::ty_to_rust;
use piton::text::decimal_string;

fn field(name: &str, ty: Ty) -> Field {
    Field { name: name.to_string(), ty }
}

fn record(fields: Vec<Field>) -> Struct {
    Struct { ty_def: TyDef { name: "Test".to_string(), generic_tys: vec![] }, fields }
}

#[test]
fn decimal_numerals() {
    assert_eq!(decimal_string(0), "0");
    assert_eq!(decimal_string(7), "7");
    assert_eq!(decimal_string(10), "10");
    assert_eq!(decimal_string(65536), "65536");
    assert_eq!(decimal_string(usize::MAX), usize::MAX.to_string());
}

#[test]
fn cpp_names() {
    assert_eq!(Ty::U64.to_cpp(), "uint64_t");
    assert_eq!(Ty::U32.to_cpp(), "uint32_t");
    assert_eq!(Ty::U16.to_cpp(), "uint16_t");
    assert_eq!(Ty::U8.to_cpp(), "uint8_t");
    assert_eq!(Ty::I64.to_cpp(), "int64_t");
    assert_eq!(Ty::I32.to_cpp(), "int32_t");
    assert_eq!(Ty::I16.to_cpp(), "int16_t");
    assert_eq!(Ty::I8.to_cpp(), "int8_t");
    assert_eq!(Ty::F32.to_cpp(), "float");
    assert_eq!(Ty::F64.to_cpp(), "double");
    assert_eq!(Ty::Bool.to_cpp(), "bool");
    assert_eq!(Ty::Extern("Foo<3>".to_string()).to_cpp(), "Foo<3>");
    assert_eq!(GenericArg::Ty(Ty::U8).to_cpp(), "uint8_t");
    assert_eq!(GenericArg::Const(12).to_cpp(), "12");
    assert_eq!(GenericTy::Ty("T".to_string()).to_cpp(), "T");
    assert_eq!(GenericTy::Const { ty: Ty::U32, name: "N".to_string() }.to_cpp(), "uint32_t N");
}

#[test]
fn rust_names() {
    assert_eq!(ty_to_rust(&Ty::U64), "piton::types::u64le");
    assert_eq!(ty_to_rust(&Ty::U32), "piton::types::u32le");
    assert_eq!(ty_to_rust(&Ty::U16), "piton::types::u16le");
    assert_eq!(ty_to_rust(&Ty::U8), "u8");
    assert_eq!(ty_to_rust(&Ty::I64), "piton::types::i64le");
    assert_eq!(ty_to_rust(&Ty::I32), "i32le");
    assert_eq!(ty_to_rust(&Ty::I16), "i16le");
    assert_eq!(ty_to_rust(&Ty::I8), "piton::types::i8");
    assert_eq!(ty_to_rust(&Ty::Bool), "bool");
    assert_eq!(ty_to_rust(&Ty::F32), "f32");
    assert_eq!(ty_to_rust(&Ty::F64), "f64");
    assert_eq!(ty_to_rust(&Ty::Extern("x::Y".to_string())), "x::Y");
    assert_eq!(ty_to_rust(&Ty::Array { ty: Box::new(Ty::U8), len: 20 }), "[u8; 20]");
    let plain = Ty::Unresolved { name: "Foo".to_string(), generic_args: vec![] };
    assert_eq!(ty_to_rust(&plain), "Foo");
    let nested = Ty::Unresolved {
        name: "Bar".to_string(),
        generic_args: vec![
            GenericArg::Ty(Ty::Array { ty: Box::new(Ty::U16), len: 3 }),
            GenericArg::Const(16),
            GenericArg::Ty(Ty::Unresolved {
                name: "Baz".to_string(),
                generic_args: vec![GenericArg::Ty(Ty::Bool)],
            }),
        ],
    };
    assert_eq!(ty_to_rust(&nested), "Bar<[piton::types::u16le; 3],16,Baz<bool>>");
    assert_eq!(GenericArg::Const(5).to_rust(), "5");
    assert_eq!(GenericArg::Ty(Ty::I64).to_rust(), "piton::types::i64le");
    assert_eq!(GenericTy::Ty("T".to_string()).to_rust(), "T");
    assert_eq!(
        GenericTy::Const { ty: Ty::U32, name: "N".to_string() }.to_rust(),
        "const N: piton::types::u32le"
    );
    assert_eq!(GenericTy::Const { ty: Ty::U32, name: "N".to_string() }.name(), "N");
    assert_eq!(GenericTy::Ty("T".to_string()).name(), "T");
}

#[test]
fn field_layouts() {
    let layout = |size, align| Ok(Layout { size, align });
    assert_eq!(Ty::U64.layout(), layout(8, 8));
    assert_eq!(Ty::U32.layout(), layout(4, 4));
    assert_eq!(Ty::U16.layout(), layout(2, 2));
    assert_eq!(Ty::U8.layout(), layout(1, 1));
    assert_eq!(Ty::I64.layout(), layout(8, 8));
    assert_eq!(Ty::I32.layout(), layout(4, 4));
    assert_eq!(Ty::I16.layout(), layout(2, 2));
    assert_eq!(Ty::I8.layout(), layout(1, 1));
    assert_eq!(Ty::F64.layout(), layout(8, 8));
    assert_eq!(Ty::F32.layout(), layout(4, 4));
    assert_eq!(Ty::Bool.layout(), layout(1, 1));
    assert_eq!(Ty::Extern("X".to_string()).layout(), layout(8, 8));
    let named = Ty::Unresolved { name: "X".to_string(), generic_args: vec![] };
    assert_eq!(named.layout(), layout(8, 8));
}

#[test]
fn an_array_takes_its_length_times_its_element() {
    let array = |ty, len| Ty::Array { ty: Box::new(ty), len };
    assert_eq!(array(Ty::U32, 5).layout(), Ok(Layout { size: 20, align: 4 }));
    assert_eq!(array(Ty::U8, 20).layout(), Ok(Layout { size: 20, align: 1 }));
    assert_eq!(array(Ty::U64, 0).layout(), Ok(Layout { size: 0, align: 8 }));
    assert_eq!(array(array(Ty::I16, 3), 4).layout(), Ok(Layout { size: 24, align: 2 }));
    assert_eq!(array(Ty::U64, 9).size(), Some(72));
    assert_eq!(array(Ty::U64, 9).align(), 8);
}

#[test]
fn an_array_that_does_not_fit_is_an_overflow() {
    let array = |ty, len| Ty::Array { ty: Box::new(ty), len };
    let most = isize::MAX as usize;
    assert_eq!(array(Ty::U8, most).layout(), Ok(Layout { size: most, align: 1 }));
    assert_eq!(array(Ty::U8, most + 1).layout(), Err(LayoutError::Overflow));
    assert_eq!(array(Ty::U64, usize::MAX).layout(), Err(LayoutError::Overflow));
    assert_eq!(array(Ty::U16, most / 2 + 1).layout(), Err(LayoutError::Overflow));
    assert_eq!(array(array(Ty::U8, most + 1), 1).layout(), Err(LayoutError::Overflow));
    assert_eq!(array(array(Ty::U8, most + 1), 0).layout(), Ok(Layout { size: 0, align: 1 }));
    assert_eq!(array(Ty::U8, most + 1).size(), None);
    assert_eq!(
        array(Ty::U32, usize::MAX).layout_or_oversize(),
        Layout { size: usize::MAX, align: 4 }
    );
    let mut big = record(vec![field("a", Ty::U32), field("b", array(Ty::U32, usize::MAX))]);
    assert_eq!(
        pad_struct(&mut big),
        Err(FieldError { field: 1, error: LayoutError::Overflow })
    );
    let mut odd = record(vec![field("a", Ty::U8), field("b", array(Ty::U32, usize::MAX))]);
    assert_eq!(
        pad_struct(&mut odd),
        Err(FieldError { field: 1, error: LayoutError::Padding { pad: 3 } })
    );
}

#[test]
fn a_byte_before_a_wider_number_needs_a_gap() {
    let mut s = record(vec![field("a", Ty::U8), field("b", Ty::U16)]);
    assert_eq!(
        pad_struct(&mut s),
        Err(FieldError { field: 1, error: LayoutError::Padding { pad: 1 } })
    );
    let mut s = record(vec![field("b", Ty::U16), field("a", Ty::U8), field("c", Ty::I8)]);
    assert_eq!(pad_struct(&mut s), Ok(()));
    assert_eq!(s.fields[3], field("_pad", Ty::Extern("piton::ZeroPad<4>".to_string())));
    let array = Ty::Array { ty: Box::new(Ty::U32), len: 5 };
    let mut s = record(vec![field("a", array), field("b", Ty::U32)]);
    assert_eq!(pad_struct(&mut s), Ok(()));
    assert_eq!(s.fields.len(), 2);
}

#[test]
fn checker_refuses_a_gap() {
    let mut checker = LayoutChecker::default();
    assert_eq!(checker.final_pad(), 0);
    assert_eq!(checker.alignment(), 1);
    assert_eq!(checker.next_field(Layout { size: 4, align: 4 }), Ok(()));
    assert_eq!(checker.alignment(), 4);
    assert_eq!(checker.final_pad(), 4);
    assert_eq!(checker.next_field(Layout { size: 1, align: 1 }), Ok(()));
    assert_eq!(checker.len(), 5);
    assert_eq!(checker.final_pad(), 3);
    assert_eq!(
        checker.next_field(Layout { size: 8, align: 8 }),
        Err(LayoutError::Padding { pad: 3 })
    );
    assert_eq!(checker.len(), 5);
    assert_eq!(checker.alignment(), 4);
    assert_eq!(checker.next_field(Layout { size: 3, align: 1 }), Ok(()));
    assert_eq!(checker.alignment(), 4);
    assert_eq!(checker.final_pad(), 0);
    assert_eq!(
        checker.next_field(Layout { size: isize::MAX as usize, align: 8 }),
        Err(LayoutError::Overflow)
    );
    assert_eq!(
        LayoutError::Padding { pad: 3 }.message(),
        "types must have no internal padding required, try reordering your values: pad amount 3"
    );
}

#[test]
fn record_gets_its_final_pad() {
    let mut s = record(vec![field("a", Ty::U64), field("b", Ty::U32), field("c", Ty::Bool)]);
    assert_eq!(pad_struct(&mut s), Ok(()));
    assert_eq!(s.fields.len(), 4);
    assert_eq!(s.fields[3], field("_pad", Ty::Extern("piton::ZeroPad<3>".to_string())));
    assert_eq!(s.fields[0], field("a", Ty::U64));
    let mut even = record(vec![field("a", Ty::U32), field("b", Ty::U32)]);
    assert_eq!(pad_struct(&mut even), Ok(()));
    assert_eq!(even.fields.len(), 2);
    let mut empty = record(vec![]);
    assert_eq!(pad_struct(&mut empty), Ok(()));
    assert!(empty.fields.is_empty());
}

#[test]
fn record_with_a_gap_is_refused() {
    let mut s = record(vec![field("a", Ty::U32), field("b", Ty::Bool), field("c", Ty::U16)]);
    assert_eq!(
        pad_struct(&mut s),
        Err(FieldError { field: 2, error: LayoutError::Padding { pad: 1 } })
    );
    assert_eq!(s.fields.len(), 3);
}

#[test]
fn builder_plans() {
    assert_eq!(RustBuilder::default().plan(), vec![]);
    assert_eq!(RustBuilder::default().types().plan(), vec![Generator::Types]);
    assert_eq!(
        RustBuilder::default().server().plan(),
        vec![Generator::Service, Generator::BusRx, Generator::Req, Generator::Msg]
    );
    assert_eq!(
        RustBuilder::default().client().plan(),
        vec![Generator::Client, Generator::BusTx, Generator::Req, Generator::Msg]
    );
    assert_eq!(
        RustBuilder::default().server().client().types().plan(),
        vec![
            Generator::Types,
            Generator::Service,
            Generator::BusRx,
            Generator::Client,
            Generator::BusTx,
            Generator::Req,
            Generator::Msg
        ]
    );
}
