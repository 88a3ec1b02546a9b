use piton::ast::{Bus, Enum, Expr, Service, Struct, TyDef};
use piton::generate::{generate_buses, generate_services, generate_types};
use piton::names::{
    call_ref, client_struct, message_enum, method_fn, method_ref_fn, phantom_field,
    receiver_struct, reply_enum, request_enum, ret_ref, send_ref, server_struct, service_trait,
    variant_name, with_prefix, with_suffix,
};

fn record_text(s: &Struct) -> Result<String, String> {
    if s.ty_def.name == "Bad" {
        Err("bad record".to_string())
    } else {
        Ok(format!("struct {}", s.ty_def.name))
    }
}

fn union_text(e: &Enum) -> Result<String, String> {
    if e.ty_def.name == "Bad" {
        Err("bad union".to_string())
    } else {
        Ok(format!("enum {}", e.ty_def.name))
    }
}

fn service_text(service: &Service) -> Result<String, String> {
    Ok(format!("service {}", service.ty_def.name))
}

fn bus_text(bus: &Bus) -> Result<String, String> {
    Ok(format!("bus {}", bus.ty_def.name))
}

fn def(name: &str) -> TyDef {
    TyDef { name: name.to_string(), generic_tys: vec![] }
}

fn doc(names: &[(&str, char)]) -> Vec<Expr> {
    names
        .iter()
        .map(|(name, kind)| match kind {
            's' => Expr::Struct(Struct { ty_def: def(name), fields: vec![] }),
            'e' => Expr::Enum(Enum { ty_def: def(name), variants: vec![] }),
            'v' => Expr::Service(Service { ty_def: def(name), methods: vec![] }),
            _ => Expr::Bus(Bus { ty_def: def(name), msgs: vec![] }),
        })
        .collect()
}

#[test]
fn every_definition_gets_a_line() {
    let d = doc(&[("A", 's'), ("S", 'v'), ("B", 'e'), ("W", 'b')]);
    assert_eq!(generate_types(&d, record_text, union_text), Ok("struct A\n\nenum B\n\n".to_string()));
    assert_eq!(generate_services(&d, service_text), Ok("\nservice S\n\n\n".to_string()));
    assert_eq!(generate_buses(&d, bus_text), Ok("\n\n\nbus W\n".to_string()));
    assert_eq!(generate_types(&vec![], record_text, union_text), Ok(String::new()));
}

#[test]
fn first_failure_ends_generation() {
    let d = doc(&[("A", 's'), ("Bad", 'e'), ("Bad", 's')]);
    assert_eq!(generate_types(&d, record_text, union_text), Err("bad union".to_string()));
    assert_eq!(generate_services(&d, service_text), Ok("\n\n\n".to_string()));
}

#[test]
fn names_of_generated_items() {
    assert_eq!(request_enum("my_service"), "MyServiceReq");
    assert_eq!(reply_enum("my_service"), "MyServiceRet");
    assert_eq!(message_enum("sensor bus"), "SensorBusMsg");
    assert_eq!(service_trait("driver"), "DriverService");
    assert_eq!(server_struct("driver"), "DriverServer");
    assert_eq!(client_struct("driver"), "DriverClient");
    assert_eq!(receiver_struct("driver"), "DriverRx");
    assert_eq!(variant_name("read_block"), "ReadBlock");
    assert_eq!(method_fn("ReadBlock"), "read_block");
    assert_eq!(method_ref_fn("ReadBlock"), "read_block_ref");
    assert_eq!(call_ref("xyz"), "XyzCallRef");
    assert_eq!(ret_ref("xyz"), "XyzRetRef");
    assert_eq!(send_ref("xyz"), "XyzSendRef");
    assert_eq!(phantom_field("T"), "phantom_t");
    assert_eq!(phantom_field("MyType"), "phantom_my_type");
    assert_eq!(with_suffix("a".to_string(), "b"), "ab");
    assert_eq!(with_prefix("a", "b".to_string()), "ab");
}
