use crate::ast::{Bus, Enum, Expr, Service, Struct};
use vstd::prelude::*;

verus! {

/// The texts one after the other, each followed by a line break.
pub open spec fn lines(texts: Seq<Seq<char>>) -> Seq<char>
    decreases texts.len(),
{
    if texts.len() == 0 {
        Seq::empty()
    } else {
        lines(texts.drop_last()) + texts.last() + seq!['\n']
    }
}

/// What a generator returned, with the text in place of the string.
pub open spec fn shown<E>(r: Result<String, E>) -> Result<Seq<char>, E> {
    match r {
        Ok(text) => Ok(text@),
        Err(e) => Err(e),
    }
}

/// Whether `out` is an answer of the generator `g` for the item `item`.
pub open spec fn answers<T, E, G: Fn(&T) -> Result<String, E>>(
    g: G,
    item: T,
    out: Result<Seq<char>, E>,
) -> bool {
    exists|r: Result<String, E>| #[trigger] call_ensures(g, (&item,), r) && shown(r) == out
}

/// Whether `out` is what the type generators have for a definition: an
/// answer for a record or tagged union, and the empty text for the others.
pub open spec fn type_output<
    E,
    GS: Fn(&Struct) -> Result<String, E>,
    GE: Fn(&Enum) -> Result<String, E>,
>(generate_struct: GS, generate_enum: GE, expr: Expr, out: Result<Seq<char>, E>) -> bool {
    match expr {
        Expr::Struct(s) => answers(generate_struct, s, out),
        Expr::Enum(e) => answers(generate_enum, e, out),
        _ => out == Ok::<Seq<char>, E>(Seq::empty()),
    }
}

/// Whether `out` is what the service generator has for a definition.
pub open spec fn service_output<E, G: Fn(&Service) -> Result<String, E>>(
    generate_service: G,
    expr: Expr,
    out: Result<Seq<char>, E>,
) -> bool {
    match expr {
        Expr::Service(s) => answers(generate_service, s, out),
        _ => out == Ok::<Seq<char>, E>(Seq::empty()),
    }
}

/// Whether `out` is what the bus generator has for a definition.
pub open spec fn bus_output<E, G: Fn(&Bus) -> Result<String, E>>(
    generate_bus: G,
    expr: Expr,
    out: Result<Seq<char>, E>,
) -> bool {
    match expr {
        Expr::Bus(b) => answers(generate_bus, b, out),
        _ => out == Ok::<Seq<char>, E>(Seq::empty()),
    }
}

/// Whether `texts` are the texts that the type generators gave for the
/// first definitions of the document, and `out` is how the run ended: with
/// the lines of all the texts, or with a failure at the next definition.
pub open spec fn type_run<
    E,
    GS: Fn(&Struct) -> Result<String, E>,
    GE: Fn(&Enum) -> Result<String, E>,
>(
    generate_struct: GS,
    generate_enum: GE,
    doc: Seq<Expr>,
    texts: Seq<Seq<char>>,
    out: Result<Seq<char>, E>,
) -> bool {
    &&& forall|j: int|
        0 <= j < texts.len() ==> #[trigger] type_output(
            generate_struct,
            generate_enum,
            doc[j],
            Ok(texts[j]),
        )
    &&& match out {
        Ok(text) => texts.len() == doc.len() && text == lines(texts),
        Err(e) => texts.len() < doc.len() && type_output(
            generate_struct,
            generate_enum,
            doc[texts.len() as int],
            Err(e),
        ),
    }
}

/// Whether `texts` are the texts that the service generator gave for the
/// first definitions of the document, and `out` is how the run ended.
pub open spec fn service_run<E, G: Fn(&Service) -> Result<String, E>>(
    generate_service: G,
    doc: Seq<Expr>,
    texts: Seq<Seq<char>>,
    out: Result<Seq<char>, E>,
) -> bool {
    &&& forall|j: int|
        0 <= j < texts.len() ==> #[trigger] service_output(generate_service, doc[j], Ok(texts[j]))
    &&& match out {
        Ok(text) => texts.len() == doc.len() && text == lines(texts),
        Err(e) => texts.len() < doc.len() && service_output(
            generate_service,
            doc[texts.len() as int],
            Err(e),
        ),
    }
}

/// Whether `texts` are the texts that the bus generator gave for the first
/// definitions of the document, and `out` is how the run ended.
pub open spec fn bus_run<E, G: Fn(&Bus) -> Result<String, E>>(
    generate_bus: G,
    doc: Seq<Expr>,
    texts: Seq<Seq<char>>,
    out: Result<Seq<char>, E>,
) -> bool {
    &&& forall|j: int|
        0 <= j < texts.len() ==> #[trigger] bus_output(generate_bus, doc[j], Ok(texts[j]))
    &&& match out {
        Ok(text) => texts.len() == doc.len() && text == lines(texts),
        Err(e) => texts.len() < doc.len() && bus_output(generate_bus, doc[texts.len() as int], Err(e)),
    }
}

/// Writes the types of a document: the text of each record and tagged
/// union, in order, with a line break after each definition of the
/// document. The first failure of a generator ends it.
pub fn generate_types<
    E,
    GS: Fn(&Struct) -> Result<String, E>,
    GE: Fn(&Enum) -> Result<String, E>,
>(doc: &Vec<Expr>, generate_struct: GS, generate_enum: GE) -> (r: Result<String, E>)
    requires
        forall|s: &Struct| call_requires(generate_struct, (s,)),
        forall|e: &Enum| call_requires(generate_enum, (e,)),
    ensures
        exists|texts: Seq<Seq<char>>| #[trigger] type_run(generate_struct, generate_enum, doc@, texts, shown(r)),
{
    let mut out = String::new();
    let ghost mut texts: Seq<Seq<char>> = Seq::empty();
    let mut i: usize = 0;
    while i < doc.len()
        invariant
            i <= doc.len(),
            forall|s: &Struct| call_requires(generate_struct, (s,)),
            forall|e: &Enum| call_requires(generate_enum, (e,)),
            texts.len() == i,
            out@ == lines(texts),
            forall|j: int|
                0 <= j < i ==> #[trigger] type_output(
                    generate_struct,
                    generate_enum,
                    doc@[j],
                    Ok(texts[j]),
                ),
        decreases doc.len() - i,
    {
        let item = match &doc[i] {
            Expr::Struct(s) => generate_struct(s),
            Expr::Enum(e) => generate_enum(e),
            _ => Ok(String::new()),
        };
        assert(type_output(generate_struct, generate_enum, doc@[i as int], shown(item)));
        match item {
            Ok(text) => {
                let ghost head = out@;
                out.push_str(text.as_str());
                out.push('\n');
                proof {
                    let before = texts;
                    texts = texts.push(text@);
                    assert(texts.drop_last() =~= before);
                    assert(out@ =~= head + text@ + seq!['\n']);
                }
            },
            Err(e) => {
                let r = Err(e);
                assert(type_run(generate_struct, generate_enum, doc@, texts, shown(r)));
                return r;
            },
        }
        i += 1;
    }
    let r = Ok(out);
    assert(type_run(generate_struct, generate_enum, doc@, texts, shown(r)));
    r
}

/// Writes the services of a document: the text of each service, in order,
/// with a line break after each definition of the document. The first
/// failure of the generator ends it.
pub fn generate_services<E, G: Fn(&Service) -> Result<String, E>>(
    doc: &Vec<Expr>,
    generate_service: G,
) -> (r: Result<String, E>)
    requires
        forall|s: &Service| call_requires(generate_service, (s,)),
    ensures
        exists|texts: Seq<Seq<char>>| #[trigger] service_run(generate_service, doc@, texts, shown(r)),
{
    let mut out = String::new();
    let ghost mut texts: Seq<Seq<char>> = Seq::empty();
    let mut i: usize = 0;
    while i < doc.len()
        invariant
            i <= doc.len(),
            forall|s: &Service| call_requires(generate_service, (s,)),
            texts.len() == i,
            out@ == lines(texts),
            forall|j: int|
                0 <= j < i ==> #[trigger] service_output(generate_service, doc@[j], Ok(texts[j])),
        decreases doc.len() - i,
    {
        let item = match &doc[i] {
            Expr::Service(s) => generate_service(s),
            _ => Ok(String::new()),
        };
        assert(service_output(generate_service, doc@[i as int], shown(item)));
        match item {
            Ok(text) => {
                let ghost head = out@;
                out.push_str(text.as_str());
                out.push('\n');
                proof {
                    let before = texts;
                    texts = texts.push(text@);
                    assert(texts.drop_last() =~= before);
                    assert(out@ =~= head + text@ + seq!['\n']);
                }
            },
            Err(e) => {
                let r = Err(e);
                assert(service_run(generate_service, doc@, texts, shown(r)));
                return r;
            },
        }
        i += 1;
    }
    let r = Ok(out);
    assert(service_run(generate_service, doc@, texts, shown(r)));
    r
}

/// Writes the buses of a document: the text of each bus, in order, with a
/// line break after each definition of the document. The first failure of
/// the generator ends it.
pub fn generate_buses<E, G: Fn(&Bus) -> Result<String, E>>(doc: &Vec<Expr>, generate_bus: G) -> (r:
    Result<String, E>)
    requires
        forall|b: &Bus| call_requires(generate_bus, (b,)),
    ensures
        exists|texts: Seq<Seq<char>>| #[trigger] bus_run(generate_bus, doc@, texts, shown(r)),
{
    let mut out = String::new();
    let ghost mut texts: Seq<Seq<char>> = Seq::empty();
    let mut i: usize = 0;
    while i < doc.len()
        invariant
            i <= doc.len(),
            forall|b: &Bus| call_requires(generate_bus, (b,)),
            texts.len() == i,
            out@ == lines(texts),
            forall|j: int| 0 <= j < i ==> #[trigger] bus_output(generate_bus, doc@[j], Ok(texts[j])),
        decreases doc.len() - i,
    {
        let item = match &doc[i] {
            Expr::Bus(b) => generate_bus(b),
            _ => Ok(String::new()),
        };
        assert(bus_output(generate_bus, doc@[i as int], shown(item)));
        match item {
            Ok(text) => {
                let ghost head = out@;
                out.push_str(text.as_str());
                out.push('\n');
                proof {
                    let before = texts;
                    texts = texts.push(text@);
                    assert(texts.drop_last() =~= before);
                    assert(out@ =~= head + text@ + seq!['\n']);
                }
            },
            Err(e) => {
                let r = Err(e);
                assert(bus_run(generate_bus, doc@, texts, shown(r)));
                return r;
            },
        }
        i += 1;
    }
    let r = Ok(out);
    assert(bus_run(generate_bus, doc@, texts, shown(r)));
    r
}

} // verus!
