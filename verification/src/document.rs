use crate::ast::Expr;
use crate::builder::{first_refused, pad_struct, padded, FieldError as LayoutFieldError};
use crate::layout::{field_layouts, gapless};
use crate::resolve::{
    describes, first_failure, same_shape, slot_name, slots, slots_resolve, FieldError, Known,
    TyChecker,
};
use vstd::prelude::*;

verus! {

/// A definition of a document that was refused: its position in the
/// document, and why.
#[derive(Debug, PartialEq, Eq)]
pub struct DocError<E> {
    pub index: usize,
    pub error: E,
}

/// Whether `known` is what resolving knows after the definitions of `doc`
/// in turn: one entry for each record, tagged union and extern type, none
/// for a service or a bus.
pub open spec fn knows(known: Seq<Known>, doc: Seq<Expr>) -> bool
    decreases doc.len(),
{
    if doc.len() == 0 {
        known.len() == 0
    } else if doc.last() is Bus || doc.last() is Service {
        knows(known, doc.drop_last())
    } else {
        &&& known.len() > 0
        &&& describes(known.last(), doc.last())
        &&& knows(known.drop_last(), doc.drop_last())
    }
}

/// Whether `after` is the definition `before` with all its types resolved.
pub open spec fn resolved_def(known: Seq<Known>, before: Expr, after: Expr) -> bool {
    &&& first_failure(known, before.spec_ty_def().generic_tys@, slots(before)) is None
    &&& same_shape(before, after)
    &&& slots_resolve(known, before.spec_ty_def().generic_tys@, slots(before), slots(after))
}

/// Whether `err` is the first reason why a type of the definition cannot be
/// resolved.
pub open spec fn failed_def(known: Seq<Known>, before: Expr, err: FieldError) -> bool {
    &&& first_failure(known, before.spec_ty_def().generic_tys@, slots(before)) matches Some((i, f))
    &&& f == (err.error.kind, err.error.name@)
    &&& err.field@ == slot_name(before, i)
}

/// Whether `after` is the definition `before`, padded where it is a record
/// and as it was otherwise.
pub open spec fn padded_def(before: Expr, after: Expr) -> bool {
    match before {
        Expr::Struct(s) => after matches Expr::Struct(t) && gapless(field_layouts(s.fields@))
            && padded(s, t),
        _ => after == before,
    }
}

/// Whether `err` is the first field of the record `before` that the layout
/// checker refuses.
pub open spec fn refused_def(before: Expr, err: LayoutFieldError) -> bool {
    before matches Expr::Struct(s) && first_refused(field_layouts(s.fields@), err)
}

/// Takes note of every definition of a document that types can name.
pub fn known_types(doc: &Vec<Expr>) -> (checker: TyChecker)
    ensures
        knows(checker.known(), doc@),
{
    let mut checker = TyChecker::new();
    let mut i: usize = 0;
    while i < doc.len()
        invariant
            i <= doc.len(),
            knows(checker.known(), doc@.take(i as int)),
        decreases doc.len() - i,
    {
        checker.visit_expr(&doc[i]);
        i += 1;
        proof {
            assert(doc@.take(i as int).drop_last() =~= doc@.take(i - 1));
            assert(doc@.take(i as int).last() == doc@[i - 1]);
        }
    }
    proof {
        assert(doc@.take(i as int) =~= doc@);
    }
    checker
}

/// Resolves the types of every definition of a document, one definition
/// after the other. It ends at the first definition with a type that cannot
/// be resolved: the definitions before it are resolved then, and it and the
/// ones behind it are as they were.
pub fn resolve_document(checker: &TyChecker, doc: &mut Vec<Expr>) -> (r: Result<
    (),
    DocError<FieldError>,
>)
    ensures
        final(doc)@.len() == old(doc)@.len(),
        match r {
            Ok(()) => forall|j: int|
                0 <= j < old(doc)@.len() ==> resolved_def(
                    checker.known(),
                    old(doc)@[j],
                    #[trigger] final(doc)@[j],
                ),
            Err(e) => {
                &&& e.index < old(doc)@.len()
                &&& forall|j: int|
                    0 <= j < e.index ==> resolved_def(
                        checker.known(),
                        old(doc)@[j],
                        #[trigger] final(doc)@[j],
                    )
                &&& forall|j: int|
                    e.index <= j < old(doc)@.len() ==> #[trigger] final(doc)@[j] == old(doc)@[j]
                &&& failed_def(checker.known(), old(doc)@[e.index as int], e.error)
            },
        },
{
    let mut i: usize = 0;
    while i < doc.len()
        invariant
            i <= doc@.len(),
            doc@.len() == old(doc)@.len(),
            forall|j: int|
                0 <= j < i ==> resolved_def(checker.known(), old(doc)@[j], #[trigger] doc@[j]),
            forall|j: int| i <= j < doc@.len() ==> #[trigger] doc@[j] == old(doc)@[j],
        decreases doc@.len() - i,
    {
        let ghost before = doc@;
        match checker.resolve_expr(&mut doc[i]) {
            Ok(()) => {},
            Err(error) => {
                assert(doc@ =~= before);
                return Err(DocError { index: i, error });
            },
        }
        i += 1;
    }
    Ok(())
}

/// Checks the layout of every record of a document and pads it, one
/// definition after the other. It ends at the first record with a field
/// that the layout checker refuses: the definitions before it are padded
/// then, and it and the ones behind it are as they were.
pub fn pad_document(doc: &mut Vec<Expr>) -> (r: Result<(), DocError<LayoutFieldError>>)
    ensures
        final(doc)@.len() == old(doc)@.len(),
        match r {
            Ok(()) => forall|j: int|
                0 <= j < old(doc)@.len() ==> padded_def(old(doc)@[j], #[trigger] final(doc)@[j]),
            Err(e) => {
                &&& e.index < old(doc)@.len()
                &&& forall|j: int|
                    0 <= j < e.index ==> padded_def(old(doc)@[j], #[trigger] final(doc)@[j])
                &&& forall|j: int|
                    e.index <= j < old(doc)@.len() ==> #[trigger] final(doc)@[j] == old(doc)@[j]
                &&& refused_def(old(doc)@[e.index as int], e.error)
            },
        },
{
    let mut i: usize = 0;
    while i < doc.len()
        invariant
            i <= doc@.len(),
            doc@.len() == old(doc)@.len(),
            forall|j: int| 0 <= j < i ==> padded_def(old(doc)@[j], #[trigger] doc@[j]),
            forall|j: int| i <= j < doc@.len() ==> #[trigger] doc@[j] == old(doc)@[j],
        decreases doc@.len() - i,
    {
        let ghost before = doc@;
        match &mut doc[i] {
            Expr::Struct(s) => {
                match pad_struct(s) {
                    Ok(()) => {},
                    Err(error) => {
                        assert(doc@ =~= before);
                        return Err(DocError { index: i, error });
                    },
                }
            },
            _ => {},
        }
        assert(doc@[i as int] == before[i as int] || before[i as int] is Struct);
        i += 1;
    }
    Ok(())
}

} // verus!
