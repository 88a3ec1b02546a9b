use crate::ast::{Field, Struct, Ty};
use crate::layout::{
    field_layouts, field_outcome, gapless, pad_after, total_size, Layout, LayoutChecker,
    LayoutError,
};
use crate::text::{decimal, push_decimal};
use vstd::prelude::*;

verus! {

/// One of the texts that are generated from a document.
#[derive(Debug, Clone, Copy, PartialEq, Eq, Structural)]
pub enum Generator {
    /// The records and tagged unions.
    Types,
    /// The serving side of each service.
    Service,
    /// The receiving side of each bus.
    BusRx,
    /// The calling side of each service.
    Client,
    /// The sending side of each bus.
    BusTx,
    /// The request and reply unions of each service.
    Req,
    /// The message union of each bus.
    Msg,
}

/// Chooses what is generated for Rust.
#[derive(Debug, Clone, Copy, PartialEq, Eq, Structural)]
pub struct RustBuilder {
    types: bool,
    server: bool,
    client: bool,
}

impl Default for RustBuilder {
    /// A builder that generates nothing.
    fn default() -> (b: Self)
        ensures
            !b.has_types(),
            !b.has_server(),
            !b.has_client(),
    {
        RustBuilder { types: false, server: false, client: false }
    }
}

impl RustBuilder {
    /// Whether the types are generated.
    pub closed spec fn has_types(self) -> bool {
        self.types
    }

    /// Whether the serving sides are generated.
    pub closed spec fn has_server(self) -> bool {
        self.server
    }

    /// Whether the calling sides are generated.
    pub closed spec fn has_client(self) -> bool {
        self.client
    }

    /// Also generates the types.
    pub fn types(self) -> (b: Self)
        ensures
            b.has_types(),
            b.has_server() == self.has_server(),
            b.has_client() == self.has_client(),
    {
        RustBuilder { types: true, server: self.server, client: self.client }
    }

    /// Also generates the serving sides.
    pub fn server(self) -> (b: Self)
        ensures
            b.has_server(),
            b.has_types() == self.has_types(),
            b.has_client() == self.has_client(),
    {
        RustBuilder { types: self.types, server: true, client: self.client }
    }

    /// Also generates the calling sides.
    pub fn client(self) -> (b: Self)
        ensures
            b.has_client(),
            b.has_types() == self.has_types(),
            b.has_server() == self.has_server(),
    {
        RustBuilder { types: self.types, server: self.server, client: true }
    }

    /// The texts that this builder generates, in the order in which they
    /// are written: the types; for a server the services and the bus
    /// receivers; for a client the clients and the bus senders; for either
    /// of the two the request and message unions.
    pub open spec fn spec_plan(self) -> Seq<Generator> {
        (if self.has_types() {
            seq![Generator::Types]
        } else {
            Seq::empty()
        }) + (if self.has_server() {
            seq![Generator::Service, Generator::BusRx]
        } else {
            Seq::empty()
        }) + (if self.has_client() {
            seq![Generator::Client, Generator::BusTx]
        } else {
            Seq::empty()
        }) + (if self.has_client() || self.has_server() {
            seq![Generator::Req, Generator::Msg]
        } else {
            Seq::empty()
        })
    }

    /// The texts that this builder generates, in order.
    pub fn plan(&self) -> (steps: Vec<Generator>)
        ensures
            steps@ == self.spec_plan(),
    {
        let mut steps: Vec<Generator> = Vec::new();
        if self.types {
            steps.push(Generator::Types);
        }
        if self.server {
            steps.push(Generator::Service);
            steps.push(Generator::BusRx);
        }
        if self.client {
            steps.push(Generator::Client);
            steps.push(Generator::BusTx);
        }
        if self.client || self.server {
            steps.push(Generator::Req);
            steps.push(Generator::Msg);
        }
        assert(steps@ =~= self.spec_plan());
        steps
    }
}

/// A field of a record that the layout checker refused.
#[derive(Debug, Clone, Copy, PartialEq, Eq, Structural)]
pub struct FieldError {
    /// The position of the field in the record.
    pub field: usize,
    /// Why it was refused.
    pub error: LayoutError,
}

/// The text of the type of the pad field for `pad` bytes.
pub open spec fn pad_type_text(pad: nat) -> Seq<char> {
    "piton::ZeroPad<"@ + decimal(pad) + seq!['>']
}

/// Whether `field` is the pad field for `pad` bytes.
pub open spec fn is_pad_field(field: Field, pad: nat) -> bool {
    &&& field.name@ == "_pad"@
    &&& field.ty matches Ty::Extern(text) && text@ == pad_type_text(pad)
}

/// The record after padding: the same fields, and behind them the pad field
/// where the fields do not end on a multiple of eight bytes.
pub open spec fn padded(before: Struct, after: Struct) -> bool {
    let size = total_size(field_layouts(before.fields@));
    let pad = pad_after(size);
    &&& after.ty_def == before.ty_def
    &&& if pad > 0 {
        &&& after.fields@.len() == before.fields@.len() + 1
        &&& after.fields@.drop_last() == before.fields@
        &&& is_pad_field(after.fields@.last(), pad as nat)
    } else {
        after.fields@ == before.fields@
    }
}

/// What checking the fields of a record gives: the first field that cannot
/// follow the ones before it, with the reason, or none.
pub open spec fn first_refused(layouts: Seq<Layout>, error: FieldError) -> bool {
    &&& error.field < layouts.len()
    &&& gapless(layouts.take(error.field as int))
    &&& total_size(layouts.take(error.field as int)) <= usize::MAX
    &&& field_outcome(
        total_size(layouts.take(error.field as int)) as usize,
        layouts[error.field as int],
    ) == Err::<(), LayoutError>(error.error)
}

/// Checks that the fields of the record follow each other without a gap,
/// and appends the pad field that brings the record to a multiple of eight
/// bytes. A record with a field that needs a gap is refused and left as it
/// is.
pub fn pad_struct(s: &mut Struct) -> (r: Result<(), FieldError>)
    ensures
        r is Ok ==> gapless(field_layouts(old(s).fields@)) && padded(*old(s), *final(s)),
        r matches Err(e) ==> first_refused(field_layouts(old(s).fields@), e) && *final(s) == *old(s),
        r is Err <==> !gapless(field_layouts(old(s).fields@)) || total_size(
            field_layouts(old(s).fields@),
        ) > isize::MAX,
{
    let ghost layouts = field_layouts(s.fields@);
    let mut checker = LayoutChecker::default();
    let mut i: usize = 0;
    while i < s.fields.len()
        invariant
            i <= s.fields.len(),
            *s == *old(s),
            layouts == field_layouts(s.fields@),
            checker.wf(),
            checker.fields() == layouts.take(i as int),
        decreases s.fields.len() - i,
    {
        let layout = s.fields[i].ty.layout_or_oversize();
        proof {
            s.fields@[i as int].ty.lemma_layout_align();
            crate::layout::law_no_hidden_gaps(checker);
            assert(layouts[i as int] == layout);
            assert(layouts.take(i + 1).drop_last() =~= layouts.take(i as int));
            assert(layouts.take(i + 1) =~= layouts.take(i as int).push(layout));
        }
        match checker.next_field(layout) {
            Ok(()) => {},
            Err(error) => {
                proof {
                    lemma_refused_is_not_gapless(layouts, i as int, error);
                }
                return Err(FieldError { field: i, error });
            },
        }
        i += 1;
    }
    proof {
        assert(layouts.take(i as int) =~= layouts);
        crate::layout::law_no_hidden_gaps(checker);
    }
    let pad = checker.final_pad();
    if pad > 0 {
        let mut text = "piton::ZeroPad<".to_string();
        push_decimal(&mut text, pad);
        text.push('>');
        assert(text@ =~= pad_type_text(pad as nat));
        let field = Field { name: "_pad".to_string(), ty: Ty::Extern(text) };
        assert(is_pad_field(field, pad as nat));
        s.fields.push(field);
        proof {
            assert(s.fields@.drop_last() =~= old(s).fields@);
            assert(s.fields@.last() == field);
        }
    }
    Ok(())
}

/// A field that the checker refuses makes the record one with a gap or one
/// that is too large.
pub proof fn lemma_refused_is_not_gapless(layouts: Seq<Layout>, i: int, error: LayoutError)
    requires
        0 <= i < layouts.len(),
        layouts[i].align > 0,
        gapless(layouts.take(i)),
        0 <= total_size(layouts.take(i)) <= isize::MAX,
        field_outcome(total_size(layouts.take(i)) as usize, layouts[i]) == Err::<(), LayoutError>(
            error,
        ),
    ensures
        !gapless(layouts) || total_size(layouts) > isize::MAX,
{
    let size = total_size(layouts.take(i));
    if error is Overflow {
        lemma_total_size_grows(layouts, i + 1);
        assert(layouts.take(i + 1).drop_last() =~= layouts.take(i));
    } else {
        assert(!crate::layout::starts_aligned(layouts, i));
    }
}

/// The sizes of the first `n` layouts sum to at most the sizes of all.
pub proof fn lemma_total_size_grows(layouts: Seq<Layout>, n: int)
    requires
        0 <= n <= layouts.len(),
    ensures
        0 <= total_size(layouts.take(n)) <= total_size(layouts),
    decreases layouts.len() - n,
{
    if n == layouts.len() {
        assert(layouts.take(n) =~= layouts);
        lemma_total_size_nonnegative(layouts);
    } else {
        lemma_total_size_grows(layouts, n + 1);
        assert(layouts.take(n + 1).drop_last() =~= layouts.take(n));
        lemma_total_size_nonnegative(layouts.take(n));
    }
}

/// A sum of sizes is not negative.
pub proof fn lemma_total_size_nonnegative(layouts: Seq<Layout>)
    ensures
        0 <= total_size(layouts),
    decreases layouts.len(),
{
    if layouts.len() > 0 {
        lemma_total_size_nonnegative(layouts.drop_last());
    }
}

} // verus!
