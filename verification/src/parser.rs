use crate::ast::{
    Bus, ConcreteImpl, Enum, Expr, Extern, Field, GenericArg, GenericTy, Method, Msg, Service,
    Struct, TemplateToken, Ty, TyDef, Variant,
};
use crate::grammar::{
    args_list, args_rest, array_ty, bus_def, byte_escape, character, close_body, comma, comma_at,
    comma_ws, comma_ws_at, concrete, concrete_at, const_param, def_head, digit_value, digits_end,
    document, enum_def, expr, expr_at, exprs, extern_def, field, field_at, generic_arg,
    generic_args, generic_ty, generic_ty_at, generic_tys, hex_end, is_digit, is_hex, is_scalar,
    is_symbol_start, lit, method, method_at, msg, msg_at, named_ty, nothing, nothing_at, number,
    open_body, paren_ty, semicolon_ws, semicolon_ws_at, sep_list, sep_rest, service_def, skip_ws,
    spaces, spaces_at, struct_def, symbol, symbol_end, template, template_symbol, template_token,
    template_token_at, ty, ty_def, uint, unicode_escape, variant, variant_at,
};
use crate::syntax::{
    views, ConcreteImplV, ExprV, FieldV, GenericArgV, GenericTyV, MethodV, MsgV, TemplateTokenV,
    VariantV,
};
use vstd::prelude::*;
use vstd::string::StrSliceExecFns;

verus! {

/// Whether what was read, a value and the position behind it, is what the
/// grammar gives.
pub open spec fn agrees<T: View>(r: Option<(T, usize)>, want: Option<(T::V, int)>) -> bool {
    match r {
        Some((v, end)) => want == Some((v@, end as int)),
        None => want is None,
    }
}

/// Whether the position that was reached is the one the grammar gives.
pub open spec fn reaches(r: Option<usize>, want: Option<int>) -> bool {
    match r {
        Some(end) => want == Some(end as int),
        None => want is None,
    }
}

/// Skips the spaces at `pos`.
pub fn skip_spaces(input: &[char], pos: usize) -> (end: usize)
    requires
        pos <= input@.len(),
    ensures
        end == skip_ws(input@, pos as int),
        pos <= end <= input@.len(),
{
    let mut i = pos;
    while i < input.len() && (input[i] == ' ' || input[i] == '\n' || input[i] == '\t')
        invariant
            pos <= i <= input@.len(),
            skip_ws(input@, pos as int) == skip_ws(input@, i as int),
        decreases input@.len() - i,
    {
        i += 1;
    }
    i
}

/// Reads `word` at `pos`.
pub fn expect(input: &[char], pos: usize, word: &str) -> (r: Option<usize>)
    requires
        pos <= input@.len(),
    ensures
        reaches(r, lit(input@, pos as int, word@)),
        r matches Some(end) ==> end == pos + word@.len() && end <= input@.len(),
{
    let n = word.unicode_len();
    let len = input.len();
    if n > len - pos {
        return None;
    }
    let mut i: usize = 0;
    while i < n
        invariant
            i <= n,
            n == word@.len(),
            len == input@.len(),
            pos + n <= len,
            input@.subrange(pos as int, pos + i) == word@.take(i as int),
        decreases n - i,
    {
        if input[pos + i] != word.get_char(i) {
            proof {
                let a = input@.subrange(pos as int, pos + n);
                assert(a[i as int] == input@[pos + i]);
            }
            return None;
        }
        i += 1;
        assert(input@.subrange(pos as int, pos + i) =~= word@.take(i as int));
    }
    assert(word@.take(n as int) =~= word@);
    Some(pos + n)
}

/// The characters from `from` up to `to`, as a string.
pub fn take(input: &[char], from: usize, to: usize) -> (text: String)
    requires
        from <= to <= input@.len(),
    ensures
        text@ == input@.subrange(from as int, to as int),
{
    let mut text = String::new();
    let mut i = from;
    while i < to
        invariant
            from <= i <= to <= input@.len(),
            text@ == input@.subrange(from as int, i as int),
        decreases to - i,
    {
        text.push(input[i]);
        i += 1;
        assert(text@ =~= input@.subrange(from as int, i as int));
    }
    text
}

/// Whether the character can start a name.
pub fn symbol_start(c: char) -> (yes: bool)
    ensures
        yes == is_symbol_start(c),
{
    (c >= 'a' && c <= 'z') || (c >= 'A' && c <= 'Z') || c == '_'
}

/// Whether the character is a decimal digit.
pub fn digit(c: char) -> (yes: bool)
    ensures
        yes == is_digit(c),
{
    c >= '0' && c <= '9'
}

/// Reads a name at `pos`.
pub fn parse_symbol(input: &[char], pos: usize) -> (r: Option<(String, usize)>)
    requires
        pos <= input@.len(),
    ensures
        agrees(r, symbol(input@, pos as int)),
        r matches Some((_, end)) ==> pos < end <= input@.len(),
{
    if pos >= input.len() || !symbol_start(input[pos]) {
        return None;
    }
    let mut i = pos + 1;
    while i < input.len() && (symbol_start(input[i]) || digit(input[i]))
        invariant
            pos < i <= input@.len(),
            symbol_end(input@, pos + 1) == symbol_end(input@, i as int),
        decreases input@.len() - i,
    {
        i += 1;
    }
    Some((take(input, pos, i), i))
}

/// The number of a decimal digit.
pub fn decimal_value(c: char) -> (v: usize)
    requires
        is_digit(c),
    ensures
        v == digit_value(c),
        v < 10,
{
    (c as u32 - '0' as u32) as usize
}

/// Appending digits never makes the number smaller.
pub proof fn lemma_number_grows(digits: Seq<char>, n: int, base: nat)
    requires
        0 <= n <= digits.len(),
        base >= 1,
    ensures
        number(digits.take(n), base) <= number(digits, base),
    decreases digits.len() - n,
{
    if n == digits.len() {
        assert(digits.take(n) =~= digits);
    } else {
        lemma_number_grows(digits, n + 1, base);
        assert(digits.take(n + 1).drop_last() =~= digits.take(n));
        let m = number(digits.take(n), base);
        assert(m <= m * base + digit_value(digits[n])) by (nonlinear_arith)
            requires
                base >= 1,
                m >= 0,
                digit_value(digits[n]) >= 0,
        ;
    }
}

/// Reads a number at `pos`.
pub fn parse_uint(input: &[char], pos: usize) -> (r: Option<(usize, usize)>)
    requires
        pos <= input@.len(),
    ensures
        match r {
            Some((n, end)) => uint(input@, pos as int) == Some((n, end as int)),
            None => uint(input@, pos as int) is None,
        },
        r matches Some((_, end)) ==> pos < end <= input@.len(),
{
    let mut end = pos;
    while end < input.len() && digit(input[end])
        invariant
            pos <= end <= input@.len(),
            digits_end(input@, pos as int) == digits_end(input@, end as int),
            forall|j: int| pos <= j < end ==> is_digit(input@[j]),
        decreases input@.len() - end,
    {
        end += 1;
    }
    if end == pos {
        return None;
    }
    assert(digits_end(input@, pos as int) == end);
    let ghost digits = input@.subrange(pos as int, end as int);
    let mut value: usize = 0;
    let mut i = pos;
    while i < end
        invariant
            pos <= i <= end <= input@.len(),
            digits == input@.subrange(pos as int, end as int),
            digits_end(input@, pos as int) == end,
            forall|j: int| pos <= j < end ==> is_digit(input@[j]),
            value == number(digits.take(i - pos), 10),
        decreases end - i,
    {
        let d = decimal_value(input[i]);
        proof {
            assert(digits.take(i + 1 - pos).drop_last() =~= digits.take(i - pos));
            assert(digits.take(i + 1 - pos).last() == input@[i as int]);
            lemma_number_grows(digits, i + 1 - pos, 10);
            assert(number(digits.take(i + 1 - pos), 10) == value * 10 + d);
        }
        let next = match value.checked_mul(10) {
            Some(v) => v.checked_add(d),
            None => None,
        };
        match next {
            Some(v) => {
                value = v;
            },
            None => {
                return None;
            },
        }
        i += 1;
    }
    proof {
        assert(digits.take(end - pos) =~= digits);
    }
    Some((value, end))
}

/// Reads a type at `pos`.
pub fn parse_ty(input: &[char], pos: usize) -> (r: Option<(Ty, usize)>)
    requires
        pos <= input@.len(),
    ensures
        agrees(r, ty(input@, pos as int)),
        r matches Some((_, end)) ==> pos < end <= input@.len(),
    decreases input@.len() - pos, 1nat,
{
    proof {
        reveal_strlit("u8");
        reveal_strlit("u16");
        reveal_strlit("u32");
        reveal_strlit("u64");
        reveal_strlit("i8");
        reveal_strlit("i16");
        reveal_strlit("i32");
        reveal_strlit("i64");
        reveal_strlit("f32");
        reveal_strlit("f64");
        reveal_strlit("bool");
    }
    if let Some(end) = expect(input, pos, "u8") {
        Some((Ty::U8, end))
    } else if let Some(end) = expect(input, pos, "u16") {
        Some((Ty::U16, end))
    } else if let Some(end) = expect(input, pos, "u32") {
        Some((Ty::U32, end))
    } else if let Some(end) = expect(input, pos, "u64") {
        Some((Ty::U64, end))
    } else if let Some(end) = expect(input, pos, "i8") {
        Some((Ty::I8, end))
    } else if let Some(end) = expect(input, pos, "i16") {
        Some((Ty::I16, end))
    } else if let Some(end) = expect(input, pos, "i32") {
        Some((Ty::I32, end))
    } else if let Some(end) = expect(input, pos, "i64") {
        Some((Ty::I64, end))
    } else if let Some(end) = expect(input, pos, "f32") {
        Some((Ty::F32, end))
    } else if let Some(end) = expect(input, pos, "f64") {
        Some((Ty::F64, end))
    } else if let Some(end) = expect(input, pos, "bool") {
        Some((Ty::Bool, end))
    } else {
        match parse_array_ty(input, pos) {
            Some(r) => Some(r),
            None => parse_named_ty(input, pos),
        }
    }
}

/// Reads an array type at `pos`.
pub fn parse_array_ty(input: &[char], pos: usize) -> (r: Option<(Ty, usize)>)
    requires
        pos <= input@.len(),
    ensures
        agrees(r, array_ty(input@, pos as int)),
        r matches Some((_, end)) ==> pos < end <= input@.len(),
    decreases input@.len() - pos, 0nat,
{
    if pos >= input.len() || input[pos] != '[' {
        return None;
    }
    let p0 = skip_spaces(input, pos + 1);
    let (elem, p1) = match parse_ty(input, p0) {
        Some(r) => r,
        None => {
            return None;
        },
    };
    let p2 = match expect(input, p1, ";") {
        Some(p) => p,
        None => {
            return None;
        },
    };
    let (len, p3) = match parse_uint(input, skip_spaces(input, p2)) {
        Some(r) => r,
        None => {
            return None;
        },
    };
    let p4 = match expect(input, skip_spaces(input, p3), "]") {
        Some(p) => p,
        None => {
            return None;
        },
    };
    Some((Ty::Array { ty: Box::new(elem), len }, p4))
}

/// Reads a named type at `pos`.
pub fn parse_named_ty(input: &[char], pos: usize) -> (r: Option<(Ty, usize)>)
    requires
        pos <= input@.len(),
    ensures
        agrees(r, named_ty(input@, pos as int)),
        r matches Some((_, end)) ==> pos < end <= input@.len(),
    decreases input@.len() - pos, 0nat,
{
    let (name, p1) = match parse_symbol(input, pos) {
        Some(r) => r,
        None => {
            return None;
        },
    };
    match parse_generic_args(input, p1) {
        Some((generic_args, p2)) => {
            let out = Ty::Unresolved { name, generic_args };
            assert(out@->generic_args =~= views(generic_args@));
            Some((out, p2))
        },
        None => {
            let out = Ty::Unresolved { name, generic_args: Vec::new() };
            assert(out@->generic_args =~= Seq::<GenericArgV>::empty());
            Some((out, p1))
        },
    }
}

/// Reads generic arguments at `pos`.
pub fn parse_generic_args(input: &[char], pos: usize) -> (r: Option<(Vec<GenericArg>, usize)>)
    requires
        pos <= input@.len(),
    ensures
        match r {
            Some((args, end)) => generic_args(input@, pos as int) == Some(
                (views(args@), end as int),
            ),
            None => generic_args(input@, pos as int) is None,
        },
        r matches Some((_, end)) ==> pos < end <= input@.len(),
    decreases input@.len() - pos, 3nat,
{
    if pos >= input.len() || input[pos] != '<' {
        return None;
    }
    proof {
        reveal_strlit(",");
        reveal_strlit(">");
    }
    let p0 = skip_spaces(input, pos + 1);
    let mut args: Vec<GenericArg> = Vec::new();
    let mut p = p0;
    let ghost total = args_list(input@, p0 as int);
    match parse_generic_arg(input, p0) {
        Some((arg, p1)) => {
            args.push(arg);
            p = p1;
            assert(views(args@) =~= seq![arg@]);
            proof {
                let rest = args_rest(input@, p1 as int);
                assert(total == (seq![arg@] + rest.0, rest.1));
            }
            loop
                invariant_except_break
                    total.0 == views(args@) + args_rest(input@, p as int).0,
                    total.1 == args_rest(input@, p as int).1,
                invariant
                    pos < p <= input@.len(),
                ensures
                    total == (views(args@), p as int),
                decreases input@.len() - p,
            {
                proof {
                    reveal_strlit(",");
                }
                let p2 = match expect(input, p, ",") {
                    Some(q) => skip_spaces(input, q),
                    None => {
                        assert(views(args@) + Seq::<GenericArgV>::empty() =~= views(args@));
                        break ;
                    },
                };
                match parse_generic_arg(input, p2) {
                    Some((arg, p3)) => {
                        let ghost before = views(args@);
                        args.push(arg);
                        proof {
                            let rest = args_rest(input@, p3 as int);
                            assert(args_rest(input@, p as int) == (seq![arg@] + rest.0, rest.1));
                            assert(views(args@) =~= before + seq![arg@]);
                            assert(before + (seq![arg@] + rest.0) =~= views(args@) + rest.0);
                        }
                        p = p3;
                    },
                    None => {
                        assert(views(args@) + Seq::<GenericArgV>::empty() =~= views(args@));
                        break ;
                    },
                }
            }
        },
        None => {
            assert(views(args@) =~= Seq::<GenericArgV>::empty());
        },
    }
    proof {
        assert(total == (views(args@), p as int));
    }
    match expect(input, p, ">") {
        Some(end) => Some((args, end)),
        None => None,
    }
}

/// Reads a generic argument at `pos`.
pub fn parse_generic_arg(input: &[char], pos: usize) -> (r: Option<(GenericArg, usize)>)
    requires
        pos <= input@.len(),
    ensures
        agrees(r, generic_arg(input@, pos as int)),
        r matches Some((_, end)) ==> pos < end <= input@.len(),
    decreases input@.len() - pos, 2nat,
{
    match parse_ty(input, pos) {
        Some((t, end)) => Some((GenericArg::Ty(t), end)),
        None => match parse_uint(input, pos) {
            Some((n, end)) => Some((GenericArg::Const(n), end)),
            None => None,
        },
    }
}


/// Reads generic parameters: as many as there are, separated by commas.
pub fn parse_generic_ty_list(input: &[char], pos: usize) -> (r: (Vec<GenericTy>, usize))
    requires
        pos <= input@.len(),
    ensures
        (views(r.0@), r.1 as int) == sep_list(
            generic_ty_at(input@),
            comma_ws_at(input@),
            pos as int,
            input@.len() as int,
        ),
        pos <= r.1 <= input@.len(),
{
    let ghost elem = generic_ty_at(input@);
    let ghost sep = comma_ws_at(input@);
    let ghost len = input@.len() as int;
    let ghost total = sep_list(elem, sep, pos as int, len);
    let mut items: Vec<GenericTy> = Vec::new();
    let mut p = pos;
    match parse_generic_ty(input, pos) {
        Some((item, p1)) => {
            let ghost first = item@;
            items.push(item);
            p = p1;
            proof {
                let rest = sep_rest(elem, sep, p1 as int, len);
                assert(total == (seq![first] + rest.0, rest.1));
                assert(views(items@) =~= seq![first]);
            }
            loop
                invariant_except_break
                    total.0 == views(items@) + sep_rest(elem, sep, p as int, len).0,
                    total.1 == sep_rest(elem, sep, p as int, len).1,
                invariant
                    pos <= p <= input@.len(),
                    elem == generic_ty_at(input@),
                    sep == comma_ws_at(input@),
                    len == input@.len(),
                ensures
                    total == (views(items@), p as int),
                decreases input@.len() - p,
            {
                let p2 = match parse_comma_ws(input, p) {
                    Some(q) => q,
                    None => {
                        assert(views(items@) + Seq::<GenericTyV>::empty() =~= views(items@));
                        break ;
                    },
                };
                match parse_generic_ty(input, p2) {
                    Some((item, p3)) => {
                        let ghost next = item@;
                        let ghost before = views(items@);
                        items.push(item);
                        proof {
                            let rest = sep_rest(elem, sep, p3 as int, len);
                            assert(sep_rest(elem, sep, p as int, len) == (seq![next] + rest.0, rest.1));
                            assert(views(items@) =~= before + seq![next]);
                            assert(before + (seq![next] + rest.0) =~= views(items@) + rest.0);
                        }
                        p = p3;
                    },
                    None => {
                        assert(views(items@) + Seq::<GenericTyV>::empty() =~= views(items@));
                        break ;
                    },
                }
            }
        },
        None => {
            assert(views(items@) =~= Seq::<GenericTyV>::empty());
        },
    }
    (items, p)
}

/// Reads fields: as many as there are, separated by commas.
pub fn parse_fields(input: &[char], pos: usize) -> (r: (Vec<Field>, usize))
    requires
        pos <= input@.len(),
    ensures
        (views(r.0@), r.1 as int) == sep_list(
            field_at(input@),
            comma_ws_at(input@),
            pos as int,
            input@.len() as int,
        ),
        pos <= r.1 <= input@.len(),
{
    let ghost elem = field_at(input@);
    let ghost sep = comma_ws_at(input@);
    let ghost len = input@.len() as int;
    let ghost total = sep_list(elem, sep, pos as int, len);
    let mut items: Vec<Field> = Vec::new();
    let mut p = pos;
    match parse_field(input, pos) {
        Some((item, p1)) => {
            let ghost first = item@;
            items.push(item);
            p = p1;
            proof {
                let rest = sep_rest(elem, sep, p1 as int, len);
                assert(total == (seq![first] + rest.0, rest.1));
                assert(views(items@) =~= seq![first]);
            }
            loop
                invariant_except_break
                    total.0 == views(items@) + sep_rest(elem, sep, p as int, len).0,
                    total.1 == sep_rest(elem, sep, p as int, len).1,
                invariant
                    pos <= p <= input@.len(),
                    elem == field_at(input@),
                    sep == comma_ws_at(input@),
                    len == input@.len(),
                ensures
                    total == (views(items@), p as int),
                decreases input@.len() - p,
            {
                let p2 = match parse_comma_ws(input, p) {
                    Some(q) => q,
                    None => {
                        assert(views(items@) + Seq::<FieldV>::empty() =~= views(items@));
                        break ;
                    },
                };
                match parse_field(input, p2) {
                    Some((item, p3)) => {
                        let ghost next = item@;
                        let ghost before = views(items@);
                        items.push(item);
                        proof {
                            let rest = sep_rest(elem, sep, p3 as int, len);
                            assert(sep_rest(elem, sep, p as int, len) == (seq![next] + rest.0, rest.1));
                            assert(views(items@) =~= before + seq![next]);
                            assert(before + (seq![next] + rest.0) =~= views(items@) + rest.0);
                        }
                        p = p3;
                    },
                    None => {
                        assert(views(items@) + Seq::<FieldV>::empty() =~= views(items@));
                        break ;
                    },
                }
            }
        },
        None => {
            assert(views(items@) =~= Seq::<FieldV>::empty());
        },
    }
    (items, p)
}

/// Reads variants: as many as there are, separated by commas.
pub fn parse_variants(input: &[char], pos: usize) -> (r: (Vec<Variant>, usize))
    requires
        pos <= input@.len(),
    ensures
        (views(r.0@), r.1 as int) == sep_list(
            variant_at(input@),
            comma_ws_at(input@),
            pos as int,
            input@.len() as int,
        ),
        pos <= r.1 <= input@.len(),
{
    let ghost elem = variant_at(input@);
    let ghost sep = comma_ws_at(input@);
    let ghost len = input@.len() as int;
    let ghost total = sep_list(elem, sep, pos as int, len);
    let mut items: Vec<Variant> = Vec::new();
    let mut p = pos;
    match parse_variant(input, pos) {
        Some((item, p1)) => {
            let ghost first = item@;
            items.push(item);
            p = p1;
            proof {
                let rest = sep_rest(elem, sep, p1 as int, len);
                assert(total == (seq![first] + rest.0, rest.1));
                assert(views(items@) =~= seq![first]);
            }
            loop
                invariant_except_break
                    total.0 == views(items@) + sep_rest(elem, sep, p as int, len).0,
                    total.1 == sep_rest(elem, sep, p as int, len).1,
                invariant
                    pos <= p <= input@.len(),
                    elem == variant_at(input@),
                    sep == comma_ws_at(input@),
                    len == input@.len(),
                ensures
                    total == (views(items@), p as int),
                decreases input@.len() - p,
            {
                let p2 = match parse_comma_ws(input, p) {
                    Some(q) => q,
                    None => {
                        assert(views(items@) + Seq::<VariantV>::empty() =~= views(items@));
                        break ;
                    },
                };
                match parse_variant(input, p2) {
                    Some((item, p3)) => {
                        let ghost next = item@;
                        let ghost before = views(items@);
                        items.push(item);
                        proof {
                            let rest = sep_rest(elem, sep, p3 as int, len);
                            assert(sep_rest(elem, sep, p as int, len) == (seq![next] + rest.0, rest.1));
                            assert(views(items@) =~= before + seq![next]);
                            assert(before + (seq![next] + rest.0) =~= views(items@) + rest.0);
                        }
                        p = p3;
                    },
                    None => {
                        assert(views(items@) + Seq::<VariantV>::empty() =~= views(items@));
                        break ;
                    },
                }
            }
        },
        None => {
            assert(views(items@) =~= Seq::<VariantV>::empty());
        },
    }
    (items, p)
}

/// Reads methods: as many as there are, separated by commas.
pub fn parse_methods(input: &[char], pos: usize) -> (r: (Vec<Method>, usize))
    requires
        pos <= input@.len(),
    ensures
        (views(r.0@), r.1 as int) == sep_list(
            method_at(input@),
            comma_at(input@),
            pos as int,
            input@.len() as int,
        ),
        pos <= r.1 <= input@.len(),
{
    let ghost elem = method_at(input@);
    let ghost sep = comma_at(input@);
    let ghost len = input@.len() as int;
    let ghost total = sep_list(elem, sep, pos as int, len);
    let mut items: Vec<Method> = Vec::new();
    let mut p = pos;
    match parse_method(input, pos) {
        Some((item, p1)) => {
            let ghost first = item@;
            items.push(item);
            p = p1;
            proof {
                let rest = sep_rest(elem, sep, p1 as int, len);
                assert(total == (seq![first] + rest.0, rest.1));
                assert(views(items@) =~= seq![first]);
            }
            loop
                invariant_except_break
                    total.0 == views(items@) + sep_rest(elem, sep, p as int, len).0,
                    total.1 == sep_rest(elem, sep, p as int, len).1,
                invariant
                    pos <= p <= input@.len(),
                    elem == method_at(input@),
                    sep == comma_at(input@),
                    len == input@.len(),
                ensures
                    total == (views(items@), p as int),
                decreases input@.len() - p,
            {
                let p2 = match parse_comma(input, p) {
                    Some(q) => q,
                    None => {
                        assert(views(items@) + Seq::<MethodV>::empty() =~= views(items@));
                        break ;
                    },
                };
                match parse_method(input, p2) {
                    Some((item, p3)) => {
                        let ghost next = item@;
                        let ghost before = views(items@);
                        items.push(item);
                        proof {
                            let rest = sep_rest(elem, sep, p3 as int, len);
                            assert(sep_rest(elem, sep, p as int, len) == (seq![next] + rest.0, rest.1));
                            assert(views(items@) =~= before + seq![next]);
                            assert(before + (seq![next] + rest.0) =~= views(items@) + rest.0);
                        }
                        p = p3;
                    },
                    None => {
                        assert(views(items@) + Seq::<MethodV>::empty() =~= views(items@));
                        break ;
                    },
                }
            }
        },
        None => {
            assert(views(items@) =~= Seq::<MethodV>::empty());
        },
    }
    (items, p)
}

/// Reads messages: as many as there are, separated by semicolons.
pub fn parse_msgs(input: &[char], pos: usize) -> (r: (Vec<Msg>, usize))
    requires
        pos <= input@.len(),
    ensures
        (views(r.0@), r.1 as int) == sep_list(
            msg_at(input@),
            semicolon_ws_at(input@),
            pos as int,
            input@.len() as int,
        ),
        pos <= r.1 <= input@.len(),
{
    let ghost elem = msg_at(input@);
    let ghost sep = semicolon_ws_at(input@);
    let ghost len = input@.len() as int;
    let ghost total = sep_list(elem, sep, pos as int, len);
    let mut items: Vec<Msg> = Vec::new();
    let mut p = pos;
    match parse_msg(input, pos) {
        Some((item, p1)) => {
            let ghost first = item@;
            items.push(item);
            p = p1;
            proof {
                let rest = sep_rest(elem, sep, p1 as int, len);
                assert(total == (seq![first] + rest.0, rest.1));
                assert(views(items@) =~= seq![first]);
            }
            loop
                invariant_except_break
                    total.0 == views(items@) + sep_rest(elem, sep, p as int, len).0,
                    total.1 == sep_rest(elem, sep, p as int, len).1,
                invariant
                    pos <= p <= input@.len(),
                    elem == msg_at(input@),
                    sep == semicolon_ws_at(input@),
                    len == input@.len(),
                ensures
                    total == (views(items@), p as int),
                decreases input@.len() - p,
            {
                let p2 = match parse_semicolon_ws(input, p) {
                    Some(q) => q,
                    None => {
                        assert(views(items@) + Seq::<MsgV>::empty() =~= views(items@));
                        break ;
                    },
                };
                match parse_msg(input, p2) {
                    Some((item, p3)) => {
                        let ghost next = item@;
                        let ghost before = views(items@);
                        items.push(item);
                        proof {
                            let rest = sep_rest(elem, sep, p3 as int, len);
                            assert(sep_rest(elem, sep, p as int, len) == (seq![next] + rest.0, rest.1));
                            assert(views(items@) =~= before + seq![next]);
                            assert(before + (seq![next] + rest.0) =~= views(items@) + rest.0);
                        }
                        p = p3;
                    },
                    None => {
                        assert(views(items@) + Seq::<MsgV>::empty() =~= views(items@));
                        break ;
                    },
                }
            }
        },
        None => {
            assert(views(items@) =~= Seq::<MsgV>::empty());
        },
    }
    (items, p)
}

/// Reads the pieces of a text: as many as there are, one behind the other.
pub fn parse_template_tokens(input: &[char], pos: usize) -> (r: (Vec<TemplateToken>, usize))
    requires
        pos <= input@.len(),
    ensures
        (views(r.0@), r.1 as int) == sep_list(
            template_token_at(input@),
            nothing_at(),
            pos as int,
            input@.len() as int,
        ),
        pos <= r.1 <= input@.len(),
{
    let ghost elem = template_token_at(input@);
    let ghost sep = nothing_at();
    let ghost len = input@.len() as int;
    let ghost total = sep_list(elem, sep, pos as int, len);
    let mut items: Vec<TemplateToken> = Vec::new();
    let mut p = pos;
    match parse_template_token(input, pos) {
        Some((item, p1)) => {
            let ghost first = item@;
            items.push(item);
            p = p1;
            proof {
                let rest = sep_rest(elem, sep, p1 as int, len);
                assert(total == (seq![first] + rest.0, rest.1));
                assert(views(items@) =~= seq![first]);
            }
            loop
                invariant_except_break
                    total.0 == views(items@) + sep_rest(elem, sep, p as int, len).0,
                    total.1 == sep_rest(elem, sep, p as int, len).1,
                invariant
                    pos <= p <= input@.len(),
                    elem == template_token_at(input@),
                    sep == nothing_at(),
                    len == input@.len(),
                ensures
                    total == (views(items@), p as int),
                decreases input@.len() - p,
            {
                let p2 = match parse_nothing(input, p) {
                    Some(q) => q,
                    None => {
                        assert(views(items@) + Seq::<TemplateTokenV>::empty() =~= views(items@));
                        break ;
                    },
                };
                match parse_template_token(input, p2) {
                    Some((item, p3)) => {
                        let ghost next = item@;
                        let ghost before = views(items@);
                        items.push(item);
                        proof {
                            let rest = sep_rest(elem, sep, p3 as int, len);
                            assert(sep_rest(elem, sep, p as int, len) == (seq![next] + rest.0, rest.1));
                            assert(views(items@) =~= before + seq![next]);
                            assert(before + (seq![next] + rest.0) =~= views(items@) + rest.0);
                        }
                        p = p3;
                    },
                    None => {
                        assert(views(items@) + Seq::<TemplateTokenV>::empty() =~= views(items@));
                        break ;
                    },
                }
            }
        },
        None => {
            assert(views(items@) =~= Seq::<TemplateTokenV>::empty());
        },
    }
    (items, p)
}

/// Reads the texts of an extern type: as many as there are, separated by commas.
pub fn parse_concretes(input: &[char], pos: usize) -> (r: (Vec<ConcreteImpl>, usize))
    requires
        pos <= input@.len(),
    ensures
        (views(r.0@), r.1 as int) == sep_list(
            concrete_at(input@),
            comma_at(input@),
            pos as int,
            input@.len() as int,
        ),
        pos <= r.1 <= input@.len(),
{
    let ghost elem = concrete_at(input@);
    let ghost sep = comma_at(input@);
    let ghost len = input@.len() as int;
    let ghost total = sep_list(elem, sep, pos as int, len);
    let mut items: Vec<ConcreteImpl> = Vec::new();
    let mut p = pos;
    match parse_concrete(input, pos) {
        Some((item, p1)) => {
            let ghost first = item@;
            items.push(item);
            p = p1;
            proof {
                let rest = sep_rest(elem, sep, p1 as int, len);
                assert(total == (seq![first] + rest.0, rest.1));
                assert(views(items@) =~= seq![first]);
            }
            loop
                invariant_except_break
                    total.0 == views(items@) + sep_rest(elem, sep, p as int, len).0,
                    total.1 == sep_rest(elem, sep, p as int, len).1,
                invariant
                    pos <= p <= input@.len(),
                    elem == concrete_at(input@),
                    sep == comma_at(input@),
                    len == input@.len(),
                ensures
                    total == (views(items@), p as int),
                decreases input@.len() - p,
            {
                let p2 = match parse_comma(input, p) {
                    Some(q) => q,
                    None => {
                        assert(views(items@) + Seq::<ConcreteImplV>::empty() =~= views(items@));
                        break ;
                    },
                };
                match parse_concrete(input, p2) {
                    Some((item, p3)) => {
                        let ghost next = item@;
                        let ghost before = views(items@);
                        items.push(item);
                        proof {
                            let rest = sep_rest(elem, sep, p3 as int, len);
                            assert(sep_rest(elem, sep, p as int, len) == (seq![next] + rest.0, rest.1));
                            assert(views(items@) =~= before + seq![next]);
                            assert(before + (seq![next] + rest.0) =~= views(items@) + rest.0);
                        }
                        p = p3;
                    },
                    None => {
                        assert(views(items@) + Seq::<ConcreteImplV>::empty() =~= views(items@));
                        break ;
                    },
                }
            }
        },
        None => {
            assert(views(items@) =~= Seq::<ConcreteImplV>::empty());
        },
    }
    (items, p)
}

/// Reads definitions: as many as there are, separated by spaces.
pub fn parse_expr_list(input: &[char], pos: usize) -> (r: (Vec<Expr>, usize))
    requires
        pos <= input@.len(),
    ensures
        (views(r.0@), r.1 as int) == sep_list(
            expr_at(input@),
            spaces_at(input@),
            pos as int,
            input@.len() as int,
        ),
        pos <= r.1 <= input@.len(),
{
    let ghost elem = expr_at(input@);
    let ghost sep = spaces_at(input@);
    let ghost len = input@.len() as int;
    let ghost total = sep_list(elem, sep, pos as int, len);
    let mut items: Vec<Expr> = Vec::new();
    let mut p = pos;
    match parse_expr(input, pos) {
        Some((item, p1)) => {
            let ghost first = item@;
            items.push(item);
            p = p1;
            proof {
                let rest = sep_rest(elem, sep, p1 as int, len);
                assert(total == (seq![first] + rest.0, rest.1));
                assert(views(items@) =~= seq![first]);
            }
            loop
                invariant_except_break
                    total.0 == views(items@) + sep_rest(elem, sep, p as int, len).0,
                    total.1 == sep_rest(elem, sep, p as int, len).1,
                invariant
                    pos <= p <= input@.len(),
                    elem == expr_at(input@),
                    sep == spaces_at(input@),
                    len == input@.len(),
                ensures
                    total == (views(items@), p as int),
                decreases input@.len() - p,
            {
                let p2 = match parse_spaces(input, p) {
                    Some(q) => q,
                    None => {
                        assert(views(items@) + Seq::<ExprV>::empty() =~= views(items@));
                        break ;
                    },
                };
                match parse_expr(input, p2) {
                    Some((item, p3)) => {
                        let ghost next = item@;
                        let ghost before = views(items@);
                        items.push(item);
                        proof {
                            let rest = sep_rest(elem, sep, p3 as int, len);
                            assert(sep_rest(elem, sep, p as int, len) == (seq![next] + rest.0, rest.1));
                            assert(views(items@) =~= before + seq![next]);
                            assert(before + (seq![next] + rest.0) =~= views(items@) + rest.0);
                        }
                        p = p3;
                    },
                    None => {
                        assert(views(items@) + Seq::<ExprV>::empty() =~= views(items@));
                        break ;
                    },
                }
            }
        },
        None => {
            assert(views(items@) =~= Seq::<ExprV>::empty());
        },
    }
    (items, p)
}

/// Reads a comma and the spaces behind it.
pub fn parse_comma_ws(input: &[char], pos: usize) -> (r: Option<usize>)
    requires
        pos <= input@.len(),
    ensures
        reaches(r, comma_ws(input@, pos as int)),
        r matches Some(end) ==> pos < end <= input@.len(),
{
    proof {
        reveal_strlit(",");
    }
    match expect(input, pos, ",") {
        Some(p) => Some(skip_spaces(input, p)),
        None => None,
    }
}

/// Reads a semicolon and the spaces behind it.
pub fn parse_semicolon_ws(input: &[char], pos: usize) -> (r: Option<usize>)
    requires
        pos <= input@.len(),
    ensures
        reaches(r, semicolon_ws(input@, pos as int)),
        r matches Some(end) ==> pos < end <= input@.len(),
{
    proof {
        reveal_strlit(";");
    }
    match expect(input, pos, ";") {
        Some(p) => Some(skip_spaces(input, p)),
        None => None,
    }
}

/// Reads a comma.
pub fn parse_comma(input: &[char], pos: usize) -> (r: Option<usize>)
    requires
        pos <= input@.len(),
    ensures
        reaches(r, comma(input@, pos as int)),
        r matches Some(end) ==> pos < end <= input@.len(),
{
    proof {
        reveal_strlit(",");
    }
    expect(input, pos, ",")
}

/// Reads spaces, of which there may be none.
pub fn parse_spaces(input: &[char], pos: usize) -> (r: Option<usize>)
    requires
        pos <= input@.len(),
    ensures
        reaches(r, spaces(input@, pos as int)),
        r matches Some(end) ==> pos <= end <= input@.len(),
{
    Some(skip_spaces(input, pos))
}

/// Reads nothing.
pub fn parse_nothing(input: &[char], pos: usize) -> (r: Option<usize>)
    requires
        pos <= input@.len(),
    ensures
        reaches(r, nothing(pos as int)),
        r matches Some(end) ==> pos <= end <= input@.len(),
{
    Some(pos)
}

/// Reads a constant parameter at `pos`.
pub fn parse_const_param(input: &[char], pos: usize) -> (r: Option<(GenericTy, usize)>)
    requires
        pos <= input@.len(),
    ensures
        agrees(r, const_param(input@, pos as int)),
        r matches Some((_, end)) ==> pos < end <= input@.len(),
{
    let p1 = expect(input, pos, "const")?;
    let (name, p2) = parse_symbol(input, skip_spaces(input, p1))?;
    let p3 = expect(input, p2, ":")?;
    let (ty, p4) = parse_ty(input, skip_spaces(input, p3))?;
    Some((GenericTy::Const { ty, name }, p4))
}

/// Reads a generic parameter at `pos`.
pub fn parse_generic_ty(input: &[char], pos: usize) -> (r: Option<(GenericTy, usize)>)
    requires
        pos <= input@.len(),
    ensures
        agrees(r, generic_ty(input@, pos as int)),
        r matches Some((_, end)) ==> pos < end <= input@.len(),
{
    match parse_const_param(input, pos) {
        Some(r) => Some(r),
        None => match parse_symbol(input, pos) {
            Some((name, end)) => Some((GenericTy::Ty(name), end)),
            None => None,
        },
    }
}

/// Reads generic parameters at `pos`.
pub fn parse_generic_tys(input: &[char], pos: usize) -> (r: Option<(Vec<GenericTy>, usize)>)
    requires
        pos <= input@.len(),
    ensures
        match r {
            Some((params, end)) => generic_tys(input@, pos as int) == Some(
                (views(params@), end as int),
            ),
            None => generic_tys(input@, pos as int) is None,
        },
        r matches Some((_, end)) ==> pos <= end <= input@.len(),
{
    let p1 = expect(input, pos, "<")?;
    let (params, p2) = parse_generic_ty_list(input, skip_spaces(input, p1));
    let p3 = expect(input, p2, ">")?;
    Some((params, p3))
}

/// Reads the head of a definition at `pos`.
pub fn parse_ty_def(input: &[char], pos: usize) -> (r: Option<(TyDef, usize)>)
    requires
        pos <= input@.len(),
    ensures
        agrees(r, ty_def(input@, pos as int)),
        r matches Some((_, end)) ==> pos < end <= input@.len(),
{
    let (name, p1) = parse_symbol(input, pos)?;
    match parse_generic_tys(input, p1) {
        Some((generic_tys, p2)) => Some((TyDef { name, generic_tys }, p2)),
        None => {
            let def = TyDef { name, generic_tys: Vec::new() };
            assert(views(def.generic_tys@) =~= Seq::<GenericTyV>::empty());
            Some((def, p1))
        },
    }
}

/// Reads the opening of a body at `pos`.
pub fn parse_open_body(input: &[char], pos: usize) -> (r: Option<usize>)
    requires
        pos <= input@.len(),
    ensures
        reaches(r, open_body(input@, pos as int)),
        r matches Some(end) ==> pos <= end <= input@.len(),
{
    let p = expect(input, skip_spaces(input, pos), "{")?;
    Some(skip_spaces(input, p))
}

/// Reads the closing of a body at `pos`.
pub fn parse_close_body(input: &[char], pos: usize) -> (r: Option<usize>)
    requires
        pos <= input@.len(),
    ensures
        reaches(r, close_body(input@, pos as int)),
        r matches Some(end) ==> pos <= end <= input@.len(),
{
    expect(input, skip_spaces(input, pos), "}")
}

/// Reads the keyword, the head and the opening of the body of a definition
/// at `pos`.
pub fn parse_def_head(input: &[char], pos: usize, keyword: &str) -> (r: Option<(TyDef, usize)>)
    requires
        pos <= input@.len(),
    ensures
        agrees(r, def_head(input@, pos as int, keyword@)),
        r matches Some((_, end)) ==> pos < end <= input@.len(),
{
    let p1 = expect(input, pos, keyword)?;
    let (def, p2) = parse_ty_def(input, skip_spaces(input, p1))?;
    let p3 = parse_open_body(input, p2)?;
    Some((def, p3))
}

/// Reads a field at `pos`.
pub fn parse_field(input: &[char], pos: usize) -> (r: Option<(Field, usize)>)
    requires
        pos <= input@.len(),
    ensures
        agrees(r, field(input@, pos as int)),
        r matches Some((_, end)) ==> pos < end <= input@.len(),
{
    let (name, p1) = parse_symbol(input, pos)?;
    let p2 = expect(input, p1, ":")?;
    let (ty, p3) = parse_ty(input, skip_spaces(input, p2))?;
    Some((Field { name, ty }, p3))
}

/// Reads a record at `pos`.
pub fn parse_struct_def(input: &[char], pos: usize) -> (r: Option<(Expr, usize)>)
    requires
        pos <= input@.len(),
    ensures
        agrees(r, struct_def(input@, pos as int)),
        r matches Some((_, end)) ==> pos < end <= input@.len(),
{
    let (ty_def, p1) = parse_def_head(input, pos, "struct")?;
    let (fields, p2) = parse_fields(input, p1);
    let p3 = parse_close_body(input, p2)?;
    Some((Expr::Struct(Struct { ty_def, fields }), p3))
}

/// Reads a type in parentheses at `pos`.
pub fn parse_paren_ty(input: &[char], pos: usize) -> (r: Option<(Ty, usize)>)
    requires
        pos <= input@.len(),
    ensures
        agrees(r, paren_ty(input@, pos as int)),
        r matches Some((_, end)) ==> pos < end <= input@.len(),
{
    let p1 = expect(input, pos, "(")?;
    let (ty, p2) = parse_ty(input, p1)?;
    let p3 = expect(input, p2, ")")?;
    Some((ty, p3))
}

/// Reads a variant at `pos`.
pub fn parse_variant(input: &[char], pos: usize) -> (r: Option<(Variant, usize)>)
    requires
        pos <= input@.len(),
    ensures
        agrees(r, variant(input@, pos as int)),
        r matches Some((_, end)) ==> pos < end <= input@.len(),
{
    let (name, p1) = parse_symbol(input, pos)?;
    match parse_paren_ty(input, p1) {
        Some((ty, p2)) => Some((Variant { name, ty: Some(ty) }, p2)),
        None => Some((Variant { name, ty: None }, p1)),
    }
}

/// Reads a tagged union at `pos`.
pub fn parse_enum_def(input: &[char], pos: usize) -> (r: Option<(Expr, usize)>)
    requires
        pos <= input@.len(),
    ensures
        agrees(r, enum_def(input@, pos as int)),
        r matches Some((_, end)) ==> pos < end <= input@.len(),
{
    let (ty_def, p1) = parse_def_head(input, pos, "enum")?;
    let (variants, p2) = parse_variants(input, p1);
    let p3 = parse_close_body(input, p2)?;
    Some((Expr::Enum(Enum { ty_def, variants }), p3))
}

/// Reads a method at `pos`.
pub fn parse_method(input: &[char], pos: usize) -> (r: Option<(Method, usize)>)
    requires
        pos <= input@.len(),
    ensures
        agrees(r, method(input@, pos as int)),
        r matches Some((_, end)) ==> pos < end <= input@.len(),
{
    let p1 = expect(input, pos, "method")?;
    let (name, p2) = parse_symbol(input, skip_spaces(input, p1))?;
    let (arg_ty, p3) = parse_paren_ty(input, skip_spaces(input, p2))?;
    let p4 = expect(input, skip_spaces(input, p3), "->")?;
    let (return_ty, p5) = parse_ty(input, skip_spaces(input, p4))?;
    Some((Method { name, arg_ty, return_ty }, p5))
}

/// Reads a service at `pos`.
pub fn parse_service_def(input: &[char], pos: usize) -> (r: Option<(Expr, usize)>)
    requires
        pos <= input@.len(),
    ensures
        agrees(r, service_def(input@, pos as int)),
        r matches Some((_, end)) ==> pos < end <= input@.len(),
{
    let (ty_def, p1) = parse_def_head(input, pos, "service")?;
    let (methods, p2) = parse_methods(input, p1);
    let p3 = parse_close_body(input, p2)?;
    Some((Expr::Service(Service { ty_def, methods }), p3))
}

/// Reads a message at `pos`.
pub fn parse_msg(input: &[char], pos: usize) -> (r: Option<(Msg, usize)>)
    requires
        pos <= input@.len(),
    ensures
        agrees(r, msg(input@, pos as int)),
        r matches Some((_, end)) ==> pos < end <= input@.len(),
{
    let p1 = expect(input, pos, "msg")?;
    let (name, p2) = parse_symbol(input, skip_spaces(input, p1))?;
    let (ty, p3) = parse_paren_ty(input, p2)?;
    Some((Msg { name, ty }, p3))
}

/// Reads a bus at `pos`.
pub fn parse_bus_def(input: &[char], pos: usize) -> (r: Option<(Expr, usize)>)
    requires
        pos <= input@.len(),
    ensures
        agrees(r, bus_def(input@, pos as int)),
        r matches Some((_, end)) ==> pos < end <= input@.len(),
{
    let (ty_def, p1) = parse_def_head(input, pos, "bus")?;
    let (msgs, p2) = parse_msgs(input, p1);
    let p3 = parse_close_body(input, p2)?;
    Some((Expr::Bus(Bus { ty_def, msgs }), p3))
}

/// Whether the character is a hexadecimal digit.
pub fn hex(c: char) -> (yes: bool)
    ensures
        yes == is_hex(c),
{
    digit(c) || (c >= 'a' && c <= 'f') || (c >= 'A' && c <= 'F')
}

/// The number of a hexadecimal digit.
pub fn hex_value(c: char) -> (v: u32)
    requires
        is_hex(c),
    ensures
        v == digit_value(c),
        v < 16,
{
    if digit(c) {
        c as u32 - '0' as u32
    } else if c >= 'a' && c <= 'f' {
        c as u32 - 'a' as u32 + 10
    } else {
        c as u32 - 'A' as u32 + 10
    }
}

/// Reads an escape with a code point at `pos`.
pub fn parse_unicode_escape(input: &[char], pos: usize) -> (r: Option<(char, usize)>)
    requires
        pos <= input@.len(),
    ensures
        match r {
            Some((c, end)) => unicode_escape(input@, pos as int) == Some((c, end as int)),
            None => unicode_escape(input@, pos as int) is None,
        },
        r matches Some((_, end)) ==> pos < end <= input@.len(),
{
    proof {
        reveal_strlit("\\u{");
    }
    let p1 = expect(input, pos, "\\u{")?;
    let mut end = p1;
    while end < input.len() && hex(input[end])
        invariant
            p1 <= end <= input@.len(),
            hex_end(input@, p1 as int) == hex_end(input@, end as int),
            forall|j: int| p1 <= j < end ==> is_hex(input@[j]),
        decreases input@.len() - end,
    {
        end += 1;
    }
    if end == p1 {
        return None;
    }
    assert(hex_end(input@, p1 as int) == end);
    let ghost digits = input@.subrange(p1 as int, end as int);
    let mut value: u32 = 0;
    let mut i = p1;
    while i < end
        invariant
            p1 <= i <= end <= input@.len(),
            digits == input@.subrange(p1 as int, end as int),
            hex_end(input@, p1 as int) == end,
            lit(input@, pos as int, "\\u{"@) == Some(p1 as int),
            forall|j: int| p1 <= j < end ==> is_hex(input@[j]),
            value == number(digits.take(i - p1), 16),
            value <= 0x10FFFF,
        decreases end - i,
    {
        let d = hex_value(input[i]);
        proof {
            assert(digits.take(i + 1 - p1).drop_last() =~= digits.take(i - p1));
            assert(digits.take(i + 1 - p1).last() == input@[i as int]);
            lemma_number_grows(digits, i + 1 - p1, 16);
            assert(number(digits.take(i + 1 - p1), 16) == value * 16 + d);
        }
        let next = value * 16 + d;
        if next > 0x10FFFF {
            return None;
        }
        value = next;
        i += 1;
    }
    proof {
        assert(digits.take(end - p1) =~= digits);
    }
    let c = match char::from_u32(value) {
        Some(c) => c,
        None => {
            return None;
        },
    };
    let p3 = expect(input, end, "}")?;
    Some((c, p3))
}

/// Reads an escape with a byte at `pos`.
pub fn parse_byte_escape(input: &[char], pos: usize) -> (r: Option<(char, usize)>)
    requires
        pos <= input@.len(),
    ensures
        match r {
            Some((c, end)) => byte_escape(input@, pos as int) == Some((c, end as int)),
            None => byte_escape(input@, pos as int) is None,
        },
        r matches Some((_, end)) ==> pos < end <= input@.len(),
{
    let p1 = expect(input, pos, "\\x")?;
    if input.len() - p1 < 2 || !hex(input[p1]) || !hex(input[p1 + 1]) {
        return None;
    }
    let value = hex_value(input[p1]) * 16 + hex_value(input[p1 + 1]);
    let c = match char::from_u32(value) {
        Some(c) => c,
        None => {
            return None;
        },
    };
    Some((c, p1 + 2))
}

/// Reads a character of a text at `pos`.
pub fn parse_character(input: &[char], pos: usize) -> (r: Option<(char, usize)>)
    requires
        pos <= input@.len(),
    ensures
        match r {
            Some((c, end)) => character(input@, pos as int) == Some((c, end as int)),
            None => character(input@, pos as int) is None,
        },
        r matches Some((_, end)) ==> pos < end <= input@.len(),
{
    proof {
        reveal_strlit("\\n");
        reveal_strlit("\\t");
        reveal_strlit("\\r");
    }
    if pos < input.len() && input[pos] != '"' && input[pos] != '\\' {
        return Some((input[pos], pos + 1));
    }
    if let Some(r) = parse_unicode_escape(input, pos) {
        return Some(r);
    }
    if let Some(r) = parse_byte_escape(input, pos) {
        return Some(r);
    }
    if let Some(end) = expect(input, pos, "\\n") {
        return Some(('\n', end));
    }
    if let Some(end) = expect(input, pos, "\\t") {
        return Some(('\t', end));
    }
    if let Some(end) = expect(input, pos, "\\r") {
        return Some(('\r', end));
    }
    None
}

/// Reads a parameter to fill in at `pos`.
pub fn parse_template_symbol(input: &[char], pos: usize) -> (r: Option<(TemplateToken, usize)>)
    requires
        pos <= input@.len(),
    ensures
        agrees(r, template_symbol(input@, pos as int)),
        r matches Some((_, end)) ==> pos < end <= input@.len(),
{
    let p1 = expect(input, pos, "${")?;
    let (name, p2) = parse_symbol(input, skip_spaces(input, p1))?;
    let p3 = expect(input, skip_spaces(input, p2), "}")?;
    Some((TemplateToken::Template(name), p3))
}

/// Reads a piece of a text at `pos`.
pub fn parse_template_token(input: &[char], pos: usize) -> (r: Option<(TemplateToken, usize)>)
    requires
        pos <= input@.len(),
    ensures
        agrees(r, template_token(input@, pos as int)),
        r matches Some((_, end)) ==> pos < end <= input@.len(),
{
    if let Some(r) = parse_template_symbol(input, pos) {
        return Some(r);
    }
    if expect(input, pos, "${").is_some() || expect(input, pos, "}").is_some() {
        return None;
    }
    match parse_character(input, pos) {
        Some((c, end)) => Some((TemplateToken::Char(c), end)),
        None => None,
    }
}

/// Reads a text at `pos`.
pub fn parse_template(input: &[char], pos: usize) -> (r: Option<(Vec<TemplateToken>, usize)>)
    requires
        pos <= input@.len(),
    ensures
        match r {
            Some((tokens, end)) => template(input@, pos as int) == Some(
                (views(tokens@), end as int),
            ),
            None => template(input@, pos as int) is None,
        },
        r matches Some((_, end)) ==> pos <= end <= input@.len(),
{
    let p1 = expect(input, pos, "t\"")?;
    let (tokens, p2) = parse_template_tokens(input, p1);
    let p3 = expect(input, p2, "\"")?;
    Some((tokens, p3))
}

/// Reads the text of an extern type for one language at `pos`.
pub fn parse_concrete(input: &[char], pos: usize) -> (r: Option<(ConcreteImpl, usize)>)
    requires
        pos <= input@.len(),
    ensures
        agrees(r, concrete(input@, pos as int)),
        r matches Some((_, end)) ==> pos < end <= input@.len(),
{
    proof {
        reveal_strlit("concrete");
    }
    let p1 = expect(input, pos, "concrete")?;
    let (lang, p2) = parse_symbol(input, skip_spaces(input, p1))?;
    let p3 = expect(input, skip_spaces(input, p2), "=")?;
    let (template, p4) = parse_template(input, skip_spaces(input, p3))?;
    Some((ConcreteImpl { lang, template }, p4))
}

/// Reads an extern type at `pos`.
pub fn parse_extern_def(input: &[char], pos: usize) -> (r: Option<(Expr, usize)>)
    requires
        pos <= input@.len(),
    ensures
        agrees(r, extern_def(input@, pos as int)),
        r matches Some((_, end)) ==> pos < end <= input@.len(),
{
    let (ty_def, p1) = parse_def_head(input, pos, "extern")?;
    let (concrete_impls, p2) = parse_concretes(input, p1);
    let p3 = parse_close_body(input, p2)?;
    Some((Expr::Extern(Extern { ty_def, concrete_impls }), p3))
}

/// Reads a definition at `pos`.
pub fn parse_expr(input: &[char], pos: usize) -> (r: Option<(Expr, usize)>)
    requires
        pos <= input@.len(),
    ensures
        agrees(r, expr(input@, pos as int)),
        r matches Some((_, end)) ==> pos < end <= input@.len(),
{
    if let Some(r) = parse_struct_def(input, pos) {
        return Some(r);
    }
    if let Some(r) = parse_enum_def(input, pos) {
        return Some(r);
    }
    if let Some(r) = parse_service_def(input, pos) {
        return Some(r);
    }
    if let Some(r) = parse_bus_def(input, pos) {
        return Some(r);
    }
    parse_extern_def(input, pos)
}

/// A document that cannot be read: the position behind the last definition
/// that could be read and the spaces that follow it.
#[derive(Debug, Clone, Copy, PartialEq, Eq, Structural)]
pub struct SyntaxError {
    pub offset: usize,
}

/// Reads a document: definitions separated by spaces, with nothing behind
/// them. Where something is left, the error gives its position.
pub fn parse(input: &[char]) -> (r: Result<Vec<Expr>, SyntaxError>)
    ensures
        match r {
            Ok(doc) => document(input@) == Some(views(doc@)),
            Err(e) => document(input@) is None && e.offset == exprs(input@).1,
        },
{
    let (doc, p) = parse_expr_list(input, 0);
    let end = skip_spaces(input, p);
    if end == input.len() {
        Ok(doc)
    } else {
        Err(SyntaxError { offset: end })
    }
}

} // verus!
