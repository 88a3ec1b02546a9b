use crate::syntax::{
    ConcreteImplV, ExprV, FieldV, GenericArgV, GenericTyV, MethodV, MsgV, TemplateTokenV, TyDefV,
    TyV, VariantV,
};
use vstd::prelude::*;

verus! {

/// Blanks, line breaks and tabs separate the words of a document.
pub open spec fn is_space(c: char) -> bool {
    c == ' ' || c == '\n' || c == '\t'
}

/// A name starts with a letter or an underscore.
pub open spec fn is_symbol_start(c: char) -> bool {
    ('a' <= c && c <= 'z') || ('A' <= c && c <= 'Z') || c == '_'
}

/// A name goes on with letters, digits and underscores.
pub open spec fn is_symbol_char(c: char) -> bool {
    is_symbol_start(c) || is_digit(c)
}

/// A decimal digit.
pub open spec fn is_digit(c: char) -> bool {
    '0' <= c && c <= '9'
}

/// A hexadecimal digit.
pub open spec fn is_hex(c: char) -> bool {
    is_digit(c) || ('a' <= c && c <= 'f') || ('A' <= c && c <= 'F')
}

/// The number that a digit stands for, hexadecimal digits included.
pub open spec fn digit_value(c: char) -> nat {
    if is_digit(c) {
        (c as u32 - '0' as u32) as nat
    } else if 'a' <= c && c <= 'f' {
        (c as u32 - 'a' as u32 + 10) as nat
    } else {
        (c as u32 - 'A' as u32 + 10) as nat
    }
}

/// The first position from `pos` on that holds no space.
pub open spec fn skip_ws(s: Seq<char>, pos: int) -> int
    decreases s.len() - pos,
{
    if 0 <= pos < s.len() && is_space(s[pos]) {
        skip_ws(s, pos + 1)
    } else {
        pos
    }
}

/// The position behind `word`, where `word` stands at `pos`.
pub open spec fn lit(s: Seq<char>, pos: int, word: Seq<char>) -> Option<int> {
    if 0 <= pos && pos + word.len() <= s.len() && s.subrange(pos, pos + word.len()) == word {
        Some(pos + word.len())
    } else {
        None
    }
}

/// The first position from `pos` on that holds no character of a name.
pub open spec fn symbol_end(s: Seq<char>, pos: int) -> int
    decreases s.len() - pos,
{
    if 0 <= pos < s.len() && is_symbol_char(s[pos]) {
        symbol_end(s, pos + 1)
    } else {
        pos
    }
}

/// A name at `pos`: a start character and all the name characters that
/// follow it.
pub open spec fn symbol(s: Seq<char>, pos: int) -> Option<(Seq<char>, int)> {
    if 0 <= pos < s.len() && is_symbol_start(s[pos]) {
        let end = symbol_end(s, pos + 1);
        Some((s.subrange(pos, end), end))
    } else {
        None
    }
}

/// The first position from `pos` on that holds no digit.
pub open spec fn digits_end(s: Seq<char>, pos: int) -> int
    decreases s.len() - pos,
{
    if 0 <= pos < s.len() && is_digit(s[pos]) {
        digits_end(s, pos + 1)
    } else {
        pos
    }
}

/// The first position from `pos` on that holds no hexadecimal digit.
pub open spec fn hex_end(s: Seq<char>, pos: int) -> int
    decreases s.len() - pos,
{
    if 0 <= pos < s.len() && is_hex(s[pos]) {
        hex_end(s, pos + 1)
    } else {
        pos
    }
}

/// The number that the digits spell in the given base.
pub open spec fn number(digits: Seq<char>, base: nat) -> nat
    decreases digits.len(),
{
    if digits.len() == 0 {
        0
    } else {
        number(digits.drop_last(), base) * base + digit_value(digits.last())
    }
}

/// A number at `pos`: one or more digits that spell a number that fits a
/// machine word.
pub open spec fn uint(s: Seq<char>, pos: int) -> Option<(usize, int)> {
    let end = digits_end(s, pos);
    if 0 <= pos < end && number(s.subrange(pos, end), 10) <= usize::MAX {
        Some((number(s.subrange(pos, end), 10) as usize, end))
    } else {
        None
    }
}

/// The list of items that starts at `pos`: items that `elem` reads,
/// separated by what `sep` reads, as many as there are. It gives the items
/// and the position behind the last of them.
pub open spec fn sep_list<T>(
    elem: spec_fn(int) -> Option<(T, int)>,
    sep: spec_fn(int) -> Option<int>,
    pos: int,
    len: int,
) -> (Seq<T>, int) {
    match elem(pos) {
        Some((v, p1)) => if pos <= p1 <= len {
            let (more, end) = sep_rest(elem, sep, p1, len);
            (seq![v] + more, end)
        } else {
            (Seq::empty(), pos)
        },
        None => (Seq::empty(), pos),
    }
}

/// The further items of a list behind `pos`, each after a separator.
pub open spec fn sep_rest<T>(
    elem: spec_fn(int) -> Option<(T, int)>,
    sep: spec_fn(int) -> Option<int>,
    pos: int,
    len: int,
) -> (Seq<T>, int)
    decreases len - pos,
{
    match sep(pos) {
        Some(p1) => match elem(p1) {
            Some((v, p2)) => if pos < p2 <= len {
                let (more, end) = sep_rest(elem, sep, p2, len);
                (seq![v] + more, end)
            } else {
                (Seq::empty(), pos)
            },
            None => (Seq::empty(), pos),
        },
        None => (Seq::empty(), pos),
    }
}

/// A comma and the spaces behind it.
pub open spec fn comma_ws(s: Seq<char>, pos: int) -> Option<int> {
    match lit(s, pos, ","@) {
        Some(p) => Some(skip_ws(s, p)),
        None => None,
    }
}

/// A semicolon and the spaces behind it.
pub open spec fn semicolon_ws(s: Seq<char>, pos: int) -> Option<int> {
    match lit(s, pos, ";"@) {
        Some(p) => Some(skip_ws(s, p)),
        None => None,
    }
}

/// A comma.
pub open spec fn comma(s: Seq<char>, pos: int) -> Option<int> {
    lit(s, pos, ","@)
}

/// Reading a comma and spaces, as a function of the position.
pub open spec fn comma_ws_at(s: Seq<char>) -> spec_fn(int) -> Option<int> {
    |p: int| comma_ws(s, p)
}

/// Reading a comma, as a function of the position.
pub open spec fn comma_at(s: Seq<char>) -> spec_fn(int) -> Option<int> {
    |p: int| comma(s, p)
}

/// Reading a semicolon and spaces, as a function of the position.
pub open spec fn semicolon_ws_at(s: Seq<char>) -> spec_fn(int) -> Option<int> {
    |p: int| semicolon_ws(s, p)
}

/// Reading spaces, as a function of the position.
pub open spec fn spaces_at(s: Seq<char>) -> spec_fn(int) -> Option<int> {
    |p: int| spaces(s, p)
}

/// Reading nothing, as a function of the position.
pub open spec fn nothing_at() -> spec_fn(int) -> Option<int> {
    |p: int| nothing(p)
}

/// Spaces as a separator.
pub open spec fn spaces(s: Seq<char>, pos: int) -> Option<int> {
    Some(skip_ws(s, pos))
}

/// No separator: the items of a list follow each other directly.
pub open spec fn nothing(pos: int) -> Option<int> {
    Some(pos)
}

/// A type at `pos`: one of the primitive types; an array, written as the
/// element type, a semicolon and the length in brackets; or a name with or
/// without generic arguments. The alternatives are tried in this order, and
/// the first that can be read counts.
pub open spec fn ty(s: Seq<char>, pos: int) -> Option<(TyV, int)>
    decreases s.len() - pos, 1nat,
{
    if lit(s, pos, "u8"@) is Some {
        Some((TyV::U8, pos + 2))
    } else if lit(s, pos, "u16"@) is Some {
        Some((TyV::U16, pos + 3))
    } else if lit(s, pos, "u32"@) is Some {
        Some((TyV::U32, pos + 3))
    } else if lit(s, pos, "u64"@) is Some {
        Some((TyV::U64, pos + 3))
    } else if lit(s, pos, "i8"@) is Some {
        Some((TyV::I8, pos + 2))
    } else if lit(s, pos, "i16"@) is Some {
        Some((TyV::I16, pos + 3))
    } else if lit(s, pos, "i32"@) is Some {
        Some((TyV::I32, pos + 3))
    } else if lit(s, pos, "i64"@) is Some {
        Some((TyV::I64, pos + 3))
    } else if lit(s, pos, "f32"@) is Some {
        Some((TyV::F32, pos + 3))
    } else if lit(s, pos, "f64"@) is Some {
        Some((TyV::F64, pos + 3))
    } else if lit(s, pos, "bool"@) is Some {
        Some((TyV::Bool, pos + 4))
    } else {
        match array_ty(s, pos) {
            Some(r) => Some(r),
            None => named_ty(s, pos),
        }
    }
}

/// An array type at `pos`.
pub open spec fn array_ty(s: Seq<char>, pos: int) -> Option<(TyV, int)>
    decreases s.len() - pos, 0nat,
{
    if 0 <= pos < s.len() && s[pos] == '[' && pos < skip_ws(s, pos + 1) <= s.len() {
        match ty(s, skip_ws(s, pos + 1)) {
            Some((elem, p1)) => match lit(s, p1, ";"@) {
                Some(p2) => match uint(s, skip_ws(s, p2)) {
                    Some((len, p3)) => match lit(s, skip_ws(s, p3), "]"@) {
                        Some(p4) => Some((TyV::Array { ty: Box::new(elem), len }, p4)),
                        None => None,
                    },
                    None => None,
                },
                None => None,
            },
            None => None,
        }
    } else {
        None
    }
}

/// A named type at `pos`: a name, and generic arguments where they follow.
pub open spec fn named_ty(s: Seq<char>, pos: int) -> Option<(TyV, int)>
    decreases s.len() - pos, 0nat,
{
    match symbol(s, pos) {
        Some((name, p1)) => if pos < p1 <= s.len() {
            match generic_args(s, p1) {
                Some((generic_args, p2)) => Some((TyV::Unresolved { name, generic_args }, p2)),
                None => Some((TyV::Unresolved { name, generic_args: Seq::empty() }, p1)),
            }
        } else {
            None
        },
        None => None,
    }
}

/// Generic arguments at `pos`: a list of arguments in angle brackets.
pub open spec fn generic_args(s: Seq<char>, pos: int) -> Option<(Seq<GenericArgV>, int)>
    decreases s.len() - pos, 3nat,
{
    if 0 <= pos < s.len() && s[pos] == '<' && pos < skip_ws(s, pos + 1) <= s.len() {
        let (args, p1) = args_list(s, skip_ws(s, pos + 1));
        match lit(s, p1, ">"@) {
            Some(p2) => Some((args, p2)),
            None => None,
        }
    } else {
        None
    }
}

/// A generic argument at `pos`: a type, or else a number.
pub open spec fn generic_arg(s: Seq<char>, pos: int) -> Option<(GenericArgV, int)>
    decreases s.len() - pos, 2nat,
{
    match ty(s, pos) {
        Some((t, p)) => Some((GenericArgV::Ty(t), p)),
        None => match uint(s, pos) {
            Some((n, p)) => Some((GenericArgV::Const(n), p)),
            None => None,
        },
    }
}

/// The list of generic arguments that starts at `pos`, separated by commas.
pub open spec fn args_list(s: Seq<char>, pos: int) -> (Seq<GenericArgV>, int)
    decreases s.len() - pos, 4nat,
{
    match generic_arg(s, pos) {
        Some((v, p1)) => if pos < p1 <= s.len() {
            let (more, end) = args_rest(s, p1);
            (seq![v] + more, end)
        } else {
            (Seq::empty(), pos)
        },
        None => (Seq::empty(), pos),
    }
}

/// The further generic arguments behind `pos`, each after a comma.
pub open spec fn args_rest(s: Seq<char>, pos: int) -> (Seq<GenericArgV>, int)
    decreases s.len() - pos, 5nat,
{
    match comma_ws(s, pos) {
        Some(p1) => if pos < p1 <= s.len() {
            match generic_arg(s, p1) {
                Some((v, p2)) => if p1 < p2 <= s.len() {
                    let (more, end) = args_rest(s, p2);
                    (seq![v] + more, end)
                } else {
                    (Seq::empty(), pos)
                },
                None => (Seq::empty(), pos),
            }
        } else {
            (Seq::empty(), pos)
        },
        None => (Seq::empty(), pos),
    }
}

/// A constant parameter at `pos`: `const`, a name, a colon and a type.
pub open spec fn const_param(s: Seq<char>, pos: int) -> Option<(GenericTyV, int)> {
    match lit(s, pos, "const"@) {
        Some(p1) => match symbol(s, skip_ws(s, p1)) {
            Some((name, p2)) => match lit(s, p2, ":"@) {
                Some(p3) => match ty(s, skip_ws(s, p3)) {
                    Some((t, p4)) => Some((GenericTyV::Const { ty: t, name }, p4)),
                    None => None,
                },
                None => None,
            },
            None => None,
        },
        None => None,
    }
}

/// A generic parameter at `pos`: a constant parameter, or else a name.
pub open spec fn generic_ty(s: Seq<char>, pos: int) -> Option<(GenericTyV, int)> {
    match const_param(s, pos) {
        Some(r) => Some(r),
        None => match symbol(s, pos) {
            Some((name, p)) => Some((GenericTyV::Ty(name), p)),
            None => None,
        },
    }
}

/// Reading a generic parameter, as a function of the position.
pub open spec fn generic_ty_at(s: Seq<char>) -> spec_fn(int) -> Option<(GenericTyV, int)> {
    |p: int| generic_ty(s, p)
}

/// Generic parameters at `pos`: a list of parameters in angle brackets.
pub open spec fn generic_tys(s: Seq<char>, pos: int) -> Option<(Seq<GenericTyV>, int)> {
    match lit(s, pos, "<"@) {
        Some(p1) => {
            let (params, p2) = sep_list(
                generic_ty_at(s),
                comma_ws_at(s),
                skip_ws(s, p1),
                s.len() as int,
            );
            match lit(s, p2, ">"@) {
                Some(p3) => Some((params, p3)),
                None => None,
            }
        },
        None => None,
    }
}

/// The head of a definition at `pos`: a name, and generic parameters where
/// they follow.
pub open spec fn ty_def(s: Seq<char>, pos: int) -> Option<(TyDefV, int)> {
    match symbol(s, pos) {
        Some((name, p1)) => match generic_tys(s, p1) {
            Some((generic_tys, p2)) => Some((TyDefV { name, generic_tys }, p2)),
            None => Some((TyDefV { name, generic_tys: Seq::empty() }, p1)),
        },
        None => None,
    }
}

/// The opening of a body behind the head of a definition: spaces, a brace,
/// spaces.
pub open spec fn open_body(s: Seq<char>, pos: int) -> Option<int> {
    match lit(s, skip_ws(s, pos), "{"@) {
        Some(p) => Some(skip_ws(s, p)),
        None => None,
    }
}

/// The closing of a body: spaces and a brace.
pub open spec fn close_body(s: Seq<char>, pos: int) -> Option<int> {
    lit(s, skip_ws(s, pos), "}"@)
}

/// A definition at `pos`: the keyword, spaces, the head, the opened body.
pub open spec fn def_head(s: Seq<char>, pos: int, keyword: Seq<char>) -> Option<(TyDefV, int)> {
    match lit(s, pos, keyword) {
        Some(p1) => match ty_def(s, skip_ws(s, p1)) {
            Some((def, p2)) => match open_body(s, p2) {
                Some(p3) => Some((def, p3)),
                None => None,
            },
            None => None,
        },
        None => None,
    }
}

/// A field at `pos`: a name, a colon and a type.
pub open spec fn field(s: Seq<char>, pos: int) -> Option<(FieldV, int)> {
    match symbol(s, pos) {
        Some((name, p1)) => match lit(s, p1, ":"@) {
            Some(p2) => match ty(s, skip_ws(s, p2)) {
                Some((t, p3)) => Some((FieldV { name, ty: t }, p3)),
                None => None,
            },
            None => None,
        },
        None => None,
    }
}

/// Reading a field, as a function of the position.
pub open spec fn field_at(s: Seq<char>) -> spec_fn(int) -> Option<(FieldV, int)> {
    |p: int| field(s, p)
}

/// A record at `pos`: `struct`, the head, and the fields, separated by
/// commas, in braces.
pub open spec fn struct_def(s: Seq<char>, pos: int) -> Option<(ExprV, int)> {
    match def_head(s, pos, "struct"@) {
        Some((ty_def, p1)) => {
            let (fields, p2) = sep_list(
                field_at(s),
                comma_ws_at(s),
                p1,
                s.len() as int,
            );
            match close_body(s, p2) {
                Some(p3) => Some((ExprV::Struct { ty_def, fields }, p3)),
                None => None,
            }
        },
        None => None,
    }
}

/// A type in parentheses at `pos`.
pub open spec fn paren_ty(s: Seq<char>, pos: int) -> Option<(TyV, int)> {
    match lit(s, pos, "("@) {
        Some(p1) => match ty(s, p1) {
            Some((t, p2)) => match lit(s, p2, ")"@) {
                Some(p3) => Some((t, p3)),
                None => None,
            },
            None => None,
        },
        None => None,
    }
}

/// A variant at `pos`: a name, and a payload type in parentheses where one
/// follows.
pub open spec fn variant(s: Seq<char>, pos: int) -> Option<(VariantV, int)> {
    match symbol(s, pos) {
        Some((name, p1)) => match paren_ty(s, p1) {
            Some((t, p2)) => Some((VariantV { name, ty: Some(t) }, p2)),
            None => Some((VariantV { name, ty: None }, p1)),
        },
        None => None,
    }
}

/// Reading a variant, as a function of the position.
pub open spec fn variant_at(s: Seq<char>) -> spec_fn(int) -> Option<(VariantV, int)> {
    |p: int| variant(s, p)
}

/// A tagged union at `pos`: `enum`, the head, and the variants, separated by
/// commas, in braces.
pub open spec fn enum_def(s: Seq<char>, pos: int) -> Option<(ExprV, int)> {
    match def_head(s, pos, "enum"@) {
        Some((ty_def, p1)) => {
            let (variants, p2) = sep_list(
                variant_at(s),
                comma_ws_at(s),
                p1,
                s.len() as int,
            );
            match close_body(s, p2) {
                Some(p3) => Some((ExprV::Enum { ty_def, variants }, p3)),
                None => None,
            }
        },
        None => None,
    }
}

/// A method at `pos`: `method`, a name, the argument type in parentheses,
/// an arrow and the result type.
pub open spec fn method(s: Seq<char>, pos: int) -> Option<(MethodV, int)> {
    match lit(s, pos, "method"@) {
        Some(p1) => match symbol(s, skip_ws(s, p1)) {
            Some((name, p2)) => match paren_ty(s, skip_ws(s, p2)) {
                Some((arg_ty, p3)) => match lit(s, skip_ws(s, p3), "->"@) {
                    Some(p4) => match ty(s, skip_ws(s, p4)) {
                        Some((return_ty, p5)) => Some((MethodV { name, arg_ty, return_ty }, p5)),
                        None => None,
                    },
                    None => None,
                },
                None => None,
            },
            None => None,
        },
        None => None,
    }
}

/// Reading a method, as a function of the position.
pub open spec fn method_at(s: Seq<char>) -> spec_fn(int) -> Option<(MethodV, int)> {
    |p: int| method(s, p)
}

/// A service at `pos`: `service`, the head, and the methods, separated by
/// commas without spaces behind them, in braces.
pub open spec fn service_def(s: Seq<char>, pos: int) -> Option<(ExprV, int)> {
    match def_head(s, pos, "service"@) {
        Some((ty_def, p1)) => {
            let (methods, p2) = sep_list(
                method_at(s),
                comma_at(s),
                p1,
                s.len() as int,
            );
            match close_body(s, p2) {
                Some(p3) => Some((ExprV::Service { ty_def, methods }, p3)),
                None => None,
            }
        },
        None => None,
    }
}

/// A message at `pos`: `msg`, a name, and the type in parentheses.
pub open spec fn msg(s: Seq<char>, pos: int) -> Option<(MsgV, int)> {
    match lit(s, pos, "msg"@) {
        Some(p1) => match symbol(s, skip_ws(s, p1)) {
            Some((name, p2)) => match paren_ty(s, p2) {
                Some((t, p3)) => Some((MsgV { name, ty: t }, p3)),
                None => None,
            },
            None => None,
        },
        None => None,
    }
}

/// Reading a message, as a function of the position.
pub open spec fn msg_at(s: Seq<char>) -> spec_fn(int) -> Option<(MsgV, int)> {
    |p: int| msg(s, p)
}

/// A bus at `pos`: `bus`, the head, and the messages, separated by
/// semicolons, in braces.
pub open spec fn bus_def(s: Seq<char>, pos: int) -> Option<(ExprV, int)> {
    match def_head(s, pos, "bus"@) {
        Some((ty_def, p1)) => {
            let (msgs, p2) = sep_list(
                msg_at(s),
                semicolon_ws_at(s),
                p1,
                s.len() as int,
            );
            match close_body(s, p2) {
                Some(p3) => Some((ExprV::Bus { ty_def, msgs }, p3)),
                None => None,
            }
        },
        None => None,
    }
}

/// Whether the number is a character: a code point that is no surrogate.
pub open spec fn is_scalar(n: nat) -> bool {
    n <= 0xD7FF || (0xE000 <= n <= 0x10FFFF)
}

/// An escape with a code point at `pos`: `\u{`, hexadecimal digits, `}`.
pub open spec fn unicode_escape(s: Seq<char>, pos: int) -> Option<(char, int)> {
    match lit(s, pos, "\\u{"@) {
        Some(p1) => {
            let p2 = hex_end(s, p1);
            let n = number(s.subrange(p1, p2), 16);
            if p1 < p2 && is_scalar(n) {
                match lit(s, p2, "}"@) {
                    Some(p3) => Some((n as char, p3)),
                    None => None,
                }
            } else {
                None
            }
        },
        None => None,
    }
}

/// An escape with a byte at `pos`: `\x` and two hexadecimal digits.
pub open spec fn byte_escape(s: Seq<char>, pos: int) -> Option<(char, int)> {
    match lit(s, pos, "\\x"@) {
        Some(p1) => if p1 + 2 <= s.len() && is_hex(s[p1]) && is_hex(s[p1 + 1]) {
            Some(((digit_value(s[p1]) * 16 + digit_value(s[p1 + 1])) as char, p1 + 2))
        } else {
            None
        },
        None => None,
    }
}

/// A character of a text at `pos`: any character but a quote and a
/// backslash, or one of the escapes.
pub open spec fn character(s: Seq<char>, pos: int) -> Option<(char, int)> {
    if 0 <= pos < s.len() && s[pos] != '"' && s[pos] != '\\' {
        Some((s[pos], pos + 1))
    } else if unicode_escape(s, pos) is Some {
        unicode_escape(s, pos)
    } else if byte_escape(s, pos) is Some {
        byte_escape(s, pos)
    } else if lit(s, pos, "\\n"@) is Some {
        Some(('\n', pos + 2))
    } else if lit(s, pos, "\\t"@) is Some {
        Some(('\t', pos + 2))
    } else if lit(s, pos, "\\r"@) is Some {
        Some(('\r', pos + 2))
    } else {
        None
    }
}

/// A parameter to fill in at `pos`: a name in `${` and `}`.
pub open spec fn template_symbol(s: Seq<char>, pos: int) -> Option<(TemplateTokenV, int)> {
    match lit(s, pos, "${"@) {
        Some(p1) => match symbol(s, skip_ws(s, p1)) {
            Some((name, p2)) => match lit(s, skip_ws(s, p2), "}"@) {
                Some(p3) => Some((TemplateTokenV::Template(name), p3)),
                None => None,
            },
            None => None,
        },
        None => None,
    }
}

/// A piece of a text at `pos`: a parameter to fill in, or else a character
/// that starts neither such a parameter nor is a closing brace.
pub open spec fn template_token(s: Seq<char>, pos: int) -> Option<(TemplateTokenV, int)> {
    match template_symbol(s, pos) {
        Some(r) => Some(r),
        None => if lit(s, pos, "${"@) is None && lit(s, pos, "}"@) is None {
            match character(s, pos) {
                Some((c, p)) => Some((TemplateTokenV::Char(c), p)),
                None => None,
            }
        } else {
            None
        },
    }
}

/// Reading a piece of a text, as a function of the position.
pub open spec fn template_token_at(s: Seq<char>) -> spec_fn(int) -> Option<(TemplateTokenV, int)> {
    |p: int| template_token(s, p)
}

/// A text at `pos`: `t`, and its pieces in quotes.
pub open spec fn template(s: Seq<char>, pos: int) -> Option<(Seq<TemplateTokenV>, int)> {
    match lit(s, pos, "t\""@) {
        Some(p1) => {
            let (tokens, p2) = sep_list(
                template_token_at(s),
                nothing_at(),
                p1,
                s.len() as int,
            );
            match lit(s, p2, "\""@) {
                Some(p3) => Some((tokens, p3)),
                None => None,
            }
        },
        None => None,
    }
}

/// The text of an extern type for one language at `pos`: `concrete`, the
/// language, an equals sign and the text.
pub open spec fn concrete(s: Seq<char>, pos: int) -> Option<(ConcreteImplV, int)> {
    match lit(s, pos, "concrete"@) {
        Some(p1) => match symbol(s, skip_ws(s, p1)) {
            Some((lang, p2)) => match lit(s, skip_ws(s, p2), "="@) {
                Some(p3) => match template(s, skip_ws(s, p3)) {
                    Some((template, p4)) => Some((ConcreteImplV { lang, template }, p4)),
                    None => None,
                },
                None => None,
            },
            None => None,
        },
        None => None,
    }
}

/// Reading the text for one language, as a function of the position.
pub open spec fn concrete_at(s: Seq<char>) -> spec_fn(int) -> Option<(ConcreteImplV, int)> {
    |p: int| concrete(s, p)
}

/// An extern type at `pos`: `extern`, the head, and its texts, separated by
/// commas without spaces behind them, in braces.
pub open spec fn extern_def(s: Seq<char>, pos: int) -> Option<(ExprV, int)> {
    match def_head(s, pos, "extern"@) {
        Some((ty_def, p1)) => {
            let (concrete_impls, p2) = sep_list(
                concrete_at(s),
                comma_at(s),
                p1,
                s.len() as int,
            );
            match close_body(s, p2) {
                Some(p3) => Some((ExprV::Extern { ty_def, concrete_impls }, p3)),
                None => None,
            }
        },
        None => None,
    }
}

/// A definition at `pos`: a record, a tagged union, a service, a bus or an
/// extern type, tried in this order.
pub open spec fn expr(s: Seq<char>, pos: int) -> Option<(ExprV, int)> {
    if struct_def(s, pos) is Some {
        struct_def(s, pos)
    } else if enum_def(s, pos) is Some {
        enum_def(s, pos)
    } else if service_def(s, pos) is Some {
        service_def(s, pos)
    } else if bus_def(s, pos) is Some {
        bus_def(s, pos)
    } else {
        extern_def(s, pos)
    }
}

/// Reading a definition, as a function of the position.
pub open spec fn expr_at(s: Seq<char>) -> spec_fn(int) -> Option<(ExprV, int)> {
    |p: int| expr(s, p)
}

/// The definitions at the start of a document, separated by spaces, as many
/// as can be read, and the position behind them and the spaces that follow.
pub open spec fn exprs(s: Seq<char>) -> (Seq<ExprV>, int) {
    let (defs, p) = sep_list(expr_at(s), spaces_at(s), 0, s.len() as int);
    (defs, skip_ws(s, p))
}

/// The definitions of a document: those at its start, where nothing is left
/// behind them.
pub open spec fn document(s: Seq<char>) -> Option<Seq<ExprV>> {
    if exprs(s).1 == s.len() {
        Some(exprs(s).0)
    } else {
        None
    }
}

} // verus!
