use crate::ast::{GenericArg, GenericTy, Ty};
use crate::text::{decimal, decimal_string, push_decimal};
use vstd::prelude::*;

verus! {

/// The arguments in their Rust spelling, separated by commas.
pub open spec fn args_rust(args: Seq<GenericArg>) -> Seq<char>
    decreases args,
{
    if args.len() == 0 {
        Seq::empty()
    } else if args.len() == 1 {
        args[0].rust()
    } else {
        args_rust(args.drop_last()) + seq![','] + args.last().rust()
    }
}

impl Ty {
    /// Whether the type has a spelling in C++: arrays and unresolved names
    /// have none.
    pub open spec fn has_cpp(self) -> bool {
        !(self is Array) && !(self is Unresolved)
    }

    /// The spelling of the type in C++.
    pub open spec fn cpp(self) -> Seq<char> {
        match self {
            Ty::U64 => "uint64_t"@,
            Ty::U32 => "uint32_t"@,
            Ty::U16 => "uint16_t"@,
            Ty::U8 => "uint8_t"@,
            Ty::I64 => "int64_t"@,
            Ty::I32 => "int32_t"@,
            Ty::I16 => "int16_t"@,
            Ty::I8 => "int8_t"@,
            Ty::F32 => "float"@,
            Ty::F64 => "double"@,
            Ty::Bool => "bool"@,
            Ty::Extern(e) => e@,
            _ => Seq::empty(),
        }
    }

    /// The spelling of the type in Rust. Numbers wider than a byte are the
    /// little-endian wire types; an array is its element type and length in
    /// brackets; a named type is its name, with its generic arguments in
    /// angle brackets where it has any; an extern type is its text.
    pub open spec fn rust(self) -> Seq<char>
        decreases self,
    {
        match self {
            Ty::U64 => "piton::types::u64le"@,
            Ty::U32 => "piton::types::u32le"@,
            Ty::U16 => "piton::types::u16le"@,
            Ty::U8 => "u8"@,
            Ty::I64 => "piton::types::i64le"@,
            Ty::I32 => "i32le"@,
            Ty::I16 => "i16le"@,
            Ty::I8 => "piton::types::i8"@,
            Ty::Bool => "bool"@,
            Ty::Array { ty, len } => seq!['['] + ty.rust() + "; "@ + decimal(len as nat) + seq![']'],
            Ty::Unresolved { name, generic_args } => {
                if generic_args@.len() == 0 {
                    name@
                } else {
                    name@ + seq!['<'] + args_rust(generic_args@) + seq!['>']
                }
            },
            Ty::F32 => "f32"@,
            Ty::F64 => "f64"@,
            Ty::Extern(e) => e@,
        }
    }

    /// Spells the type in C++.
    pub fn to_cpp(&self) -> (s: String)
        requires
            self.has_cpp(),
        ensures
            s@ == self.cpp(),
    {
        match self {
            Ty::U64 => "uint64_t".to_string(),
            Ty::U32 => "uint32_t".to_string(),
            Ty::U16 => "uint16_t".to_string(),
            Ty::U8 => "uint8_t".to_string(),
            Ty::I64 => "int64_t".to_string(),
            Ty::I32 => "int32_t".to_string(),
            Ty::I16 => "int16_t".to_string(),
            Ty::I8 => "int8_t".to_string(),
            Ty::F32 => "float".to_string(),
            Ty::F64 => "double".to_string(),
            Ty::Bool => "bool".to_string(),
            Ty::Extern(e) => e.clone(),
            _ => String::new(),
        }
    }
}

impl GenericArg {
    /// Whether the argument has a spelling in C++.
    pub open spec fn has_cpp(self) -> bool {
        self matches GenericArg::Ty(ty) ==> ty.has_cpp()
    }

    /// The spelling of the argument in C++: the type, or the number.
    pub open spec fn cpp(self) -> Seq<char> {
        match self {
            GenericArg::Ty(ty) => ty.cpp(),
            GenericArg::Const(n) => decimal(n as nat),
        }
    }

    /// The spelling of the argument in Rust: the type, or the number.
    pub open spec fn rust(self) -> Seq<char>
        decreases self,
    {
        match self {
            GenericArg::Ty(ty) => ty.rust(),
            GenericArg::Const(n) => decimal(n as nat),
        }
    }

    /// Spells the argument in C++.
    pub fn to_cpp(&self) -> (s: String)
        requires
            self.has_cpp(),
        ensures
            s@ == self.cpp(),
    {
        match self {
            GenericArg::Ty(ty) => ty.to_cpp(),
            GenericArg::Const(n) => decimal_string(*n),
        }
    }

    /// Spells the argument in Rust.
    pub fn to_rust(&self) -> (s: String)
        ensures
            s@ == self.rust(),
        decreases self, 0nat,
    {
        match self {
            GenericArg::Ty(ty) => ty_to_rust(ty),
            GenericArg::Const(n) => decimal_string(*n),
        }
    }
}

impl GenericTy {
    /// Whether the parameter has a spelling in C++.
    pub open spec fn has_cpp(self) -> bool {
        self matches GenericTy::Const { ty, .. } ==> ty.has_cpp()
    }

    /// The spelling of the parameter in C++: the name of a type parameter,
    /// the type and the name of a constant.
    pub open spec fn cpp(self) -> Seq<char> {
        match self {
            GenericTy::Ty(name) => name@,
            GenericTy::Const { ty, name } => ty.cpp() + seq![' '] + name@,
        }
    }

    /// The spelling of the parameter in Rust: the name of a type parameter,
    /// `const`, the name and the type of a constant.
    pub open spec fn rust(self) -> Seq<char> {
        match self {
            GenericTy::Ty(name) => name@,
            GenericTy::Const { ty, name } => "const "@ + name@ + ": "@ + ty.rust(),
        }
    }

    /// Spells the parameter in C++.
    pub fn to_cpp(&self) -> (s: String)
        requires
            self.has_cpp(),
        ensures
            s@ == self.cpp(),
    {
        match self {
            GenericTy::Ty(name) => name.clone(),
            GenericTy::Const { ty, name } => {
                let mut s = ty.to_cpp();
                s.push(' ');
                s.push_str(name.as_str());
                assert(s@ =~= self.cpp());
                s
            },
        }
    }

    /// Spells the parameter in Rust.
    pub fn to_rust(&self) -> (s: String)
        ensures
            s@ == self.rust(),
    {
        match self {
            GenericTy::Ty(name) => name.clone(),
            GenericTy::Const { ty, name } => {
                let mut s = "const ".to_string();
                s.push_str(name.as_str());
                s.push_str(": ");
                let t = ty_to_rust(ty);
                s.push_str(t.as_str());
                assert(s@ =~= self.rust());
                s
            },
        }
    }
}

/// Spells a type in Rust.
pub fn ty_to_rust(ty: &Ty) -> (s: String)
    ensures
        s@ == ty.rust(),
    decreases ty, 1nat,
{
    match ty {
        Ty::U64 => "piton::types::u64le".to_string(),
        Ty::U32 => "piton::types::u32le".to_string(),
        Ty::U16 => "piton::types::u16le".to_string(),
        Ty::U8 => "u8".to_string(),
        Ty::I64 => "piton::types::i64le".to_string(),
        Ty::I32 => "i32le".to_string(),
        Ty::I16 => "i16le".to_string(),
        Ty::I8 => "piton::types::i8".to_string(),
        Ty::Bool => "bool".to_string(),
        Ty::Array { ty: elem, len } => {
            let mut s = "[".to_string();
            proof {
                reveal_strlit("[");
            }
            let e = ty_to_rust(elem);
            s.push_str(e.as_str());
            s.push_str("; ");
            push_decimal(&mut s, *len);
            s.push(']');
            assert(s@ =~= ty.rust());
            s
        },
        Ty::Unresolved { name, generic_args } => {
            let mut s = name.clone();
            if generic_args.len() == 0 {
                return s;
            }
            s.push('<');
            let mut i: usize = 0;
            while i < generic_args.len()
                invariant
                    i <= generic_args.len(),
                    generic_args.len() > 0,
                    ty == (Ty::Unresolved { name: *name, generic_args: *generic_args }),
                    s@ == name@ + seq!['<'] + args_rust(generic_args@.take(i as int)),
                decreases generic_args.len() - i,
            {
                if i > 0 {
                    s.push(',');
                }
                proof {
                    assert(decreases_to!(*ty => ty->generic_args));
                    assert(decreases_to!(ty->generic_args => (ty->generic_args)@));
                    assert(decreases_to!((ty->generic_args)@ => (ty->generic_args)@[i as int]));
                }
                let a = generic_args[i].to_rust();
                s.push_str(a.as_str());
                i += 1;
                assert(generic_args@.take(i as int).drop_last() =~= generic_args@.take(i - 1));
                assert(s@ =~= name@ + seq!['<'] + args_rust(generic_args@.take(i as int)));
            }
            assert(generic_args@.take(generic_args.len() as int) =~= generic_args@);
            s.push('>');
            assert(s@ =~= ty.rust());
            s
        },
        Ty::F32 => "f32".to_string(),
        Ty::F64 => "f64".to_string(),
        Ty::Extern(e) => e.clone(),
    }
}

} // verus!
