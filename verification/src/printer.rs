//! The type printer: canonical declaration text for a type record,
//! independent of any variable-name placement. Pointer, array and argument
//! chains are walked iteratively with an accumulator and a defensive depth
//! budget; an unrecognized record kind renders as a diagnostic placeholder
//! and never aborts the surrounding composite.

use vstd::prelude::*;
use vstd::string::StrSliceExecFns;
use vstd::string::StringExecFns;
use crate::catalog::{DEPTH_LIMIT, TypeDumper};
use crate::records::{
    ArrayType, ClassKind, MemberFunctionType, PointerAttributes, PointerMode, PointerType,
    PrimitiveKind, PrimitiveType, ProcedureType, TypeData, TypeError, TypeIndex,
};
use crate::strtext::{spec_dec, trim_leading_spaces, trim_start_spaces, u32_to_decimal};

verus! {

/// The fixed name table of primitive subkinds.
pub open spec fn spec_primitive_name(kind: PrimitiveKind) -> Seq<char> {
    match kind {
        PrimitiveKind::NoType => "<NoType>"@,
        PrimitiveKind::Void => "void"@,
        PrimitiveKind::Char => "signed char"@,
        PrimitiveKind::UChar => "unsigned char"@,
        PrimitiveKind::RChar => "char"@,
        PrimitiveKind::WChar => "wchar_t"@,
        PrimitiveKind::RChar16 => "char16_t"@,
        PrimitiveKind::RChar32 => "char32_t"@,
        PrimitiveKind::I8 => "signed char"@,
        PrimitiveKind::U8 => "unsigned char"@,
        PrimitiveKind::I16 => "short"@,
        PrimitiveKind::U16 => "unsigned short"@,
        PrimitiveKind::I32 => "int"@,
        PrimitiveKind::U32 => "unsigned int"@,
        PrimitiveKind::I64 => "long long"@,
        PrimitiveKind::U64 => "unsigned long long"@,
        PrimitiveKind::I128 => "int128_t"@,
        PrimitiveKind::U128 => "uint128_t"@,
        PrimitiveKind::F16 => "float16_t"@,
        PrimitiveKind::F32 => "float"@,
        PrimitiveKind::F32PP => "float"@,
        PrimitiveKind::F48 => "float48_t"@,
        PrimitiveKind::F64 => "double"@,
        PrimitiveKind::F80 => "long double"@,
        PrimitiveKind::F128 => "long double"@,
        PrimitiveKind::Complex32 => "complex<float>"@,
        PrimitiveKind::Complex64 => "complex<double>"@,
        PrimitiveKind::Complex80 => "complex<long double>"@,
        PrimitiveKind::Complex128 => "complex<long double>"@,
        PrimitiveKind::Bool8 => "bool"@,
        PrimitiveKind::Bool16 => "bool16_t"@,
        PrimitiveKind::Bool32 => "bool32_t"@,
        PrimitiveKind::Bool64 => "bool64_t"@,
        PrimitiveKind::HRESULT => "HRESULT"@,
    }
}

/// The text of a primitive record: its subkind's name, with `" *"` appended
/// when the record marks pointer indirection.
pub open spec fn spec_primitive_text(t: PrimitiveType) -> Seq<char> {
    if t.indirection {
        spec_primitive_name(t.kind) + " *"@
    } else {
        spec_primitive_name(t.kind)
    }
}

/// The keyword of an aggregate record.
pub open spec fn spec_class_keyword(kind: ClassKind) -> Seq<char> {
    match kind {
        ClassKind::Class => "class"@,
        ClassKind::Interface => "interface"@,
        ClassKind::Struct => "struct"@,
    }
}

/// Return-type text readied for concatenation: a trailing space when
/// non-empty, nothing when the return annotation is suppressed.
pub open spec fn spec_fix_return(s: Seq<char>) -> Seq<char> {
    if s.len() == 0 {
        s
    } else {
        s + " "@
    }
}

/// The marker of one pointer level: `const ` when marked, then the
/// indirection symbol.
pub open spec fn spec_attr_marker(a: PointerAttributes) -> Seq<char> {
    let m = match a.mode {
        PointerMode::Pointer => "*"@,
        PointerMode::LValueReference => "&"@,
        PointerMode::Member => "::*"@,
        PointerMode::MemberFunction => "::"@,
        PointerMode::RValueReference => "&&"@,
    };
    if a.is_const {
        " const "@ + m
    } else {
        m
    }
}

/// All pointer-level markers, outermost first, concatenated.
pub open spec fn spec_attrs_rendered(attrs: Seq<PointerAttributes>) -> Seq<char>
    decreases attrs.len(),
{
    if attrs.len() == 0 {
        Seq::empty()
    } else {
        spec_attrs_rendered(attrs.drop_last()) + spec_attr_marker(attrs.last())
    }
}

/// The rendered pointer markers, with the leading space trimmed.
pub open spec fn spec_attrs_text(attrs: Seq<PointerAttributes>) -> Seq<char> {
    trim_leading_spaces(spec_attrs_rendered(attrs))
}

/// Bracket groups of an array, outer-to-inner. Each stored dimension is a
/// cumulative byte size; a bracket's extent is its cumulative size divided
/// by the next-inner one (the element size innermost). A zero divisor marks
/// malformed input and yields extent 0.
pub open spec fn spec_brackets(dims: Seq<u32>, size: u32) -> Seq<char>
    decreases dims.len(),
{
    if dims.len() == 0 {
        Seq::empty()
    } else {
        let x = dims.last();
        let ext: u32 = if size == 0 {
            0u32
        } else {
            x / size
        };
        spec_brackets(dims.drop_last(), x) + ("["@ + spec_dec(ext as nat) + "]"@)
    }
}

/// The base text of a pointer chain joined with its markers: no space when
/// the base already ends in `*` or `&`.
pub open spec fn spec_ptr_base_join(base: Seq<char>, attrs: Seq<char>) -> Seq<char> {
    if base.len() > 0 && (base.last() == '*' || base.last() == '&') {
        base + attrs
    } else {
        base + " "@ + attrs
    }
}

/// Whether an executable text result agrees with a specified one: same
/// success, same characters or same error.
pub open spec fn text_matches(r: Result<String, TypeError>, s: Result<Seq<char>, TypeError>) -> bool {
    match r {
        Ok(a) => match s {
            Ok(b) => a@ == b,
            Err(_) => false,
        },
        Err(e) => match s {
            Ok(_) => false,
            Err(e2) => e == e2,
        },
    }
}

/// Agreement for `(return, arguments)` pairs.
pub open spec fn parts2_matches(
    r: Result<(String, String), TypeError>,
    s: Result<(Seq<char>, Seq<char>), TypeError>,
) -> bool {
    match r {
        Ok(p) => match s {
            Ok(q) => p.0@ == q.0 && p.1@ == q.1,
            Err(_) => false,
        },
        Err(e) => match s {
            Ok(_) => false,
            Err(e2) => e == e2,
        },
    }
}

/// Agreement for `(static, return, arguments)` triples.
pub open spec fn parts3_matches(
    r: Result<(bool, String, String), TypeError>,
    s: Result<(bool, Seq<char>, Seq<char>), TypeError>,
) -> bool {
    match r {
        Ok(p) => match s {
            Ok(q) => p.0 == q.0 && p.1@ == q.1 && p.2@ == q.2,
            Err(_) => false,
        },
        Err(e) => match s {
            Ok(_) => false,
            Err(e2) => e == e2,
        },
    }
}

/// The first stored dimension of an array record, 0 when the record holds
/// none (malformed input).
pub open spec fn spec_first_dim(a: ArrayType) -> u32 {
    if a.dimensions@.len() == 0 {
        0u32
    } else {
        a.dimensions@[0]
    }
}

impl TypeDumper {
    /// The declaration text of the record stored under an index, with a
    /// recursion budget.
    pub open spec fn spec_dump_index(self, index: TypeIndex, depth: nat) -> Result<
        Seq<char>,
        TypeError,
    >
        decreases depth, 0int, 0int,
    {
        match self.spec_find(index) {
            None => Err(TypeError::UnknownIndex(index)),
            Some(t) => if depth == 0 {
                Err(TypeError::DepthLimit)
            } else {
                self.spec_dump_data(t, (depth - 1) as nat)
            },
        }
    }

    /// Comma-joined prints of `args[i..]`, accumulated onto `acc`.
    pub open spec fn spec_join_from(
        self,
        args: Seq<TypeIndex>,
        i: int,
        acc: Seq<char>,
        depth: nat,
    ) -> Result<Seq<char>, TypeError>
        decreases depth, 1int, args.len() - i,
    {
        if i < 0 || i >= args.len() {
            Ok(acc)
        } else {
            match self.spec_dump_index(args[i], depth) {
                Err(e) => Err(e),
                Ok(t) => self.spec_join_from(
                    args,
                    i + 1,
                    if i == 0 {
                        t
                    } else {
                        acc + ", "@ + t
                    },
                    depth,
                ),
            }
        }
    }

    /// Whether a this-pointer's pointee is exactly the declaring class.
    pub open spec fn spec_check_this(self, this: TypeIndex, class: TypeIndex) -> Result<
        bool,
        TypeError,
    > {
        match self.spec_find(this) {
            None => Err(TypeError::UnknownIndex(this)),
            Some(TypeData::Pointer(p)) => Ok(p.underlying_type == class),
            Some(_) => Ok(false),
        }
    }

    /// Return and argument text of a free function type. The return text is
    /// empty for a constructor or a hidden-slot aggregate return.
    pub open spec fn spec_procedure_parts(self, t: ProcedureType, depth: nat) -> Result<
        (Seq<char>, Seq<char>),
        TypeError,
    >
        decreases depth, 2int, 0int,
    {
        let ret_r = match t.return_type {
            Some(rt) => if t.attributes.is_constructor || t.attributes.cxx_return_udt {
                Ok(Seq::<char>::empty())
            } else {
                self.spec_dump_index(rt, depth)
            },
            None => Ok(Seq::<char>::empty()),
        };
        match ret_r {
            Err(e) => Err(e),
            Ok(ret) => match self.spec_dump_index(t.argument_list, depth) {
                Err(e) => Err(e),
                Ok(args) => Ok((ret, args)),
            },
        }
    }

    /// Staticness, return and argument text of a member function type. The
    /// this parameter is omitted when its pointee is the declaring class,
    /// and rendered as an explicit leading parameter otherwise.
    pub open spec fn spec_method_parts(self, t: MemberFunctionType, depth: nat) -> Result<
        (bool, Seq<char>, Seq<char>),
        TypeError,
    >
        decreases depth, 2int, 0int,
    {
        let ret_r = if t.attributes.is_constructor || t.attributes.cxx_return_udt {
            Ok(Seq::<char>::empty())
        } else {
            self.spec_dump_index(t.return_type, depth)
        };
        match ret_r {
            Err(e) => Err(e),
            Ok(ret) => match self.spec_dump_index(t.argument_list, depth) {
                Err(e) => Err(e),
                Ok(args) => match t.this_pointer_type {
                    None => Ok((true, ret, args)),
                    Some(this_idx) => match self.spec_check_this(this_idx, t.class_type) {
                        Err(e) => Err(e),
                        Ok(true) => Ok((false, ret, args)),
                        Ok(false) => match self.spec_dump_index(this_idx, depth) {
                            Err(e) => Err(e),
                            Ok(this_text) => Ok(
                                (
                                    false,
                                    ret,
                                    if args.len() == 0 {
                                        this_text
                                    } else {
                                        this_text + ", "@ + args
                                    },
                                ),
                            ),
                        },
                    },
                },
            },
        }
    }

    /// The text of a pointer chain: markers accumulated per level until a
    /// non-pointer underlying type, which renders as a function type behind
    /// the markers or as a base type joined with them.
    pub open spec fn spec_dump_ptr(
        self,
        cur: PointerType,
        acc: Seq<PointerAttributes>,
        depth: nat,
    ) -> Result<Seq<char>, TypeError>
        decreases depth, 3int, 0int,
    {
        if depth == 0 {
            Err(TypeError::DepthLimit)
        } else {
            match self.spec_find(cur.underlying_type) {
                None => Err(TypeError::UnknownIndex(cur.underlying_type)),
                Some(TypeData::Pointer(p2)) => self.spec_dump_ptr(
                    p2,
                    acc.push(p2.attributes),
                    (depth - 1) as nat,
                ),
                Some(TypeData::MemberFunction(mf)) => match self.spec_method_parts(
                    mf,
                    (depth - 1) as nat,
                ) {
                    Err(e) => Err(e),
                    Ok(p) => Ok(
                        spec_fix_return(p.1) + "("@ + spec_attrs_text(acc) + ")("@ + p.2 + ")"@,
                    ),
                },
                Some(TypeData::Procedure(pr)) => match self.spec_procedure_parts(
                    pr,
                    (depth - 1) as nat,
                ) {
                    Err(e) => Err(e),
                    Ok(p) => Ok(
                        spec_fix_return(p.0) + "("@ + spec_attrs_text(acc) + ")("@ + p.1 + ")"@,
                    ),
                },
                Some(other) => match self.spec_dump_data(other, (depth - 1) as nat) {
                    Err(e) => Err(e),
                    Ok(base) => Ok(spec_ptr_base_join(base, spec_attrs_text(acc))),
                },
            }
        }
    }

    /// The cumulative dimensions of a nested array chain, outer-to-inner,
    /// and the innermost non-array element record.
    pub open spec fn spec_array_info(
        self,
        cur: ArrayType,
        acc: Seq<u32>,
        depth: nat,
    ) -> Result<(Seq<u32>, TypeData), TypeError>
        decreases depth, 3int, 0int,
    {
        let acc2 = acc.push(spec_first_dim(cur));
        match self.spec_find(cur.element_type) {
            None => Err(TypeError::UnknownIndex(cur.element_type)),
            Some(TypeData::Array(a2)) => if depth == 0 {
                Err(TypeError::DepthLimit)
            } else {
                self.spec_array_info(a2, acc2, (depth - 1) as nat)
            },
            Some(other) => Ok((acc2, other)),
        }
    }

    /// The text of an array: the element type's text followed by bracket
    /// groups recovered from the cumulative dimensions, outer-to-inner.
    pub open spec fn spec_dump_array(self, a: ArrayType, depth: nat) -> Result<
        Seq<char>,
        TypeError,
    >
        decreases depth, 4int, 0int,
    {
        if depth == 0 {
            Err(TypeError::DepthLimit)
        } else {
            match self.spec_array_info(a, Seq::empty(), depth) {
                Err(e) => Err(e),
                Ok(info) => match self.spec_dump_data(info.1, (depth - 1) as nat) {
                    Err(e) => Err(e),
                    Ok(base_text) => Ok(
                        base_text + spec_brackets(
                            info.0,
                            self.spec_data_size(info.1, DEPTH_LIMIT as nat),
                        ),
                    ),
                },
            }
        }
    }

    /// The declaration text of a parsed record.
    pub open spec fn spec_dump_data(self, t: TypeData, depth: nat) -> Result<Seq<char>, TypeError>
        decreases depth, 5int, 0int,
    {
        match t {
            TypeData::Primitive(p) => Ok(spec_primitive_text(p)),
            TypeData::Class(c) => Ok(spec_class_keyword(c.kind) + " "@ + c.name@),
            TypeData::Union(u) => Ok("union "@ + u.name@),
            TypeData::Enumeration(e) => Ok("enum "@ + e.name@),
            TypeData::Enumerate(e) => Ok("enum class "@ + e.name@),
            TypeData::MemberFunction(mf) => match self.spec_method_parts(mf, depth) {
                Err(e) => Err(e),
                Ok(p) => Ok(spec_fix_return(p.1) + "()("@ + p.2 + ")"@),
            },
            TypeData::Procedure(pr) => match self.spec_procedure_parts(pr, depth) {
                Err(e) => Err(e),
                Ok(p) => Ok(spec_fix_return(p.0) + "()("@ + p.1 + ")"@),
            },
            TypeData::ArgumentList(al) => self.spec_join_from(al.arguments@, 0, Seq::empty(), depth),
            TypeData::Pointer(p) => self.spec_dump_ptr(p, seq![p.attributes], depth),
            TypeData::Array(a) => self.spec_dump_array(a, depth),
            TypeData::Modifier(m) => match self.spec_dump_index(m.underlying_type, depth) {
                Err(e) => Err(e),
                Ok(u) => Ok(
                    if m.constant {
                        "const "@ + u
                    } else {
                        u
                    },
                ),
            },
            TypeData::Other(tag) => Ok("unhandled type /* kind "@ + spec_dec(tag as nat) + " */"@),
        }
    }
}

/// Return-type text readied for concatenation, as executable code.
pub fn fix_return(name: String) -> (r: String)
    ensures
        r@ == spec_fix_return(name@),
{
    let mut name = name;
    if !name.as_str().is_empty() {
        name.append(" ");
    }
    name
}

/// Renders accumulated pointer-level markers, leading space trimmed.
pub fn dump_attributes(attrs: &Vec<PointerAttributes>) -> (r: String)
    ensures
        r@ == spec_attrs_text(attrs@),
{
    let mut buf = String::new();
    let mut i: usize = 0;
    while i < attrs.len()
        invariant
            0 <= i <= attrs@.len(),
            buf@ == spec_attrs_rendered(attrs@.take(i as int)),
        decreases attrs@.len() - i,
    {
        let a = attrs[i];
        if a.is_const {
            buf.append(" const ");
        }
        match a.mode {
            PointerMode::Pointer => buf.append("*"),
            PointerMode::LValueReference => buf.append("&"),
            PointerMode::Member => buf.append("::*"),
            PointerMode::MemberFunction => buf.append("::"),
            PointerMode::RValueReference => buf.append("&&"),
        }
        proof {
            assert(attrs@.take(i + 1).drop_last() =~= attrs@.take(i as int));
            assert(attrs@.take(i + 1).last() == a);
            assert(buf@ =~= spec_attrs_rendered(attrs@.take(i + 1)));
        }
        i = i + 1;
    }
    proof {
        assert(attrs@.take(attrs@.len() as int) =~= attrs@);
    }
    trim_start_spaces(buf.as_str())
}

impl TypeDumper {
    /// The declaration text of the type stored under `index`.
    pub fn dump_index(&self, index: TypeIndex) -> (r: Result<String, TypeError>)
        ensures
            text_matches(r, self.spec_dump_index(index, DEPTH_LIMIT as nat)),
    {
        self.dump_index_limited(index, DEPTH_LIMIT)
    }

    fn dump_index_limited(&self, index: TypeIndex, depth: u32) -> (r: Result<String, TypeError>)
        ensures
            text_matches(r, self.spec_dump_index(index, depth as nat)),
        decreases depth, 0int, 0int,
    {
        match self.find(index) {
            Err(e) => Err(e),
            Ok(t) => {
                if depth == 0 {
                    Err(TypeError::DepthLimit)
                } else {
                    self.dump_data(t, depth - 1)
                }
            },
        }
    }

    /// Whether the this-pointer's pointee is the declaring class itself.
    fn check_this_type(&self, this: TypeIndex, class: TypeIndex) -> (r: Result<bool, TypeError>)
        ensures
            r == self.spec_check_this(this, class),
    {
        match self.find(this) {
            Err(e) => Err(e),
            Ok(t) => match t {
                TypeData::Pointer(p) => Ok(p.underlying_type == class),
                _ => Ok(false),
            },
        }
    }

    /// Return and argument text of a free function type.
    pub(crate) fn dump_procedure_parts(&self, typ: &ProcedureType, depth: u32) -> (r: Result<
        (String, String),
        TypeError,
    >)
        ensures
            parts2_matches(r, self.spec_procedure_parts(*typ, depth as nat)),
        decreases depth, 2int, 0int,
    {
        let ret_typ: String = match typ.return_type {
            Some(rt) => {
                if typ.attributes.is_constructor || typ.attributes.cxx_return_udt {
                    String::new()
                } else {
                    match self.dump_index_limited(rt, depth) {
                        Err(e) => {
                            return Err(e);
                        },
                        Ok(s) => s,
                    }
                }
            },
            None => String::new(),
        };
        let args_typ = match self.dump_index_limited(typ.argument_list, depth) {
            Err(e) => {
                return Err(e);
            },
            Ok(s) => s,
        };
        Ok((ret_typ, args_typ))
    }

    /// Staticness, return and argument text of a member function type.
    pub(crate) fn dump_method_parts(&self, typ: &MemberFunctionType, depth: u32) -> (r: Result<
        (bool, String, String),
        TypeError,
    >)
        ensures
            parts3_matches(r, self.spec_method_parts(*typ, depth as nat)),
        decreases depth, 2int, 0int,
    {
        let ret_typ: String = if typ.attributes.is_constructor || typ.attributes.cxx_return_udt {
            String::new()
        } else {
            match self.dump_index_limited(typ.return_type, depth) {
                Err(e) => {
                    return Err(e);
                },
                Ok(s) => s,
            }
        };
        let args_typ = match self.dump_index_limited(typ.argument_list, depth) {
            Err(e) => {
                return Err(e);
            },
            Ok(s) => s,
        };
        match typ.this_pointer_type {
            None => Ok((true, ret_typ, args_typ)),
            Some(this_idx) => {
                let same = match self.check_this_type(this_idx, typ.class_type) {
                    Err(e) => {
                        return Err(e);
                    },
                    Ok(b) => b,
                };
                if same {
                    Ok((false, ret_typ, args_typ))
                } else {
                    let this_typ = match self.dump_index_limited(this_idx, depth) {
                        Err(e) => {
                            return Err(e);
                        },
                        Ok(s) => s,
                    };
                    if args_typ.as_str().is_empty() {
                        Ok((false, ret_typ, this_typ))
                    } else {
                        let mut joined = this_typ;
                        joined.append(", ");
                        joined.append(args_typ.as_str());
                        proof {
                            assert(joined@ =~= this_typ@ + ", "@ + args_typ@);
                        }
                        Ok((false, ret_typ, joined))
                    }
                }
            },
        }
    }

    /// The text of a pointer chain, walked iteratively with an accumulator.
    fn dump_ptr(&self, ptr: &PointerType, depth: u32) -> (r: Result<String, TypeError>)
        ensures
            text_matches(r, self.spec_dump_ptr(*ptr, seq![ptr.attributes], depth as nat)),
        decreases depth, 3int, 0int,
    {
        let mut attributes: Vec<PointerAttributes> = Vec::new();
        attributes.push(ptr.attributes);
        let mut cur: PointerType = *ptr;
        let mut d: u32 = depth;
        loop
            invariant
                d <= depth,
                self.spec_dump_ptr(*ptr, seq![ptr.attributes], depth as nat)
                    == self.spec_dump_ptr(cur, attributes@, d as nat),
            decreases d,
        {
            if d == 0 {
                return Err(TypeError::DepthLimit);
            }
            match self.find(cur.underlying_type) {
                Err(e) => {
                    return Err(e);
                },
                Ok(t) => match t {
                    TypeData::Pointer(p2) => {
                        attributes.push(p2.attributes);
                        cur = *p2;
                        d = d - 1;
                    },
                    TypeData::MemberFunction(mf) => {
                        let parts = match self.dump_method_parts(mf, d - 1) {
                            Err(e) => {
                                return Err(e);
                            },
                            Ok(p) => p,
                        };
                        let attrs = dump_attributes(&attributes);
                        let mut out = fix_return(parts.1);
                        out.append("(");
                        out.append(attrs.as_str());
                        out.append(")(");
                        out.append(parts.2.as_str());
                        out.append(")");
                        proof {
                            assert(out@ =~= spec_fix_return(parts.1@) + "("@ + spec_attrs_text(
                                attributes@,
                            ) + ")("@ + parts.2@ + ")"@);
                        }
                        return Ok(out);
                    },
                    TypeData::Procedure(pr) => {
                        let parts = match self.dump_procedure_parts(pr, d - 1) {
                            Err(e) => {
                                return Err(e);
                            },
                            Ok(p) => p,
                        };
                        let attrs = dump_attributes(&attributes);
                        let mut out = fix_return(parts.0);
                        out.append("(");
                        out.append(attrs.as_str());
                        out.append(")(");
                        out.append(parts.1.as_str());
                        out.append(")");
                        proof {
                            assert(out@ =~= spec_fix_return(parts.0@) + "("@ + spec_attrs_text(
                                attributes@,
                            ) + ")("@ + parts.1@ + ")"@);
                        }
                        return Ok(out);
                    },
                    _ => {
                        let base = match self.dump_data(t, d - 1) {
                            Err(e) => {
                                return Err(e);
                            },
                            Ok(s) => s,
                        };
                        let attrs = dump_attributes(&attributes);
                        let blen = base.as_str().unicode_len();
                        let mut out = base;
                        if blen > 0 {
                            let c = out.as_str().get_char(blen - 1);
                            if c == '*' || c == '&' {
                                out.append(attrs.as_str());
                                return Ok(out);
                            }
                        }
                        out.append(" ");
                        out.append(attrs.as_str());
                        proof {
                            assert(out@ =~= base@ + " "@ + spec_attrs_text(attributes@));
                        }
                        return Ok(out);
                    },
                },
            }
        }
    }

    /// Collects the cumulative dimensions of a nested array chain and its
    /// innermost non-array element record.
    fn get_array_info<'s>(&'s self, array: &'s ArrayType, depth: u32) -> (r: Result<
        (Vec<u32>, &'s TypeData),
        TypeError,
    >)
        ensures
            ({
                let s = self.spec_array_info(*array, Seq::empty(), depth as nat);
                match r {
                    Ok(p) => match s {
                        Ok(q) => p.0@ == q.0 && *p.1 == q.1,
                        Err(_) => false,
                    },
                    Err(e) => match s {
                        Ok(_) => false,
                        Err(e2) => e == e2,
                    },
                }
            }),
    {
        let mut dims: Vec<u32> = Vec::new();
        let mut cur: &ArrayType = array;
        let mut d: u32 = depth;
        loop
            invariant
                self.spec_array_info(*array, Seq::empty(), depth as nat) == self.spec_array_info(
                    *cur,
                    dims@,
                    d as nat,
                ),
            decreases d,
        {
            let first: u32 = if cur.dimensions.len() == 0 {
                0
            } else {
                cur.dimensions[0]
            };
            dims.push(first);
            match self.find(cur.element_type) {
                Err(e) => {
                    return Err(e);
                },
                Ok(t) => match t {
                    TypeData::Array(a2) => {
                        if d == 0 {
                            return Err(TypeError::DepthLimit);
                        }
                        cur = a2;
                        d = d - 1;
                    },
                    _ => {
                        return Ok((dims, t));
                    },
                },
            }
        }
    }

    /// The text of an array record.
    fn dump_array(&self, array: &ArrayType, depth: u32) -> (r: Result<String, TypeError>)
        ensures
            text_matches(r, self.spec_dump_array(*array, depth as nat)),
        decreases depth, 4int, 0int,
    {
        if depth == 0 {
            return Err(TypeError::DepthLimit);
        }
        let info = match self.get_array_info(array, depth) {
            Err(e) => {
                return Err(e);
            },
            Ok(p) => p,
        };
        let dims = info.0;
        let base = info.1;
        let base_size = self.get_data_size(base, DEPTH_LIMIT);
        let base_text = match self.dump_data(base, depth - 1) {
            Err(e) => {
                return Err(e);
            },
            Ok(s) => s,
        };
        let mut size: u32 = base_size;
        let mut out = String::new();
        let mut i: usize = dims.len();
        proof {
            assert(dims@.take(i as int) =~= dims@);
        }
        while i > 0
            invariant
                0 <= i <= dims@.len(),
                size == (if i == dims@.len() {
                    base_size
                } else {
                    dims@[i as int]
                }),
                spec_brackets(dims@.take(i as int), size) + out@ == spec_brackets(
                    dims@,
                    base_size,
                ),
            decreases i,
        {
            let x = dims[i - 1];
            let ext: u32 = if size == 0 {
                0
            } else {
                x / size
            };
            let dec = u32_to_decimal(ext);
            let mut grp = String::from_str("[");
            grp.append(dec.as_str());
            grp.append("]");
            grp.append(out.as_str());
            proof {
                assert(dims@.take(i as int).drop_last() =~= dims@.take(i - 1));
                assert(dims@.take(i as int).last() == x);
                assert(grp@ =~= ("["@ + spec_dec(ext as nat) + "]"@) + out@);
                assert(spec_brackets(dims@.take(i as int), size) == spec_brackets(
                    dims@.take(i - 1),
                    x,
                ) + ("["@ + spec_dec(ext as nat) + "]"@));
                assert(spec_brackets(dims@.take(i - 1), x) + grp@ =~= spec_brackets(
                    dims@.take(i as int),
                    size,
                ) + out@);
            }
            out = grp;
            size = x;
            i = i - 1;
        }
        proof {
            assert(dims@.take(0) =~= Seq::<u32>::empty());
            assert(out@ =~= spec_brackets(dims@, base_size));
        }
        let ghost bt = base_text@;
        let mut res = base_text;
        res.append(out.as_str());
        proof {
            assert(res@ =~= bt + spec_brackets(dims@, base_size));
        }
        Ok(res)
    }

    /// The declaration text of a parsed record.
    pub(crate) fn dump_data(&self, typ: &TypeData, depth: u32) -> (r: Result<String, TypeError>)
        ensures
            text_matches(r, self.spec_dump_data(*typ, depth as nat)),
        decreases depth, 5int, 0int,
    {
        match typ {
            TypeData::Primitive(t) => {
                let name: &'static str = match t.kind {
                    PrimitiveKind::NoType => "<NoType>",
                    PrimitiveKind::Void => "void",
                    PrimitiveKind::Char => "signed char",
                    PrimitiveKind::UChar => "unsigned char",
                    PrimitiveKind::RChar => "char",
                    PrimitiveKind::WChar => "wchar_t",
                    PrimitiveKind::RChar16 => "char16_t",
                    PrimitiveKind::RChar32 => "char32_t",
                    PrimitiveKind::I8 => "signed char",
                    PrimitiveKind::U8 => "unsigned char",
                    PrimitiveKind::I16 => "short",
                    PrimitiveKind::U16 => "unsigned short",
                    PrimitiveKind::I32 => "int",
                    PrimitiveKind::U32 => "unsigned int",
                    PrimitiveKind::I64 => "long long",
                    PrimitiveKind::U64 => "unsigned long long",
                    PrimitiveKind::I128 => "int128_t",
                    PrimitiveKind::U128 => "uint128_t",
                    PrimitiveKind::F16 => "float16_t",
                    PrimitiveKind::F32 => "float",
                    PrimitiveKind::F32PP => "float",
                    PrimitiveKind::F48 => "float48_t",
                    PrimitiveKind::F64 => "double",
                    PrimitiveKind::F80 => "long double",
                    PrimitiveKind::F128 => "long double",
                    PrimitiveKind::Complex32 => "complex<float>",
                    PrimitiveKind::Complex64 => "complex<double>",
                    PrimitiveKind::Complex80 => "complex<long double>",
                    PrimitiveKind::Complex128 => "complex<long double>",
                    PrimitiveKind::Bool8 => "bool",
                    PrimitiveKind::Bool16 => "bool16_t",
                    PrimitiveKind::Bool32 => "bool32_t",
                    PrimitiveKind::Bool64 => "bool64_t",
                    PrimitiveKind::HRESULT => "HRESULT",
                };
                let mut s = String::from_str(name);
                if t.indirection {
                    s.append(" *");
                }
                Ok(s)
            },
            TypeData::Class(t) => {
                let kw: &'static str = match t.kind {
                    ClassKind::Class => "class",
                    ClassKind::Interface => "interface",
                    ClassKind::Struct => "struct",
                };
                let mut s = String::from_str(kw);
                s.append(" ");
                s.append(t.name.as_str());
                proof {
                    assert(s@ =~= spec_class_keyword(t.kind) + " "@ + t.name@);
                }
                Ok(s)
            },
            TypeData::Union(t) => {
                let mut s = String::from_str("union ");
                s.append(t.name.as_str());
                Ok(s)
            },
            TypeData::Enumeration(t) => {
                let mut s = String::from_str("enum ");
                s.append(t.name.as_str());
                Ok(s)
            },
            TypeData::Enumerate(t) => {
                let mut s = String::from_str("enum class ");
                s.append(t.name.as_str());
                Ok(s)
            },
            TypeData::MemberFunction(t) => {
                let parts = match self.dump_method_parts(t, depth) {
                    Err(e) => {
                        return Err(e);
                    },
                    Ok(p) => p,
                };
                let mut out = fix_return(parts.1);
                out.append("()(");
                out.append(parts.2.as_str());
                out.append(")");
                proof {
                    assert(out@ =~= spec_fix_return(parts.1@) + "()("@ + parts.2@ + ")"@);
                }
                Ok(out)
            },
            TypeData::Procedure(t) => {
                let parts = match self.dump_procedure_parts(t, depth) {
                    Err(e) => {
                        return Err(e);
                    },
                    Ok(p) => p,
                };
                let mut out = fix_return(parts.0);
                out.append("()(");
                out.append(parts.1.as_str());
                out.append(")");
                proof {
                    assert(out@ =~= spec_fix_return(parts.0@) + "()("@ + parts.1@ + ")"@);
                }
                Ok(out)
            },
            TypeData::ArgumentList(t) => {
                let mut buf = String::new();
                let mut i: usize = 0;
                while i < t.arguments.len()
                    invariant
                        0 <= i <= t.arguments@.len(),
                        self.spec_dump_data(*typ, depth as nat) == self.spec_join_from(
                            t.arguments@,
                            i as int,
                            buf@,
                            depth as nat,
                        ),
                    decreases t.arguments@.len() - i,
                {
                    let piece = match self.dump_index_limited(t.arguments[i], depth) {
                        Err(e) => {
                            proof {
                                assert(self.spec_dump_index(t.arguments@[i as int], depth as nat)
                                    == Err::<Seq<char>, TypeError>(e));
                                assert(self.spec_join_from(t.arguments@, i as int, buf@, depth as nat)
                                    == Err::<Seq<char>, TypeError>(e));
                            }
                            return Err(e);
                        },
                        Ok(s) => s,
                    };
                    let ghost buf0 = buf@;
                    if i == 0 {
                        buf = piece;
                    } else {
                        buf.append(", ");
                        buf.append(piece.as_str());
                        proof {
                            assert(buf@ =~= buf0 + ", "@ + piece@);
                        }
                    }
                    i = i + 1;
                }
                Ok(buf)
            },
            TypeData::Pointer(t) => self.dump_ptr(t, depth),
            TypeData::Array(t) => self.dump_array(t, depth),
            TypeData::Modifier(t) => {
                let underlying = match self.dump_index_limited(t.underlying_type, depth) {
                    Err(e) => {
                        return Err(e);
                    },
                    Ok(s) => s,
                };
                if t.constant {
                    let mut s = String::from_str("const ");
                    s.append(underlying.as_str());
                    Ok(s)
                } else {
                    Ok(underlying)
                }
            },
            TypeData::Other(tag) => {
                let dec = u32_to_decimal(*tag as u32);
                let mut s = String::from_str("unhandled type /* kind ");
                s.append(dec.as_str());
                s.append(" */");
                proof {
                    assert(s@ =~= "unhandled type /* kind "@ + spec_dec(*tag as nat) + " */"@);
                }
                Ok(s)
            },
        }
    }
}

} // verus!
