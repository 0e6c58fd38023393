//! Function-name resolution: the signature builder over the printer, the
//! demangling dispatch, and the heuristic parser for legacy name
//! decorations (leading `_` or `@`, trailing `@N` stack byte count).

use vstd::prelude::*;
use vstd::string::StrSliceExecFns;
use vstd::string::StringExecFns;
use crate::catalog::{DEPTH_LIMIT, TypeDumper};
use crate::printer::{fix_return, spec_fix_return};
use crate::records::{TypeData, TypeError, TypeIndex};
use crate::strtext::{
    contains_char, has_char_in, last_index_of, parse_u32, rfind_char, spec_parse_u32,
};

verus! {

/// The result of name resolution: a confident, display-ready signature, or
/// the (possibly lightly stripped) name with a best-effort estimate of the
/// stack-parameter byte count (0 if unknown).
pub enum FuncName {
    Undecorated(String),
    Unknown((String, u32)),
}

/// The abstract value of a [`FuncName`], over character sequences.
pub enum FuncNameModel {
    Undecorated(Seq<char>),
    Unknown(Seq<char>, u32),
}

/// Whether an executable resolution result carries the abstract value `m`.
pub open spec fn func_name_matches(r: FuncName, m: FuncNameModel) -> bool {
    match r {
        FuncName::Undecorated(s) => match m {
            FuncNameModel::Undecorated(t) => s@ == t,
            FuncNameModel::Unknown(_, _) => false,
        },
        FuncName::Unknown(p) => match m {
            FuncNameModel::Unknown(t, sz) => p.0@ == t && p.1 == sz,
            FuncNameModel::Undecorated(_) => false,
        },
    }
}

/// What the decoration heuristic recovers from a raw name: the base name
/// and the estimated stack-parameter byte count.
///
/// A name must start with `_` (cdecl/stdcall) or `@` (fastcall) and hold
/// neither `:` nor `(` after the marker. The remainder splits at its last
/// `@`; when the trailing part parses as an unsigned integer it is the
/// stack byte count, lowered by 8 (floored at 0) for the fastcall form,
/// whose first two parameters travel in registers. Otherwise the name is
/// not decorated: it is returned with a leading `_` stripped, and count 0.
pub open spec fn spec_get_unknown(n: Seq<char>) -> (Seq<char>, u32) {
    if n.len() == 0 {
        (n, 0u32)
    } else {
        let first = n[0];
        let sub = n.subrange(1, n.len() as int);
        if first != '_' && first != '@' {
            (n, 0u32)
        } else if has_char_in(sub, ':') || has_char_in(sub, '(') {
            (n, 0u32)
        } else if !has_char_in(sub, '@') {
            (
                if first == '_' {
                    sub
                } else {
                    n
                },
                0u32,
            )
        } else {
            let k = last_index_of(sub, '@');
            let trailing = sub.subrange(k + 1, sub.len() as int);
            match spec_parse_u32(trailing) {
                Some(v) => (
                    sub.take(k),
                    if first == '@' {
                        if v > 8 {
                            (v - 8) as u32
                        } else {
                            0u32
                        }
                    } else {
                        v
                    },
                ),
                None => (
                    if first == '_' {
                        sub
                    } else {
                        n
                    },
                    0u32,
                ),
            }
        }
    }
}

impl FuncName {
    /// Recovers a base name and estimated stack-parameter byte count from a
    /// legacy decorated name; always an `Unknown` value.
    pub fn get_unknown(name: String) -> (r: Self)
        ensures
            match r {
                FuncName::Unknown(p) => p.0@ == spec_get_unknown(name@).0 && p.1
                    == spec_get_unknown(name@).1,
                FuncName::Undecorated(_) => false,
            },
    {
        let len = name.as_str().unicode_len();
        if len == 0 {
            return FuncName::Unknown((name, 0));
        }
        let first = name.as_str().get_char(0);
        if first != '_' && first != '@' {
            return FuncName::Unknown((name, 0));
        }
        let ghost sub = name@.subrange(1, name@.len() as int);
        if contains_char(name.as_str(), 1, ':') || contains_char(name.as_str(), 1, '(') {
            return FuncName::Unknown((name, 0));
        }
        match rfind_char(name.as_str(), 1, '@') {
            None => {
                if first == '_' {
                    let stripped = String::from_str(name.as_str().substring_char(1, len));
                    proof {
                        assert(stripped@ =~= sub);
                    }
                    FuncName::Unknown((stripped, 0))
                } else {
                    FuncName::Unknown((name, 0))
                }
            },
            Some(k) => {
                proof {
                    assert(sub[k - 1] == '@');
                    assert(has_char_in(sub, '@'));
                }
                let trailing = name.as_str().substring_char(k + 1, len);
                proof {
                    assert(trailing@ =~= sub.subrange(last_index_of(sub, '@') + 1, sub.len() as int));
                }
                match parse_u32(trailing) {
                    Some(v) => {
                        let sps: u32 = if first == '@' {
                            if v > 8 {
                                v - 8
                            } else {
                                0
                            }
                        } else {
                            v
                        };
                        let base = String::from_str(name.as_str().substring_char(1, k));
                        proof {
                            assert(base@ =~= sub.take(last_index_of(sub, '@')));
                        }
                        FuncName::Unknown((base, sps))
                    },
                    None => {
                        if first == '_' {
                            let stripped = String::from_str(name.as_str().substring_char(1, len));
                            proof {
                                assert(stripped@ =~= sub);
                            }
                            FuncName::Unknown((stripped, 0))
                        } else {
                            FuncName::Unknown((name, 0))
                        }
                    },
                }
            },
        }
    }
}

/// Whether the name's lexical shape marks a known mangling language.
pub uninterp spec fn language_known(s: Seq<char>) -> bool;

/// The demangled text of a name, or nothing when no language is detected
/// or its demangler produces no output.
pub uninterp spec fn demangled_of(s: Seq<char>) -> Option<Seq<char>>;

/// Relies on symbolic_common's `Demangle::detect_language` over a `Name`
/// built from the string: whether a mangling language is recognized. The
/// detection reads the characters alone.
#[verifier::external_body]
fn detect_language_known(ident: &str) -> (r: bool)
    ensures
        r == language_known(ident@),
{
    match symbolic_demangle::Demangle::detect_language(&symbolic_common::Name::from(ident)) {
        symbolic_common::Language::Unknown => false,
        _ => true,
    }
}

/// Relies on symbolic_demangle's `Demangle::demangle` with complete
/// formatting and argument rendering, over a `Name` built from the string:
/// the demangled text, if any. The result depends on the characters alone.
#[verifier::external_body]
fn demangle_full(ident: &str) -> (r: Option<String>)
    ensures
        match r {
            Some(s) => demangled_of(ident@) == Some(s@),
            None => demangled_of(ident@) is None,
        },
{
    symbolic_demangle::Demangle::demangle(
        &symbolic_common::Name::from(ident),
        symbolic_demangle::DemangleOptions::complete(),
    )
}

/// The heuristic result as an abstract value.
pub open spec fn spec_unknown_model(n: Seq<char>) -> FuncNameModel {
    FuncNameModel::Unknown(spec_get_unknown(n).0, spec_get_unknown(n).1)
}

/// How a demangler's output is classified against the original name: no
/// output falls back to the original; output equal to the input means the
/// language guess was likely wrong and the heuristic parser decides;
/// anything else is a confident demangling.
pub open spec fn spec_classify_demangled(original: Seq<char>, demangled: Option<Seq<char>>) -> FuncNameModel {
    match demangled {
        None => FuncNameModel::Undecorated(original),
        Some(d) => if d == original {
            spec_unknown_model(original)
        } else {
            FuncNameModel::Undecorated(d)
        },
    }
}

/// What name resolution yields for a name without type information:
/// unknown language goes to the heuristic parser, a known language to the
/// demangler and [`spec_classify_demangled`].
pub open spec fn spec_demangle(n: Seq<char>) -> FuncNameModel {
    if !language_known(n) {
        spec_unknown_model(n)
    } else {
        spec_classify_demangled(n, demangled_of(n))
    }
}

/// Classifies a demangler's output against the original name; fully
/// determined by its two arguments.
pub fn classify_demangled(original: &str, demangled: Option<String>) -> (r: FuncName)
    ensures
        ({
            let dm = match demangled {
                Some(d) => Some(d@),
                None => None::<Seq<char>>,
            };
            func_name_matches(r, spec_classify_demangled(original@, dm))
        }),
{
    match demangled {
        None => FuncName::Undecorated(String::from_str(original)),
        Some(d) => {
            let orig = String::from_str(original);
            if d == orig {
                FuncName::get_unknown(d)
            } else {
                FuncName::Undecorated(d)
            }
        },
    }
}

/// Resolves a name with no usable type information: detect a mangling
/// language, demangle when one is found, and classify the output.
pub fn demangle(ident: &str) -> (r: FuncName)
    ensures
        func_name_matches(r, spec_demangle(ident@)),
{
    if !detect_language_known(ident) {
        FuncName::get_unknown(String::from_str(ident))
    } else {
        classify_demangled(ident, demangle_full(ident))
    }
}

/// Whether an executable resolution result agrees with a specified one.
pub open spec fn resolve_matches(r: Result<FuncName, TypeError>, s: Result<
    FuncNameModel,
    TypeError,
>) -> bool {
    match r {
        Ok(f) => match s {
            Ok(m) => func_name_matches(f, m),
            Err(_) => false,
        },
        Err(e) => match s {
            Ok(_) => false,
            Err(e2) => e == e2,
        },
    }
}

impl TypeDumper {
    /// The display name of a function: the literal placeholder for an empty
    /// name, the demangling pipeline for the sentinel index 0, and the
    /// signature builder for a function type, with static marking, return
    /// suppression and this-pointer elision. A non-function record leaves
    /// the name as it is.
    pub open spec fn spec_dump_function(
        self,
        name: Seq<char>,
        index: TypeIndex,
        depth: nat,
    ) -> Result<FuncNameModel, TypeError> {
        if name.len() == 0 {
            Ok(FuncNameModel::Undecorated("<name omitted>"@))
        } else if index == 0 {
            Ok(spec_demangle(name))
        } else {
            match self.spec_find(index) {
                None => Err(TypeError::UnknownIndex(index)),
                Some(TypeData::MemberFunction(mf)) => match self.spec_method_parts(mf, depth) {
                    Err(e) => Err(e),
                    Ok(p) => Ok(
                        FuncNameModel::Undecorated(
                            (if p.0 {
                                "static "@
                            } else {
                                Seq::<char>::empty()
                            }) + spec_fix_return(p.1) + name + "("@ + p.2 + ")"@,
                        ),
                    ),
                },
                Some(TypeData::Procedure(pr)) => match self.spec_procedure_parts(pr, depth) {
                    Err(e) => Err(e),
                    Ok(p) => Ok(
                        FuncNameModel::Undecorated(spec_fix_return(p.0) + name + "("@ + p.1 + ")"@),
                    ),
                },
                Some(_) => Ok(FuncNameModel::Undecorated(name)),
            }
        }
    }

    /// Builds the display name for a function symbol. An empty name always
    /// resolves to the placeholder, whatever `index` holds.
    pub fn dump_function(&self, name: &str, index: TypeIndex) -> (r: Result<FuncName, TypeError>)
        ensures
            resolve_matches(r, self.spec_dump_function(name@, index, DEPTH_LIMIT as nat)),
            name@.len() == 0 ==> match r {
                Ok(f) => match f {
                    FuncName::Undecorated(s) => s@ == "<name omitted>"@,
                    FuncName::Unknown(_) => false,
                },
                Err(_) => false,
            },
    {
        if name.is_empty() {
            Ok(FuncName::Undecorated(String::from_str("<name omitted>")))
        } else if index == 0 {
            Ok(demangle(name))
        } else {
            match self.find(index) {
                Err(e) => Err(e),
                Ok(t) => match t {
                    TypeData::MemberFunction(mf) => {
                        let parts = match self.dump_method_parts(mf, DEPTH_LIMIT) {
                            Err(e) => {
                                return Err(e);
                            },
                            Ok(p) => p,
                        };
                        let mut out = if parts.0 {
                            String::from_str("static ")
                        } else {
                            String::new()
                        };
                        let rf = fix_return(parts.1);
                        out.append(rf.as_str());
                        out.append(name);
                        out.append("(");
                        out.append(parts.2.as_str());
                        out.append(")");
                        proof {
                            assert(out@ =~= (if parts.0 {
                                "static "@
                            } else {
                                Seq::<char>::empty()
                            }) + rf@ + name@ + "("@ + parts.2@ + ")"@);
                        }
                        Ok(FuncName::Undecorated(out))
                    },
                    TypeData::Procedure(pr) => {
                        let parts = match self.dump_procedure_parts(pr, DEPTH_LIMIT) {
                            Err(e) => {
                                return Err(e);
                            },
                            Ok(p) => p,
                        };
                        let mut out = fix_return(parts.0);
                        out.append(name);
                        out.append("(");
                        out.append(parts.1.as_str());
                        out.append(")");
                        proof {
                            assert(out@ =~= spec_fix_return(parts.0@) + name@ + "("@ + parts.1@
                                + ")"@);
                        }
                        Ok(FuncName::Undecorated(out))
                    },
                    _ => Ok(FuncName::Undecorated(String::from_str(name))),
                },
            }
        }
    }
}

} // verus!
