//! The static half of the `u256` extension: the validator-side schema that
//! mirrors the runtime function signatures, derived from the runtime table by
//! name and checked against it during construction, and the extra static
//! check that re-runs the constructor on literal string arguments.

use vstd::prelude::*;

use crate::digits::construct_ok;
use crate::extension::{extension, is_comparison_name, u256_extension_wf, SchemaType};
use crate::names::{name_eq, str_equal, Name};
use crate::uint256::UINT256;
use crate::value::{Expr, Literal};

verus! {

/// A type as the validator knows it. `Never` is the bottom type, the mirror
/// of a runtime function that declares no return type.
#[derive(Debug)]
pub enum Type {
    Never,
    Boolean,
    Long,
    Str,
    Extension { name: Name },
}

/// An owned copy of a validator type.
fn type_dup(t: &Type) -> (r: Type)
    ensures
        r == *t,
{
    match t {
        Type::Never => Type::Never,
        Type::Boolean => Type::Boolean,
        Type::Long => Type::Long,
        Type::Str => Type::Str,
        Type::Extension { name } => Type::Extension { name: name.duplicate() },
    }
}

/// Consistency of a validator type with a runtime schema type: same
/// primitive, or extension types of the same name.
pub open spec fn type_consistent_spec(t: Type, s: SchemaType) -> bool {
    match (t, s) {
        (Type::Boolean, SchemaType::Boolean) => true,
        (Type::Long, SchemaType::Long) => true,
        (Type::Str, SchemaType::Str) => true,
        (Type::Extension { name: a }, SchemaType::Extension { name: b }) => a@ == b@,
        _ => false,
    }
}

/// Decides `type_consistent_spec`.
pub fn type_consistent_with(t: &Type, s: &SchemaType) -> (r: bool)
    ensures
        r == type_consistent_spec(*t, *s),
{
    match (t, s) {
        (Type::Boolean, SchemaType::Boolean) => true,
        (Type::Long, SchemaType::Long) => true,
        (Type::Str, SchemaType::Str) => true,
        (Type::Extension { name: a }, SchemaType::Extension { name: b }) => name_eq(a, b),
        _ => false,
    }
}

/// The extra static checks a mirror entry can carry; only the constructor
/// carries one.
#[derive(Debug, Clone, Copy, PartialEq, Eq, Structural)]
pub enum ArgumentCheck {
    ValidateU256String,
}

/// The validator-side signature of one extension function: static argument
/// types, static return type, and the optional extra static check.
#[derive(Debug)]
pub struct ExtensionFunctionType {
    pub name: Name,
    pub argument_types: Vec<Type>,
    pub return_type: Type,
    pub check: Option<ArgumentCheck>,
}

/// The validator-side mirror of an extension: its name and the signatures of
/// its functions.
#[derive(Debug)]
pub struct ExtensionSchema {
    pub name: Name,
    pub function_types: Vec<ExtensionFunctionType>,
}

/// The two halves of the extension have drifted out of sync: an unrecognized
/// function name reached the mirror's dispatch, or a computed signature
/// disagrees with the runtime declaration. Either aborts construction of the
/// mirror; it is a startup-time defect, never a request-time error.
#[derive(Debug)]
pub enum SchemaDriftError {
    UnknownFunction(String),
    InconsistentSignature(String),
}

/// The five registered function names have five different lengths, so no two
/// of them are equal.
proof fn lemma_function_names()
    ensures
        "u256"@.len() == 4,
        "u256LessThan"@.len() == 12,
        "u256LessThanOrEqual"@.len() == 19,
        "u256GreaterThan"@.len() == 15,
        "u256GreaterThanOrEqual"@.len() == 22,
{
    reveal_strlit("u256");
    reveal_strlit("u256LessThan");
    reveal_strlit("u256LessThanOrEqual");
    reveal_strlit("u256GreaterThan");
    reveal_strlit("u256GreaterThanOrEqual");
}

/// Static argument types of a function, dispatched by name over the known
/// function set: the constructor takes one string, a comparison takes two
/// `u256` values; any other name signals drift.
pub fn get_argument_types(fname: &str, u256_ty: &Type) -> (r: Result<Vec<Type>, SchemaDriftError>)
    ensures
        fname@ == "u256"@ ==> (r matches Ok(v) && v@.len() == 1 && (v@[0] matches Type::Str)),
        is_comparison_name(fname@) ==> (r matches Ok(v) && v@.len() == 2 && v@[0] == *u256_ty
            && v@[1] == *u256_ty),
        !(fname@ == "u256"@ || is_comparison_name(fname@)) ==> (r matches Err(
            SchemaDriftError::UnknownFunction(n),
        ) && n@ == fname@),
{
    proof {
        lemma_function_names();
    }
    if str_equal(fname, "u256") {
        let mut v: Vec<Type> = Vec::new();
        v.push(Type::Str);
        Ok(v)
    } else if str_equal(fname, "u256LessThan") || str_equal(fname, "u256LessThanOrEqual")
        || str_equal(fname, "u256GreaterThan") || str_equal(fname, "u256GreaterThanOrEqual") {
        let mut v: Vec<Type> = Vec::new();
        v.push(type_dup(u256_ty));
        v.push(type_dup(u256_ty));
        Ok(v)
    } else {
        Err(SchemaDriftError::UnknownFunction(fname.to_owned()))
    }
}

/// Static return type of a function, dispatched by name over the known
/// function set: the constructor returns the `u256` type, a comparison
/// returns boolean; any other name signals drift.
pub fn get_return_type(fname: &str, u256_ty: &Type) -> (r: Result<Type, SchemaDriftError>)
    ensures
        fname@ == "u256"@ ==> (r matches Ok(t) && t == *u256_ty),
        is_comparison_name(fname@) ==> (r matches Ok(Type::Boolean)),
        !(fname@ == "u256"@ || is_comparison_name(fname@)) ==> (r matches Err(
            SchemaDriftError::UnknownFunction(n),
        ) && n@ == fname@),
{
    proof {
        lemma_function_names();
    }
    if str_equal(fname, "u256") {
        Ok(type_dup(u256_ty))
    } else if str_equal(fname, "u256LessThan") || str_equal(fname, "u256LessThanOrEqual")
        || str_equal(fname, "u256GreaterThan") || str_equal(fname, "u256GreaterThanOrEqual") {
        Ok(Type::Boolean)
    } else {
        Err(SchemaDriftError::UnknownFunction(fname.to_owned()))
    }
}

/// The optional extra static check of a function, dispatched by name over
/// the known function set: only the constructor carries one; any other name
/// signals drift.
pub fn get_argument_check(fname: &str) -> (r: Result<Option<ArgumentCheck>, SchemaDriftError>)
    ensures
        fname@ == "u256"@ ==> (r matches Ok(Some(ArgumentCheck::ValidateU256String))),
        is_comparison_name(fname@) ==> (r matches Ok(None::<ArgumentCheck>)),
        !(fname@ == "u256"@ || is_comparison_name(fname@)) ==> (r matches Err(
            SchemaDriftError::UnknownFunction(n),
        ) && n@ == fname@),
{
    proof {
        lemma_function_names();
    }
    if str_equal(fname, "u256") {
        Ok(Some(ArgumentCheck::ValidateU256String))
    } else if str_equal(fname, "u256LessThan") || str_equal(fname, "u256LessThanOrEqual")
        || str_equal(fname, "u256GreaterThan") || str_equal(fname, "u256GreaterThanOrEqual") {
        Ok(None)
    } else {
        Err(SchemaDriftError::UnknownFunction(fname.to_owned()))
    }
}

/// The mirror entry of the constructor.
pub open spec fn mirror_constructor_entry(e: ExtensionFunctionType) -> bool {
    &&& e.name@ == "u256"@
    &&& e.argument_types@.len() == 1
    &&& e.argument_types@[0] matches Type::Str
    &&& match e.return_type {
        Type::Extension { name } => name@ == "u256"@,
        _ => false,
    }
    &&& e.check matches Some(ArgumentCheck::ValidateU256String)
}

/// The mirror entry of a comparison function.
pub open spec fn mirror_comparison_entry(e: ExtensionFunctionType, fname: Seq<char>) -> bool {
    &&& e.name@ == fname
    &&& e.argument_types@.len() == 2
    &&& match e.argument_types@[0] {
        Type::Extension { name } => name@ == "u256"@,
        _ => false,
    }
    &&& match e.argument_types@[1] {
        Type::Extension { name } => name@ == "u256"@,
        _ => false,
    }
    &&& e.return_type matches Type::Boolean
    &&& e.check is None
}

/// The shape of the shipped mirror: the same five function names as the
/// runtime table, in the same order, with their static signatures.
pub open spec fn u256_schema_wf(s: ExtensionSchema) -> bool {
    &&& s.name@ == "u256"@
    &&& s.function_types@.len() == 5
    &&& mirror_constructor_entry(s.function_types@[0])
    &&& mirror_comparison_entry(s.function_types@[1], "u256LessThan"@)
    &&& mirror_comparison_entry(s.function_types@[2], "u256LessThanOrEqual"@)
    &&& mirror_comparison_entry(s.function_types@[3], "u256GreaterThan"@)
    &&& mirror_comparison_entry(s.function_types@[4], "u256GreaterThanOrEqual"@)
}

/// Constructs the validator-side mirror of the runtime `u256` extension:
/// a pure, one-shot transform of the runtime table, deriving each static
/// signature from the function name and checking it against the runtime
/// declaration. For the shipped function set construction always succeeds;
/// a drift error aborts construction immediately and can only arise if the
/// two halves of the extension go out of sync.
pub fn extension_schema() -> (r: Result<ExtensionSchema, SchemaDriftError>)
    ensures
        r matches Ok(s) && u256_schema_wf(s),
{
    proof {
        lemma_function_names();
    }
    let ext = extension();
    let u256_ty = Type::Extension { name: ext.name().duplicate() };
    let mut fun_tys: Vec<ExtensionFunctionType> = Vec::new();
    let n = ext.functions.len();
    let mut i: usize = 0;
    while i < n
        invariant
            u256_extension_wf(ext),
            n == 5,
            0 <= i <= n,
            (match u256_ty {
                Type::Extension { name } => name@ == "u256"@,
                _ => false,
            }),
            fun_tys@.len() == i,
            i >= 1 ==> mirror_constructor_entry(fun_tys@[0]),
            i >= 2 ==> mirror_comparison_entry(fun_tys@[1], "u256LessThan"@),
            i >= 3 ==> mirror_comparison_entry(fun_tys@[2], "u256LessThanOrEqual"@),
            i >= 4 ==> mirror_comparison_entry(fun_tys@[3], "u256GreaterThan"@),
            i >= 5 ==> mirror_comparison_entry(fun_tys@[4], "u256GreaterThanOrEqual"@),
        decreases n - i,
    {
        proof {
            reveal_strlit("u256");
            reveal_strlit("u256LessThan");
            reveal_strlit("u256LessThanOrEqual");
            reveal_strlit("u256GreaterThan");
            reveal_strlit("u256GreaterThanOrEqual");
        }
        let f = &ext.functions[i];
        let fname = f.name.as_str();
        let return_type = match get_return_type(fname, &u256_ty) {
            Ok(t) => t,
            Err(e) => {
                return Err(e);
            },
        };
        let consistent = match &f.return_type {
            Some(rt) => type_consistent_with(&return_type, rt),
            None => matches!(return_type, Type::Never),
        };
        if !consistent {
            return Err(SchemaDriftError::InconsistentSignature(fname.to_owned()));
        }
        let argument_types = match get_argument_types(fname, &u256_ty) {
            Ok(v) => v,
            Err(e) => {
                return Err(e);
            },
        };
        let check = match get_argument_check(fname) {
            Ok(c) => c,
            Err(e) => {
                return Err(e);
            },
        };
        fun_tys.push(
            ExtensionFunctionType {
                name: f.name.duplicate(),
                argument_types,
                return_type,
                check,
            },
        );
        i = i + 1;
    }
    Ok(ExtensionSchema { name: ext.name().duplicate(), function_types: fun_tys })
}

/// The first argument is a string literal.
pub open spec fn first_arg_literal_string(exprs: Seq<Expr>) -> bool {
    exprs.len() > 0 && (exprs[0] matches Expr::Lit(Literal::Str(_)))
}

/// The text of a leading string-literal argument; empty otherwise, which no
/// contract reaches.
pub open spec fn first_arg_text(exprs: Seq<Expr>) -> Seq<char> {
    if exprs.len() > 0 {
        match exprs[0] {
            Expr::Lit(Literal::Str(s)) => s@,
            _ => Seq::empty(),
        }
    } else {
        Seq::empty()
    }
}

/// When the static check passes: always, unless the first argument is a
/// string literal from which construction would fail at runtime.
pub open spec fn static_check_accepts(exprs: Seq<Expr>) -> bool {
    !first_arg_literal_string(exprs) || construct_ok(first_arg_text(exprs))
}

/// The diagnostic of a failed static check, naming the offending literal.
pub open spec fn static_check_msg(s: Seq<char>) -> Seq<char> {
    "Failed to parse as a u256 value: `\""@ + s + "\"`"@
}

/// The extra static check of the constructor: if and only if the argument
/// expression is a literal string, re-run the runtime constructor against it
/// and turn a construction failure into a static validation error naming the
/// literal; a non-literal argument is skipped, deferring any failure to
/// evaluation time. The argument count has been checked before this point.
pub fn validate_u256_string(exprs: &Vec<Expr>) -> (r: Result<(), String>)
    ensures
        (r is Ok) <==> static_check_accepts(exprs@),
        !static_check_accepts(exprs@) ==> (r matches Err(m) && m@ == static_check_msg(
            first_arg_text(exprs@),
        )),
{
    if exprs.len() == 0 {
        return Ok(());
    }
    match &exprs[0] {
        Expr::Lit(Literal::Str(s)) => {
            match UINT256::from_str(s.as_str()) {
                Ok(_) => Ok(()),
                Err(_) => {
                    let mut m = String::from_str("Failed to parse as a u256 value: `\"");
                    m.append(s.as_str());
                    m.append("\"`");
                    Err(m)
                },
            }
        },
        _ => Ok(()),
    }
}

impl ExtensionFunctionType {
    /// Runs this entry's extra static check, if it carries one, against the
    /// unevaluated argument expressions; an entry without a check accepts
    /// everything.
    pub fn static_check(&self, args: &Vec<Expr>) -> (r: Result<(), String>)
        ensures
            match self.check {
                Some(ArgumentCheck::ValidateU256String) => ((r is Ok) <==> static_check_accepts(
                    args@,
                )) && (!static_check_accepts(args@) ==> (r matches Err(m) && m@ == static_check_msg(
                    first_arg_text(args@),
                ))),
                None => r is Ok,
            },
    {
        match &self.check {
            Some(ArgumentCheck::ValidateU256String) => validate_u256_string(args),
            None => Ok(()),
        }
    }
}

/// Static literal rejection: on a literal string argument the static check
/// accepts exactly when runtime construction succeeds, so a malformed literal
/// fails validation before evaluation is attempted; any non-literal argument
/// passes the static check and can fail only at evaluation time.
pub proof fn lemma_static_literal_rejection(e: Expr, w: Expr)
    requires
        e matches Expr::Lit(Literal::Str(_)),
        !(w matches Expr::Lit(Literal::Str(_))),
    ensures
        static_check_accepts(seq![e]) <==> construct_ok(first_arg_text(seq![e])),
        static_check_accepts(seq![w]),
{
    assert(first_arg_literal_string(seq![e]));
    assert(!first_arg_literal_string(seq![w]));
}

} // verus!
