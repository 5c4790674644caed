//! The runtime half of the `u256` extension: the function table (one
//! constructor, four comparisons), and the evaluation bridge that applies a
//! function of the table to already-evaluated argument values.

use vstd::prelude::*;

use crate::digits::{
    construct_ok, dec_value, failed_parse_msg, matches_u256_grammar, overflow_msg, u256_bound,
};
use crate::names::{name_eq, Name};
use crate::uint256::{limbs_value, UINT256};
use crate::value::{lit_str_view, payload_of, ExtensionError, ExtensionValueWithArgs, Literal, Value};

verus! {

/// How a function is written in a policy: `f(a, b)` or `a.f(b)`.
#[derive(Debug, Clone, Copy, PartialEq, Eq, Structural)]
pub enum CallStyle {
    FunctionStyle,
    MethodStyle,
}

/// The closed set of function identities this extension ships: dispatch is
/// over this tag, so an unknown function cannot arise at runtime.
#[derive(Debug, Clone, Copy, PartialEq, Eq, Structural)]
pub enum FuncImpl {
    Construct,
    LessThan,
    LessThanOrEqual,
    GreaterThan,
    GreaterThanOrEqual,
}

/// A type as the runtime half declares it.
#[derive(Debug)]
pub enum SchemaType {
    Boolean,
    Long,
    Str,
    Extension { name: Name },
}

/// One callable operation of the extension: its name, call style, identity,
/// declared return type and declared argument types (`None` meaning "not
/// statically checked").
#[derive(Debug)]
pub struct ExtensionFunction {
    pub name: Name,
    pub style: CallStyle,
    pub implementation: FuncImpl,
    pub return_type: Option<SchemaType>,
    pub arg_types: Vec<Option<SchemaType>>,
}

/// A function is the constructor exactly when its declared return type is the
/// extension type of its own name.
pub open spec fn is_constructor_spec(f: ExtensionFunction) -> bool {
    match f.return_type {
        Some(SchemaType::Extension { name }) => name@ == f.name@,
        _ => false,
    }
}

impl ExtensionFunction {
    /// The function's name.
    pub fn name(&self) -> (r: &Name)
        ensures
            *r == self.name,
    {
        &self.name
    }

    /// Whether this function is the extension's constructor.
    pub fn is_constructor(&self) -> (r: bool)
        ensures
            r == is_constructor_spec(*self),
    {
        match &self.return_type {
            Some(SchemaType::Extension { name }) => name_eq(name, &self.name),
            _ => false,
        }
    }
}

/// The extension registry entry: a name and its ordered function table.
#[derive(Debug)]
pub struct Extension {
    pub name: Name,
    pub functions: Vec<ExtensionFunction>,
}

impl Extension {
    /// Bundles a name with its function table.
    pub fn new(name: Name, functions: Vec<ExtensionFunction>) -> (r: Extension)
        ensures
            r.name == name,
            r.functions == functions,
    {
        Extension { name, functions }
    }

    /// The extension's name.
    pub fn name(&self) -> (r: &Name)
        ensures
            *r == self.name,
    {
        &self.name
    }

    /// The ordered collection of the extension's function descriptors.
    pub fn funcs(&self) -> (r: &Vec<ExtensionFunction>)
        ensures
            r == &self.functions,
    {
        &self.functions
    }

    /// Looks a function up by exact name.
    pub fn get_func(&self, name: &Name) -> (r: Option<&ExtensionFunction>)
        ensures
            match r {
                Some(f) => exists|i: int|
                    0 <= i < self.functions@.len() && self.functions@[i] == *f && f.name@ == name@,
                None => forall|i: int|
                    0 <= i < self.functions@.len() ==> (#[trigger] self.functions@[i]).name@
                        != name@,
            },
    {
        let n = self.functions.len();
        let mut i: usize = 0;
        while i < n
            invariant
                n == self.functions@.len(),
                0 <= i <= n,
                forall|j: int| 0 <= j < i ==> (#[trigger] self.functions@[j]).name@ != name@,
            decreases n - i,
        {
            if name_eq(&self.functions[i].name, name) {
                return Some(&self.functions[i]);
            }
            i = i + 1;
        }
        None
    }
}

/// Wraps a message into the extension-scoped runtime error, attaching this
/// extension's name.
pub fn extension_err(msg: String) -> (r: ExtensionError)
    ensures
        r.extension_name@ == "u256"@,
        r.msg == msg,
{
    ExtensionError { extension_name: UINT256::typename(), msg }
}

/// Constructs a `u256` extension value from a string value. Accepts exactly
/// the strings of the lexical grammar that denote a number below `2^256`;
/// a grammar mismatch or an overflow comes back as the extension-scoped
/// error with the corresponding message.
pub fn uint256_from_str(arg: &Value) -> (r: Result<Value, ExtensionError>)
    requires
        arg matches Value::Lit(Literal::Str(_)),
    ensures
        construct_ok(lit_str_view(*arg)) ==> (r matches Ok(Value::ExtensionValue(ev))
            && limbs_value(ev.value) == dec_value(lit_str_view(*arg)) && ev.constructor_name@
            == "u256"@ && ev.arg_text@ == lit_str_view(*arg)),
        !matches_u256_grammar(lit_str_view(*arg)) ==> (r matches Err(e) && e.extension_name@
            == "u256"@ && e.msg@ == failed_parse_msg(lit_str_view(*arg))),
        (matches_u256_grammar(lit_str_view(*arg)) && dec_value(lit_str_view(*arg))
            >= u256_bound()) ==> (r matches Err(e) && e.extension_name@ == "u256"@ && e.msg@
            == overflow_msg()),
{
    match arg {
        Value::Lit(Literal::Str(s)) => {
            match UINT256::from_str(s.as_str()) {
                Ok(v) => Ok(
                    Value::ExtensionValue(
                        ExtensionValueWithArgs {
                            value: v,
                            constructor_name: UINT256::typename(),
                            arg_text: s.clone(),
                        },
                    ),
                ),
                Err(e) => Err(extension_err(e.message())),
            }
        },
        _ => vstd::pervasive::unreached(),
    }
}

/// Whether the first `u256` value is less than the second; comparison cannot
/// fail once both arguments are extension values.
pub fn uint256_lt(left: &Value, right: &Value) -> (r: Result<Value, ExtensionError>)
    requires
        left matches Value::ExtensionValue(_),
        right matches Value::ExtensionValue(_),
    ensures
        r matches Ok(Value::Lit(Literal::Bool(b))) && b == (payload_of(*left) < payload_of(
            *right,
        )),
{
    match (left, right) {
        (Value::ExtensionValue(l), Value::ExtensionValue(g)) => Ok(
            Value::Lit(Literal::Bool(l.value.lt(&g.value))),
        ),
        _ => vstd::pervasive::unreached(),
    }
}

/// Whether the first `u256` value is less than or equal to the second.
pub fn uint256_le(left: &Value, right: &Value) -> (r: Result<Value, ExtensionError>)
    requires
        left matches Value::ExtensionValue(_),
        right matches Value::ExtensionValue(_),
    ensures
        r matches Ok(Value::Lit(Literal::Bool(b))) && b == (payload_of(*left) <= payload_of(
            *right,
        )),
{
    match (left, right) {
        (Value::ExtensionValue(l), Value::ExtensionValue(g)) => Ok(
            Value::Lit(Literal::Bool(l.value.le(&g.value))),
        ),
        _ => vstd::pervasive::unreached(),
    }
}

/// Whether the first `u256` value is greater than the second.
pub fn uint256_gt(left: &Value, right: &Value) -> (r: Result<Value, ExtensionError>)
    requires
        left matches Value::ExtensionValue(_),
        right matches Value::ExtensionValue(_),
    ensures
        r matches Ok(Value::Lit(Literal::Bool(b))) && b == (payload_of(*left) > payload_of(
            *right,
        )),
{
    match (left, right) {
        (Value::ExtensionValue(l), Value::ExtensionValue(g)) => Ok(
            Value::Lit(Literal::Bool(l.value.gt(&g.value))),
        ),
        _ => vstd::pervasive::unreached(),
    }
}

/// Whether the first `u256` value is greater than or equal to the second.
pub fn uint256_ge(left: &Value, right: &Value) -> (r: Result<Value, ExtensionError>)
    requires
        left matches Value::ExtensionValue(_),
        right matches Value::ExtensionValue(_),
    ensures
        r matches Ok(Value::Lit(Literal::Bool(b))) && b == (payload_of(*left) >= payload_of(
            *right,
        )),
{
    match (left, right) {
        (Value::ExtensionValue(l), Value::ExtensionValue(g)) => Ok(
            Value::Lit(Literal::Bool(l.value.ge(&g.value))),
        ),
        _ => vstd::pervasive::unreached(),
    }
}

/// The argument shape each function identity expects: one string value for
/// the constructor, two extension values for a comparison.
pub open spec fn args_well_formed(imp: FuncImpl, args: Seq<Value>) -> bool {
    match imp {
        FuncImpl::Construct => args.len() == 1 && (args[0] matches Value::Lit(Literal::Str(_))),
        _ => args.len() == 2 && (args[0] matches Value::ExtensionValue(_)) && (args[1] matches Value::ExtensionValue(_)),
    }
}

/// What applying a function identity to well-formed arguments returns.
pub open spec fn call_spec(imp: FuncImpl, args: Seq<Value>, r: Result<Value, ExtensionError>) -> bool {
    match imp {
        FuncImpl::Construct => {
            &&& construct_ok(lit_str_view(args[0])) ==> (r matches Ok(Value::ExtensionValue(ev))
                && limbs_value(ev.value) == dec_value(lit_str_view(args[0]))
                && ev.constructor_name@ == "u256"@ && ev.arg_text@ == lit_str_view(args[0]))
            &&& !matches_u256_grammar(lit_str_view(args[0])) ==> (r matches Err(e)
                && e.extension_name@ == "u256"@ && e.msg@ == failed_parse_msg(lit_str_view(args[0])))
            &&& (matches_u256_grammar(lit_str_view(args[0])) && dec_value(lit_str_view(args[0]))
                >= u256_bound()) ==> (r matches Err(e) && e.extension_name@ == "u256"@
                && e.msg@ == overflow_msg())
        },
        FuncImpl::LessThan => r matches Ok(Value::Lit(Literal::Bool(b))) && b == (payload_of(
            args[0],
        ) < payload_of(args[1])),
        FuncImpl::LessThanOrEqual => r matches Ok(Value::Lit(Literal::Bool(b))) && b == (payload_of(
            args[0],
        ) <= payload_of(args[1])),
        FuncImpl::GreaterThan => r matches Ok(Value::Lit(Literal::Bool(b))) && b == (payload_of(
            args[0],
        ) > payload_of(args[1])),
        FuncImpl::GreaterThanOrEqual => r matches Ok(Value::Lit(Literal::Bool(b))) && b == (
        payload_of(args[0]) >= payload_of(args[1])),
    }
}

impl ExtensionFunction {
    /// The evaluation bridge at the descriptor: applies this function to the
    /// already-evaluated arguments. Construction failures propagate as the
    /// extension-scoped error; comparisons never fail at this stage.
    pub fn call(&self, args: &Vec<Value>) -> (r: Result<Value, ExtensionError>)
        requires
            args_well_formed(self.implementation, args@),
        ensures
            call_spec(self.implementation, args@, r),
    {
        match self.implementation {
            FuncImpl::Construct => uint256_from_str(&args[0]),
            FuncImpl::LessThan => uint256_lt(&args[0], &args[1]),
            FuncImpl::LessThanOrEqual => uint256_le(&args[0], &args[1]),
            FuncImpl::GreaterThan => uint256_gt(&args[0], &args[1]),
            FuncImpl::GreaterThanOrEqual => uint256_ge(&args[0], &args[1]),
        }
    }
}

impl Extension {
    /// The evaluation bridge at the registry entry: locates the function by
    /// exact name and applies it. A caller must already have established that
    /// the name exists; a miss is an internal invariant violation, not a
    /// user-facing error.
    pub fn call_function(&self, fname: &Name, args: &Vec<Value>) -> (r: Result<
        Value,
        ExtensionError,
    >)
        requires
            exists|i: int|
                0 <= i < self.functions@.len() && (#[trigger] self.functions@[i]).name@ == fname@,
            forall|i: int|
                (0 <= i < self.functions@.len() && (#[trigger] self.functions@[i]).name@ == fname@)
                    ==> args_well_formed(self.functions@[i].implementation, args@),
        ensures
            exists|i: int|
                0 <= i < self.functions@.len() && (#[trigger] self.functions@[i]).name@ == fname@
                    && call_spec(self.functions@[i].implementation, args@, r),
    {
        match self.get_func(fname) {
            Some(f) => {
                let r = f.call(args);
                proof {
                    let i = choose|i: int|
                        0 <= i < self.functions@.len() && self.functions@[i] == *f && f.name@
                            == fname@;
                    assert(call_spec(self.functions@[i].implementation, args@, r));
                }
                r
            },
            None => vstd::pervasive::unreached(),
        }
    }
}

/// The names of the four comparison functions.
pub open spec fn is_comparison_name(s: Seq<char>) -> bool {
    ||| s == "u256LessThan"@
    ||| s == "u256LessThanOrEqual"@
    ||| s == "u256GreaterThan"@
    ||| s == "u256GreaterThanOrEqual"@
}

/// The constructor's descriptor: function style, one string argument, and
/// the extension's own type as return type.
pub open spec fn constructor_descriptor(f: ExtensionFunction) -> bool {
    &&& f.name@ == "u256"@
    &&& f.style == CallStyle::FunctionStyle
    &&& f.implementation == FuncImpl::Construct
    &&& match f.return_type {
        Some(SchemaType::Extension { name }) => name@ == "u256"@,
        _ => false,
    }
    &&& f.arg_types@.len() == 1
    &&& f.arg_types@[0] matches Some(SchemaType::Str)
}

/// A comparison's descriptor: method style, two `u256` arguments, boolean
/// return type.
pub open spec fn comparison_descriptor(f: ExtensionFunction, fname: Seq<char>, imp: FuncImpl) -> bool {
    &&& f.name@ == fname
    &&& f.style == CallStyle::MethodStyle
    &&& f.implementation == imp
    &&& f.return_type matches Some(SchemaType::Boolean)
    &&& f.arg_types@.len() == 2
    &&& match f.arg_types@[0] {
        Some(SchemaType::Extension { name }) => name@ == "u256"@,
        _ => false,
    }
    &&& match f.arg_types@[1] {
        Some(SchemaType::Extension { name }) => name@ == "u256"@,
        _ => false,
    }
}

/// The shape of the shipped `u256` extension: its name and its five
/// functions, in order.
pub open spec fn u256_extension_wf(e: Extension) -> bool {
    &&& e.name@ == "u256"@
    &&& e.functions@.len() == 5
    &&& constructor_descriptor(e.functions@[0])
    &&& comparison_descriptor(e.functions@[1], "u256LessThan"@, FuncImpl::LessThan)
    &&& comparison_descriptor(e.functions@[2], "u256LessThanOrEqual"@, FuncImpl::LessThanOrEqual)
    &&& comparison_descriptor(e.functions@[3], "u256GreaterThan"@, FuncImpl::GreaterThan)
    &&& comparison_descriptor(e.functions@[4], "u256GreaterThanOrEqual"@, FuncImpl::GreaterThanOrEqual)
}

/// One argument slot, statically checked against the given type.
fn unary_arg_types(t: SchemaType) -> (r: Vec<Option<SchemaType>>)
    ensures
        r@.len() == 1,
        r@[0] == Some(t),
{
    let mut v: Vec<Option<SchemaType>> = Vec::new();
    v.push(Some(t));
    v
}

/// Two argument slots, statically checked against the given types.
fn binary_arg_types(t0: SchemaType, t1: SchemaType) -> (r: Vec<Option<SchemaType>>)
    ensures
        r@.len() == 2,
        r@[0] == Some(t0),
        r@[1] == Some(t1),
{
    let mut v: Vec<Option<SchemaType>> = Vec::new();
    v.push(Some(t0));
    v.push(Some(t1));
    v
}

/// The `u256` extension type as a declared schema type.
fn uint256_schema_type() -> (r: SchemaType)
    ensures
        match r {
            SchemaType::Extension { name } => name@ == "u256"@,
            _ => false,
        },
{
    SchemaType::Extension { name: UINT256::typename() }
}

/// Constructs the `u256` extension: the constructor and the four comparison
/// functions, under their registered names, in a fixed order.
pub fn extension() -> (r: Extension)
    ensures
        u256_extension_wf(r),
{
    let mut functions: Vec<ExtensionFunction> = Vec::new();
    functions.push(
        ExtensionFunction {
            name: Name::of_str("u256"),
            style: CallStyle::FunctionStyle,
            implementation: FuncImpl::Construct,
            return_type: Some(uint256_schema_type()),
            arg_types: unary_arg_types(SchemaType::Str),
        },
    );
    functions.push(
        ExtensionFunction {
            name: Name::of_str("u256LessThan"),
            style: CallStyle::MethodStyle,
            implementation: FuncImpl::LessThan,
            return_type: Some(SchemaType::Boolean),
            arg_types: binary_arg_types(uint256_schema_type(), uint256_schema_type()),
        },
    );
    functions.push(
        ExtensionFunction {
            name: Name::of_str("u256LessThanOrEqual"),
            style: CallStyle::MethodStyle,
            implementation: FuncImpl::LessThanOrEqual,
            return_type: Some(SchemaType::Boolean),
            arg_types: binary_arg_types(uint256_schema_type(), uint256_schema_type()),
        },
    );
    functions.push(
        ExtensionFunction {
            name: Name::of_str("u256GreaterThan"),
            style: CallStyle::MethodStyle,
            implementation: FuncImpl::GreaterThan,
            return_type: Some(SchemaType::Boolean),
            arg_types: binary_arg_types(uint256_schema_type(), uint256_schema_type()),
        },
    );
    functions.push(
        ExtensionFunction {
            name: Name::of_str("u256GreaterThanOrEqual"),
            style: CallStyle::MethodStyle,
            implementation: FuncImpl::GreaterThanOrEqual,
            return_type: Some(SchemaType::Boolean),
            arg_types: binary_arg_types(uint256_schema_type(), uint256_schema_type()),
        },
    );
    Extension::new(UINT256::typename(), functions)
}

/// Exactly one function of the shipped extension is a constructor: the one
/// that bears the extension's own name.
pub proof fn lemma_single_constructor(e: Extension)
    requires
        u256_extension_wf(e),
    ensures
        is_constructor_spec(e.functions@[0]),
        forall|i: int| 1 <= i < 5 ==> !is_constructor_spec(#[trigger] e.functions@[i]),
{
}

} // verus!
