//! Name/value pairs that accompany a request: query parameters and headers.
//!
//! The pairs are kept in the parameter set of `rincon_core`. Verus does not
//! look into that type: what a set holds is named by [`param_entries`], and
//! the functions of this module state what each call does to it.

use rincon_core::api::method::Parameters;
use vstd::prelude::*;

verus! {

/// The value of one parameter, as a mathematical value.
pub enum ParamValue {
    /// A boolean flag.
    Flag(bool),
    /// A signed number.
    Number(int),
    /// A text.
    Text(Seq<char>),
}

/// A parameter: its name and its value.
pub type ParamEntry = (Seq<char>, ParamValue);

/// The set of name/value pairs of `rincon_core`.
#[verifier::external_type_specification]
#[verifier::external_body]
pub struct ExParameters(rincon_core::api::method::Parameters);

/// The name/value pairs that a parameter set holds, in the order of insertion.
pub uninterp spec fn param_entries(params: Parameters) -> Seq<(Seq<char>, ParamValue)>;

/// The sequence without any parameter.
pub open spec fn no_entries() -> Seq<ParamEntry> {
    Seq::empty()
}

/// `entries`, followed by the flag `name` where `present` holds.
pub open spec fn with_flag_if(
    entries: Seq<ParamEntry>,
    present: bool,
    name: Seq<char>,
    value: bool,
) -> Seq<ParamEntry> {
    if present {
        entries.push((name, ParamValue::Flag(value)))
    } else {
        entries
    }
}

/// `entries`, followed by the number `name` where `present` holds.
pub open spec fn with_number_if(
    entries: Seq<ParamEntry>,
    present: bool,
    name: Seq<char>,
    value: int,
) -> Seq<ParamEntry> {
    if present {
        entries.push((name, ParamValue::Number(value)))
    } else {
        entries
    }
}

/// `entries`, followed by the text `name` where a value is given for it.
pub open spec fn with_optional_text(
    entries: Seq<ParamEntry>,
    name: Seq<char>,
    value: Option<Seq<char>>,
) -> Seq<ParamEntry> {
    match value {
        Some(v) => entries.push((name, ParamValue::Text(v))),
        None => entries,
    }
}

/// `Parameters::empty` of `rincon_core`: the set that it returns holds no
/// pair.
#[verifier::external_body]
pub(crate) fn empty_parameters() -> (params: Parameters)
    ensures
        param_entries(params) == no_entries(),
{
    Parameters::empty()
}

/// `Parameters::new` of `rincon_core`: the set that it returns holds no pair.
#[verifier::external_body]
pub(crate) fn new_parameters() -> (params: Parameters)
    ensures
        param_entries(params) == no_entries(),
{
    Parameters::new()
}

/// `Parameters::with_capacity` of `rincon_core`: the set that it returns
/// holds no pair, whatever room was asked for. The room is bounded so that
/// the allocation stays far from the largest one that a vector accepts.
#[verifier::external_body]
pub(crate) fn parameters_with_capacity(capacity: usize) -> (params: Parameters)
    requires
        capacity <= 1024,
    ensures
        param_entries(params) == no_entries(),
{
    Parameters::with_capacity(capacity)
}

/// `Parameters::insert` of `rincon_core` with a `bool` value: the pair is
/// appended behind the pairs that the set held before.
#[verifier::external_body]
pub(crate) fn insert_flag(params: &mut Parameters, name: &str, value: bool)
    ensures
        param_entries(*final(params)) == param_entries(*old(params)).push(
            (name@, ParamValue::Flag(value)),
        ),
{
    params.insert(name, value);
}

/// `Parameters::insert` of `rincon_core` with an `i32` value: the pair is
/// appended behind the pairs that the set held before.
#[verifier::external_body]
pub(crate) fn insert_number(params: &mut Parameters, name: &str, value: i32)
    ensures
        param_entries(*final(params)) == param_entries(*old(params)).push(
            (name@, ParamValue::Number(value as int)),
        ),
{
    params.insert(name, value);
}

/// `Parameters::insert` of `rincon_core` with a `String` value: the pair is
/// appended behind the pairs that the set held before.
#[verifier::external_body]
pub(crate) fn insert_text(params: &mut Parameters, name: &str, value: String)
    ensures
        param_entries(*final(params)) == param_entries(*old(params)).push(
            (name@, ParamValue::Text(value@)),
        ),
{
    params.insert(name, value);
}

} // verus!
