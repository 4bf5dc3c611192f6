//! Action parameter values as written in the YAML configuration.

use vstd::prelude::*;

verus! {

/// A configuration parameter value (the JSON data model). Numbers keep
/// their integer value (`UInt` for those that are not negative, `Int` for
/// the others); a number with a fractional part keeps its decimal text
/// (`Fraction("0.02")`), which the logic here never reads; objects are kept
/// by their kind only: the driver logic reads strings, integers and arrays
/// of them.
#[derive(Debug, PartialEq)]
pub enum ParamValue {
    Null,
    Bool(bool),
    Int(i64),
    UInt(u64),
    Fraction(String),
    Str(String),
    Array(Vec<ParamValue>),
    Object,
}

/// A copy of a parameter value, arrays copied element by element.
fn copy_param(v: &ParamValue) -> (r: ParamValue)
    ensures
        !(v is Array) ==> r == *v,
        v is Array <==> r is Array,
    decreases v,
{
    match v {
        ParamValue::Null => ParamValue::Null,
        ParamValue::Bool(b) => ParamValue::Bool(*b),
        ParamValue::Int(i) => ParamValue::Int(*i),
        ParamValue::UInt(u) => ParamValue::UInt(*u),
        ParamValue::Fraction(t) => ParamValue::Fraction(t.clone()),
        ParamValue::Str(s) => ParamValue::Str(s.clone()),
        ParamValue::Array(items) => {
            let mut out: Vec<ParamValue> = Vec::new();
            let mut i: usize = 0;
            while i < items.len()
                invariant
                    i <= items@.len(),
                    *v == ParamValue::Array(*items),
                decreases items.len() - i,
            {
                let ghost w = *v;
                assert(decreases_to!(w => w->Array_0));
                assert(decreases_to!(w->Array_0 => w->Array_0@));
                assert(decreases_to!(w->Array_0@ => w->Array_0@[i as int]));
                out.push(copy_param(&items[i]));
                i = i + 1;
            }
            ParamValue::Array(out)
        },
        ParamValue::Object => ParamValue::Object,
    }
}

impl Clone for ParamValue {
    fn clone(&self) -> (r: ParamValue)
        ensures
            !(*self is Array) ==> r == *self,
    {
        copy_param(self)
    }
}

/// The text of a string parameter.
pub open spec fn param_str(v: ParamValue) -> Option<Seq<char>> {
    match v {
        ParamValue::Str(s) => Some(s@),
        _ => None,
    }
}

impl ParamValue {
    /// The text of a string parameter, `None` for any other kind
    /// (`serde_json::Value::as_str`).
    pub fn as_str(&self) -> (r: Option<&str>)
        ensures
            r.is_some() == param_str(*self).is_some(),
            r matches Some(s) ==> Some(s@) == param_str(*self),
    {
        match self {
            ParamValue::Str(s) => Some(s.as_str()),
            _ => None,
        }
    }
}

/// The first parameter's text, if the first parameter is a string.
pub open spec fn first_str(params: Seq<ParamValue>) -> Option<Seq<char>> {
    if params.len() > 0 {
        param_str(params[0])
    } else {
        None
    }
}

} // verus!
