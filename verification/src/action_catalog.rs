//! Read-only metadata describing the actions a driver offers, for the
//! editor's action picker.

use vstd::prelude::*;

use crate::params::ParamValue;
use vstd::string::StringExecFns;

verus! {

/// The kind of value a parameter takes.
#[derive(Debug, Clone, Copy, PartialEq, Eq, Structural)]
pub enum ParamKind {
    String,
    Number,
    /// The name of an OBS scene.
    SceneRef,
    /// The name of an OBS source.
    SourceRef,
}

/// One parameter of an action.
#[derive(Debug, Clone)]
pub struct ParamDescriptor {
    pub name: String,
    pub kind: ParamKind,
    /// Name of the editor picker that proposes values, if any.
    pub picker: Option<String>,
    /// Value proposed by default, if any.
    pub default: Option<ParamValue>,
}

impl ParamDescriptor {
    /// A parameter with no picker and no default.
    pub fn new(name: &str, kind: ParamKind) -> (r: ParamDescriptor)
        ensures
            r.name@ == name@,
            r.kind == kind,
            r.picker.is_none(),
            r.default.is_none(),
    {
        ParamDescriptor { name: String::from_str(name), kind, picker: None, default: None }
    }

    /// The same parameter, with values proposed by `picker`.
    pub fn with_picker(self, picker: &str) -> (r: ParamDescriptor)
        ensures
            r.name == self.name,
            r.kind == self.kind,
            r.picker matches Some(p) && p@ == picker@,
            r.default == self.default,
    {
        ParamDescriptor { picker: Some(String::from_str(picker)), ..self }
    }

    /// The same parameter, with `value` proposed by default.
    pub fn with_default(self, value: ParamValue) -> (r: ParamDescriptor)
        ensures
            r.name == self.name,
            r.kind == self.kind,
            r.picker == self.picker,
            r.default == Some(value),
    {
        ParamDescriptor { default: Some(value), ..self }
    }
}

/// One action of a driver.
#[derive(Debug, Clone)]
pub struct ActionDescriptor {
    /// Action name as written in bindings.
    pub name: String,
    /// Human-readable label.
    pub label: String,
    pub description: Option<String>,
    pub params: Vec<ParamDescriptor>,
}

impl ActionDescriptor {
    /// An action with no description and no parameter.
    pub fn simple(name: &str, label: &str) -> (r: ActionDescriptor)
        ensures
            r.name@ == name@,
            r.label@ == label@,
            r.description.is_none(),
            r.params@.len() == 0,
    {
        ActionDescriptor { name: String::from_str(name), label: String::from_str(label), description: None, params: Vec::new() }
    }

    /// The same action, with a description.
    pub fn with_description(self, description: &str) -> (r: ActionDescriptor)
        ensures
            r.name == self.name,
            r.label == self.label,
            r.description matches Some(d) && d@ == description@,
            r.params == self.params,
    {
        ActionDescriptor { description: Some(String::from_str(description)), ..self }
    }

    /// The same action, with one more parameter after the others.
    pub fn with_param(self, param: ParamDescriptor) -> (r: ActionDescriptor)
        ensures
            r.name == self.name,
            r.label == self.label,
            r.description == self.description,
            r.params@ == self.params@.push(param),
    {
        let mut params = self.params;
        params.push(param);
        ActionDescriptor { name: self.name, label: self.label, description: self.description, params }
    }
}


/// Action `a` has name `name`, label `label` and description `description`
/// (none when `None`).
pub open spec fn describes(a: ActionDescriptor, name: Seq<char>, label: Seq<char>, description: Option<Seq<char>>) -> bool {
    &&& a.name@ == name
    &&& a.label@ == label
    &&& match (a.description, description) {
        (Some(d), Some(e)) => d@ == e,
        (None, None) => true,
        _ => false,
    }
}

} // verus!
