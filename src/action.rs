use vstd::prelude::*;

use crate::common::Scalar;
use crate::utils::str_eq;

verus! {

/// An action of an order's node or edge, or an instant action.
#[derive(Clone, Debug)]
pub struct Action {
    /// What the action does, e.g. `initPosition`.
    pub action_type: String,
    /// Tells apart several actions, also of one type on one node or edge.
    pub action_id: String,
    pub action_description: Option<String>,
    /// Whether the action may run while driving or beside other actions.
    pub blocking_type: BlockingType,
    pub action_parameters: Option<Vec<ActionParameter>>,
}

/// Whether an action may run during movement and beside other actions.
#[derive(Clone, Copy, Debug, PartialEq, Eq, Structural)]
pub enum BlockingType {
    /// May run in parallel with others, movement included (`NONE` on the wire).
    NonBlocking,
    /// May run beside other actions, but not while moving.
    Soft,
    /// Nothing else may run meanwhile.
    Hard,
}

/// A key with its value.
#[derive(Clone, Debug)]
pub struct ActionParameter {
    pub key: String,
    pub value: ActionParameterValue,
}

/// The value of an action parameter: an integer, a real number, or a string.
///
/// A string value carries beside its text the real number that the text
/// reads as, where it reads as one: masters differ in whether they send
/// coordinates as numbers or as strings.
#[derive(Clone, Debug)]
pub enum ActionParameterValue {
    Int(i32),
    Float(Scalar),
    Str(String, Option<Scalar>),
}

/// The parameter that an action looks up under `key`: the first one with
/// that key.
pub open spec fn find_param(ps: Seq<ActionParameter>, key: Seq<char>) -> Option<ActionParameter>
    decreases ps.len(),
{
    if ps.len() == 0 {
        None
    } else if ps[0].key@ == key {
        Some(ps[0])
    } else {
        find_param(ps.drop_first(), key)
    }
}

/// The parameter of `a` under `key`, if `a` has parameters and one of them has that key.
pub open spec fn action_param(a: Action, key: Seq<char>) -> Option<ActionParameter> {
    match a.action_parameters {
        Some(ps) => find_param(ps@, key),
        None => None,
    }
}

/// A parameter read as a real number: a number as it is, a string as the
/// number it reads as; zero for an integer, a string that reads as no
/// number, or a missing parameter.
pub open spec fn real_param(a: Action, key: Seq<char>) -> Scalar {
    match action_param(a, key) {
        Some(p) => match p.value {
            ActionParameterValue::Float(f) => f,
            ActionParameterValue::Str(_, Some(f)) => f,
            _ => Scalar { bits: 0 },
        },
        None => Scalar { bits: 0 },
    }
}

/// A parameter read as text: a string as it is; empty for a number or a
/// missing parameter.
pub open spec fn text_param(a: Action, key: Seq<char>) -> Seq<char> {
    match action_param(a, key) {
        Some(p) => match p.value {
            ActionParameterValue::Str(s, _) => s@,
            _ => Seq::empty(),
        },
        None => Seq::empty(),
    }
}

impl Action {
    /// The parameter under `key`: the first one with that key.
    pub fn find_parameter(&self, key: &str) -> (r: Option<&ActionParameter>)
        ensures
            match r {
                Some(p) => action_param(*self, key@) == Some(*p),
                None => action_param(*self, key@) is None,
            },
    {
        match &self.action_parameters {
            None => None,
            Some(ps) => {
                let mut i: usize = 0;
                proof {
                    assert(ps@.subrange(0, ps@.len() as int) =~= ps@);
                }
                while i < ps.len()
                    invariant
                        self.action_parameters == Some(*ps),
                        i <= ps@.len(),
                        find_param(ps@, key@) == find_param(ps@.subrange(i as int, ps@.len() as int), key@),
                    decreases ps.len() - i,
                {
                    proof {
                        assert(ps@.subrange(i as int, ps@.len() as int).drop_first()
                            =~= ps@.subrange(i + 1, ps@.len() as int));
                    }
                    let matches = str_eq(ps[i].key.as_str(), key);
                    if matches {
                        assert(ps@.subrange(i as int, ps@.len() as int)[0] == ps@[i as int]);
                        return Some(&ps[i]);
                    }
                    i = i + 1;
                }
                None
            },
        }
    }

    /// The parameter under `key` read as a real number (see `real_param`).
    pub fn real_parameter(&self, key: &str) -> (r: Scalar)
        ensures
            r == real_param(*self, key@),
    {
        match self.find_parameter(key) {
            Some(p) => match &p.value {
                ActionParameterValue::Float(f) => *f,
                ActionParameterValue::Str(_, Some(f)) => *f,
                _ => Scalar::zero(),
            },
            None => Scalar::zero(),
        }
    }

    /// The parameter under `key` read as text (see `text_param`).
    pub fn text_parameter(&self, key: &str) -> (r: String)
        ensures
            r@ == text_param(*self, key@),
    {
        match self.find_parameter(key) {
            Some(p) => match &p.value {
                ActionParameterValue::Str(s, _) => s.clone(),
                _ => String::new(),
            },
            None => String::new(),
        }
    }
}

} // verus!
