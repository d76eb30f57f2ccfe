//! The variable store: three tiers of named values.
use std::collections::HashMap;
use vstd::prelude::*;
use crate::value::Value;

verus! {

broadcast use vstd::std_specs::hash::group_hash_axioms;

/// The variable store of a running machine.
///
/// Global variables are keyed by the variable alone. Instance variables are
/// keyed by the variable and the object instance that owns it, local
/// variables by the variable and the code object that owns it; both are held
/// owner first, so that all the variables of one owner can be dropped at
/// once.
#[derive(Debug, Clone)]
pub struct Variables {
    /// Global variables: variable index to value.
    pub globals: HashMap<usize, Value>,
    /// Instance variables: object index to variable index to value.
    pub instances: HashMap<usize, HashMap<usize, Value>>,
    /// Local variables: code index to variable index to value. The entries of
    /// a code object are dropped when its outermost invocation ends.
    pub locals: HashMap<usize, HashMap<usize, Value>>,
}

/// The variable store as three mathematical maps.
pub struct VariablesView {
    /// Global variables, by variable index.
    pub globals: Map<usize, Value>,
    /// Instance variables, by variable index and object index.
    pub instances: Map<(usize, usize), Value>,
    /// Local variables, by variable index and code index.
    pub locals: Map<(usize, usize), Value>,
}

/// The map from (variable, owner) to value that a tier held owner first
/// stands for.
pub open spec fn tier_view(tier: HashMap<usize, HashMap<usize, Value>>) -> Map<
    (usize, usize),
    Value,
> {
    Map::new(
        |key: (usize, usize)| tier@.contains_key(key.1) && tier@[key.1]@.contains_key(key.0),
        |key: (usize, usize)| tier@[key.1]@[key.0],
    )
}

/// `tier` without the variables of `owner`.
pub open spec fn without_owner(tier: Map<(usize, usize), Value>, owner: usize) -> Map<
    (usize, usize),
    Value,
> {
    Map::new(
        |key: (usize, usize)| tier.contains_key(key) && key.1 != owner,
        |key: (usize, usize)| tier[key],
    )
}

impl View for Variables {
    type V = VariablesView;

    open spec fn view(&self) -> VariablesView {
        VariablesView {
            globals: self.globals@,
            instances: tier_view(self.instances),
            locals: tier_view(self.locals),
        }
    }
}

fn tier_get(tier: &HashMap<usize, HashMap<usize, Value>>, variable: usize, owner: usize) -> (found:
    Option<Value>)
    ensures
        found == (if tier_view(*tier).contains_key((variable, owner)) {
            Some(tier_view(*tier)[(variable, owner)])
        } else {
            None
        }),
{
    match tier.get(&owner) {
        Some(inner) => match inner.get(&variable) {
            Some(value) => Some(*value),
            None => None,
        },
        None => None,
    }
}

fn tier_set(
    tier: &mut HashMap<usize, HashMap<usize, Value>>,
    variable: usize,
    owner: usize,
    value: Value,
)
    ensures
        tier_view(*final(tier)) == tier_view(*old(tier)).insert((variable, owner), value),
{
    let mut inner: HashMap<usize, Value> = match tier.remove(&owner) {
        Some(inner) => inner,
        None => HashMap::new(),
    };
    inner.insert(variable, value);
    tier.insert(owner, inner);
    assert(tier_view(*tier) =~= tier_view(*old(tier)).insert((variable, owner), value));
}

fn tier_clear(tier: &mut HashMap<usize, HashMap<usize, Value>>, owner: usize)
    ensures
        tier_view(*final(tier)) == without_owner(tier_view(*old(tier)), owner),
{
    tier.remove(&owner);
    assert(tier_view(*tier) =~= without_owner(tier_view(*old(tier)), owner));
}

impl Variables {
    /// A store that holds no variable.
    pub fn new() -> (variables: Variables)
        ensures
            variables@.globals == Map::<usize, Value>::empty(),
            variables@.instances == Map::<(usize, usize), Value>::empty(),
            variables@.locals == Map::<(usize, usize), Value>::empty(),
    {
        let variables = Variables {
            globals: HashMap::new(),
            instances: HashMap::new(),
            locals: HashMap::new(),
        };
        assert(variables@.instances =~= Map::<(usize, usize), Value>::empty());
        assert(variables@.locals =~= Map::<(usize, usize), Value>::empty());
        variables
    }

    /// The value of the global variable `variable`, if one was stored.
    pub fn global(&self, variable: usize) -> (found: Option<Value>)
        ensures
            found == (if self@.globals.contains_key(variable) {
                Some(self@.globals[variable])
            } else {
                None
            }),
    {
        match self.globals.get(&variable) {
            Some(value) => Some(*value),
            None => None,
        }
    }

    /// The value of the variable `variable` of the object instance `object`,
    /// if one was stored.
    pub fn instance(&self, variable: usize, object: usize) -> (found: Option<Value>)
        ensures
            found == (if self@.instances.contains_key((variable, object)) {
                Some(self@.instances[(variable, object)])
            } else {
                None
            }),
    {
        tier_get(&self.instances, variable, object)
    }

    /// The value of the variable `variable` local to the code object `code`,
    /// if one was stored since the code object was last left.
    pub fn local(&self, variable: usize, code: usize) -> (found: Option<Value>)
        ensures
            found == (if self@.locals.contains_key((variable, code)) {
                Some(self@.locals[(variable, code)])
            } else {
                None
            }),
    {
        tier_get(&self.locals, variable, code)
    }

    /// Stores `value` in the global variable `variable`.
    pub fn set_global(&mut self, variable: usize, value: Value)
        ensures
            final(self)@ == (VariablesView {
                globals: old(self)@.globals.insert(variable, value),
                ..old(self)@
            }),
    {
        self.globals.insert(variable, value);
    }

    /// Stores `value` in the variable `variable` of the object instance
    /// `object`.
    pub fn set_instance(&mut self, variable: usize, object: usize, value: Value)
        ensures
            final(self)@ == (VariablesView {
                instances: old(self)@.instances.insert((variable, object), value),
                ..old(self)@
            }),
    {
        tier_set(&mut self.instances, variable, object, value);
    }

    /// Stores `value` in the variable `variable` local to the code object
    /// `code`.
    pub fn set_local(&mut self, variable: usize, code: usize, value: Value)
        ensures
            final(self)@ == (VariablesView {
                locals: old(self)@.locals.insert((variable, code), value),
                ..old(self)@
            }),
    {
        tier_set(&mut self.locals, variable, code, value);
    }

    /// Drops every variable local to the code object `code`.
    pub fn clear_locals(&mut self, code: usize)
        ensures
            final(self)@ == (VariablesView {
                locals: without_owner(old(self)@.locals, code),
                ..old(self)@
            }),
    {
        tier_clear(&mut self.locals, code);
    }

    /// Drops every local variable.
    pub fn clear_all_locals(&mut self)
        ensures
            final(self)@ == (VariablesView {
                locals: Map::<(usize, usize), Value>::empty(),
                ..old(self)@
            }),
    {
        self.locals.clear();
        assert(tier_view(self.locals) =~= Map::<(usize, usize), Value>::empty());
    }
}

} // verus!
