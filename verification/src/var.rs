//! Variable names and occurrences.
//!
//! A free variable carries a stable identity: either a user-written name, an
//! anonymous binder placeholder, or a generated identity used while checking
//! under binders. A bound variable is identified purely by its binding depth
//! (the number of binders between the occurrence and its binder); the name it
//! carries is a cosmetic hint that never takes part in equality.

use vstd::prelude::*;

verus! {

/// Mathematical model of a [`Name`].
pub enum NameV {
    /// A name written by the user.
    User(Seq<char>),
    /// An anonymous placeholder, e.g. the parameter of a non-dependent
    /// function type.
    Abstract,
    /// A generated identity, used for the fresh variables that checking
    /// introduces when it moves under a binder.
    Gen(nat),
}

/// The identity of a free variable, or the cosmetic hint of a bound one.
#[derive(Debug)]
pub enum Name {
    /// A name written by the user.
    User(String),
    /// An anonymous placeholder.
    Abstract,
    /// A generated identity. Identities made during one checking session are
    /// distinct from each other and can never collide with a user name.
    Gen(u64),
}

impl View for Name {
    type V = NameV;

    open spec fn view(&self) -> NameV {
        match self {
            Name::User(s) => NameV::User(s@),
            Name::Abstract => NameV::Abstract,
            Name::Gen(i) => NameV::Gen(*i as nat),
        }
    }
}

impl Name {
    /// Make a name from a user-written identifier.
    pub fn user(s: &str) -> (r: Name)
        ensures
            r@ == NameV::User(s@),
    {
        Name::User(s.to_owned())
    }
}

impl Clone for Name {
    fn clone(&self) -> (r: Self)
        ensures
            r == *self,
    {
        match self {
            Name::User(s) => Name::User(s.clone()),
            Name::Abstract => Name::Abstract,
            Name::Gen(i) => Name::Gen(*i),
        }
    }
}

/// Decide whether two names are the same identity.
pub fn name_eq(a: &Name, b: &Name) -> (r: bool)
    ensures
        r == (a@ == b@),
{
    match a {
        Name::User(x) => match b {
            Name::User(y) => x.eq(y),
            _ => false,
        },
        Name::Abstract => match b {
            Name::Abstract => true,
            _ => false,
        },
        Name::Gen(i) => match b {
            Name::Gen(j) => i == j,
            _ => false,
        },
    }
}

/// A binding depth: 0 refers to the innermost enclosing binder.
#[derive(Debug, Clone, Copy, PartialEq, Eq, Structural)]
pub struct Debruijn(pub u32);

/// A binder name paired with a payload, such as the binder's type
/// annotation, or the depth of a bound occurrence.
#[derive(Debug)]
pub struct Named<T>(pub Name, pub T);

/// Mathematical model of a [`Var`].
pub enum VarV {
    /// A variable bound outside the term, identified by name.
    Free(NameV),
    /// A variable bound inside the term, identified by depth; the name is a
    /// cosmetic hint.
    Bound(NameV, nat),
}

/// A variable occurrence.
#[derive(Debug)]
pub enum Var {
    /// A variable bound outside the term.
    Free(Name),
    /// A variable bound inside the term, by the binder `depth` binders out
    /// from the occurrence.
    Bound(Named<Debruijn>),
}

impl View for Var {
    type V = VarV;

    open spec fn view(&self) -> VarV {
        match self {
            Var::Free(n) => VarV::Free(n@),
            Var::Bound(nd) => VarV::Bound(nd.0@, nd.1.0 as nat),
        }
    }
}

impl Clone for Var {
    fn clone(&self) -> (r: Self)
        ensures
            r == *self,
    {
        match self {
            Var::Free(n) => Var::Free(n.clone()),
            Var::Bound(nd) => Var::Bound(Named(nd.0.clone(), nd.1)),
        }
    }
}

/// Erase the cosmetic hint of a bound occurrence. Free identities are kept:
/// they are significant for equality.
pub open spec fn strip_var(v: VarV) -> VarV {
    match v {
        VarV::Free(n) => VarV::Free(n),
        VarV::Bound(_, k) => VarV::Bound(NameV::Abstract, k),
    }
}

/// Decide alpha-equality of two variable occurrences: free variables by
/// identity, bound variables by depth alone.
pub fn var_alpha_eq(a: &Var, b: &Var) -> (r: bool)
    ensures
        r == (strip_var(a@) == strip_var(b@)),
{
    match (a, b) {
        (Var::Free(n), Var::Free(m)) => name_eq(n, m),
        (Var::Bound(nd), Var::Bound(md)) => nd.1.0 == md.1.0,
        _ => false,
    }
}

} // verus!
