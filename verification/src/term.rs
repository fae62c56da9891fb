//! The core term language and the semantic values it evaluates to.
//!
//! Core terms are produced by translating the concrete syntax: every name
//! occurrence has been resolved to either a bound reference (with its binding
//! depth) or a free reference. Values are the results of evaluation: the same
//! shape minus ascriptions, with all reducible applications reduced.
//!
//! Both trees are immutable and reference-counted, so subtrees are freely
//! shared. Equality on both is structural up to alpha-equivalence: cosmetic
//! binder hints never take part.

use std::rc::Rc;
use vstd::prelude::*;

use crate::var::{strip_var, var_alpha_eq, Name, NameV, Named, Var, VarV};

verus! {

/// Mathematical model of a core [`Term`].
pub enum TermV {
    /// A variable occurrence.
    Var(VarV),
    /// The type of types.
    Type,
    /// A term ascribed a type.
    Ann(Box<TermV>, Box<TermV>),
    /// A function: binder hint, optional parameter type, body.
    Lam(NameV, Option<Box<TermV>>, Box<TermV>),
    /// A dependent function type: binder hint, parameter type, result type.
    Pi(NameV, Box<TermV>, Box<TermV>),
    /// An application.
    App(Box<TermV>, Box<TermV>),
}

/// Mathematical model of a [`Value`].
pub enum ValueV {
    /// A neutral variable occurrence.
    Var(VarV),
    /// The type of types.
    Type,
    /// A function value: binder hint, optional parameter type, body.
    Lam(NameV, Option<Box<ValueV>>, Box<ValueV>),
    /// A dependent function type: binder hint, parameter type, result type.
    Pi(NameV, Box<ValueV>, Box<ValueV>),
    /// A neutral application, stuck on an unresolved head.
    App(Box<ValueV>, Box<ValueV>),
}

/// A shared, immutable core term.
#[derive(Debug)]
pub struct RcTerm(pub Rc<Term>);

/// The core abstract syntax, after name resolution.
#[derive(Debug)]
pub enum Term {
    /// A variable occurrence.
    Var(Var),
    /// The type of types.
    Type,
    /// A term ascribed a type.
    Ann(RcTerm, RcTerm),
    /// A function with an optionally annotated parameter.
    Lam(Named<Option<RcTerm>>, RcTerm),
    /// A dependent function type.
    Pi(Named<RcTerm>, RcTerm),
    /// An application.
    App(RcTerm, RcTerm),
}

/// A shared, immutable semantic value.
#[derive(Debug)]
pub struct RcValue(pub Rc<Value>);

/// The result of evaluating a core term. Ascriptions are erased, and every
/// application whose head reduced to a function has been reduced.
#[derive(Debug)]
pub enum Value {
    /// A neutral variable.
    Var(Var),
    /// The type of types.
    Type,
    /// A function value.
    Lam(Named<Option<RcValue>>, RcValue),
    /// A dependent function type.
    Pi(Named<RcValue>, RcValue),
    /// A neutral application.
    App(RcValue, RcValue),
}

impl View for RcTerm {
    type V = TermV;

    open spec fn view(&self) -> TermV
        decreases self,
    {
        (*self.0)@
    }
}

impl View for Term {
    type V = TermV;

    open spec fn view(&self) -> TermV
        decreases self,
    {
        match self {
            Term::Var(v) => TermV::Var(v@),
            Term::Type => TermV::Type,
            Term::Ann(e, t) => TermV::Ann(Box::new(e@), Box::new(t@)),
            Term::Lam(nd, body) => TermV::Lam(
                nd.0@,
                match &nd.1 {
                    Some(t) => Some(Box::new(t@)),
                    None => None,
                },
                Box::new(body@),
            ),
            Term::Pi(nd, body) => TermV::Pi(nd.0@, Box::new(nd.1@), Box::new(body@)),
            Term::App(f, a) => TermV::App(Box::new(f@), Box::new(a@)),
        }
    }
}

impl View for RcValue {
    type V = ValueV;

    open spec fn view(&self) -> ValueV
        decreases self,
    {
        (*self.0)@
    }
}

impl View for Value {
    type V = ValueV;

    open spec fn view(&self) -> ValueV
        decreases self,
    {
        match self {
            Value::Var(v) => ValueV::Var(v@),
            Value::Type => ValueV::Type,
            Value::Lam(nd, body) => ValueV::Lam(
                nd.0@,
                match &nd.1 {
                    Some(t) => Some(Box::new(t@)),
                    None => None,
                },
                Box::new(body@),
            ),
            Value::Pi(nd, body) => ValueV::Pi(nd.0@, Box::new(nd.1@), Box::new(body@)),
            Value::App(f, a) => ValueV::App(Box::new(f@), Box::new(a@)),
        }
    }
}

impl RcTerm {
    /// Wrap a term for sharing.
    pub fn new(t: Term) -> (r: RcTerm)
        ensures
            r@ == t@,
    {
        RcTerm(Rc::new(t))
    }
}

impl Clone for RcTerm {
    fn clone(&self) -> (r: Self)
        ensures
            r == *self,
    {
        RcTerm(self.0.clone())
    }
}

impl RcValue {
    /// Wrap a value for sharing.
    pub fn new(v: Value) -> (r: RcValue)
        ensures
            r@ == v@,
    {
        RcValue(Rc::new(v))
    }
}

impl Clone for RcValue {
    fn clone(&self) -> (r: Self)
        ensures
            r == *self,
    {
        RcValue(self.0.clone())
    }
}

impl From<Var> for Term {
    fn from(v: Var) -> (r: Term) {
        Term::Var(v)
    }
}

impl vstd::std_specs::convert::FromSpecImpl<Var> for Term {
    open spec fn obeys_from_spec() -> bool {
        true
    }

    open spec fn from_spec(v: Var) -> Term {
        Term::Var(v)
    }
}

impl From<Term> for RcTerm {
    fn from(t: Term) -> (r: RcTerm) {
        let ghost t0 = t;
        let r = RcTerm(Rc::new(t));
        proof {
            assert(*r.0 == t0);
            let c = choose|x: RcTerm| *x.0 == t0;
            assert(c == r);
        }
        r
    }
}

impl vstd::std_specs::convert::FromSpecImpl<Term> for RcTerm {
    open spec fn obeys_from_spec() -> bool {
        true
    }

    open spec fn from_spec(t: Term) -> RcTerm {
        choose|r: RcTerm| *r.0 == t
    }
}

impl From<Var> for Value {
    fn from(v: Var) -> (r: Value) {
        Value::Var(v)
    }
}

impl vstd::std_specs::convert::FromSpecImpl<Var> for Value {
    open spec fn obeys_from_spec() -> bool {
        true
    }

    open spec fn from_spec(v: Var) -> Value {
        Value::Var(v)
    }
}

impl From<Value> for RcValue {
    fn from(v: Value) -> (r: RcValue) {
        let ghost v0 = v;
        let r = RcValue(Rc::new(v));
        proof {
            assert(*r.0 == v0);
            let c = choose|x: RcValue| *x.0 == v0;
            assert(c == r);
        }
        r
    }
}

impl vstd::std_specs::convert::FromSpecImpl<Value> for RcValue {
    open spec fn obeys_from_spec() -> bool {
        true
    }

    open spec fn from_spec(v: Value) -> RcValue {
        choose|r: RcValue| *r.0 == v
    }
}

/// Erase every cosmetic binder hint in a term. Two terms are
/// alpha-equivalent exactly when their erasures are equal.
pub open spec fn strip_t(t: TermV) -> TermV
    decreases t,
{
    match t {
        TermV::Var(v) => TermV::Var(strip_var(v)),
        TermV::Type => TermV::Type,
        TermV::Ann(e, ty) => TermV::Ann(Box::new(strip_t(*e)), Box::new(strip_t(*ty))),
        TermV::Lam(_, ann, body) => TermV::Lam(
            NameV::Abstract,
            match ann {
                Some(a) => Some(Box::new(strip_t(*a))),
                None => None,
            },
            Box::new(strip_t(*body)),
        ),
        TermV::Pi(_, a, b) => TermV::Pi(NameV::Abstract, Box::new(strip_t(*a)), Box::new(strip_t(*b))),
        TermV::App(f, a) => TermV::App(Box::new(strip_t(*f)), Box::new(strip_t(*a))),
    }
}

/// Erase every cosmetic binder hint in a value.
pub open spec fn strip_v(v: ValueV) -> ValueV
    decreases v,
{
    match v {
        ValueV::Var(x) => ValueV::Var(strip_var(x)),
        ValueV::Type => ValueV::Type,
        ValueV::Lam(_, ann, body) => ValueV::Lam(
            NameV::Abstract,
            match ann {
                Some(a) => Some(Box::new(strip_v(*a))),
                None => None,
            },
            Box::new(strip_v(*body)),
        ),
        ValueV::Pi(_, a, b) => ValueV::Pi(NameV::Abstract, Box::new(strip_v(*a)), Box::new(strip_v(*b))),
        ValueV::App(f, a) => ValueV::App(Box::new(strip_v(*f)), Box::new(strip_v(*a))),
    }
}

/// Decide alpha-equivalence of two core terms: structural equality that
/// ignores binder hints.
pub fn term_alpha_eq(a: &RcTerm, b: &RcTerm) -> (r: bool)
    ensures
        r == (strip_t(a@) == strip_t(b@)),
    decreases *a.0,
{
    match (&*a.0, &*b.0) {
        (Term::Var(v1), Term::Var(v2)) => var_alpha_eq(v1, v2),
        (Term::Type, Term::Type) => true,
        (Term::Ann(e1, t1), Term::Ann(e2, t2)) => term_alpha_eq(e1, e2) && term_alpha_eq(t1, t2),
        (Term::Lam(n1, b1), Term::Lam(n2, b2)) => {
            let anns = match (&n1.1, &n2.1) {
                (Some(a1), Some(a2)) => term_alpha_eq(a1, a2),
                (None, None) => true,
                _ => false,
            };
            anns && term_alpha_eq(b1, b2)
        },
        (Term::Pi(n1, b1), Term::Pi(n2, b2)) => {
            term_alpha_eq(&n1.1, &n2.1) && term_alpha_eq(b1, b2)
        },
        (Term::App(f1, a1), Term::App(f2, a2)) => {
            term_alpha_eq(f1, f2) && term_alpha_eq(a1, a2)
        },
        _ => false,
    }
}

/// Decide alpha-equivalence of two values. Evaluation leaves values in
/// normal form, so this also decides convertibility of types.
pub fn value_alpha_eq(a: &RcValue, b: &RcValue) -> (r: bool)
    ensures
        r == (strip_v(a@) == strip_v(b@)),
    decreases *a.0,
{
    match (&*a.0, &*b.0) {
        (Value::Var(v1), Value::Var(v2)) => var_alpha_eq(v1, v2),
        (Value::Type, Value::Type) => true,
        (Value::Lam(n1, b1), Value::Lam(n2, b2)) => {
            let anns = match (&n1.1, &n2.1) {
                (Some(a1), Some(a2)) => value_alpha_eq(a1, a2),
                (None, None) => true,
                _ => false,
            };
            anns && value_alpha_eq(b1, b2)
        },
        (Value::Pi(n1, b1), Value::Pi(n2, b2)) => {
            value_alpha_eq(&n1.1, &n2.1) && value_alpha_eq(b1, b2)
        },
        (Value::App(f1, a1), Value::App(f2, a2)) => {
            value_alpha_eq(f1, f2) && value_alpha_eq(a1, a2)
        },
        _ => false,
    }
}

impl PartialEq for RcTerm {
    fn eq(&self, other: &RcTerm) -> (r: bool) {
        term_alpha_eq(self, other)
    }
}

impl vstd::std_specs::cmp::PartialEqSpecImpl for RcTerm {
    open spec fn obeys_eq_spec() -> bool {
        true
    }

    open spec fn eq_spec(&self, other: &RcTerm) -> bool {
        strip_t(self@) == strip_t(other@)
    }
}

impl PartialEq for RcValue {
    fn eq(&self, other: &RcValue) -> (r: bool) {
        value_alpha_eq(self, other)
    }
}

impl vstd::std_specs::cmp::PartialEqSpecImpl for RcValue {
    open spec fn obeys_eq_spec() -> bool {
        true
    }

    open spec fn eq_spec(&self, other: &RcValue) -> bool {
        strip_v(self@) == strip_v(other@)
    }
}

/// A universe level.
#[derive(Debug, Copy, Clone, PartialEq, Eq, Structural, PartialOrd, Ord)]
pub struct Level(pub u32);

impl Level {
    /// The next universe up.
    pub fn succ(self) -> (r: Level)
        requires
            self.0 < u32::MAX,
        ensures
            r.0 == self.0 + 1,
    {
        Level(self.0 + 1)
    }
}

/// Mathematical model of a core [`Declaration`].
pub enum DeclarationV {
    /// A claim that the named term has the given type.
    Claim(Seq<char>, TermV),
    /// The definition of the named term.
    Definition(Seq<char>, TermV),
}

/// A top-level declaration of a core module. Definition parameters have
/// already been folded into nested functions by translation.
#[derive(Debug)]
pub enum Declaration {
    /// A claim that the named term has the given type.
    Claim(String, RcTerm),
    /// The definition of the named term.
    Definition(String, RcTerm),
}

impl View for Declaration {
    type V = DeclarationV;

    open spec fn view(&self) -> DeclarationV {
        match self {
            Declaration::Claim(n, t) => DeclarationV::Claim(n@, t@),
            Declaration::Definition(n, t) => DeclarationV::Definition(n@, t@),
        }
    }
}

/// Mathematical model of a core [`Module`].
pub struct ModuleV {
    pub name: Seq<char>,
    pub declarations: Seq<DeclarationV>,
}

/// A core module: a name and an ordered sequence of declarations. Order
/// matters: later declarations may reference earlier ones, never the
/// reverse.
#[derive(Debug)]
pub struct Module {
    /// The name of the module.
    pub name: String,
    /// The declarations contained in the module.
    pub declarations: Vec<Declaration>,
}

impl View for Module {
    type V = ModuleV;

    open spec fn view(&self) -> ModuleV {
        ModuleV {
            name: self.name@,
            declarations: Seq::new(self.declarations@.len(), |i: int| self.declarations@[i]@),
        }
    }
}

} // verus!
