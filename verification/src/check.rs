//! The typing context, the evaluator, and the bidirectional type checker.
//!
//! A context is an ordered mapping from free-variable identities to a
//! declared type and an optional definition value. It grows only by
//! producing an extended snapshot; a caller's context is never mutated.
//!
//! Every executable operation mirrors its mathematical model exactly, and
//! each model is a total function: evaluation that might not terminate is
//! bounded by fuel, and the machine's index and length widths bound the
//! nesting a checking run can pass through.

use std::rc::Rc;
use vstd::prelude::*;

use crate::subst::{close_v, close_value, inst, inst_v, open_t, open_term, opt_value_view, vapp, vapp_v};
use crate::term::{strip_v, value_alpha_eq, Declaration, DeclarationV, Module, ModuleV, RcTerm, RcValue, Term, TermV, Value, ValueV};
use crate::var::{name_eq, Name, NameV, Named, Var, VarV};

verus! {

/// Fuel for reduction: the number of function applications one call into
/// the evaluator or checker may perform before giving up. Reduction
/// recurses once per application, so the budget is kept modest enough
/// that a term with no normal form runs out of fuel long before it runs
/// out of stack.
pub const DEFAULT_FUEL: u64 = 2048;

/// Mathematical model of one context binding.
pub struct EntryV {
    /// The identity of the free variable.
    pub name: NameV,
    /// Its declared type.
    pub ty: ValueV,
    /// Its definition, if it has one.
    pub def: Option<ValueV>,
}

/// One context binding.
#[derive(Debug)]
pub struct Entry {
    /// The identity of the free variable.
    pub name: Name,
    /// Its declared type.
    pub ty: RcValue,
    /// Its definition, if it has one.
    pub def: Option<RcValue>,
}

impl View for Entry {
    type V = EntryV;

    open spec fn view(&self) -> EntryV {
        EntryV {
            name: self.name@,
            ty: self.ty@,
            def: match &self.def {
                Some(v) => Some(v@),
                None => None,
            },
        }
    }
}

impl Clone for Entry {
    fn clone(&self) -> (r: Self)
        ensures
            r@ == self@,
    {
        Entry {
            name: self.name.clone(),
            ty: self.ty.clone(),
            def: match &self.def {
                Some(v) => Some(v.clone()),
                None => None,
            },
        }
    }
}

/// The bindings of a context, most recent first.
#[derive(Debug)]
enum Bindings {
    Nil,
    Entry(Entry, Rc<Bindings>),
}

/// The view of a binding list: a sequence whose last element is the most
/// recent binding.
spec fn bindings_view(b: Bindings) -> Seq<EntryV>
    decreases b,
{
    match b {
        Bindings::Nil => Seq::empty(),
        Bindings::Entry(e, rest) => bindings_view(*rest).push(e@),
    }
}

/// A typing context: an ordered mapping from free-variable identities to
/// their declared types and optional definitions.
#[derive(Debug)]
pub struct Context {
    bindings: Rc<Bindings>,
    len: u64,
}

impl View for Context {
    type V = Seq<EntryV>;

    closed spec fn view(&self) -> Seq<EntryV> {
        bindings_view(*self.bindings)
    }
}

/// Look up the most recent binding of `n`.
pub open spec fn lookup_v(ctx: Seq<EntryV>, n: NameV) -> Option<EntryV>
    decreases ctx.len(),
{
    if ctx.len() == 0 {
        None
    } else if ctx.last().name == n {
        Some(ctx.last())
    } else {
        lookup_v(ctx.drop_last(), n)
    }
}

/// Look up the most recent binding of `n` in a binding list.
fn bindings_lookup(b: &Bindings, n: &Name) -> (r: Option<Entry>)
    ensures
        match r {
            Some(e) => lookup_v(bindings_view(*b), n@) == Some(e@),
            None => lookup_v(bindings_view(*b), n@) is None,
        },
    decreases *b,
{
    match b {
        Bindings::Nil => None,
        Bindings::Entry(e, rest) => {
            proof {
                assert(bindings_view(*b).drop_last() =~= bindings_view(**rest));
            }
            if name_eq(&e.name, n) {
                Some(e.clone())
            } else {
                bindings_lookup(rest, n)
            }
        },
    }
}

impl Context {
    #[verifier::type_invariant]
    spec fn wf(self) -> bool {
        self.len as nat == self@.len()
    }

    /// The empty context.
    pub fn new() -> (r: Context)
        ensures
            r@ == Seq::<EntryV>::empty(),
    {
        Context { bindings: Rc::new(Bindings::Nil), len: 0 }
    }

    /// The number of bindings.
    pub fn size(&self) -> (r: u64)
        ensures
            r as nat == self@.len(),
    {
        proof {
            use_type_invariant(self);
        }
        self.len
    }

    /// A snapshot of this context extended with one more binding. The
    /// receiver is unchanged.
    fn extend(&self, e: Entry) -> (r: Context)
        requires
            self@.len() < u64::MAX,
        ensures
            r@ == self@.push(e@),
    {
        proof {
            use_type_invariant(self);
        }
        Context {
            bindings: Rc::new(Bindings::Entry(e, self.bindings.clone())),
            len: self.len + 1,
        }
    }

    /// Look up the most recent binding of `n`.
    fn lookup(&self, n: &Name) -> (r: Option<Entry>)
        ensures
            match r {
                Some(e) => lookup_v(self@, n@) == Some(e@),
                None => lookup_v(self@, n@) is None,
            },
    {
        bindings_lookup(&self.bindings, n)
    }
}

impl Clone for Context {
    fn clone(&self) -> (r: Self)
        ensures
            r@ == self@,
    {
        proof {
            use_type_invariant(self);
        }
        Context { bindings: self.bindings.clone(), len: self.len }
    }
}

/// Evaluate a term in a context: ascriptions are erased, definitions
/// unfold, functions and function types evaluate under their binders, and
/// applications whose head is a function are reduced. A variable with no
/// definition, and an application stuck on one, stay as neutral values.
/// `None` means the fuel or the index width ran out.
pub open spec fn eval_v(ctx: Seq<EntryV>, t: TermV, fuel: nat) -> Option<ValueV>
    decreases fuel, t,
{
    match t {
        TermV::Var(x) => match x {
            VarV::Free(n) => match lookup_v(ctx, n) {
                Some(e) => match e.def {
                    Some(v) => Some(v),
                    None => Some(ValueV::Var(VarV::Free(n))),
                },
                None => Some(ValueV::Var(VarV::Free(n))),
            },
            VarV::Bound(h, k) => Some(ValueV::Var(VarV::Bound(h, k))),
        },
        TermV::Type => Some(ValueV::Type),
        TermV::Ann(e, _) => eval_v(ctx, *e, fuel),
        TermV::Lam(h, ann, body) => {
            let ann2 = match ann {
                Some(a) => match eval_v(ctx, *a, fuel) {
                    Some(a2) => Some(Some(Box::new(a2))),
                    None => None,
                },
                None => Some(None),
            };
            match (ann2, eval_v(ctx, *body, fuel)) {
                (Some(a2), Some(b2)) => Some(ValueV::Lam(h, a2, Box::new(b2))),
                _ => None,
            }
        },
        TermV::Pi(h, p, b) => match (eval_v(ctx, *p, fuel), eval_v(ctx, *b, fuel)) {
            (Some(p2), Some(b2)) => Some(ValueV::Pi(h, Box::new(p2), Box::new(b2))),
            _ => None,
        },
        TermV::App(f, a) => match (eval_v(ctx, *f, fuel), eval_v(ctx, *a, fuel)) {
            (Some(f2), Some(a2)) => if fuel == 0 {
                None
            } else {
                vapp_v(f2, a2, (fuel - 1) as nat)
            },
            _ => None,
        },
    }
}

/// LAW. Evaluating the type of types always yields exactly the type of
/// types, in every context and with any fuel.
pub proof fn lemma_eval_type(ctx: Seq<EntryV>, fuel: nat)
    ensures
        eval_v(ctx, TermV::Type, fuel) == Some(ValueV::Type),
{
}

impl Context {
    /// Executable evaluation with explicit fuel; see [`eval_v`].
    fn eval_fuel(&self, t: &RcTerm, fuel: u64) -> (r: Option<RcValue>)
        ensures
            opt_value_view(r) == eval_v(self@, t@, fuel as nat),
        decreases fuel, *t.0,
    {
        match &*t.0 {
            Term::Var(x) => match x {
                Var::Free(n) => match self.lookup(n) {
                    Some(e) => match e.def {
                        Some(v) => Some(v),
                        None => Some(RcValue::new(Value::Var(Var::Free(n.clone())))),
                    },
                    None => Some(RcValue::new(Value::Var(Var::Free(n.clone())))),
                },
                Var::Bound(nd) => Some(RcValue::new(Value::Var(Var::Bound(Named(nd.0.clone(), nd.1))))),
            },
            Term::Type => Some(RcValue::new(Value::Type)),
            Term::Ann(e, _) => self.eval_fuel(e, fuel),
            Term::Lam(nd, body) => {
                let ann2 = match &nd.1 {
                    Some(a) => match self.eval_fuel(a, fuel) {
                        Some(a2) => Some(a2),
                        None => {
                            return None;
                        },
                    },
                    None => None,
                };
                match self.eval_fuel(body, fuel) {
                    Some(b2) => Some(RcValue::new(Value::Lam(Named(nd.0.clone(), ann2), b2))),
                    None => None,
                }
            },
            Term::Pi(nd, b) => match (self.eval_fuel(&nd.1, fuel), self.eval_fuel(b, fuel)) {
                (Some(p2), Some(b2)) => Some(RcValue::new(Value::Pi(Named(nd.0.clone(), p2), b2))),
                _ => None,
            },
            Term::App(f, a) => match (self.eval_fuel(f, fuel), self.eval_fuel(a, fuel)) {
                (Some(f2), Some(a2)) => if fuel == 0 {
                    None
                } else {
                    vapp(f2, a2, fuel - 1)
                },
                _ => None,
            },
        }
    }

    /// Evaluate a term to a value. `None` means the default reduction fuel
    /// ran out before a result was reached.
    pub fn eval(&self, t: &RcTerm) -> (r: Option<RcValue>)
        ensures
            opt_value_view(r) == eval_v(self@, t@, DEFAULT_FUEL as nat),
    {
        self.eval_fuel(t, DEFAULT_FUEL)
    }
}

/// Mathematical model of a [`TypeError`].
pub enum TypeErrorV {
    /// A free variable with no binding in the context.
    UnboundVariable(NameV),
    /// The head of an application, or the target of a check against a
    /// non-function type, where a function type was needed.
    ExpectedFunction { found_type: ValueV },
    /// An application whose head is the type of types itself.
    IllegalApplication,
    /// A term whose synthesized type is not convertible to the expected one.
    TypeMismatch { expected: ValueV, found: ValueV },
    /// A function without a parameter annotation in a position where its
    /// type must be synthesized.
    AnnotationNeeded,
    /// The reduction fuel or an index width ran out before checking could
    /// finish.
    OutOfFuel,
}

/// Why a term failed to check.
#[derive(Debug)]
pub enum TypeError {
    /// A free variable with no binding in the context.
    UnboundVariable(Name),
    /// The head of an application, or the target of a check against a
    /// non-function type, where a function type was needed.
    ExpectedFunction { found_type: RcValue },
    /// An application whose head is the type of types itself.
    IllegalApplication,
    /// A term whose synthesized type is not convertible to the expected one.
    TypeMismatch { expected: RcValue, found: RcValue },
    /// A function without a parameter annotation in a position where its
    /// type must be synthesized.
    AnnotationNeeded,
    /// The reduction fuel or an index width ran out before checking could
    /// finish.
    OutOfFuel,
}

impl View for TypeError {
    type V = TypeErrorV;

    open spec fn view(&self) -> TypeErrorV {
        match self {
            TypeError::UnboundVariable(n) => TypeErrorV::UnboundVariable(n@),
            TypeError::ExpectedFunction { found_type } => TypeErrorV::ExpectedFunction {
                found_type: found_type@,
            },
            TypeError::IllegalApplication => TypeErrorV::IllegalApplication,
            TypeError::TypeMismatch { expected, found } => TypeErrorV::TypeMismatch {
                expected: expected@,
                found: found@,
            },
            TypeError::AnnotationNeeded => TypeErrorV::AnnotationNeeded,
            TypeError::OutOfFuel => TypeErrorV::OutOfFuel,
        }
    }
}

/// Equality of type errors: same condition, with the reported names equal
/// and the reported types alpha-equivalent.
pub open spec fn type_error_eq_spec(a: TypeErrorV, b: TypeErrorV) -> bool {
    match (a, b) {
        (TypeErrorV::UnboundVariable(n), TypeErrorV::UnboundVariable(m)) => n == m,
        (
            TypeErrorV::ExpectedFunction { found_type: f1 },
            TypeErrorV::ExpectedFunction { found_type: f2 },
        ) => strip_v(f1) == strip_v(f2),
        (TypeErrorV::IllegalApplication, TypeErrorV::IllegalApplication) => true,
        (
            TypeErrorV::TypeMismatch { expected: e1, found: f1 },
            TypeErrorV::TypeMismatch { expected: e2, found: f2 },
        ) => strip_v(e1) == strip_v(e2) && strip_v(f1) == strip_v(f2),
        (TypeErrorV::AnnotationNeeded, TypeErrorV::AnnotationNeeded) => true,
        (TypeErrorV::OutOfFuel, TypeErrorV::OutOfFuel) => true,
        _ => false,
    }
}

impl PartialEq for TypeError {
    fn eq(&self, other: &TypeError) -> (r: bool) {
        match (self, other) {
            (TypeError::UnboundVariable(n), TypeError::UnboundVariable(m)) => name_eq(n, m),
            (
                TypeError::ExpectedFunction { found_type: f1 },
                TypeError::ExpectedFunction { found_type: f2 },
            ) => value_alpha_eq(f1, f2),
            (TypeError::IllegalApplication, TypeError::IllegalApplication) => true,
            (
                TypeError::TypeMismatch { expected: e1, found: f1 },
                TypeError::TypeMismatch { expected: e2, found: f2 },
            ) => value_alpha_eq(e1, e2) && value_alpha_eq(f1, f2),
            (TypeError::AnnotationNeeded, TypeError::AnnotationNeeded) => true,
            (TypeError::OutOfFuel, TypeError::OutOfFuel) => true,
            _ => false,
        }
    }
}

impl vstd::std_specs::cmp::PartialEqSpecImpl for TypeError {
    open spec fn obeys_eq_spec() -> bool {
        true
    }

    open spec fn eq_spec(&self, other: &TypeError) -> bool {
        type_error_eq_spec(self@, other@)
    }
}

/// The view of an inference result.
pub open spec fn res_value_view(r: Result<RcValue, TypeError>) -> Result<ValueV, TypeErrorV> {
    match r {
        Ok(v) => Ok(v@),
        Err(e) => Err(e@),
    }
}

/// The view of a checking result.
pub open spec fn res_unit_view(r: Result<(), TypeError>) -> Result<(), TypeErrorV> {
    match r {
        Ok(u) => Ok(u),
        Err(e) => Err(e@),
    }
}

/// Synthesize the type of a term. Free variables take their declared type
/// from the context; `Type` has type `Type`; an ascription is checked and
/// returns its ascribed type; an annotated function synthesizes a function
/// type by moving under its binder with a fresh free variable; a function
/// type synthesizes `Type` when its parameter and result types do; an
/// application requires its head to synthesize a function type, checks the
/// argument against the parameter type, and instantiates the result type
/// with the argument's value.
pub open spec fn infer_v(ctx: Seq<EntryV>, t: TermV, fuel: nat) -> Result<ValueV, TypeErrorV>
    decreases fuel, t, 0int,
{
    match t {
        TermV::Var(x) => match x {
            VarV::Free(n) => match lookup_v(ctx, n) {
                Some(e) => Ok(e.ty),
                None => Err(TypeErrorV::UnboundVariable(n)),
            },
            VarV::Bound(_, _) => Err(TypeErrorV::UnboundVariable(NameV::Abstract)),
        },
        TermV::Type => Ok(ValueV::Type),
        TermV::Ann(e, ty) => match check_v(ctx, *ty, ValueV::Type, fuel) {
            Ok(_) => match eval_v(ctx, *ty, fuel) {
                Some(tv) => match check_v(ctx, *e, tv, fuel) {
                    Ok(_) => Ok(tv),
                    Err(er) => Err(er),
                },
                None => Err(TypeErrorV::OutOfFuel),
            },
            Err(er) => Err(er),
        },
        TermV::Lam(h, ann, body) => match ann {
            Some(at) => match check_v(ctx, *at, ValueV::Type, fuel) {
                Ok(_) => match eval_v(ctx, *at, fuel) {
                    Some(av) => if ctx.len() >= u64::MAX as nat || fuel == 0 {
                        Err(TypeErrorV::OutOfFuel)
                    } else {
                        let g = NameV::Gen(ctx.len());
                        match open_t(*body, 0, g) {
                            Some(body2) => {
                                let ctx2 = ctx.push(EntryV { name: g, ty: av, def: None });
                                match infer_v(ctx2, body2, (fuel - 1) as nat) {
                                    Ok(bty) => match close_v(bty, 0, g) {
                                        Some(bty2) => Ok(
                                            ValueV::Pi(h, Box::new(av), Box::new(bty2)),
                                        ),
                                        None => Err(TypeErrorV::OutOfFuel),
                                    },
                                    Err(er) => Err(er),
                                }
                            },
                            None => Err(TypeErrorV::OutOfFuel),
                        }
                    },
                    None => Err(TypeErrorV::OutOfFuel),
                },
                Err(er) => Err(er),
            },
            None => Err(TypeErrorV::AnnotationNeeded),
        },
        TermV::Pi(_, p, b) => match check_v(ctx, *p, ValueV::Type, fuel) {
            Ok(_) => match eval_v(ctx, *p, fuel) {
                Some(pv) => if ctx.len() >= u64::MAX as nat || fuel == 0 {
                    Err(TypeErrorV::OutOfFuel)
                } else {
                    let g = NameV::Gen(ctx.len());
                    match open_t(*b, 0, g) {
                        Some(b2) => {
                            let ctx2 = ctx.push(EntryV { name: g, ty: pv, def: None });
                            match check_v(ctx2, b2, ValueV::Type, (fuel - 1) as nat) {
                                Ok(_) => Ok(ValueV::Type),
                                Err(er) => Err(er),
                            }
                        },
                        None => Err(TypeErrorV::OutOfFuel),
                    }
                },
                None => Err(TypeErrorV::OutOfFuel),
            },
            Err(er) => Err(er),
        },
        TermV::App(f, a) => match infer_v(ctx, *f, fuel) {
            Ok(fty) => match fty {
                ValueV::Pi(_, pty, rty) => match check_v(ctx, *a, *pty, fuel) {
                    Ok(_) => match eval_v(ctx, *a, fuel) {
                        Some(av) => if fuel == 0 {
                            Err(TypeErrorV::OutOfFuel)
                        } else {
                            match inst_v(*rty, 0, av, (fuel - 1) as nat) {
                                Some(r) => Ok(r),
                                None => Err(TypeErrorV::OutOfFuel),
                            }
                        },
                        None => Err(TypeErrorV::OutOfFuel),
                    },
                    Err(er) => Err(er),
                },
                ValueV::Type => Err(TypeErrorV::IllegalApplication),
                _ => Err(TypeErrorV::ExpectedFunction { found_type: fty }),
            },
            Err(er) => Err(er),
        },
    }
}

/// Check a term against an expected type. A function is checked against a
/// function type by moving under both binders with a shared fresh free
/// variable (its own annotation, if any, must be convertible to the
/// expected parameter type); a function against anything else is an error;
/// every other term must synthesize a type convertible to the expected one.
/// A function with no annotation can therefore only ever check, never
/// synthesize.
pub open spec fn check_v(ctx: Seq<EntryV>, t: TermV, expected: ValueV, fuel: nat) -> Result<
    (),
    TypeErrorV,
>
    decreases fuel, t, 1int,
{
    match t {
        TermV::Lam(_, ann, body) => match expected {
            ValueV::Pi(_, pty, rty) => {
                let ann_ok: Result<(), TypeErrorV> = match ann {
                    Some(at) => match check_v(ctx, *at, ValueV::Type, fuel) {
                        Ok(_) => match eval_v(ctx, *at, fuel) {
                            Some(av) => if strip_v(av) == strip_v(*pty) {
                                Ok(())
                            } else {
                                Err(TypeErrorV::TypeMismatch { expected: *pty, found: av })
                            },
                            None => Err(TypeErrorV::OutOfFuel),
                        },
                        Err(er) => Err(er),
                    },
                    None => Ok(()),
                };
                match ann_ok {
                    Ok(_) => if ctx.len() >= u64::MAX as nat || fuel == 0 {
                        Err(TypeErrorV::OutOfFuel)
                    } else {
                        let g = NameV::Gen(ctx.len());
                        match (
                            open_t(*body, 0, g),
                            inst_v(*rty, 0, ValueV::Var(VarV::Free(g)), (fuel - 1) as nat),
                        ) {
                            (Some(body2), Some(rty2)) => {
                                let ctx2 = ctx.push(EntryV { name: g, ty: *pty, def: None });
                                check_v(ctx2, body2, rty2, (fuel - 1) as nat)
                            },
                            _ => Err(TypeErrorV::OutOfFuel),
                        }
                    },
                    Err(er) => Err(er),
                }
            },
            _ => Err(TypeErrorV::ExpectedFunction { found_type: expected }),
        },
        _ => match infer_v(ctx, t, fuel) {
            Ok(found) => if strip_v(found) == strip_v(expected) {
                Ok(())
            } else {
                Err(TypeErrorV::TypeMismatch { expected, found })
            },
            Err(er) => Err(er),
        },
    }
}

impl Context {
    /// Executable type synthesis with explicit fuel; see [`infer_v`].
    fn infer_fuel(&self, t: &RcTerm, fuel: u64) -> (r: Result<RcValue, TypeError>)
        ensures
            res_value_view(r) == infer_v(self@, t@, fuel as nat),
        decreases fuel, *t.0, 0int,
    {
        match &*t.0 {
            Term::Var(x) => match x {
                Var::Free(n) => match self.lookup(n) {
                    Some(e) => Ok(e.ty),
                    None => Err(TypeError::UnboundVariable(n.clone())),
                },
                Var::Bound(_) => Err(TypeError::UnboundVariable(Name::Abstract)),
            },
            Term::Type => Ok(RcValue::new(Value::Type)),
            Term::Ann(e, ty) => {
                let ty_of_types = RcValue::new(Value::Type);
                match self.check_fuel(ty, &ty_of_types, fuel) {
                    Ok(_) => match self.eval_fuel(ty, fuel) {
                        Some(tv) => match self.check_fuel(e, &tv, fuel) {
                            Ok(_) => Ok(tv),
                            Err(er) => Err(er),
                        },
                        None => Err(TypeError::OutOfFuel),
                    },
                    Err(er) => Err(er),
                }
            },
            Term::Lam(nd, body) => match &nd.1 {
                Some(at) => {
                    let ty_of_types = RcValue::new(Value::Type);
                    match self.check_fuel(at, &ty_of_types, fuel) {
                        Ok(_) => match self.eval_fuel(at, fuel) {
                            Some(av) => {
                                if self.size() == u64::MAX || fuel == 0 {
                                    return Err(TypeError::OutOfFuel);
                                }
                                let g = Name::Gen(self.size());
                                match open_term(body, 0, &g) {
                                    Some(body2) => {
                                        let ctx2 = self.extend(
                                            Entry { name: g.clone(), ty: av.clone(), def: None },
                                        );
                                        match ctx2.infer_fuel(&body2, fuel - 1) {
                                            Ok(bty) => match close_value(&bty, 0, &g) {
                                                Some(bty2) => Ok(
                                                    RcValue::new(
                                                        Value::Pi(Named(nd.0.clone(), av), bty2),
                                                    ),
                                                ),
                                                None => Err(TypeError::OutOfFuel),
                                            },
                                            Err(er) => Err(er),
                                        }
                                    },
                                    None => Err(TypeError::OutOfFuel),
                                }
                            },
                            None => Err(TypeError::OutOfFuel),
                        },
                        Err(er) => Err(er),
                    }
                },
                None => Err(TypeError::AnnotationNeeded),
            },
            Term::Pi(nd, b) => {
                let ty_of_types = RcValue::new(Value::Type);
                match self.check_fuel(&nd.1, &ty_of_types, fuel) {
                    Ok(_) => match self.eval_fuel(&nd.1, fuel) {
                        Some(pv) => {
                            if self.size() == u64::MAX || fuel == 0 {
                                return Err(TypeError::OutOfFuel);
                            }
                            let g = Name::Gen(self.size());
                            match open_term(b, 0, &g) {
                                Some(b2) => {
                                    let ctx2 = self.extend(
                                        Entry { name: g, ty: pv, def: None },
                                    );
                                    let inner_ty = RcValue::new(Value::Type);
                                    match ctx2.check_fuel(&b2, &inner_ty, fuel - 1) {
                                        Ok(_) => Ok(RcValue::new(Value::Type)),
                                        Err(er) => Err(er),
                                    }
                                },
                                None => Err(TypeError::OutOfFuel),
                            }
                        },
                        None => Err(TypeError::OutOfFuel),
                    },
                    Err(er) => Err(er),
                }
            },
            Term::App(f, a) => match self.infer_fuel(f, fuel) {
                Ok(fty) => {
                    match &*fty.0 {
                        Value::Pi(pnd, rty) => match self.check_fuel(a, &pnd.1, fuel) {
                            Ok(_) => match self.eval_fuel(a, fuel) {
                                Some(av) => if fuel == 0 {
                                    Err(TypeError::OutOfFuel)
                                } else {
                                    match inst(rty, 0, &av, fuel - 1) {
                                        Some(r) => Ok(r),
                                        None => Err(TypeError::OutOfFuel),
                                    }
                                },
                                None => Err(TypeError::OutOfFuel),
                            },
                            Err(er) => Err(er),
                        },
                        Value::Type => Err(TypeError::IllegalApplication),
                        _ => Err(TypeError::ExpectedFunction { found_type: fty.clone() }),
                    }
                },
                Err(er) => Err(er),
            },
        }
    }

    /// Executable checking with explicit fuel; see [`check_v`].
    fn check_fuel(&self, t: &RcTerm, expected: &RcValue, fuel: u64) -> (r: Result<(), TypeError>)
        ensures
            res_unit_view(r) == check_v(self@, t@, expected@, fuel as nat),
        decreases fuel, *t.0, 1int,
    {
        match &*t.0 {
            Term::Lam(nd, body) => match &*expected.0 {
                Value::Pi(pnd, rty) => {
                    let ann_ok: Result<(), TypeError> = match &nd.1 {
                        Some(at) => {
                            let ty_of_types = RcValue::new(Value::Type);
                            match self.check_fuel(at, &ty_of_types, fuel) {
                                Ok(_) => match self.eval_fuel(at, fuel) {
                                    Some(av) => if value_alpha_eq(&av, &pnd.1) {
                                        Ok(())
                                    } else {
                                        Err(
                                            TypeError::TypeMismatch {
                                                expected: pnd.1.clone(),
                                                found: av,
                                            },
                                        )
                                    },
                                    None => Err(TypeError::OutOfFuel),
                                },
                                Err(er) => Err(er),
                            }
                        },
                        None => Ok(()),
                    };
                    match ann_ok {
                        Ok(_) => {
                            if self.size() == u64::MAX || fuel == 0 {
                                return Err(TypeError::OutOfFuel);
                            }
                            let g = Name::Gen(self.size());
                            let gv = RcValue::new(Value::Var(Var::Free(g.clone())));
                            match (open_term(body, 0, &g), inst(rty, 0, &gv, fuel - 1)) {
                                (Some(body2), Some(rty2)) => {
                                    let ctx2 = self.extend(
                                        Entry { name: g, ty: pnd.1.clone(), def: None },
                                    );
                                    ctx2.check_fuel(&body2, &rty2, fuel - 1)
                                },
                                _ => Err(TypeError::OutOfFuel),
                            }
                        },
                        Err(er) => Err(er),
                    }
                },
                _ => Err(TypeError::ExpectedFunction { found_type: expected.clone() }),
            },
            _ => match self.infer_fuel(t, fuel) {
                Ok(found) => if value_alpha_eq(&found, expected) {
                    Ok(())
                } else {
                    Err(TypeError::TypeMismatch { expected: expected.clone(), found })
                },
                Err(er) => Err(er),
            },
        }
    }

    /// Synthesize the type of a term, with the default fuel; see
    /// [`infer_v`].
    pub fn infer(&self, t: &RcTerm) -> (r: Result<RcValue, TypeError>)
        ensures
            res_value_view(r) == infer_v(self@, t@, DEFAULT_FUEL as nat),
    {
        self.infer_fuel(t, DEFAULT_FUEL)
    }

    /// Check a term against an expected type, with the default fuel; see
    /// [`check_v`].
    pub fn check(&self, t: &RcTerm, expected: &RcValue) -> (r: Result<(), TypeError>)
        ensures
            res_unit_view(r) == check_v(self@, t@, expected@, DEFAULT_FUEL as nat),
    {
        self.check_fuel(t, expected, DEFAULT_FUEL)
    }
}

/// Process a definition that has no pending claim: synthesize its type,
/// evaluate it, and bind both.
pub open spec fn define_infer_v(
    ctx: Seq<EntryV>,
    name: Seq<char>,
    body: TermV,
    fuel: nat,
) -> Result<Seq<EntryV>, TypeErrorV> {
    match infer_v(ctx, body, fuel) {
        Ok(tv) => match eval_v(ctx, body, fuel) {
            Some(v) => if ctx.len() >= u64::MAX as nat {
                Err(TypeErrorV::OutOfFuel)
            } else {
                Ok(ctx.push(EntryV { name: NameV::User(name), ty: tv, def: Some(v) }))
            },
            None => Err(TypeErrorV::OutOfFuel),
        },
        Err(er) => Err(er),
    }
}

/// Process one declaration, producing the extended context. A claim is
/// checked to be a well-formed type, evaluated, and recorded pending its
/// definition. A definition with a pending claim is checked against the
/// claimed type; one without is synthesized. Either way its value is
/// bound so later declarations can unfold it.
pub open spec fn check_decl_v(ctx: Seq<EntryV>, d: DeclarationV, fuel: nat) -> Result<
    Seq<EntryV>,
    TypeErrorV,
> {
    match d {
        DeclarationV::Claim(name, ty) => match check_v(ctx, ty, ValueV::Type, fuel) {
            Ok(_) => match eval_v(ctx, ty, fuel) {
                Some(tv) => if ctx.len() >= u64::MAX as nat {
                    Err(TypeErrorV::OutOfFuel)
                } else {
                    Ok(ctx.push(EntryV { name: NameV::User(name), ty: tv, def: None }))
                },
                None => Err(TypeErrorV::OutOfFuel),
            },
            Err(er) => Err(er),
        },
        DeclarationV::Definition(name, body) => match lookup_v(ctx, NameV::User(name)) {
            Some(e) => if e.def is None {
                match check_v(ctx, body, e.ty, fuel) {
                    Ok(_) => match eval_v(ctx, body, fuel) {
                        Some(v) => if ctx.len() >= u64::MAX as nat {
                            Err(TypeErrorV::OutOfFuel)
                        } else {
                            Ok(
                                ctx.push(
                                    EntryV { name: NameV::User(name), ty: e.ty, def: Some(v) },
                                ),
                            )
                        },
                        None => Err(TypeErrorV::OutOfFuel),
                    },
                    Err(er) => Err(er),
                }
            } else {
                define_infer_v(ctx, name, body, fuel)
            },
            None => define_infer_v(ctx, name, body, fuel),
        },
    }
}

/// Process a sequence of declarations in order, threading the context.
/// The first failure aborts the rest.
pub open spec fn check_decls_v(ctx: Seq<EntryV>, decls: Seq<DeclarationV>, fuel: nat) -> Result<
    (),
    TypeErrorV,
>
    decreases decls.len(),
{
    if decls.len() == 0 {
        Ok(())
    } else {
        match check_decl_v(ctx, decls[0], fuel) {
            Ok(ctx2) => check_decls_v(ctx2, decls.drop_first(), fuel),
            Err(er) => Err(er),
        }
    }
}

/// Check a whole module: its declarations in order, starting from the
/// empty context.
pub open spec fn check_module_v(m: ModuleV, fuel: nat) -> Result<(), TypeErrorV> {
    check_decls_v(Seq::empty(), m.declarations, fuel)
}

/// Executable counterpart of [`check_decl_v`].
fn check_decl(ctx: &Context, d: &Declaration, fuel: u64) -> (r: Result<Context, TypeError>)
    ensures
        match r {
            Ok(ctx2) => check_decl_v(ctx@, d@, fuel as nat) == Ok::<Seq<EntryV>, TypeErrorV>(ctx2@),
            Err(er) => check_decl_v(ctx@, d@, fuel as nat) == Err::<Seq<EntryV>, TypeErrorV>(er@),
        },
{
    match d {
        Declaration::Claim(name, ty) => {
            let ty_of_types = RcValue::new(Value::Type);
            match ctx.check_fuel(ty, &ty_of_types, fuel) {
                Ok(_) => match ctx.eval_fuel(ty, fuel) {
                    Some(tv) => if ctx.size() == u64::MAX {
                        Err(TypeError::OutOfFuel)
                    } else {
                        Ok(
                            ctx.extend(
                                Entry { name: Name::User(name.clone()), ty: tv, def: None },
                            ),
                        )
                    },
                    None => Err(TypeError::OutOfFuel),
                },
                Err(er) => Err(er),
            }
        },
        Declaration::Definition(name, body) => {
            let key = Name::User(name.clone());
            let prior = ctx.lookup(&key);
            let claimed: Option<RcValue> = match prior {
                Some(e) => match e.def {
                    Some(_) => None,
                    None => Some(e.ty),
                },
                None => None,
            };
            match claimed {
                Some(cty) => match ctx.check_fuel(body, &cty, fuel) {
                    Ok(_) => match ctx.eval_fuel(body, fuel) {
                        Some(v) => if ctx.size() == u64::MAX {
                            Err(TypeError::OutOfFuel)
                        } else {
                            Ok(ctx.extend(Entry { name: key, ty: cty, def: Some(v) }))
                        },
                        None => Err(TypeError::OutOfFuel),
                    },
                    Err(er) => Err(er),
                },
                None => match ctx.infer_fuel(body, fuel) {
                    Ok(tv) => match ctx.eval_fuel(body, fuel) {
                        Some(v) => if ctx.size() == u64::MAX {
                            Err(TypeError::OutOfFuel)
                        } else {
                            Ok(ctx.extend(Entry { name: key, ty: tv, def: Some(v) }))
                        },
                        None => Err(TypeError::OutOfFuel),
                    },
                    Err(er) => Err(er),
                },
            }
        },
    }
}

/// Check every declaration of a module, in order, against a context that
/// grows with each claim and definition. Later declarations may reference
/// earlier ones; the first failure aborts the rest.
pub fn check_module(m: &Module) -> (r: Result<(), TypeError>)
    ensures
        res_unit_view(r) == check_module_v(m@, DEFAULT_FUEL as nat),
{
    let mut ctx = Context::new();
    let n = m.declarations.len();
    let mut i: usize = 0;
    proof {
        assert(m@.declarations.skip(0) =~= m@.declarations);
    }
    while i < n
        invariant
            i <= n,
            n == m.declarations.len(),
            m@.declarations.len() == n as nat,
            check_decls_v(ctx@, m@.declarations.skip(i as int), DEFAULT_FUEL as nat)
                == check_module_v(m@, DEFAULT_FUEL as nat),
        decreases n - i,
    {
        let d = &m.declarations[i];
        proof {
            assert(m@.declarations.skip(i as int)[0] == d@);
            assert(m@.declarations.skip(i as int).drop_first() =~= m@.declarations.skip(
                i as int + 1,
            ));
        }
        match check_decl(&ctx, d, DEFAULT_FUEL) {
            Ok(ctx2) => {
                ctx = ctx2;
            },
            Err(er) => {
                return Err(er);
            },
        }
        i = i + 1;
    }
    Ok(())
}

} // verus!
