//! Binding-depth operations on terms and values.
//!
//! Substitution during application is a pure depth-adjusted replacement:
//! occurrences of the substituted depth are replaced (with the argument's
//! dangling depths shifted past the binders crossed), deeper references are
//! decremented, and applications whose head becomes a function are reduced
//! again. Reduction is bounded by fuel, since a term of this calculus need
//! not normalize; depths are bounded by the machine's index width.
//!
//! Each executable operation mirrors its mathematical model exactly.

use vstd::prelude::*;

use crate::term::{RcValue, RcTerm, Term, TermV, Value, ValueV};
use crate::var::{Debruijn, Name, NameV, Named, Var, VarV};

verus! {

/// The view of an optional shared value.
pub open spec fn opt_value_view(o: Option<RcValue>) -> Option<ValueV> {
    match o {
        Some(v) => Some(v@),
        None => None,
    }
}

/// The view of an optional shared term.
pub open spec fn opt_term_view(o: Option<RcTerm>) -> Option<TermV> {
    match o {
        Some(t) => Some(t@),
        None => None,
    }
}

/// Shift every dangling binding depth of `v` that is at least `c` upward by
/// `amt`. Fails only if a depth would exceed the index width.
pub open spec fn shift_v(v: ValueV, c: nat, amt: nat) -> Option<ValueV>
    decreases v,
{
    match v {
        ValueV::Var(x) => match x {
            VarV::Free(n) => Some(ValueV::Var(VarV::Free(n))),
            VarV::Bound(h, k) => if k < c {
                Some(ValueV::Var(VarV::Bound(h, k)))
            } else if k + amt > u32::MAX as nat {
                None
            } else {
                Some(ValueV::Var(VarV::Bound(h, k + amt)))
            },
        },
        ValueV::Type => Some(ValueV::Type),
        ValueV::Lam(h, ann, body) => if c >= u32::MAX as nat {
            None
        } else {
            let ann2 = match ann {
                Some(a) => match shift_v(*a, c, amt) {
                    Some(a2) => Some(Some(Box::new(a2))),
                    None => None,
                },
                None => Some(None),
            };
            match (ann2, shift_v(*body, c + 1, amt)) {
                (Some(a2), Some(b2)) => Some(ValueV::Lam(h, a2, Box::new(b2))),
                _ => None,
            }
        },
        ValueV::Pi(h, a, b) => if c >= u32::MAX as nat {
            None
        } else {
            match (shift_v(*a, c, amt), shift_v(*b, c + 1, amt)) {
                (Some(a2), Some(b2)) => Some(ValueV::Pi(h, Box::new(a2), Box::new(b2))),
                _ => None,
            }
        },
        ValueV::App(f, a) => match (shift_v(*f, c, amt), shift_v(*a, c, amt)) {
            (Some(f2), Some(a2)) => Some(ValueV::App(Box::new(f2), Box::new(a2))),
            _ => None,
        },
    }
}

/// Substitute `a` for the variable bound at depth `d` in `v`, decrementing
/// the depths that pointed past it and reducing any application whose head
/// thereby becomes a function. Fails only when the reduction fuel or the
/// index width runs out.
pub open spec fn inst_v(v: ValueV, d: nat, a: ValueV, fuel: nat) -> Option<ValueV>
    decreases fuel, v,
{
    match v {
        ValueV::Var(x) => match x {
            VarV::Free(n) => Some(ValueV::Var(VarV::Free(n))),
            VarV::Bound(h, k) => if k == d {
                shift_v(a, 0, d)
            } else if k > d {
                Some(ValueV::Var(VarV::Bound(h, (k - 1) as nat)))
            } else {
                Some(ValueV::Var(VarV::Bound(h, k)))
            },
        },
        ValueV::Type => Some(ValueV::Type),
        ValueV::Lam(h, ann, body) => if d >= u32::MAX as nat {
            None
        } else {
            let ann2 = match ann {
                Some(t) => match inst_v(*t, d, a, fuel) {
                    Some(t2) => Some(Some(Box::new(t2))),
                    None => None,
                },
                None => Some(None),
            };
            match (ann2, inst_v(*body, d + 1, a, fuel)) {
                (Some(a2), Some(b2)) => Some(ValueV::Lam(h, a2, Box::new(b2))),
                _ => None,
            }
        },
        ValueV::Pi(h, p, b) => if d >= u32::MAX as nat {
            None
        } else {
            match (inst_v(*p, d, a, fuel), inst_v(*b, d + 1, a, fuel)) {
                (Some(p2), Some(b2)) => Some(ValueV::Pi(h, Box::new(p2), Box::new(b2))),
                _ => None,
            }
        },
        ValueV::App(f, arg) => match (inst_v(*f, d, a, fuel), inst_v(*arg, d, a, fuel)) {
            (Some(f2), Some(a2)) => if f2 is Lam {
                if fuel == 0 {
                    None
                } else {
                    vapp_v(f2, a2, (fuel - 1) as nat)
                }
            } else {
                Some(ValueV::App(Box::new(f2), Box::new(a2)))
            },
            _ => None,
        },
    }
}

/// Apply the value `f` to the value `a`: a function reduces by
/// substitution, anything else forms a neutral application.
pub open spec fn vapp_v(f: ValueV, a: ValueV, fuel: nat) -> Option<ValueV>
    decreases fuel, f,
{
    match f {
        ValueV::Lam(_, _, body) => inst_v(*body, 0, a, fuel),
        _ => Some(ValueV::App(Box::new(f), Box::new(a))),
    }
}

/// Replace the variable bound at depth `d` in the term `t` by the free name
/// `n`, decrementing the depths that pointed past it: the first step of
/// working under a binder. Fails only when the index width runs out.
pub open spec fn open_t(t: TermV, d: nat, n: NameV) -> Option<TermV>
    decreases t,
{
    match t {
        TermV::Var(x) => match x {
            VarV::Free(m) => Some(TermV::Var(VarV::Free(m))),
            VarV::Bound(h, k) => if k == d {
                Some(TermV::Var(VarV::Free(n)))
            } else if k > d {
                Some(TermV::Var(VarV::Bound(h, (k - 1) as nat)))
            } else {
                Some(TermV::Var(VarV::Bound(h, k)))
            },
        },
        TermV::Type => Some(TermV::Type),
        TermV::Ann(e, ty) => match (open_t(*e, d, n), open_t(*ty, d, n)) {
            (Some(e2), Some(t2)) => Some(TermV::Ann(Box::new(e2), Box::new(t2))),
            _ => None,
        },
        TermV::Lam(h, ann, body) => if d >= u32::MAX as nat {
            None
        } else {
            let ann2 = match ann {
                Some(t) => match open_t(*t, d, n) {
                    Some(t2) => Some(Some(Box::new(t2))),
                    None => None,
                },
                None => Some(None),
            };
            match (ann2, open_t(*body, d + 1, n)) {
                (Some(a2), Some(b2)) => Some(TermV::Lam(h, a2, Box::new(b2))),
                _ => None,
            }
        },
        TermV::Pi(h, p, b) => if d >= u32::MAX as nat {
            None
        } else {
            match (open_t(*p, d, n), open_t(*b, d + 1, n)) {
                (Some(p2), Some(b2)) => Some(TermV::Pi(h, Box::new(p2), Box::new(b2))),
                _ => None,
            }
        },
        TermV::App(f, a) => match (open_t(*f, d, n), open_t(*a, d, n)) {
            (Some(f2), Some(a2)) => Some(TermV::App(Box::new(f2), Box::new(a2))),
            _ => None,
        },
    }
}

/// Replace the free name `n` in the value `v` by the variable bound at
/// depth `d`: the closing step that rebuilds a binder after working under
/// it. Fails only when the index width runs out.
pub open spec fn close_v(v: ValueV, d: nat, n: NameV) -> Option<ValueV>
    decreases v,
{
    match v {
        ValueV::Var(x) => match x {
            VarV::Free(m) => if m == n {
                if d > u32::MAX as nat {
                    None
                } else {
                    Some(ValueV::Var(VarV::Bound(m, d)))
                }
            } else {
                Some(ValueV::Var(VarV::Free(m)))
            },
            VarV::Bound(h, k) => Some(ValueV::Var(VarV::Bound(h, k))),
        },
        ValueV::Type => Some(ValueV::Type),
        ValueV::Lam(h, ann, body) => if d >= u32::MAX as nat {
            None
        } else {
            let ann2 = match ann {
                Some(t) => match close_v(*t, d, n) {
                    Some(t2) => Some(Some(Box::new(t2))),
                    None => None,
                },
                None => Some(None),
            };
            match (ann2, close_v(*body, d + 1, n)) {
                (Some(a2), Some(b2)) => Some(ValueV::Lam(h, a2, Box::new(b2))),
                _ => None,
            }
        },
        ValueV::Pi(h, p, b) => if d >= u32::MAX as nat {
            None
        } else {
            match (close_v(*p, d, n), close_v(*b, d + 1, n)) {
                (Some(p2), Some(b2)) => Some(ValueV::Pi(h, Box::new(p2), Box::new(b2))),
                _ => None,
            }
        },
        ValueV::App(f, a) => match (close_v(*f, d, n), close_v(*a, d, n)) {
            (Some(f2), Some(a2)) => Some(ValueV::App(Box::new(f2), Box::new(a2))),
            _ => None,
        },
    }
}

/// Executable depth shift; see [`shift_v`].
pub fn shift(v: &RcValue, c: u32, amt: u32) -> (r: Option<RcValue>)
    ensures
        opt_value_view(r) == shift_v(v@, c as nat, amt as nat),
    decreases *v.0,
{
    match &*v.0 {
        Value::Var(x) => match x {
            Var::Free(_) => Some(v.clone()),
            Var::Bound(nd) => {
                let k = nd.1.0;
                if k < c {
                    Some(v.clone())
                } else if k > u32::MAX - amt {
                    None
                } else {
                    Some(RcValue::new(Value::Var(Var::Bound(Named(nd.0.clone(), Debruijn(k + amt))))))
                }
            },
        },
        Value::Type => Some(v.clone()),
        Value::Lam(nd, body) => {
            if c == u32::MAX {
                return None;
            }
            let ann2 = match &nd.1 {
                Some(a) => match shift(a, c, amt) {
                    Some(a2) => Some(a2),
                    None => {
                        return None;
                    },
                },
                None => None,
            };
            match shift(body, c + 1, amt) {
                Some(b2) => Some(RcValue::new(Value::Lam(Named(nd.0.clone(), ann2), b2))),
                None => None,
            }
        },
        Value::Pi(nd, b) => {
            if c == u32::MAX {
                return None;
            }
            match (shift(&nd.1, c, amt), shift(b, c + 1, amt)) {
                (Some(a2), Some(b2)) => Some(RcValue::new(Value::Pi(Named(nd.0.clone(), a2), b2))),
                _ => None,
            }
        },
        Value::App(f, a) => match (shift(f, c, amt), shift(a, c, amt)) {
            (Some(f2), Some(a2)) => Some(RcValue::new(Value::App(f2, a2))),
            _ => None,
        },
    }
}

/// Executable substitution; see [`inst_v`].
pub fn inst(v: &RcValue, d: u32, a: &RcValue, fuel: u64) -> (r: Option<RcValue>)
    ensures
        opt_value_view(r) == inst_v(v@, d as nat, a@, fuel as nat),
    decreases fuel, *v.0,
{
    match &*v.0 {
        Value::Var(x) => match x {
            Var::Free(_) => Some(v.clone()),
            Var::Bound(nd) => {
                let k = nd.1.0;
                if k == d {
                    shift(a, 0, d)
                } else if k > d {
                    Some(RcValue::new(Value::Var(Var::Bound(Named(nd.0.clone(), Debruijn(k - 1))))))
                } else {
                    Some(v.clone())
                }
            },
        },
        Value::Type => Some(v.clone()),
        Value::Lam(nd, body) => {
            if d == u32::MAX {
                return None;
            }
            let ann2 = match &nd.1 {
                Some(t) => match inst(t, d, a, fuel) {
                    Some(t2) => Some(t2),
                    None => {
                        return None;
                    },
                },
                None => None,
            };
            match inst(body, d + 1, a, fuel) {
                Some(b2) => Some(RcValue::new(Value::Lam(Named(nd.0.clone(), ann2), b2))),
                None => None,
            }
        },
        Value::Pi(nd, b) => {
            if d == u32::MAX {
                return None;
            }
            match (inst(&nd.1, d, a, fuel), inst(b, d + 1, a, fuel)) {
                (Some(p2), Some(b2)) => Some(RcValue::new(Value::Pi(Named(nd.0.clone(), p2), b2))),
                _ => None,
            }
        },
        Value::App(f, arg) => match (inst(f, d, a, fuel), inst(arg, d, a, fuel)) {
            (Some(f2), Some(a2)) => {
                let is_lam = matches!(&*f2.0, Value::Lam(_, _));
                if is_lam {
                    if fuel == 0 {
                        None
                    } else {
                        vapp(f2, a2, fuel - 1)
                    }
                } else {
                    Some(RcValue::new(Value::App(f2, a2)))
                }
            },
            _ => None,
        },
    }
}

/// Executable application of one value to another; see [`vapp_v`].
pub fn vapp(f: RcValue, a: RcValue, fuel: u64) -> (r: Option<RcValue>)
    ensures
        opt_value_view(r) == vapp_v(f@, a@, fuel as nat),
    decreases fuel, *f.0,
{
    match &*f.0 {
        Value::Lam(_, body) => inst(body, 0, &a, fuel),
        _ => Some(RcValue::new(Value::App(f, a))),
    }
}

/// Executable opening of a term under a binder; see [`open_t`].
pub fn open_term(t: &RcTerm, d: u32, n: &Name) -> (r: Option<RcTerm>)
    ensures
        opt_term_view(r) == open_t(t@, d as nat, n@),
    decreases *t.0,
{
    match &*t.0 {
        Term::Var(x) => match x {
            Var::Free(_) => Some(t.clone()),
            Var::Bound(nd) => {
                let k = nd.1.0;
                if k == d {
                    Some(RcTerm::new(Term::Var(Var::Free(n.clone()))))
                } else if k > d {
                    Some(RcTerm::new(Term::Var(Var::Bound(Named(nd.0.clone(), Debruijn(k - 1))))))
                } else {
                    Some(t.clone())
                }
            },
        },
        Term::Type => Some(t.clone()),
        Term::Ann(e, ty) => match (open_term(e, d, n), open_term(ty, d, n)) {
            (Some(e2), Some(t2)) => Some(RcTerm::new(Term::Ann(e2, t2))),
            _ => None,
        },
        Term::Lam(nd, body) => {
            if d == u32::MAX {
                return None;
            }
            let ann2 = match &nd.1 {
                Some(x) => match open_term(x, d, n) {
                    Some(x2) => Some(x2),
                    None => {
                        return None;
                    },
                },
                None => None,
            };
            match open_term(body, d + 1, n) {
                Some(b2) => Some(RcTerm::new(Term::Lam(Named(nd.0.clone(), ann2), b2))),
                None => None,
            }
        },
        Term::Pi(nd, b) => {
            if d == u32::MAX {
                return None;
            }
            match (open_term(&nd.1, d, n), open_term(b, d + 1, n)) {
                (Some(p2), Some(b2)) => Some(RcTerm::new(Term::Pi(Named(nd.0.clone(), p2), b2))),
                _ => None,
            }
        },
        Term::App(f, a) => match (open_term(f, d, n), open_term(a, d, n)) {
            (Some(f2), Some(a2)) => Some(RcTerm::new(Term::App(f2, a2))),
            _ => None,
        },
    }
}

/// Executable closing of a value over a free name; see [`close_v`].
pub fn close_value(v: &RcValue, d: u32, n: &Name) -> (r: Option<RcValue>)
    ensures
        opt_value_view(r) == close_v(v@, d as nat, n@),
    decreases *v.0,
{
    match &*v.0 {
        Value::Var(x) => match x {
            Var::Free(m) => if crate::var::name_eq(m, n) {
                Some(RcValue::new(Value::Var(Var::Bound(Named(m.clone(), Debruijn(d))))))
            } else {
                Some(v.clone())
            },
            Var::Bound(_) => Some(v.clone()),
        },
        Value::Type => Some(v.clone()),
        Value::Lam(nd, body) => {
            if d == u32::MAX {
                return None;
            }
            let ann2 = match &nd.1 {
                Some(t) => match close_value(t, d, n) {
                    Some(t2) => Some(t2),
                    None => {
                        return None;
                    },
                },
                None => None,
            };
            match close_value(body, d + 1, n) {
                Some(b2) => Some(RcValue::new(Value::Lam(Named(nd.0.clone(), ann2), b2))),
                None => None,
            }
        },
        Value::Pi(nd, b) => {
            if d == u32::MAX {
                return None;
            }
            match (close_value(&nd.1, d, n), close_value(b, d + 1, n)) {
                (Some(p2), Some(b2)) => Some(RcValue::new(Value::Pi(Named(nd.0.clone(), p2), b2))),
                _ => None,
            }
        },
        Value::App(f, a) => match (close_value(f, d, n), close_value(a, d, n)) {
            (Some(f2), Some(a2)) => Some(RcValue::new(Value::App(f2, a2))),
            _ => None,
        },
    }
}

} // verus!
