//! Alpha-equivalence laws: a binder's cosmetic hint never influences
//! evaluation or checking.
//!
//! Two terms are alpha-equivalent when their hint erasures are equal. The
//! lemmas here show that every operation of the evaluator and the checker
//! commutes with erasure, and conclude the laws: evaluating or inferring
//! alpha-equivalent terms gives alpha-equivalent results, error for error.

use vstd::prelude::*;

use crate::check::{
    eval_v, infer_v, lookup_v, type_error_eq_spec, check_v, EntryV, TypeErrorV,
};
use crate::subst::{close_v, inst_v, open_t, shift_v, vapp_v};
use crate::term::{strip_t, strip_v, TermV, ValueV};
use crate::var::{strip_var, NameV, VarV};

verus! {

/// Erase the hints of an optional value.
pub open spec fn strip_opt_v(o: Option<ValueV>) -> Option<ValueV> {
    match o {
        Some(v) => Some(strip_v(v)),
        None => None,
    }
}

/// Erase the hints of an optional term.
pub open spec fn strip_opt_t(o: Option<TermV>) -> Option<TermV> {
    match o {
        Some(t) => Some(strip_t(t)),
        None => None,
    }
}

/// Erase the hints of a context binding.
pub open spec fn strip_entry(e: EntryV) -> EntryV {
    EntryV {
        name: e.name,
        ty: strip_v(e.ty),
        def: match e.def {
            Some(v) => Some(strip_v(v)),
            None => None,
        },
    }
}

/// Erase the hints of every binding of a context. The bound identities
/// are kept: they are significant.
pub open spec fn strip_ctx(ctx: Seq<EntryV>) -> Seq<EntryV> {
    Seq::new(ctx.len(), |i: int| strip_entry(ctx[i]))
}

/// Erase the hints of the values a type error reports.
pub open spec fn strip_err(e: TypeErrorV) -> TypeErrorV {
    match e {
        TypeErrorV::UnboundVariable(n) => TypeErrorV::UnboundVariable(n),
        TypeErrorV::ExpectedFunction { found_type } => TypeErrorV::ExpectedFunction {
            found_type: strip_v(found_type),
        },
        TypeErrorV::IllegalApplication => TypeErrorV::IllegalApplication,
        TypeErrorV::TypeMismatch { expected, found } => TypeErrorV::TypeMismatch {
            expected: strip_v(expected),
            found: strip_v(found),
        },
        TypeErrorV::AnnotationNeeded => TypeErrorV::AnnotationNeeded,
        TypeErrorV::OutOfFuel => TypeErrorV::OutOfFuel,
    }
}

/// Erase the hints of an inference result.
pub open spec fn strip_res(r: Result<ValueV, TypeErrorV>) -> Result<ValueV, TypeErrorV> {
    match r {
        Ok(v) => Ok(strip_v(v)),
        Err(e) => Err(strip_err(e)),
    }
}

/// Erase the hints of a checking result.
pub open spec fn strip_res_unit(r: Result<(), TypeErrorV>) -> Result<(), TypeErrorV> {
    match r {
        Ok(u) => Ok(u),
        Err(e) => Err(strip_err(e)),
    }
}

/// Erasing hints twice is erasing them once.
pub proof fn lemma_strip_v_idem(v: ValueV)
    ensures
        strip_v(strip_v(v)) == strip_v(v),
    decreases v,
{
    match v {
        ValueV::Var(_) => {},
        ValueV::Type => {},
        ValueV::Lam(_, ann, body) => {
            match ann {
                Some(a) => lemma_strip_v_idem(*a),
                None => {},
            }
            lemma_strip_v_idem(*body);
        },
        ValueV::Pi(_, a, b) => {
            lemma_strip_v_idem(*a);
            lemma_strip_v_idem(*b);
        },
        ValueV::App(f, a) => {
            lemma_strip_v_idem(*f);
            lemma_strip_v_idem(*a);
        },
    }
}

/// Shifting commutes with hint erasure.
pub proof fn lemma_shift_commute(v: ValueV, c: nat, amt: nat)
    ensures
        strip_opt_v(shift_v(v, c, amt)) == strip_opt_v(shift_v(strip_v(v), c, amt)),
    decreases v,
{
    match v {
        ValueV::Var(_) => {},
        ValueV::Type => {},
        ValueV::Lam(_, ann, body) => {
            match ann {
                Some(a) => lemma_shift_commute(*a, c, amt),
                None => {},
            }
            lemma_shift_commute(*body, c + 1, amt);
        },
        ValueV::Pi(_, a, b) => {
            lemma_shift_commute(*a, c, amt);
            lemma_shift_commute(*b, c + 1, amt);
        },
        ValueV::App(f, a) => {
            lemma_shift_commute(*f, c, amt);
            lemma_shift_commute(*a, c, amt);
        },
    }
}

/// Substitution commutes with hint erasure.
pub proof fn lemma_inst_commute(v: ValueV, d: nat, a: ValueV, fuel: nat)
    ensures
        strip_opt_v(inst_v(v, d, a, fuel)) == strip_opt_v(
            inst_v(strip_v(v), d, strip_v(a), fuel),
        ),
    decreases fuel, v,
{
    match v {
        ValueV::Var(x) => match x {
            VarV::Free(_) => {},
            VarV::Bound(_, k) => if k == d {
                lemma_shift_commute(a, 0, d);
            } else {
            },
        },
        ValueV::Type => {},
        ValueV::Lam(_, ann, body) => if d < u32::MAX as nat {
            match ann {
                Some(t) => lemma_inst_commute(*t, d, a, fuel),
                None => {},
            }
            lemma_inst_commute(*body, d + 1, a, fuel);
        } else {
        },
        ValueV::Pi(_, p, b) => if d < u32::MAX as nat {
            lemma_inst_commute(*p, d, a, fuel);
            lemma_inst_commute(*b, d + 1, a, fuel);
        } else {
        },
        ValueV::App(f, arg) => {
            lemma_inst_commute(*f, d, a, fuel);
            lemma_inst_commute(*arg, d, a, fuel);
            let fr = inst_v(*f, d, a, fuel);
            let ar = inst_v(*arg, d, a, fuel);
            let fr2 = inst_v(strip_v(*f), d, strip_v(a), fuel);
            let ar2 = inst_v(strip_v(*arg), d, strip_v(a), fuel);
            match (fr, ar) {
                (Some(fv), Some(av)) => {
                    if fv is Lam && fuel > 0 {
                        lemma_vapp_commute(fv, av, (fuel - 1) as nat);
                        match (fr2, ar2) {
                            (Some(fv2), Some(av2)) => {
                                lemma_strip_v_idem(fv2);
                                lemma_strip_v_idem(av2);
                                lemma_vapp_commute(fv2, av2, (fuel - 1) as nat);
                            },
                            _ => {},
                        }
                    }
                },
                _ => {},
            }
        },
    }
}

/// Application of values commutes with hint erasure.
pub proof fn lemma_vapp_commute(f: ValueV, a: ValueV, fuel: nat)
    ensures
        strip_opt_v(vapp_v(f, a, fuel)) == strip_opt_v(vapp_v(strip_v(f), strip_v(a), fuel)),
    decreases fuel, f,
{
    match f {
        ValueV::Lam(_, _, body) => {
            lemma_inst_commute(*body, 0, a, fuel);
        },
        _ => {
            lemma_strip_v_idem(f);
            lemma_strip_v_idem(a);
        },
    }
}

/// Context lookup commutes with hint erasure: the same binding is found,
/// with its hints erased.
pub proof fn lemma_lookup_commute(ctx: Seq<EntryV>, n: NameV)
    ensures
        match lookup_v(ctx, n) {
            Some(e) => lookup_v(strip_ctx(ctx), n) == Some(strip_entry(e)),
            None => lookup_v(strip_ctx(ctx), n) is None,
        },
    decreases ctx.len(),
{
    if ctx.len() == 0 {
    } else {
        assert(strip_ctx(ctx).last() == strip_entry(ctx.last()));
        assert(strip_ctx(ctx).drop_last() =~= strip_ctx(ctx.drop_last()));
        if ctx.last().name == n {
        } else {
            lemma_lookup_commute(ctx.drop_last(), n);
        }
    }
}

/// Evaluation commutes with hint erasure.
pub proof fn lemma_eval_commute(ctx: Seq<EntryV>, t: TermV, fuel: nat)
    ensures
        strip_opt_v(eval_v(ctx, t, fuel)) == strip_opt_v(
            eval_v(strip_ctx(ctx), strip_t(t), fuel),
        ),
    decreases fuel, t,
{
    match t {
        TermV::Var(x) => match x {
            VarV::Free(n) => {
                lemma_lookup_commute(ctx, n);
                match lookup_v(ctx, n) {
                    Some(e) => match e.def {
                        Some(v) => lemma_strip_v_idem(v),
                        None => {},
                    },
                    None => {},
                }
            },
            VarV::Bound(_, _) => {},
        },
        TermV::Type => {},
        TermV::Ann(e, _) => {
            lemma_eval_commute(ctx, *e, fuel);
        },
        TermV::Lam(_, ann, body) => {
            match ann {
                Some(a) => lemma_eval_commute(ctx, *a, fuel),
                None => {},
            }
            lemma_eval_commute(ctx, *body, fuel);
        },
        TermV::Pi(_, p, b) => {
            lemma_eval_commute(ctx, *p, fuel);
            lemma_eval_commute(ctx, *b, fuel);
        },
        TermV::App(f, a) => {
            lemma_eval_commute(ctx, *f, fuel);
            lemma_eval_commute(ctx, *a, fuel);
            if fuel > 0 {
                match (eval_v(ctx, *f, fuel), eval_v(ctx, *a, fuel)) {
                    (Some(fv), Some(av)) => {
                        lemma_vapp_commute(fv, av, (fuel - 1) as nat);
                        match (
                            eval_v(strip_ctx(ctx), strip_t(*f), fuel),
                            eval_v(strip_ctx(ctx), strip_t(*a), fuel),
                        ) {
                            (Some(fv2), Some(av2)) => {
                                lemma_vapp_commute(fv2, av2, (fuel - 1) as nat);
                            },
                            _ => {},
                        }
                    },
                    _ => {},
                }
            }
        },
    }
}

/// Opening a term under a binder commutes with hint erasure.
pub proof fn lemma_open_commute(t: TermV, d: nat, n: NameV)
    ensures
        strip_opt_t(open_t(t, d, n)) == strip_opt_t(open_t(strip_t(t), d, n)),
    decreases t,
{
    match t {
        TermV::Var(_) => {},
        TermV::Type => {},
        TermV::Ann(e, ty) => {
            lemma_open_commute(*e, d, n);
            lemma_open_commute(*ty, d, n);
        },
        TermV::Lam(_, ann, body) => if d < u32::MAX as nat {
            match ann {
                Some(a) => lemma_open_commute(*a, d, n),
                None => {},
            }
            lemma_open_commute(*body, d + 1, n);
        } else {
        },
        TermV::Pi(_, p, b) => if d < u32::MAX as nat {
            lemma_open_commute(*p, d, n);
            lemma_open_commute(*b, d + 1, n);
        } else {
        },
        TermV::App(f, a) => {
            lemma_open_commute(*f, d, n);
            lemma_open_commute(*a, d, n);
        },
    }
}

/// Closing a value over a free name commutes with hint erasure.
pub proof fn lemma_close_commute(v: ValueV, d: nat, n: NameV)
    ensures
        strip_opt_v(close_v(v, d, n)) == strip_opt_v(close_v(strip_v(v), d, n)),
    decreases v,
{
    match v {
        ValueV::Var(_) => {},
        ValueV::Type => {},
        ValueV::Lam(_, ann, body) => if d < u32::MAX as nat {
            match ann {
                Some(a) => lemma_close_commute(*a, d, n),
                None => {},
            }
            lemma_close_commute(*body, d + 1, n);
        } else {
        },
        ValueV::Pi(_, p, b) => if d < u32::MAX as nat {
            lemma_close_commute(*p, d, n);
            lemma_close_commute(*b, d + 1, n);
        } else {
        },
        ValueV::App(f, a) => {
            lemma_close_commute(*f, d, n);
            lemma_close_commute(*a, d, n);
        },
    }
}

/// Evaluating alpha-equivalent terms in alpha-equivalent contexts gives
/// alpha-equivalent results.
proof fn lemma_eval_cong(c1: Seq<EntryV>, c2: Seq<EntryV>, t1: TermV, t2: TermV, fuel: nat)
    requires
        strip_ctx(c1) == strip_ctx(c2),
        strip_t(t1) == strip_t(t2),
    ensures
        strip_opt_v(eval_v(c1, t1, fuel)) == strip_opt_v(eval_v(c2, t2, fuel)),
{
    lemma_eval_commute(c1, t1, fuel);
    lemma_eval_commute(c2, t2, fuel);
}

/// Opening alpha-equivalent terms gives alpha-equivalent terms.
proof fn lemma_open_cong(t1: TermV, t2: TermV, d: nat, n: NameV)
    requires
        strip_t(t1) == strip_t(t2),
    ensures
        strip_opt_t(open_t(t1, d, n)) == strip_opt_t(open_t(t2, d, n)),
{
    lemma_open_commute(t1, d, n);
    lemma_open_commute(t2, d, n);
}

/// Closing alpha-equivalent values gives alpha-equivalent values.
proof fn lemma_close_cong(v1: ValueV, v2: ValueV, d: nat, n: NameV)
    requires
        strip_v(v1) == strip_v(v2),
    ensures
        strip_opt_v(close_v(v1, d, n)) == strip_opt_v(close_v(v2, d, n)),
{
    lemma_close_commute(v1, d, n);
    lemma_close_commute(v2, d, n);
}

/// Substituting alpha-equivalent values into alpha-equivalent values
/// gives alpha-equivalent values.
proof fn lemma_inst_cong(v1: ValueV, v2: ValueV, d: nat, a1: ValueV, a2: ValueV, fuel: nat)
    requires
        strip_v(v1) == strip_v(v2),
        strip_v(a1) == strip_v(a2),
    ensures
        strip_opt_v(inst_v(v1, d, a1, fuel)) == strip_opt_v(inst_v(v2, d, a2, fuel)),
{
    lemma_inst_commute(v1, d, a1, fuel);
    lemma_inst_commute(v2, d, a2, fuel);
}

/// Looking a name up in alpha-equivalent contexts finds alpha-equivalent
/// bindings, or none in both.
proof fn lemma_lookup_cong(c1: Seq<EntryV>, c2: Seq<EntryV>, n: NameV)
    requires
        strip_ctx(c1) == strip_ctx(c2),
    ensures
        match (lookup_v(c1, n), lookup_v(c2, n)) {
            (Some(e1), Some(e2)) => strip_entry(e1) == strip_entry(e2),
            (None, None) => true,
            _ => false,
        },
{
    lemma_lookup_commute(c1, n);
    lemma_lookup_commute(c2, n);
}

/// Alpha-equivalent contexts have the same length.
proof fn lemma_strip_ctx_len(c1: Seq<EntryV>, c2: Seq<EntryV>)
    requires
        strip_ctx(c1) == strip_ctx(c2),
    ensures
        c1.len() == c2.len(),
{
    assert(strip_ctx(c1).len() == c1.len());
    assert(strip_ctx(c2).len() == c2.len());
}

/// Pushing alpha-equivalent bindings onto alpha-equivalent contexts gives
/// alpha-equivalent contexts.
proof fn lemma_strip_ctx_push(c1: Seq<EntryV>, c2: Seq<EntryV>, e1: EntryV, e2: EntryV)
    requires
        strip_ctx(c1) == strip_ctx(c2),
        strip_entry(e1) == strip_entry(e2),
    ensures
        strip_ctx(c1.push(e1)) == strip_ctx(c2.push(e2)),
{
    lemma_strip_ctx_len(c1, c2);
    let n = c1.len() as int;
    assert forall|i: int| 0 <= i < n + 1 implies strip_ctx(c1.push(e1))[i] == strip_ctx(
        c2.push(e2),
    )[i] by {
        if i < n {
            assert(c1.push(e1)[i] == c1[i]);
            assert(c2.push(e2)[i] == c2[i]);
            assert(strip_ctx(c1)[i] == strip_entry(c1[i]));
            assert(strip_ctx(c2)[i] == strip_entry(c2[i]));
            assert(strip_entry(c1[i]) == strip_entry(c2[i]));
            assert(strip_ctx(c1.push(e1))[i] == strip_entry(c1.push(e1)[i]));
            assert(strip_ctx(c2.push(e2))[i] == strip_entry(c2.push(e2)[i]));
        } else {
            assert(c1.push(e1)[i] == e1);
            assert(c2.push(e2)[i] == e2);
            assert(strip_ctx(c1.push(e1))[i] == strip_entry(e1));
            assert(strip_ctx(c2.push(e2))[i] == strip_entry(e2));
        }
    }
    assert(strip_ctx(c1.push(e1)) =~= strip_ctx(c2.push(e2)));
}

/// Synthesis congruence: inferring the types of alpha-equivalent terms in
/// alpha-equivalent contexts gives alpha-equivalent types, or reports
/// alpha-equivalent errors.
#[verifier::rlimit(100)]
proof fn lemma_infer_cong(c1: Seq<EntryV>, c2: Seq<EntryV>, t1: TermV, t2: TermV, fuel: nat)
    requires
        strip_ctx(c1) == strip_ctx(c2),
        strip_t(t1) == strip_t(t2),
    ensures
        strip_res(infer_v(c1, t1, fuel)) == strip_res(infer_v(c2, t2, fuel)),
    decreases fuel, t1, 0int,
{
    lemma_strip_ctx_len(c1, c2);
    match (t1, t2) {
        (TermV::Var(x1), TermV::Var(x2)) => {
            assert(strip_var(x1) == strip_var(x2));
            match (x1, x2) {
                (VarV::Free(n1), VarV::Free(n2)) => {
                    assert(n1 == n2);
                    lemma_lookup_cong(c1, c2, n1);
                },
                _ => {},
            }
        },
        (TermV::Type, TermV::Type) => {},
        (TermV::Ann(e1, ty1), TermV::Ann(e2, ty2)) => {
            lemma_check_cong(c1, c2, *ty1, *ty2, ValueV::Type, ValueV::Type, fuel);
            match (
                check_v(c1, *ty1, ValueV::Type, fuel),
                check_v(c2, *ty2, ValueV::Type, fuel),
            ) {
                (Ok(_), Ok(_)) => {
                    lemma_eval_cong(c1, c2, *ty1, *ty2, fuel);
                    match (eval_v(c1, *ty1, fuel), eval_v(c2, *ty2, fuel)) {
                        (Some(tv1), Some(tv2)) => {
                            lemma_check_cong(c1, c2, *e1, *e2, tv1, tv2, fuel);
                        },
                        _ => {},
                    }
                },
                _ => {},
            }
        },
        (TermV::Lam(_, ann1, body1), TermV::Lam(_, ann2, body2)) => {
            match (ann1, ann2) {
                (Some(at1), Some(at2)) => {
                    lemma_check_cong(c1, c2, *at1, *at2, ValueV::Type, ValueV::Type, fuel);
                    match (
                        check_v(c1, *at1, ValueV::Type, fuel),
                        check_v(c2, *at2, ValueV::Type, fuel),
                    ) {
                        (Ok(_), Ok(_)) => {
                            lemma_eval_cong(c1, c2, *at1, *at2, fuel);
                            match (eval_v(c1, *at1, fuel), eval_v(c2, *at2, fuel)) {
                                (Some(av1), Some(av2)) => if c1.len() < u64::MAX as nat
                                    && fuel > 0 {
                                    let g = NameV::Gen(c1.len());
                                    lemma_open_cong(*body1, *body2, 0, g);
                                    match (open_t(*body1, 0, g), open_t(*body2, 0, g)) {
                                        (Some(b1o), Some(b2o)) => {
                                            let d1 = c1.push(
                                                EntryV { name: g, ty: av1, def: None },
                                            );
                                            let d2 = c2.push(
                                                EntryV { name: g, ty: av2, def: None },
                                            );
                                            lemma_strip_ctx_push(
                                                c1,
                                                c2,
                                                EntryV { name: g, ty: av1, def: None },
                                                EntryV { name: g, ty: av2, def: None },
                                            );
                                            lemma_infer_cong(
                                                d1,
                                                d2,
                                                b1o,
                                                b2o,
                                                (fuel - 1) as nat,
                                            );
                                            match (
                                                infer_v(d1, b1o, (fuel - 1) as nat),
                                                infer_v(d2, b2o, (fuel - 1) as nat),
                                            ) {
                                                (Ok(bty1), Ok(bty2)) => {
                                                    lemma_close_cong(bty1, bty2, 0, g);
                                                },
                                                _ => {},
                                            }
                                        },
                                        _ => {},
                                    }
                                } else {
                                },
                                _ => {},
                            }
                        },
                        _ => {},
                    }
                },
                (None, None) => {},
                _ => {},
            }
        },
        (TermV::Pi(_, p1, b1), TermV::Pi(_, p2, b2)) => {
            lemma_check_cong(c1, c2, *p1, *p2, ValueV::Type, ValueV::Type, fuel);
            match (
                check_v(c1, *p1, ValueV::Type, fuel),
                check_v(c2, *p2, ValueV::Type, fuel),
            ) {
                (Ok(_), Ok(_)) => {
                    lemma_eval_cong(c1, c2, *p1, *p2, fuel);
                    match (eval_v(c1, *p1, fuel), eval_v(c2, *p2, fuel)) {
                        (Some(pv1), Some(pv2)) => if c1.len() < u64::MAX as nat && fuel > 0 {
                            let g = NameV::Gen(c1.len());
                            lemma_open_cong(*b1, *b2, 0, g);
                            match (open_t(*b1, 0, g), open_t(*b2, 0, g)) {
                                (Some(b1o), Some(b2o)) => {
                                    let d1 = c1.push(EntryV { name: g, ty: pv1, def: None });
                                    let d2 = c2.push(EntryV { name: g, ty: pv2, def: None });
                                    lemma_strip_ctx_push(
                                        c1,
                                        c2,
                                        EntryV { name: g, ty: pv1, def: None },
                                        EntryV { name: g, ty: pv2, def: None },
                                    );
                                    lemma_check_cong(
                                        d1,
                                        d2,
                                        b1o,
                                        b2o,
                                        ValueV::Type,
                                        ValueV::Type,
                                        (fuel - 1) as nat,
                                    );
                                },
                                _ => {},
                            }
                        } else {
                        },
                        _ => {},
                    }
                },
                _ => {},
            }
        },
        (TermV::App(f1, a1), TermV::App(f2, a2)) => {
            lemma_infer_cong(c1, c2, *f1, *f2, fuel);
            match (infer_v(c1, *f1, fuel), infer_v(c2, *f2, fuel)) {
                (Ok(fty1), Ok(fty2)) => {
                    assert(strip_v(fty1) == strip_v(fty2));
                    match (fty1, fty2) {
                        (ValueV::Pi(_, pty1, rty1), ValueV::Pi(_, pty2, rty2)) => {
                            lemma_check_cong(c1, c2, *a1, *a2, *pty1, *pty2, fuel);
                            match (
                                check_v(c1, *a1, *pty1, fuel),
                                check_v(c2, *a2, *pty2, fuel),
                            ) {
                                (Ok(_), Ok(_)) => {
                                    lemma_eval_cong(c1, c2, *a1, *a2, fuel);
                                    match (eval_v(c1, *a1, fuel), eval_v(c2, *a2, fuel)) {
                                        (Some(av1), Some(av2)) => if fuel > 0 {
                                            lemma_inst_cong(
                                                *rty1,
                                                *rty2,
                                                0,
                                                av1,
                                                av2,
                                                (fuel - 1) as nat,
                                            );
                                        } else {
                                        },
                                        _ => {},
                                    }
                                },
                                _ => {},
                            }
                        },
                        _ => {},
                    }
                },
                _ => {},
            }
        },
        _ => {},
    }
}

/// Checking congruence: checking alpha-equivalent terms against
/// alpha-equivalent expected types in alpha-equivalent contexts agrees,
/// error for error.
proof fn lemma_check_cong(
    c1: Seq<EntryV>,
    c2: Seq<EntryV>,
    t1: TermV,
    t2: TermV,
    e1: ValueV,
    e2: ValueV,
    fuel: nat,
)
    requires
        strip_ctx(c1) == strip_ctx(c2),
        strip_t(t1) == strip_t(t2),
        strip_v(e1) == strip_v(e2),
    ensures
        strip_res_unit(check_v(c1, t1, e1, fuel)) == strip_res_unit(check_v(c2, t2, e2, fuel)),
    decreases fuel, t1, 1int,
{
    lemma_strip_ctx_len(c1, c2);
    match (t1, t2) {
        (TermV::Lam(_, _, _), TermV::Lam(_, _, _)) => {
            match (e1, e2) {
                (ValueV::Pi(_, _, _), ValueV::Pi(_, _, _)) => {
                    lemma_check_lam_under(c1, c2, t1, t2, e1, e2, fuel);
                },
                _ => {},
            }
        },
        _ => {
            lemma_infer_cong(c1, c2, t1, t2, fuel);
        },
    }
}

/// The part of checking a function against a function type that moves
/// under the binder, shared by [`lemma_check_cong`].
proof fn lemma_check_lam_under(
    c1: Seq<EntryV>,
    c2: Seq<EntryV>,
    t1: TermV,
    t2: TermV,
    e1: ValueV,
    e2: ValueV,
    fuel: nat,
)
    requires
        strip_ctx(c1) == strip_ctx(c2),
        strip_t(t1) == strip_t(t2),
        strip_v(e1) == strip_v(e2),
        t1 is Lam,
        e1 is Pi,
        c1.len() == c2.len(),
    ensures
        strip_res_unit(check_v(c1, t1, e1, fuel)) == strip_res_unit(check_v(c2, t2, e2, fuel)),
    decreases fuel, t1, 0int,
{
    match (t1, t2) {
        (TermV::Lam(_, ann1, body1), TermV::Lam(_, ann2, body2)) => {
            match (e1, e2) {
                (ValueV::Pi(_, pty1, rty1), ValueV::Pi(_, pty2, rty2)) => {
                    match (ann1, ann2) {
                        (Some(at1), Some(at2)) => {
                            lemma_check_cong(
                                c1,
                                c2,
                                *at1,
                                *at2,
                                ValueV::Type,
                                ValueV::Type,
                                fuel,
                            );
                            match (
                                check_v(c1, *at1, ValueV::Type, fuel),
                                check_v(c2, *at2, ValueV::Type, fuel),
                            ) {
                                (Ok(_), Ok(_)) => {
                                    lemma_eval_cong(c1, c2, *at1, *at2, fuel);
                                },
                                _ => {},
                            }
                        },
                        (None, None) => {},
                        _ => {},
                    }
                    if c1.len() < u64::MAX as nat && fuel > 0 {
                        let g = NameV::Gen(c1.len());
                        lemma_open_cong(*body1, *body2, 0, g);
                        lemma_inst_cong(
                            *rty1,
                            *rty2,
                            0,
                            ValueV::Var(VarV::Free(g)),
                            ValueV::Var(VarV::Free(g)),
                            (fuel - 1) as nat,
                        );
                        match (
                            open_t(*body1, 0, g),
                            open_t(*body2, 0, g),
                            inst_v(*rty1, 0, ValueV::Var(VarV::Free(g)), (fuel - 1) as nat),
                            inst_v(*rty2, 0, ValueV::Var(VarV::Free(g)), (fuel - 1) as nat),
                        ) {
                            (Some(b1o), Some(b2o), Some(r1o), Some(r2o)) => {
                                let d1 = c1.push(EntryV { name: g, ty: *pty1, def: None });
                                let d2 = c2.push(EntryV { name: g, ty: *pty2, def: None });
                                lemma_strip_ctx_push(
                                    c1,
                                    c2,
                                    EntryV { name: g, ty: *pty1, def: None },
                                    EntryV { name: g, ty: *pty2, def: None },
                                );
                                lemma_check_cong(d1, d2, b1o, b2o, r1o, r2o, (fuel - 1) as nat);
                            },
                            _ => {},
                        }
                    }
                },
                _ => {},
            }
        },
        _ => {},
    }
}

/// LAW. Renaming a bound variable's cosmetic hint never changes the
/// result of evaluation: evaluating two alpha-equivalent terms in the
/// same context gives alpha-equivalent values, or runs out of fuel on
/// both.
pub proof fn eval_respects_alpha(ctx: Seq<EntryV>, t1: TermV, t2: TermV, fuel: nat)
    requires
        strip_t(t1) == strip_t(t2),
    ensures
        strip_opt_v(eval_v(ctx, t1, fuel)) == strip_opt_v(eval_v(ctx, t2, fuel)),
{
    lemma_eval_cong(ctx, ctx, t1, t2, fuel);
}

/// LAW. Renaming a bound variable's cosmetic hint never changes the
/// result of type synthesis: inferring the types of two alpha-equivalent
/// terms in the same context gives alpha-equivalent types, or
/// alpha-equivalent errors.
pub proof fn infer_respects_alpha(ctx: Seq<EntryV>, t1: TermV, t2: TermV, fuel: nat)
    requires
        strip_t(t1) == strip_t(t2),
    ensures
        strip_res(infer_v(ctx, t1, fuel)) == strip_res(infer_v(ctx, t2, fuel)),
        match (infer_v(ctx, t1, fuel), infer_v(ctx, t2, fuel)) {
            (Ok(v1), Ok(v2)) => strip_v(v1) == strip_v(v2),
            (Err(er1), Err(er2)) => type_error_eq_spec(er1, er2),
            _ => false,
        },
{
    lemma_infer_cong(ctx, ctx, t1, t2, fuel);
    match (infer_v(ctx, t1, fuel), infer_v(ctx, t2, fuel)) {
        (Err(er1), Err(er2)) => lemma_strip_err_eq(er1, er2),
        _ => {},
    }
}

/// LAW. Renaming a bound variable's cosmetic hint, in the term or in the
/// expected type, never changes the result of checking.
pub proof fn check_respects_alpha(
    ctx: Seq<EntryV>,
    t1: TermV,
    t2: TermV,
    expected1: ValueV,
    expected2: ValueV,
    fuel: nat,
)
    requires
        strip_t(t1) == strip_t(t2),
        strip_v(expected1) == strip_v(expected2),
    ensures
        strip_res_unit(check_v(ctx, t1, expected1, fuel)) == strip_res_unit(
            check_v(ctx, t2, expected2, fuel),
        ),
{
    lemma_check_cong(ctx, ctx, t1, t2, expected1, expected2, fuel);
}

/// Erasure equality of errors is exactly the error equality that the
/// executable comparison decides.
pub proof fn lemma_strip_err_eq(a: TypeErrorV, b: TypeErrorV)
    ensures
        (strip_err(a) == strip_err(b)) == type_error_eq_spec(a, b),
{
}

} // verus!
