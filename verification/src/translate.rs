//! Name resolution: turning a concrete parse tree into a core term.
//!
//! The translation walks the concrete tree carrying the list of binder
//! names in scope, innermost last. A name occurrence that matches a binder
//! becomes a bound reference with its binding depth; any other occurrence
//! becomes a free reference. Function parameter lists fold into nested
//! single-binder functions, and a non-dependent arrow becomes a function
//! type whose parameter is anonymous, so it can never capture a name.
//!
//! The only way the translation can fail is a term nested more deeply than
//! the index width allows.

use vstd::prelude::*;

use crate::parse;
use crate::parse::ParseError;
use crate::term::{Declaration, DeclarationV, Module, ModuleV, RcTerm, Term, TermV};
use crate::var::{Debruijn, Name, NameV, Named, Var, VarV};

verus! {

/// The views of a list of binder names.
pub open spec fn names_view(s: Seq<Name>) -> Seq<NameV> {
    Seq::new(s.len(), |i: int| s[i]@)
}

/// The depth of the innermost binder named `name`: 0 when the last entry
/// matches, counting outward.
pub open spec fn scope_find(scope: Seq<NameV>, name: Seq<char>) -> Option<nat>
    decreases scope.len(),
{
    if scope.len() == 0 {
        None
    } else if scope.last() == NameV::User(name) {
        Some(0)
    } else {
        match scope_find(scope.drop_last(), name) {
            Some(d) => Some(d + 1),
            None => None,
        }
    }
}

/// The binder names a parameter list brings into scope, outermost first.
pub open spec fn param_names_v(params: Seq<(String, Option<Box<parse::Term>>)>) -> Seq<NameV> {
    Seq::new(params.len(), |i: int| NameV::User(params[i].0@))
}

/// Translate a concrete term under the given scope; see the module
/// documentation. `None` means the index width ran out.
pub open spec fn translate_v(c: parse::Term, scope: Seq<NameV>) -> Option<TermV>
    decreases c,
{
    match c {
        parse::Term::Var(s) => match scope_find(scope, s@) {
            Some(d) => if d > u32::MAX as nat {
                None
            } else {
                Some(TermV::Var(VarV::Bound(NameV::User(s@), d)))
            },
            None => Some(TermV::Var(VarV::Free(NameV::User(s@)))),
        },
        parse::Term::Type => Some(TermV::Type),
        parse::Term::Ann(e, ty) => match (translate_v(*e, scope), translate_v(*ty, scope)) {
            (Some(e2), Some(t2)) => Some(TermV::Ann(Box::new(e2), Box::new(t2))),
            _ => None,
        },
        parse::Term::Lam(params, body) => match (
            translate_params_v(params@, scope),
            translate_v(*body, scope + param_names_v(params@)),
        ) {
            (Some(pieces), Some(b2)) => Some(wrap_lams_v(pieces, b2)),
            _ => None,
        },
        parse::Term::Pi(n, p, b) => match (
            translate_v(*p, scope),
            translate_v(*b, scope.push(NameV::User(n@))),
        ) {
            (Some(p2), Some(b2)) => Some(TermV::Pi(NameV::User(n@), Box::new(p2), Box::new(b2))),
            _ => None,
        },
        parse::Term::Arrow(a, b) => match (
            translate_v(*a, scope),
            translate_v(*b, scope.push(NameV::Abstract)),
        ) {
            (Some(a2), Some(b2)) => Some(TermV::Pi(NameV::Abstract, Box::new(a2), Box::new(b2))),
            _ => None,
        },
        parse::Term::App(f, a) => match (translate_v(*f, scope), translate_v(*a, scope)) {
            (Some(f2), Some(a2)) => Some(TermV::App(Box::new(f2), Box::new(a2))),
            _ => None,
        },
    }
}

/// Translate the parameters of a function in order. Each annotation is
/// translated in the scope of the parameters before it.
pub open spec fn translate_params_v(
    params: Seq<(String, Option<Box<parse::Term>>)>,
    scope: Seq<NameV>,
) -> Option<Seq<(NameV, Option<TermV>)>>
    decreases params,
{
    if params.len() == 0 {
        Some(Seq::empty())
    } else {
        let ann = match params[0].1 {
            Some(t) => match translate_v(*t, scope) {
                Some(t2) => Some(Some(t2)),
                None => None,
            },
            None => Some(None),
        };
        match (
            ann,
            translate_params_v(params.drop_first(), scope.push(NameV::User(params[0].0@))),
        ) {
            (Some(a2), Some(rest)) => Some(
                seq![(NameV::User(params[0].0@), a2)] + rest,
            ),
            _ => None,
        }
    }
}

/// Fold a list of translated parameters around a translated body,
/// outermost parameter first.
pub open spec fn wrap_lams_v(pieces: Seq<(NameV, Option<TermV>)>, body: TermV) -> TermV
    decreases pieces.len(),
{
    if pieces.len() == 0 {
        body
    } else {
        TermV::Lam(
            pieces[0].0,
            match pieces[0].1 {
                Some(t) => Some(Box::new(t)),
                None => None,
            },
            Box::new(wrap_lams_v(pieces.drop_first(), body)),
        )
    }
}

/// Translate one concrete declaration. A definition's parameters fold
/// into nested functions around its body.
pub open spec fn translate_decl_v(d: parse::Declaration) -> Option<DeclarationV>
    decreases d,
{
    match d {
        parse::Declaration::Claim(n, t) => match translate_v(t, Seq::empty()) {
            Some(t2) => Some(DeclarationV::Claim(n@, t2)),
            None => None,
        },
        parse::Declaration::Definition(n, params, body) => match (
            translate_params_v(params@, Seq::empty()),
            translate_v(body, param_names_v(params@)),
        ) {
            (Some(pieces), Some(b2)) => Some(
                DeclarationV::Definition(n@, wrap_lams_v(pieces, b2)),
            ),
            _ => None,
        },
    }
}

/// Translate a sequence of concrete declarations, in order.
pub open spec fn translate_decls_v(decls: Seq<parse::Declaration>) -> Option<Seq<DeclarationV>>
    decreases decls,
{
    if decls.len() == 0 {
        Some(Seq::empty())
    } else {
        match (translate_decl_v(decls[0]), translate_decls_v(decls.drop_first())) {
            (Some(d2), Some(rest)) => Some(seq![d2] + rest),
            _ => None,
        }
    }
}

/// Translate a concrete module.
pub open spec fn translate_module_v(m: parse::Module) -> Option<ModuleV> {
    match translate_decls_v(m.declarations@) {
        Some(ds) => Some(ModuleV { name: m.name@, declarations: ds }),
        None => None,
    }
}

/// Every bound reference in `t` points at one of the `depth` enclosing
/// binders, counting the binders of `t` itself.
pub open spec fn closed_at(t: TermV, depth: nat) -> bool
    decreases t,
{
    match t {
        TermV::Var(x) => match x {
            VarV::Free(_) => true,
            VarV::Bound(_, k) => k < depth,
        },
        TermV::Type => true,
        TermV::Ann(e, ty) => closed_at(*e, depth) && closed_at(*ty, depth),
        TermV::Lam(_, ann, body) => (match ann {
            Some(a) => closed_at(*a, depth),
            None => true,
        }) && closed_at(*body, depth + 1),
        TermV::Pi(_, p, b) => closed_at(*p, depth) && closed_at(*b, depth + 1),
        TermV::App(f, a) => closed_at(*f, depth) && closed_at(*a, depth),
    }
}

/// A found binding depth always lies within the scope.
proof fn lemma_scope_find_bound(scope: Seq<NameV>, name: Seq<char>)
    ensures
        match scope_find(scope, name) {
            Some(d) => d < scope.len(),
            None => true,
        },
    decreases scope.len(),
{
    if scope.len() > 0 && !(scope.last() == NameV::User(name)) {
        lemma_scope_find_bound(scope.drop_last(), name);
    }
}

/// Folding parameters around a body stays within range when each
/// annotation is in range at its own depth and the body is in range
/// under all of the binders.
proof fn lemma_wrap_closed(pieces: Seq<(NameV, Option<TermV>)>, body: TermV, depth: nat)
    requires
        forall|i: int|
            0 <= i < pieces.len() ==> match #[trigger] pieces[i].1 {
                Some(a) => closed_at(a, (depth + i) as nat),
                None => true,
            },
        closed_at(body, depth + pieces.len()),
    ensures
        closed_at(wrap_lams_v(pieces, body), depth),
    decreases pieces.len(),
{
    if pieces.len() == 0 {
    } else {
        assert forall|i: int| 0 <= i < pieces.drop_first().len() implies match #[trigger] pieces
            .drop_first()[i].1 {
            Some(a) => closed_at(a, (depth + 1 + i) as nat),
            None => true,
        } by {
            assert(pieces.drop_first()[i] == pieces[i + 1]);
        }
        lemma_wrap_closed(pieces.drop_first(), body, depth + 1);
    }
}

/// LAW (translation invariant): a translated term never holds an
/// out-of-range binding depth. Every bound reference points at one of
/// the binders that the scope, or the term itself, provides.
pub proof fn lemma_translate_closed(c: parse::Term, scope: Seq<NameV>)
    ensures
        match translate_v(c, scope) {
            Some(t) => closed_at(t, scope.len()),
            None => true,
        },
    decreases c,
{
    match c {
        parse::Term::Var(s) => {
            lemma_scope_find_bound(scope, s@);
        },
        parse::Term::Type => {},
        parse::Term::Ann(e, ty) => {
            lemma_translate_closed(*e, scope);
            lemma_translate_closed(*ty, scope);
        },
        parse::Term::Lam(params, body) => {
            lemma_translate_params_closed(params@, scope);
            lemma_translate_closed(*body, scope + param_names_v(params@));
            match (
                translate_params_v(params@, scope),
                translate_v(*body, scope + param_names_v(params@)),
            ) {
                (Some(pieces), Some(b2)) => {
                    assert((scope + param_names_v(params@)).len() == scope.len()
                        + params@.len());
                    lemma_wrap_closed(pieces, b2, scope.len());
                },
                _ => {},
            }
        },
        parse::Term::Pi(n, p, b) => {
            lemma_translate_closed(*p, scope);
            lemma_translate_closed(*b, scope.push(NameV::User(n@)));
        },
        parse::Term::Arrow(a, b) => {
            lemma_translate_closed(*a, scope);
            lemma_translate_closed(*b, scope.push(NameV::Abstract));
        },
        parse::Term::App(f, a) => {
            lemma_translate_closed(*f, scope);
            lemma_translate_closed(*a, scope);
        },
    }
}

/// Each translated parameter annotation is in range at its own depth,
/// and there are as many translated parameters as written ones.
proof fn lemma_translate_params_closed(
    params: Seq<(String, Option<Box<parse::Term>>)>,
    scope: Seq<NameV>,
)
    ensures
        match translate_params_v(params, scope) {
            Some(pieces) => {
                &&& pieces.len() == params.len()
                &&& forall|i: int|
                    0 <= i < pieces.len() ==> match #[trigger] pieces[i].1 {
                        Some(a) => closed_at(a, (scope.len() + i) as nat),
                        None => true,
                    }
            },
            None => true,
        },
    decreases params,
{
    if params.len() == 0 {
    } else {
        match params[0].1 {
            Some(t) => lemma_translate_closed(*t, scope),
            None => {},
        }
        lemma_translate_params_closed(
            params.drop_first(),
            scope.push(NameV::User(params[0].0@)),
        );
        match translate_params_v(params, scope) {
            Some(pieces) => {
                match translate_params_v(
                    params.drop_first(),
                    scope.push(NameV::User(params[0].0@)),
                ) {
                    Some(rest) => {
                        assert forall|i: int| 0 <= i < pieces.len() implies match #[trigger] pieces[i].1 {
                            Some(a) => closed_at(a, (scope.len() + i) as nat),
                            None => true,
                        } by {
                            if i > 0 {
                                assert(pieces[i] == rest[i - 1]);
                            }
                        }
                    },
                    None => {},
                }
            },
            None => {},
        }
    }
}

/// The terms of a translated declaration hold only in-range binding
/// depths.
pub open spec fn decl_closed(d: DeclarationV) -> bool {
    match d {
        DeclarationV::Claim(_, t) => closed_at(t, 0),
        DeclarationV::Definition(_, t) => closed_at(t, 0),
    }
}

/// The translation invariant extends to declarations.
proof fn lemma_translate_decl_closed(d: parse::Declaration)
    ensures
        match translate_decl_v(d) {
            Some(d2) => decl_closed(d2),
            None => true,
        },
{
    match d {
        parse::Declaration::Claim(_, t) => {
            lemma_translate_closed(t, Seq::empty());
        },
        parse::Declaration::Definition(_, params, body) => {
            lemma_translate_params_closed(params@, Seq::empty());
            lemma_translate_closed(body, param_names_v(params@));
            match (
                translate_params_v(params@, Seq::empty()),
                translate_v(body, param_names_v(params@)),
            ) {
                (Some(pieces), Some(b2)) => {
                    lemma_wrap_closed(pieces, b2, 0);
                },
                _ => {},
            }
        },
    }
}

/// The translation invariant extends to every declaration of a module.
proof fn lemma_translate_decls_closed(decls: Seq<parse::Declaration>)
    ensures
        match translate_decls_v(decls) {
            Some(ds) => forall|i: int| 0 <= i < ds.len() ==> decl_closed(#[trigger] ds[i]),
            None => true,
        },
    decreases decls,
{
    if decls.len() == 0 {
    } else {
        lemma_translate_decl_closed(decls[0]);
        lemma_translate_decls_closed(decls.drop_first());
        match (translate_decl_v(decls[0]), translate_decls_v(decls.drop_first())) {
            (Some(d2), Some(rest)) => {
                let ds = seq![d2] + rest;
                assert forall|i: int| 0 <= i < ds.len() implies decl_closed(#[trigger] ds[i]) by {
                    if i == 0 {
                        assert(ds[0] == d2);
                    } else {
                        assert(ds[i] == rest[i - 1]);
                    }
                }
            },
            _ => {},
        }
    }
}

/// The views of a list of translated parameters.
pub open spec fn pieces_view(s: Seq<(Name, Option<RcTerm>)>) -> Seq<(NameV, Option<TermV>)> {
    Seq::new(
        s.len(),
        |i: int|
            (
                s[i].0@,
                match s[i].1 {
                    Some(t) => Some(t@),
                    None => None,
                },
            ),
    )
}

/// Search the first `len` entries of the scope for the innermost binder
/// named `name`; see [`scope_find`].
fn scope_search(scope: &Vec<Name>, len: usize, name: &String) -> (r: Option<usize>)
    requires
        len <= scope@.len(),
    ensures
        match r {
            Some(d) => scope_find(names_view(scope@.take(len as int)), name@) == Some(d as nat)
                && (d as nat) < len as nat,
            None => scope_find(names_view(scope@.take(len as int)), name@) is None,
        },
    decreases len,
{
    if len == 0 {
        return None;
    }
    let last = &scope[len - 1];
    let is_match = match last {
        Name::User(s) => s.eq(name),
        _ => false,
    };
    proof {
        assert(names_view(scope@.take(len as int)).last() == scope@[len - 1]@);
        assert(names_view(scope@.take(len as int)).drop_last() =~= names_view(
            scope@.take(len as int - 1),
        ));
    }
    if is_match {
        Some(0)
    } else {
        match scope_search(scope, len - 1, name) {
            Some(d) => Some(d + 1),
            None => None,
        }
    }
}

/// Pop `n` entries off the scope.
fn pop_n(scope: &mut Vec<Name>, n: usize)
    requires
        n <= old(scope)@.len(),
    ensures
        final(scope)@ == old(scope)@.take(old(scope)@.len() - n as int),
{
    let mut i: usize = 0;
    while i < n
        invariant
            i <= n,
            n <= old(scope)@.len(),
            scope@ == old(scope)@.take(old(scope)@.len() - i as int),
        decreases n - i,
    {
        proof {
            assert(scope@.drop_last() =~= old(scope)@.take(old(scope)@.len() - (i + 1) as int));
        }
        scope.pop();
        i = i + 1;
    }
}

/// Executable translation of a term; see [`translate_v`]. The scope is
/// restored before returning.
fn translate(c: &parse::Term, scope: &mut Vec<Name>) -> (r: Result<Term, ParseError>)
    ensures
        final(scope)@ == old(scope)@,
        match r {
            Ok(t) => translate_v(*c, names_view(old(scope)@)) == Some(t@),
            Err(_) => translate_v(*c, names_view(old(scope)@)) is None,
        },
    decreases *c,
{
    match c {
        parse::Term::Var(s) => {
            proof {
                assert(scope@.take(scope@.len() as int) =~= scope@);
            }
            match scope_search(scope, scope.len(), s) {
                Some(d) => if d > u32::MAX as usize {
                    Err(ParseError("term is nested too deeply".to_owned()))
                } else {
                    Ok(
                        Term::Var(
                            Var::Bound(Named(Name::User(s.clone()), Debruijn(d as u32))),
                        ),
                    )
                },
                None => Ok(Term::Var(Var::Free(Name::User(s.clone())))),
            }
        },
        parse::Term::Type => Ok(Term::Type),
        parse::Term::Ann(e, ty) => {
            let e2 = translate(e, scope)?;
            let t2 = translate(ty, scope)?;
            Ok(Term::Ann(RcTerm::new(e2), RcTerm::new(t2)))
        },
        parse::Term::Lam(params, body) => {
            proof {
                assert(params@.skip(0) =~= params@);
            }
            let pieces = translate_params(params, 0, scope)?;
            let body_t = match translate(body, scope) {
                Ok(b) => b,
                Err(er) => {
                    pop_n(scope, params.len());
                    proof {
                        assert(scope@ =~= old(scope)@);
                    }
                    return Err(er);
                },
            };
            pop_n(scope, params.len());
            proof {
                assert(scope@ =~= old(scope)@);
            }
            Ok(wrap_lams(pieces, body_t))
        },
        parse::Term::Pi(n, p, b) => {
            let p2 = translate(p, scope)?;
            scope.push(Name::User(n.clone()));
            proof {
                assert(names_view(scope@) =~= names_view(old(scope)@).push(NameV::User(n@)));
            }
            let b2 = match translate(b, scope) {
                Ok(x) => x,
                Err(er) => {
                    scope.pop();
                    proof {
                        assert(scope@ =~= old(scope)@);
                    }
                    return Err(er);
                },
            };
            scope.pop();
            proof {
                assert(scope@ =~= old(scope)@);
            }
            Ok(Term::Pi(Named(Name::User(n.clone()), RcTerm::new(p2)), RcTerm::new(b2)))
        },
        parse::Term::Arrow(a, b) => {
            let a2 = translate(a, scope)?;
            scope.push(Name::Abstract);
            proof {
                assert(names_view(scope@) =~= names_view(old(scope)@).push(NameV::Abstract));
            }
            let b2 = match translate(b, scope) {
                Ok(x) => x,
                Err(er) => {
                    scope.pop();
                    proof {
                        assert(scope@ =~= old(scope)@);
                    }
                    return Err(er);
                },
            };
            scope.pop();
            proof {
                assert(scope@ =~= old(scope)@);
            }
            Ok(Term::Pi(Named(Name::Abstract, RcTerm::new(a2)), RcTerm::new(b2)))
        },
        parse::Term::App(f, a) => {
            let f2 = translate(f, scope)?;
            let a2 = translate(a, scope)?;
            Ok(Term::App(RcTerm::new(f2), RcTerm::new(a2)))
        },
    }
}

/// Executable translation of a parameter list from index `idx` on; see
/// [`translate_params_v`]. On success the parameters' names are left
/// pushed on the scope, for the body that follows them; on failure the
/// scope is restored.
fn translate_params(
    params: &Vec<(String, Option<Box<parse::Term>>)>,
    idx: usize,
    scope: &mut Vec<Name>,
) -> (r: Result<Vec<(Name, Option<RcTerm>)>, ParseError>)
    requires
        idx <= params@.len(),
    ensures
        match r {
            Ok(pieces) => {
                &&& translate_params_v(params@.skip(idx as int), names_view(old(scope)@))
                    == Some(pieces_view(pieces@))
                &&& names_view(final(scope)@) == names_view(old(scope)@) + param_names_v(
                    params@.skip(idx as int),
                )
                &&& final(scope)@.len() == old(scope)@.len() + params@.len() - idx
                &&& final(scope)@.take(old(scope)@.len() as int) == old(scope)@
            },
            Err(_) => {
                &&& final(scope)@ == old(scope)@
                &&& translate_params_v(params@.skip(idx as int), names_view(old(scope)@)) is None
            },
        },
    decreases params@.skip(idx as int),
{
    if idx == params.len() {
        proof {
            assert(params@.skip(idx as int) =~= Seq::<(String, Option<Box<parse::Term>>)>::empty());
            assert(pieces_view(Seq::empty()) =~= Seq::<(NameV, Option<TermV>)>::empty());
            assert(param_names_v(params@.skip(idx as int)) =~= Seq::<NameV>::empty());
            assert(names_view(scope@) + param_names_v(params@.skip(idx as int)) =~= names_view(
                scope@,
            ));
            assert(scope@.take(scope@.len() as int) =~= scope@);
        }
        return Ok(Vec::new());
    }
    proof {
        assert(params@.skip(idx as int)[0] == params@[idx as int]);
        assert(params@.skip(idx as int).drop_first() =~= params@.skip(idx as int + 1));
    }
    let ann: Option<RcTerm> = match &params[idx].1 {
        Some(t) => match translate(t, scope) {
            Ok(x) => Some(RcTerm::new(x)),
            Err(er) => {
                return Err(er);
            },
        },
        None => None,
    };
    let nm = Name::User(params[idx].0.clone());
    scope.push(nm.clone());
    proof {
        assert(names_view(scope@) =~= names_view(old(scope)@).push(NameV::User(params@[
            idx as int
        ].0@)));
    }
    match translate_params(params, idx + 1, scope) {
        Ok(rest) => {
            let mut pieces = rest;
            pieces.insert(0, (nm, ann));
            proof {
                assert(pieces_view(pieces@.drop_first()) =~= pieces_view(pieces@).drop_first());
                assert(pieces_view(pieces@) =~= seq![
                    (NameV::User(params@[idx as int].0@), match ann {
                        Some(t) => Some(t@),
                        None => None,
                    }),
                ] + pieces_view(pieces@.drop_first()));
                assert(pieces@.drop_first() =~= pieces@.skip(1));
                assert(names_view(old(scope)@).push(NameV::User(params@[idx as int].0@))
                    + param_names_v(params@.skip(idx as int + 1)) =~= names_view(old(scope)@)
                    + param_names_v(params@.skip(idx as int)));
            }
            Ok(pieces)
        },
        Err(er) => {
            scope.pop();
            proof {
                assert(scope@ =~= old(scope)@);
            }
            Err(er)
        },
    }
}

/// Push a lemma of [`wrap_lams_v`]: folding one more innermost parameter
/// is folding it into the body first.
proof fn lemma_wrap_push(pieces: Seq<(NameV, Option<TermV>)>, p: (NameV, Option<TermV>), body: TermV)
    ensures
        wrap_lams_v(pieces.push(p), body) == wrap_lams_v(
            pieces,
            TermV::Lam(
                p.0,
                match p.1 {
                    Some(t) => Some(Box::new(t)),
                    None => None,
                },
                Box::new(body),
            ),
        ),
    decreases pieces.len(),
{
    let folded = TermV::Lam(
        p.0,
        match p.1 {
            Some(t) => Some(Box::new(t)),
            None => None,
        },
        Box::new(body),
    );
    if pieces.len() == 0 {
        let pp = pieces.push(p);
        assert(pp.len() == 1);
        assert(pp[0] == p);
        assert(pp.drop_first() =~= Seq::<(NameV, Option<TermV>)>::empty());
        assert(wrap_lams_v(pp.drop_first(), body) == body);
        assert(wrap_lams_v(pp, body) == folded);
        assert(wrap_lams_v(pieces, folded) == folded);
    } else {
        let pp = pieces.push(p);
        assert(pp.len() == pieces.len() + 1);
        assert(pp[0] == pieces[0]);
        assert(pp.drop_first() =~= pieces.drop_first().push(p));
        lemma_wrap_push(pieces.drop_first(), p, body);
        assert(wrap_lams_v(pp, body) == TermV::Lam(
            pieces[0].0,
            match pieces[0].1 {
                Some(t) => Some(Box::new(t)),
                None => None,
            },
            Box::new(wrap_lams_v(pieces.drop_first().push(p), body)),
        ));
        assert(wrap_lams_v(pieces, folded) == TermV::Lam(
            pieces[0].0,
            match pieces[0].1 {
                Some(t) => Some(Box::new(t)),
                None => None,
            },
            Box::new(wrap_lams_v(pieces.drop_first(), folded)),
        ));
    }
}

/// Executable folding of translated parameters around a body; see
/// [`wrap_lams_v`].
fn wrap_lams(pieces: Vec<(Name, Option<RcTerm>)>, body: Term) -> (r: Term)
    ensures
        r@ == wrap_lams_v(pieces_view(pieces@), body@),
{
    let mut rest = pieces;
    let mut t = body;
    while rest.len() > 0
        invariant
            wrap_lams_v(pieces_view(rest@), t@) == wrap_lams_v(pieces_view(pieces@), body@),
        decreases rest@.len(),
    {
        let ghost pre = rest@;
        let p = match rest.pop() {
            Some(x) => x,
            None => {
                proof {
                    assert(false);
                }
                continue ;
            },
        };
        match p.1 {
            Some(ann) => {
                proof {
                    assert(pre =~= rest@.push((p.0, Some(ann))));
                    assert(pieces_view(pre) =~= pieces_view(rest@).push((p.0@, Some(ann@))));
                    lemma_wrap_push(pieces_view(rest@), (p.0@, Some(ann@)), t@);
                }
                t = Term::Lam(Named(p.0, Some(ann)), RcTerm::new(t));
            },
            None => {
                proof {
                    assert(pre =~= rest@.push((p.0, None)));
                    assert(pieces_view(pre) =~= pieces_view(rest@).push((p.0@, None)));
                    lemma_wrap_push(pieces_view(rest@), (p.0@, None), t@);
                }
                t = Term::Lam(Named(p.0, None), RcTerm::new(t));
            },
        }
    }
    t
}

impl RcTerm {
    /// Translate a concrete term into the core representation, resolving
    /// every name occurrence to a bound or free reference; see
    /// [`translate_v`]. The result never holds an out-of-range binding
    /// depth. Fails only on a term nested more deeply than the index
    /// width allows.
    pub fn from_parse(c: &parse::Term) -> (r: Result<RcTerm, ParseError>)
        ensures
            match r {
                Ok(t) => translate_v(*c, Seq::empty()) == Some(t@) && closed_at(t@, 0),
                Err(_) => translate_v(*c, Seq::empty()) is None,
            },
    {
        proof {
            lemma_translate_closed(*c, Seq::empty());
        }
        let mut scope: Vec<Name> = Vec::new();
        proof {
            assert(names_view(scope@) =~= Seq::<NameV>::empty());
        }
        match translate(c, &mut scope) {
            Ok(t) => Ok(RcTerm::new(t)),
            Err(er) => Err(er),
        }
    }
}

/// Executable translation of one declaration; see [`translate_decl_v`].
fn translate_decl(d: &parse::Declaration) -> (r: Result<Declaration, ParseError>)
    ensures
        match r {
            Ok(d2) => translate_decl_v(*d) == Some(d2@),
            Err(_) => translate_decl_v(*d) is None,
        },
{
    match d {
        parse::Declaration::Claim(n, t) => {
            let mut scope: Vec<Name> = Vec::new();
            proof {
                assert(names_view(scope@) =~= Seq::<NameV>::empty());
            }
            match translate(t, &mut scope) {
                Ok(t2) => Ok(Declaration::Claim(n.clone(), RcTerm::new(t2))),
                Err(er) => Err(er),
            }
        },
        parse::Declaration::Definition(n, params, body) => {
            let mut scope: Vec<Name> = Vec::new();
            proof {
                assert(names_view(scope@) =~= Seq::<NameV>::empty());
                assert(params@.skip(0) =~= params@);
            }
            let pieces = translate_params(params, 0, &mut scope)?;
            let body_t = match translate(body, &mut scope) {
                Ok(b) => b,
                Err(er) => {
                    return Err(er);
                },
            };
            proof {
                assert(names_view(scope@) =~= param_names_v(params@));
            }
            let t = wrap_lams(pieces, body_t);
            Ok(Declaration::Definition(n.clone(), RcTerm::new(t)))
        },
    }
}

impl Module {
    /// Translate a concrete module into the core representation,
    /// declaration by declaration; see [`translate_module_v`]. No
    /// declaration of the result holds an out-of-range binding depth.
    pub fn from_parse(m: &parse::Module) -> (r: Result<Module, ParseError>)
        ensures
            match r {
                Ok(m2) => translate_module_v(*m) == Some(m2@) && forall|i: int|
                    0 <= i < m2@.declarations.len() ==> decl_closed(#[trigger] m2@.declarations[i]),
                Err(_) => translate_module_v(*m) is None,
            },
    {
        proof {
            lemma_translate_decls_closed(m.declarations@);
        }
        let n = m.declarations.len();
        let mut declarations: Vec<Declaration> = Vec::new();
        let mut i: usize = 0;
        proof {
            assert(m.declarations@.skip(0) =~= m.declarations@);
        }
        while i < n
            invariant
                i <= n,
                n == m.declarations@.len(),
                declarations@.len() == i,
                match translate_decls_v(m.declarations@.skip(i as int)) {
                    Some(rest) => translate_decls_v(m.declarations@) == Some(
                        Seq::new(declarations@.len(), |j: int| declarations@[j]@) + rest,
                    ),
                    None => translate_decls_v(m.declarations@) is None,
                },
            decreases n - i,
        {
            proof {
                assert(m.declarations@.skip(i as int)[0] == m.declarations@[i as int]);
                assert(m.declarations@.skip(i as int).drop_first() =~= m.declarations@.skip(
                    i as int + 1,
                ));
            }
            let d = translate_decl(&m.declarations[i])?;
            declarations.push(d);
            proof {
                let built = Seq::new(declarations@.len(), |j: int| declarations@[j]@);
                assert(built.drop_last() =~= Seq::new(
                    (declarations@.len() - 1) as nat,
                    |j: int| declarations@[j]@,
                ));
                match translate_decls_v(m.declarations@.skip(i as int + 1)) {
                    Some(rest) => {
                        assert(built.drop_last().push(built.last()) =~= built);
                        assert(built.drop_last() + (seq![built.last()] + rest) =~= built + rest);
                    },
                    None => {},
                }
            }
            i = i + 1;
        }
        proof {
            assert(m.declarations@.skip(n as int) =~= Seq::<parse::Declaration>::empty());
            assert(Seq::new(declarations@.len(), |j: int| declarations@[j]@) + Seq::<
                DeclarationV,
            >::empty() =~= Seq::new(declarations@.len(), |j: int| declarations@[j]@));
        }
        Ok(Module { name: m.name.clone(), declarations })
    }
}

} // verus!
