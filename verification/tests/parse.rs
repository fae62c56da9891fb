use std::str::FromStr;

use lambdapi::parse::{ParseError, Term as ParseTerm};
use lambdapi::term::{Module, RcTerm, Term};
use lambdapi::var::{Debruijn, Name, Named, Var};

fn parse(src: &str) -> RcTerm {
    RcTerm::from_parse(&src.parse().unwrap()).unwrap()
}

const PRELUDE: &str = r"
module prelude;

id : (a : Type) -> a -> a;
id = \a x => x;

const : (a : Type) -> (b : Type) -> a -> b -> a;
const a b x y = x;

flip : (a : Type) -> (b : Type) -> (c : Type) -> (a -> b -> c) -> b -> a -> c;
flip = \a b c f y x => f x y;

compose : (a : Type) -> (b : Type) -> (c : Type) -> (b -> c) -> (a -> b) -> a -> c;
compose a b c f g x = f (g x);

id-ann = \a : Type => \x : a => x;

and : Type -> Type -> Type;
and = \p q => (c : Type) -> (p -> q -> c) -> c;

and-intro : (p : Type) -> (q : Type) -> p -> q -> and p q;
and-intro = \p q x y c f => f x y;

and-proj-left : (p : Type) -> (q : Type) -> and p q -> p;
and-proj-left = \p q pq => pq p (\x y => x);

and-proj-right : (p : Type) -> (q : Type) -> and p q -> q;
and-proj-right = \p q pq => pq q (\x y => y);
";

#[test]
fn parse_prelude() {
    Module::from_parse(&PRELUDE.parse().unwrap()).unwrap();
}

#[test]
fn mod_var() {
    assert_eq!(parse(r"x"), Term::from(Var::Free(Name::user("x"))).into());
}

#[test]
fn var_kebab_case() {
    assert_eq!(
        parse(r"or-elim"),
        Term::from(Var::Free(Name::user("or-elim"))).into(),
    );
}

#[test]
fn mod_ty() {
    assert_eq!(parse(r"Type"), Term::Type.into());
}

#[test]
fn ann() {
    assert_eq!(
        parse(r"Type : Type"),
        Term::Ann(Term::from(Term::Type).into(), Term::from(Term::Type).into(),).into(),
    );
}

#[test]
fn ann_ann_left() {
    assert_eq!(
        parse(r"Type : Type : Type"),
        Term::Ann(
            Term::from(Term::Ann(
                Term::from(Term::Type).into(),
                Term::from(Term::Type).into(),
            ))
            .into(),
            Term::from(Term::Type).into(),
        )
        .into(),
    );
}

#[test]
fn ann_ann_right() {
    assert_eq!(
        parse(r"Type : (Type : Type)"),
        Term::Ann(
            Term::from(Term::Type).into(),
            Term::from(Term::Ann(
                Term::from(Term::Type).into(),
                Term::from(Term::Type).into(),
            ))
            .into(),
        )
        .into(),
    );
}

#[test]
fn ann_ann_ann() {
    assert_eq!(
        parse(r"(Type : Type) : (Type : Type)"),
        Term::Ann(
            Term::from(Term::Ann(
                Term::from(Term::Type).into(),
                Term::from(Term::Type).into(),
            ))
            .into(),
            Term::from(Term::Ann(
                Term::from(Term::Type).into(),
                Term::from(Term::Type).into(),
            ))
            .into(),
        )
        .into(),
    );
}

#[test]
fn lam_ann() {
    let x = Name::user("x");

    assert_eq!(
        parse(r"\x : Type -> Type => x"),
        Term::Lam(
            Named(
                x.clone(),
                Some(
                    Term::from(Term::Pi(
                        Named(Name::Abstract, Term::from(Term::Type).into()),
                        Term::from(Term::Type).into(),
                    ))
                    .into()
                ),
            ),
            Term::from(Var::Bound(Named(x, Debruijn(0)))).into(),
        )
        .into(),
    );
}

#[test]
fn mod_lam() {
    let x = Name::user("x");
    let y = Name::user("y");

    assert_eq!(
        parse(r"\x : (\y => y) => x"),
        Term::Lam(
            Named(
                x.clone(),
                Some(
                    Term::Lam(
                        Named(y.clone(), None),
                        Term::from(Var::Bound(Named(y, Debruijn(0)))).into(),
                    )
                    .into()
                ),
            ),
            Term::from(Var::Bound(Named(x, Debruijn(0)))).into(),
        )
        .into(),
    );
}

#[test]
fn lam_multi() {
    assert_eq!(
        parse(r"\y (x : Type) z => x"),
        parse(r"\y => \x : Type => \z => x"),
    );
}

#[test]
fn lam_lam_ann() {
    let x = Name::user("x");
    let y = Name::user("y");

    assert_eq!(
        parse(r"\x : Type => \y : Type => x"),
        Term::Lam(
            Named(x.clone(), Some(Term::from(Term::Type).into())),
            Term::Lam(
                Named(y, Some(Term::from(Term::Type).into())),
                Term::from(Var::Bound(Named(x, Debruijn(1)))).into(),
            )
            .into(),
        )
        .into(),
    );
}

#[test]
fn arrow() {
    assert_eq!(
        parse(r"Type -> Type"),
        Term::Pi(
            Named(Name::Abstract, Term::from(Term::Type).into()),
            Term::from(Term::Type).into(),
        )
        .into(),
    );
}

#[test]
fn mod_pi() {
    let x = Name::user("x");

    assert_eq!(
        parse(r"(x : Type -> Type) -> x"),
        Term::Pi(
            Named(
                x.clone(),
                Term::from(Term::Pi(
                    Named(Name::Abstract, Term::from(Term::Type).into()),
                    Term::from(Term::Type).into(),
                ))
                .into(),
            ),
            Term::from(Var::Bound(Named(x, Debruijn(0)))).into(),
        )
        .into(),
    );
}

#[test]
fn pi_pi() {
    let x = Name::user("x");
    let y = Name::user("y");

    assert_eq!(
        parse(r"(x : Type) -> (y : Type) -> x"),
        Term::Pi(
            Named(x.clone(), Term::from(Term::Type).into()),
            Term::from(Term::Pi(
                Named(y, Term::from(Term::Type).into()),
                Term::from(Var::Bound(Named(x, Debruijn(1)))).into(),
            ))
            .into(),
        )
        .into(),
    );
}

#[test]
fn pi_arrow() {
    let x = Name::user("x");

    assert_eq!(
        parse(r"(x : Type) -> x -> x"),
        Term::Pi(
            Named(x.clone(), Term::from(Term::Type).into()),
            Term::from(Term::Pi(
                Named(
                    Name::Abstract,
                    Term::from(Var::Bound(Named(x.clone(), Debruijn(0)))).into(),
                ),
                Term::from(Var::Bound(Named(x, Debruijn(1)))).into(),
            ))
            .into(),
        )
        .into(),
    );
}

#[test]
fn pi_bad_ident() {
    let parse_result = ParseTerm::from_str("((x : Type) : Type) -> Type");

    assert_eq!(
        parse_result,
        Err(ParseError(String::from("identifier expected in pi type"))),
    );
}

#[test]
fn mod_lam_app() {
    let x = Name::user("x");
    let y = Name::user("y");

    assert_eq!(
        parse(r"\x : (Type -> Type) => \y : Type => x y"),
        Term::Lam(
            Named(
                x.clone(),
                Some(
                    Term::from(Term::Pi(
                        Named(Name::Abstract, Term::from(Term::Type).into()),
                        Term::from(Term::Type).into(),
                    ))
                    .into(),
                ),
            ),
            Term::Lam(
                Named(y.clone(), Some(Term::from(Term::Type).into())),
                Term::App(
                    Term::from(Var::Bound(Named(x, Debruijn(1)))).into(),
                    Term::from(Var::Bound(Named(y, Debruijn(0)))).into(),
                )
                .into(),
            )
            .into(),
        )
        .into(),
    );
}

#[test]
fn mod_id() {
    let x = Name::user("x");
    let a = Name::user("a");

    assert_eq!(
        parse(r"\a : Type => \x : a => x"),
        Term::Lam(
            Named(a.clone(), Some(Term::from(Term::Type).into())),
            Term::Lam(
                Named(
                    x.clone(),
                    Some(Term::from(Var::Bound(Named(a, Debruijn(0)))).into()),
                ),
                Term::from(Var::Bound(Named(x, Debruijn(0)))).into(),
            )
            .into(),
        )
        .into(),
    );
}

#[test]
fn id_ty() {
    let a = Name::user("a");

    assert_eq!(
        parse(r"(a : Type) -> a -> a"),
        Term::Pi(
            Named(a.clone(), Term::from(Term::Type).into()),
            Term::from(Term::Pi(
                Named(
                    Name::Abstract,
                    Term::from(Var::Bound(Named(a.clone(), Debruijn(0)))).into(),
                ),
                Term::from(Var::Bound(Named(a, Debruijn(1)))).into(),
            ))
            .into(),
        )
        .into(),
    );
}

#[test]
fn id_ty_arr() {
    assert_eq!(
        parse(r"(a : Type) -> a -> a"),
        parse(r"(a : Type) -> (x : a) -> a"),
    )
}
