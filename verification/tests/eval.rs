use lambdapi::check::Context;
use lambdapi::term::{RcTerm, RcValue, Value};
use lambdapi::var::{Debruijn, Name, Named, Var};

fn parse(src: &str) -> RcTerm {
    RcTerm::from_parse(&src.parse().unwrap()).unwrap()
}

#[test]
fn tests_var() {
    let context = Context::new();

    let x = Name::user("x");

    assert_eq!(
        context.eval(&parse(r"x")).unwrap(),
        Value::Var(Var::Free(x)).into(),
    );
}

#[test]
fn tests_ty() {
    let context = Context::new();

    let ty: RcValue = Value::Type.into();

    assert_eq!(context.eval(&parse(r"Type")).unwrap(), ty);
}

#[test]
fn tests_lam() {
    let context = Context::new();

    let x = Name::user("x");
    let ty: RcValue = Value::Type.into();

    assert_eq!(
        context.eval(&parse(r"\x : Type => x")).unwrap(),
        Value::Lam(
            Named(x.clone(), Some(ty)),
            Value::Var(Var::Bound(Named(x, Debruijn(0)))).into(),
        )
        .into(),
    );
}

#[test]
fn tests_pi() {
    let context = Context::new();

    let x = Name::user("x");
    let ty: RcValue = Value::Type.into();

    assert_eq!(
        context.eval(&parse(r"(x : Type) -> x")).unwrap(),
        Value::Pi(
            Named(x.clone(), ty),
            Value::Var(Var::Bound(Named(x, Debruijn(0)))).into(),
        )
        .into(),
    );
}

#[test]
fn tests_lam_app() {
    let context = Context::new();

    let x = Name::user("x");
    let y = Name::user("y");
    let ty: RcValue = Value::Type.into();
    let ty_arr: RcValue = Value::Pi(Named(Name::Abstract, ty.clone()), ty.clone()).into();

    assert_eq!(
        context
            .eval(&parse(r"\x : Type -> Type => \y : Type => x y"))
            .unwrap(),
        Value::Lam(
            Named(x.clone(), Some(ty_arr)),
            Value::Lam(
                Named(y.clone(), Some(ty)),
                Value::App(
                    Value::Var(Var::Bound(Named(x, Debruijn(1)))).into(),
                    Value::Var(Var::Bound(Named(y, Debruijn(0)))).into(),
                )
                .into(),
            )
            .into(),
        )
        .into(),
    );
}

#[test]
fn pi_app() {
    let context = Context::new();

    let x = Name::user("x");
    let y = Name::user("y");
    let ty: RcValue = Value::Type.into();
    let ty_arr: RcValue = Value::Pi(Named(Name::Abstract, ty.clone()), ty.clone()).into();

    assert_eq!(
        context
            .eval(&parse(r"(x : Type -> Type) -> \y : Type => x y"))
            .unwrap(),
        Value::Pi(
            Named(x.clone(), ty_arr),
            Value::Lam(
                Named(y.clone(), Some(ty)),
                Value::App(
                    Value::Var(Var::Bound(Named(x, Debruijn(1)))).into(),
                    Value::Var(Var::Bound(Named(y, Debruijn(0)))).into(),
                )
                .into(),
            )
            .into(),
        )
        .into(),
    );
}
