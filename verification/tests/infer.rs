use lambdapi::check::{Context, TypeError};
use lambdapi::term::RcTerm;
use lambdapi::var::Name;

fn parse(src: &str) -> RcTerm {
    RcTerm::from_parse(&src.parse().unwrap()).unwrap()
}

#[test]
fn free() {
    let context = Context::new();

    let given_expr = r"x";
    let x = Name::user("x");

    assert_eq!(
        context.infer(&parse(given_expr)),
        Err(TypeError::UnboundVariable(x)),
    );
}

#[test]
fn infer_ty() {
    let context = Context::new();

    let given_expr = r"Type";
    let expected_ty = r"Type";

    assert_eq!(
        context.infer(&parse(given_expr)).unwrap(),
        context.eval(&parse(expected_ty)).unwrap(),
    );
}

#[test]
fn ann_ty_id() {
    let context = Context::new();

    let given_expr = r"(\a => a) : Type -> Type";
    let expected_ty = r"Type -> Type";

    assert_eq!(
        context.infer(&parse(given_expr)).unwrap(),
        context.eval(&parse(expected_ty)).unwrap(),
    );
}

#[test]
fn ann_arrow_ty_id() {
    let context = Context::new();

    let given_expr = r"(\a => a) : (Type -> Type) -> (Type -> Type)";
    let expected_ty = r"(Type -> Type) -> (Type -> Type)";

    assert_eq!(
        context.infer(&parse(given_expr)).unwrap(),
        context.eval(&parse(expected_ty)).unwrap(),
    );
}

#[test]
fn ann_id_as_ty() {
    let context = Context::new();

    let given_expr = r"(\a => a) : Type";

    match context.infer(&parse(given_expr)) {
        Err(TypeError::ExpectedFunction { .. }) => {}
        other => panic!("unexpected result: {:#?}", other),
    }
}

#[test]
fn app() {
    let context = Context::new();

    let given_expr = r"(\a : Type => a) Type";
    let expected_ty = r"Type";

    assert_eq!(
        context.infer(&parse(given_expr)).unwrap(),
        context.eval(&parse(expected_ty)).unwrap(),
    );
}

#[test]
fn app_ty() {
    let context = Context::new();

    let given_expr = r"Type Type";

    assert_eq!(
        context.infer(&parse(given_expr)),
        Err(TypeError::IllegalApplication),
    )
}

#[test]
fn infer_lam() {
    let context = Context::new();

    let given_expr = r"\a : Type => a";
    let expected_ty = r"(a : Type) -> Type";

    assert_eq!(
        context.infer(&parse(given_expr)).unwrap(),
        context.eval(&parse(expected_ty)).unwrap(),
    );
}

#[test]
fn infer_pi() {
    let context = Context::new();

    let given_expr = r"(a : Type) -> a";
    let expected_ty = r"Type";

    assert_eq!(
        context.infer(&parse(given_expr)).unwrap(),
        context.eval(&parse(expected_ty)).unwrap(),
    );
}

#[test]
fn tests_id() {
    let context = Context::new();

    let given_expr = r"\a : Type => \x : a => x";
    let expected_ty = r"(a : Type) -> a -> a";

    assert_eq!(
        context.infer(&parse(given_expr)).unwrap(),
        context.eval(&parse(expected_ty)).unwrap(),
    );
}

#[test]
fn id_ann() {
    let context = Context::new();

    let given_expr = r"(\a => \x : a => x) : (A : Type) -> A -> A";
    let expected_ty = r"(a : Type) -> a -> a";

    assert_eq!(
        context.infer(&parse(given_expr)).unwrap(),
        context.eval(&parse(expected_ty)).unwrap(),
    );
}

#[test]
fn id_app_ty_arr_ty() {
    let context = Context::new();

    // The identity applied at `Type` to the argument `Type -> Type`: the
    // application reduces to its argument, and its type is the type the
    // identity was instantiated at.
    let given_expr = r"(\a : Type => \x : a => x) Type (Type -> Type)";
    let expected_value = r"Type -> Type";
    let expected_ty = r"Type";

    assert_eq!(
        context.eval(&parse(given_expr)).unwrap(),
        context.eval(&parse(expected_value)).unwrap(),
    );
    assert_eq!(
        context.infer(&parse(given_expr)).unwrap(),
        context.eval(&parse(expected_ty)).unwrap(),
    );
}

#[test]
fn id_app_arr_pi_ty() {
    let context = Context::new();

    // The identity applied at `Type -> Type` to a constant function on
    // types: the application reduces to that function, and its type is
    // the type the identity was instantiated at.
    let given_expr = r"(\a : Type => \x : a => x) (Type -> Type) (\x : Type => Type)";
    let expected_value = r"\x : Type => Type";
    let expected_ty = r"Type -> Type";

    assert_eq!(
        context.eval(&parse(given_expr)).unwrap(),
        context.eval(&parse(expected_value)).unwrap(),
    );
    assert_eq!(
        context.infer(&parse(given_expr)).unwrap(),
        context.eval(&parse(expected_ty)).unwrap(),
    );
}

#[test]
fn apply() {
    let context = Context::new();

    let given_expr = r"
        \a : Type => \b : Type =>
            \f : (a -> b) => \x : a => f x
    ";
    let expected_ty = r"
        (a : Type) -> (b : Type) ->
            (a -> b) -> a -> b
    ";

    assert_eq!(
        context.infer(&parse(given_expr)).unwrap(),
        context.eval(&parse(expected_ty)).unwrap(),
    );
}

#[test]
fn const_() {
    let context = Context::new();

    let given_expr = r"\a : Type => \b : Type => \x : a => \y : b => x";
    let expected_ty = r"(a : Type) -> (b : Type) -> a -> b -> a";

    assert_eq!(
        context.infer(&parse(given_expr)).unwrap(),
        context.eval(&parse(expected_ty)).unwrap(),
    );
}

#[test]
fn const_flipped() {
    let context = Context::new();

    let given_expr = r"\a : Type => \b : Type => \x : a => \y : b => y";
    let expected_ty = r"(a : Type) -> (b : Type) -> a -> b -> b";

    assert_eq!(
        context.infer(&parse(given_expr)).unwrap(),
        context.eval(&parse(expected_ty)).unwrap(),
    );
}

#[test]
fn flip() {
    let context = Context::new();

    let given_expr = r"
        \(a : Type) (b : Type) (c : Type) =>
            \(f : a -> b -> c) (x : b) (y : a) => f y x
    ";
    let expected_ty = r"
        (a : Type) -> (b : Type) -> (c : Type) -> (a -> b -> c) -> (b -> a -> c)
    ";

    assert_eq!(
        context.infer(&parse(given_expr)).unwrap(),
        context.eval(&parse(expected_ty)).unwrap(),
    );
}

#[test]
fn compose() {
    let context = Context::new();

    let given_expr = r"
        \a : Type => \b : Type => \c : Type =>
            \f : (b -> c) => \g : (a -> b) => \x : a =>
                f (g x)
    ";
    let expected_ty = r"
        (a : Type) -> (b : Type) -> (c : Type) ->
            (b -> c) -> (a -> b) -> (a -> c)
    ";

    assert_eq!(
        context.infer(&parse(given_expr)).unwrap(),
        context.eval(&parse(expected_ty)).unwrap(),
    );
}

#[test]
fn and() {
    let context = Context::new();

    let given_expr = r"\p : Type => \q : Type => (c : Type) -> (p -> q -> c) -> c";
    let expected_ty = r"Type -> Type -> Type";

    assert_eq!(
        context.infer(&parse(given_expr)).unwrap(),
        context.eval(&parse(expected_ty)).unwrap(),
    );
}

#[test]
fn and_intro() {
    let context = Context::new();

    let given_expr = r"
        \p : Type => \q : Type => \x : p => \y : q =>
            \c : Type => \f : (p -> q -> c) => f x y
    ";
    let expected_ty = r"
        (p : Type) -> (q : Type) -> p -> q ->
            ((c : Type) -> (p -> q -> c) -> c)
    ";

    assert_eq!(
        context.infer(&parse(given_expr)).unwrap(),
        context.eval(&parse(expected_ty)).unwrap(),
    );
}

#[test]
fn and_proj_left() {
    let context = Context::new();

    let given_expr = r"
        \p : Type => \q : Type => \pq : (c : Type) -> (p -> q -> c) -> c =>
            pq p (\x => \y => x)
    ";
    let expected_ty = r"
        (p : Type) -> (q : Type) ->
            ((c : Type) -> (p -> q -> c) -> c) -> p
    ";

    assert_eq!(
        context.infer(&parse(given_expr)).unwrap(),
        context.eval(&parse(expected_ty)).unwrap(),
    );
}

#[test]
fn and_proj_right() {
    let context = Context::new();

    let given_expr = r"
        \p : Type => \q : Type => \pq : (c : Type) -> (p -> q -> c) -> c =>
            pq q (\x => \y => y)
    ";
    let expected_ty = r"
        (p : Type) -> (q : Type) ->
            ((c : Type) -> (p -> q -> c) -> c) -> q
    ";

    assert_eq!(
        context.infer(&parse(given_expr)).unwrap(),
        context.eval(&parse(expected_ty)).unwrap(),
    );
}
