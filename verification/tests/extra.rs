use lambdapi::check::{Context, TypeError};
use lambdapi::parse::ReplCommand;
use lambdapi::term::{Level, RcTerm};
use lambdapi::Loop;

fn parse(src: &str) -> RcTerm {
    RcTerm::from_parse(&src.parse().unwrap()).unwrap()
}

// Renaming a binder's cosmetic hint changes neither evaluation nor
// inference results: equality is alpha-aware.
#[test]
fn alpha_rename_eval() {
    let context = Context::new();

    assert_eq!(
        context.eval(&parse(r"\x : Type => x")).unwrap(),
        context.eval(&parse(r"\y : Type => y")).unwrap(),
    );
}

#[test]
fn alpha_rename_infer() {
    let context = Context::new();

    assert_eq!(
        context.infer(&parse(r"\a : Type => \x : a => x")).unwrap(),
        context.infer(&parse(r"\b : Type => \z : b => z")).unwrap(),
    );
}

#[test]
fn alpha_shadowed_hint() {
    let context = Context::new();

    // The inner binder reuses the outer hint; renaming it must not change
    // what the body's occurrence refers to.
    assert_eq!(
        context.infer(&parse(r"\x : Type => \x : x => x")).unwrap(),
        context.infer(&parse(r"\x : Type => \y : x => y")).unwrap(),
    );
}

// Applying the left projection to an introduced pair recovers the first
// component's type.
#[test]
fn church_round_trip() {
    let context = Context::new();

    let given_expr = r"
        \p : Type => \q : Type => \x : p => \y : q =>
            (\s : Type => \t : Type => \pq : (c : Type) -> (s -> t -> c) -> c =>
                pq s (\a => \b => a))
                p q
                ((\s : Type => \t : Type => \u : s => \v : t =>
                    \c : Type => \f : (s -> t -> c) => f u v)
                    p q x y)
    ";
    let expected_ty = r"(p : Type) -> (q : Type) -> p -> q -> p";

    assert_eq!(
        context.infer(&parse(given_expr)).unwrap(),
        context.eval(&parse(expected_ty)).unwrap(),
    );
}

#[test]
fn annotation_needed() {
    let context = Context::new();

    match context.infer(&parse(r"\a => a")) {
        Err(TypeError::AnnotationNeeded) => {}
        other => panic!("unexpected result: {:#?}", other),
    }
}

#[test]
fn type_mismatch() {
    let context = Context::new();

    match context.infer(&parse(r"Type : Type -> Type")) {
        Err(TypeError::TypeMismatch { .. }) => {}
        other => panic!("unexpected result: {:#?}", other),
    }
}

#[test]
fn check_against_expected() {
    let context = Context::new();

    let ty = context.eval(&parse(r"Type -> Type")).unwrap();
    assert_eq!(context.check(&parse(r"\a => a"), &ty), Ok(()));
}

// A term with no normal form exhausts the evaluator's fuel instead of
// hanging.
#[test]
fn eval_out_of_fuel() {
    let context = Context::new();

    assert!(context
        .eval(&parse(r"(\x => x x) (\x => x x)"))
        .is_none());
}

#[test]
fn level_succ() {
    assert_eq!(Level(0).succ(), Level(1));
    assert_eq!(Level(41).succ(), Level(42));
}

#[test]
fn loop_signal() {
    assert_eq!(Loop::Continue, Loop::Continue);
    assert_ne!(Loop::Continue, Loop::Break);
}

#[test]
fn repl_noop() {
    assert!(matches!("".parse(), Ok(ReplCommand::NoOp)));
    assert!(matches!("   ".parse(), Ok(ReplCommand::NoOp)));
}

#[test]
fn repl_quit() {
    assert!(matches!(":q".parse(), Ok(ReplCommand::Quit)));
    assert!(matches!(":quit".parse(), Ok(ReplCommand::Quit)));
}

#[test]
fn repl_help() {
    assert!(matches!(":h".parse(), Ok(ReplCommand::Help)));
    assert!(matches!(":help".parse(), Ok(ReplCommand::Help)));
}

#[test]
fn repl_type_of() {
    assert!(matches!(":t Type".parse(), Ok(ReplCommand::TypeOf(_))));
    assert!(matches!(
        r":type \x : Type => x".parse(),
        Ok(ReplCommand::TypeOf(_))
    ));
}

#[test]
fn repl_eval() {
    assert!(matches!("Type".parse(), Ok(ReplCommand::Eval(_))));
}

#[test]
fn repl_unknown() {
    assert!(matches!(":frobnicate".parse::<ReplCommand>(), Err(_)));
}

#[test]
fn parse_unexpected_character() {
    assert!(matches!("x + y".parse::<lambdapi::parse::Term>(), Err(_)));
}

#[test]
fn parse_trailing_input() {
    assert!(matches!("Type )".parse::<lambdapi::parse::Term>(), Err(_)));
}

#[test]
fn parse_declaration_claim() {
    let d: lambdapi::parse::Declaration = "id : Type -> Type;".parse().unwrap();
    assert!(matches!(d, lambdapi::parse::Declaration::Claim(_, _)));
}

#[test]
fn parse_declaration_definition() {
    let d: lambdapi::parse::Declaration = r"id a x = x;".parse().unwrap();
    assert!(matches!(d, lambdapi::parse::Declaration::Definition(_, _, _)));
}
