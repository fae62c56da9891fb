use lambdapi::check::{check_module, TypeError};
use lambdapi::term::Module;

const PRELUDE: &str = r"
module prelude;

id : (a : Type) -> a -> a;
id = \a x => x;

const : (a : Type) -> (b : Type) -> a -> b -> a;
const a b x y = x;

flip : (a : Type) -> (b : Type) -> (c : Type) -> (a -> b -> c) -> b -> a -> c;
flip = \a b c f y x => f x y;

compose : (a : Type) -> (b : Type) -> (c : Type) -> (b -> c) -> (a -> b) -> a -> c;
compose a b c f g x = f (g x);

id-ann = \a : Type => \x : a => x;

and : Type -> Type -> Type;
and = \p q => (c : Type) -> (p -> q -> c) -> c;

and-intro : (p : Type) -> (q : Type) -> p -> q -> and p q;
and-intro = \p q x y c f => f x y;

and-proj-left : (p : Type) -> (q : Type) -> and p q -> p;
and-proj-left = \p q pq => pq p (\x y => x);

and-proj-right : (p : Type) -> (q : Type) -> and p q -> q;
and-proj-right = \p q pq => pq q (\x y => y);
";

fn parse_module(src: &str) -> Module {
    Module::from_parse(&src.parse().unwrap()).unwrap()
}

#[test]
fn check_prelude() {
    let module = parse_module(PRELUDE);

    check_module(&module).unwrap();
}

#[test]
fn module_undeclared_name() {
    let module = parse_module(
        r"
module broken;

uses-missing : missing -> Type;
",
    );

    match check_module(&module) {
        Err(TypeError::UnboundVariable(_)) => {}
        other => panic!("unexpected result: {:#?}", other),
    }
}

#[test]
fn module_claim_mismatch() {
    let module = parse_module(
        r"
module broken;

wrong : (a : Type) -> a -> a;
wrong = \a x => a;
",
    );

    match check_module(&module) {
        Err(TypeError::TypeMismatch { .. }) => {}
        other => panic!("unexpected result: {:#?}", other),
    }
}

#[test]
fn module_definition_before_use() {
    let module = parse_module(
        r"
module ok;

ty-id : Type -> Type;
ty-id = \a => a;

use-it : Type;
use-it = ty-id Type;
",
    );

    check_module(&module).unwrap();
}

#[test]
fn module_empty() {
    let module = parse_module(r"module nothing;");

    check_module(&module).unwrap();
}

#[test]
fn module_definition_shadows() {
    // A second definition of the same name is a fresh binding; later
    // declarations see the more recent one.
    let module = parse_module(
        r"
module shadow;

thing = Type;
thing = \a : Type => a;
still-fine : Type;
still-fine = thing Type;
",
    );

    check_module(&module).unwrap();
}

#[test]
fn module_unannotated_definition_needs_claim() {
    let module = parse_module(
        r"
module broken;

mystery = \a => a;
",
    );

    match check_module(&module) {
        Err(TypeError::AnnotationNeeded) => {}
        other => panic!("unexpected result: {:#?}", other),
    }
}
