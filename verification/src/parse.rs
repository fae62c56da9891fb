//! The concrete syntax: the parse tree, and a parser for it.
//!
//! The parse tree is untyped and uses plain string names; translation into
//! the core representation resolves them. The grammar itself is deliberately
//! small: terms, top-level declarations, modules, and the commands of an
//! interactive session. The parser is a hand-written recursive descent over
//! a token list; it produces a concrete tree or a parse error, and that is
//! all that is promised of it.

use vstd::prelude::*;

verus! {

/// Why a source text failed to parse.
#[derive(Debug, Clone, PartialEq, Eq)]
pub struct ParseError(pub String);

/// A command of an interactive session.
#[derive(Debug)]
pub enum ReplCommand {
    /// Evaluate a term.
    Eval(Box<Term>),
    /// Show the help text.
    Help,
    /// Do nothing.
    NoOp,
    /// Leave the session.
    Quit,
    /// Show the type of a term.
    TypeOf(Box<Term>),
}

/// A module definition.
#[derive(Debug, PartialEq)]
pub struct Module {
    /// The name of the module.
    pub name: String,
    /// The declarations contained in the module.
    pub declarations: Vec<Declaration>,
}

/// Top level declarations.
#[derive(Debug, PartialEq)]
pub enum Declaration {
    /// Claims that a term abides by the given type.
    Claim(String, Term),
    /// Declares the body of a term, with zero or more parameters.
    Definition(String, Vec<(String, Option<Box<Term>>)>, Term),
}

/// The AST of the concrete syntax.
#[derive(Debug, PartialEq)]
pub enum Term {
    /// A named variable.
    Var(String),
    /// The type of types.
    Type,
    /// A term ascribed a type.
    Ann(Box<Term>, Box<Term>),
    /// A function with a list of (optionally annotated) parameters.
    Lam(Vec<(String, Option<Box<Term>>)>, Box<Term>),
    /// A dependent function type.
    Pi(String, Box<Term>, Box<Term>),
    /// A non-dependent function type.
    Arrow(Box<Term>, Box<Term>),
    /// An application.
    App(Box<Term>, Box<Term>),
}

/// Mathematical model of a concrete [`Term`].
pub enum CTermV {
    Var(Seq<char>),
    Type,
    Ann(Box<CTermV>, Box<CTermV>),
    Lam(Seq<(Seq<char>, Option<Box<CTermV>>)>, Box<CTermV>),
    Pi(Seq<char>, Box<CTermV>, Box<CTermV>),
    Arrow(Box<CTermV>, Box<CTermV>),
    App(Box<CTermV>, Box<CTermV>),
}

/// The view of a concrete parameter list.
pub open spec fn params_view(s: Seq<(String, Option<Box<Term>>)>) -> Seq<
    (Seq<char>, Option<Box<CTermV>>),
>
    decreases s,
{
    if s.len() == 0 {
        Seq::empty()
    } else {
        let p = s[0];
        let pv = (
            p.0@,
            match p.1 {
                Some(t) => Some(Box::new((*t)@)),
                None => None,
            },
        );
        seq![pv] + params_view(s.drop_first())
    }
}

impl View for Term {
    type V = CTermV;

    open spec fn view(&self) -> CTermV
        decreases self,
    {
        match self {
            Term::Var(s) => CTermV::Var(s@),
            Term::Type => CTermV::Type,
            Term::Ann(e, t) => CTermV::Ann(Box::new((**e)@), Box::new((**t)@)),
            Term::Lam(params, body) => CTermV::Lam(params_view(params@), Box::new((**body)@)),
            Term::Pi(n, p, b) => CTermV::Pi(n@, Box::new((**p)@), Box::new((**b)@)),
            Term::Arrow(a, b) => CTermV::Arrow(Box::new((**a)@), Box::new((**b)@)),
            Term::App(f, a) => CTermV::App(Box::new((**f)@), Box::new((**a)@)),
        }
    }
}

/// Mathematical model of a concrete [`Declaration`].
pub enum CDeclV {
    Claim(Seq<char>, CTermV),
    Definition(Seq<char>, Seq<(Seq<char>, Option<Box<CTermV>>)>, CTermV),
}

impl View for Declaration {
    type V = CDeclV;

    open spec fn view(&self) -> CDeclV {
        match self {
            Declaration::Claim(n, t) => CDeclV::Claim(n@, t@),
            Declaration::Definition(n, params, t) => CDeclV::Definition(
                n@,
                params_view(params@),
                t@,
            ),
        }
    }
}

/// Mathematical model of a concrete [`Module`].
pub struct CModuleV {
    pub name: Seq<char>,
    pub declarations: Seq<CDeclV>,
}

impl View for Module {
    type V = CModuleV;

    open spec fn view(&self) -> CModuleV {
        CModuleV {
            name: self.name@,
            declarations: Seq::new(self.declarations@.len(), |i: int| self.declarations@[i]@),
        }
    }
}

/// One lexical token.
#[derive(Debug)]
enum Token {
    Ident(String),
    TypeKw,
    ModuleKw,
    Lambda,
    Colon,
    FatArrow,
    Arrow,
    LParen,
    RParen,
    Semi,
    Equals,
}

fn is_ident_start(c: char) -> bool {
    let u = c as u32;
    (97 <= u && u <= 122) || (65 <= u && u <= 90) || u == 95
}

fn is_ident_continue(c: char) -> bool {
    let u = c as u32;
    (97 <= u && u <= 122) || (65 <= u && u <= 90) || (48 <= u && u <= 57) || u == 95 || u == 45
}

/// Split a source text into tokens. An identifier starts with a letter or
/// an underscore and may continue with letters, digits, underscores and
/// hyphens; a hyphen directly followed by `>` ends it, so arrows need no
/// surrounding spaces.
fn lex(src: &str) -> (r: Result<Vec<Token>, ParseError>) {
    let n = src.unicode_len();
    let mut toks: Vec<Token> = Vec::new();
    let mut i: usize = 0;
    while i < n
        invariant
            i <= n,
            n as nat == src@.len(),
        decreases n - i,
    {
        let c = src.get_char(i);
        if c == ' ' || c == '\t' || c == '\r' || c == '\n' {
            i = i + 1;
        } else if c == '\\' {
            toks.push(Token::Lambda);
            i = i + 1;
        } else if c == ':' {
            toks.push(Token::Colon);
            i = i + 1;
        } else if c == '(' {
            toks.push(Token::LParen);
            i = i + 1;
        } else if c == ')' {
            toks.push(Token::RParen);
            i = i + 1;
        } else if c == ';' {
            toks.push(Token::Semi);
            i = i + 1;
        } else if c == '=' {
            if i + 1 < n && src.get_char(i + 1) == '>' {
                toks.push(Token::FatArrow);
                i = i + 2;
            } else {
                toks.push(Token::Equals);
                i = i + 1;
            }
        } else if c == '-' {
            if i + 1 < n && src.get_char(i + 1) == '>' {
                toks.push(Token::Arrow);
                i = i + 2;
            } else {
                return Err(ParseError("stray hyphen".to_owned()));
            }
        } else if is_ident_start(c) {
            let start = i;
            i = i + 1;
            while i < n
                invariant
                    start < i <= n,
                    n as nat == src@.len(),
                decreases n - i,
            {
                let c2 = src.get_char(i);
                if is_ident_continue(c2) {
                    if c2 == '-' && i + 1 < n && src.get_char(i + 1) == '>' {
                        break;
                    }
                    i = i + 1;
                } else {
                    break;
                }
            }
            let s = src.substring_char(start, i).to_owned();
            if s.eq(&"Type".to_owned()) {
                toks.push(Token::TypeKw);
            } else if s.eq(&"module".to_owned()) {
                toks.push(Token::ModuleKw);
            } else {
                toks.push(Token::Ident(s));
            }
        } else {
            return Err(ParseError("unexpected character".to_owned()));
        }
    }
    Ok(toks)
}

/// Parse a whole term: a function, or a chain of ascriptions. Ascription
/// associates to the left, and binds less tightly than arrows.
fn parse_term(toks: &Vec<Token>, pos: usize) -> (r: Result<(Term, usize), ParseError>)
    requires
        pos <= toks@.len(),
    ensures
        match r {
            Ok(tp) => pos < tp.1 <= toks@.len(),
            Err(_) => true,
        },
    decreases toks@.len() - pos, 4int,
{
    if pos < toks.len() && matches!(&toks[pos], Token::Lambda) {
        return parse_lam(toks, pos);
    }
    let first = parse_arrow(toks, pos)?;
    let mut t = first.0;
    let mut p = first.1;
    while p < toks.len() && matches!(&toks[p], Token::Colon)
        invariant
            pos < p <= toks@.len(),
        decreases toks@.len() - p,
    {
        let next = parse_arrow(toks, p + 1)?;
        t = Term::Ann(Box::new(t), Box::new(next.0));
        p = next.1;
    }
    Ok((t, p))
}

/// Parse a function: a backslash, one or more parameters, a fat arrow and
/// a body. A single parameter may be annotated without parentheses;
/// otherwise each annotated parameter stands in parentheses.
fn parse_lam(toks: &Vec<Token>, pos: usize) -> (r: Result<(Term, usize), ParseError>)
    requires
        pos <= toks@.len(),
    ensures
        match r {
            Ok(tp) => pos < tp.1 <= toks@.len(),
            Err(_) => true,
        },
    decreases toks@.len() - pos, 2int,
{
    if !(pos < toks.len() && matches!(&toks[pos], Token::Lambda)) {
        return Err(ParseError("function expected".to_owned()));
    }
    let mut p = pos + 1;
    // The unparenthesized single annotated parameter: \x : ty => body
    if p < toks.len() && p + 1 < toks.len() && matches!(&toks[p], Token::Ident(_)) && matches!(
        &toks[p + 1],
        Token::Colon,
    ) {
        let name = match &toks[p] {
            Token::Ident(s) => s.clone(),
            _ => {
                return Err(ParseError("identifier expected".to_owned()));
            },
        };
        let ann = parse_arrow(toks, p + 2)?;
        p = ann.1;
        if !(p < toks.len() && matches!(&toks[p], Token::FatArrow)) {
            return Err(ParseError("body expected after parameter".to_owned()));
        }
        let body = parse_term(toks, p + 1)?;
        let mut params: Vec<(String, Option<Box<Term>>)> = Vec::new();
        params.push((name, Some(Box::new(ann.0))));
        return Ok((Term::Lam(params, Box::new(body.0)), body.1));
    }
    let mut params: Vec<(String, Option<Box<Term>>)> = Vec::new();
    loop
        invariant
            pos < p <= toks@.len(),
        decreases toks@.len() - p,
    {
        if p < toks.len() && matches!(&toks[p], Token::Ident(_)) {
            let name = match &toks[p] {
                Token::Ident(s) => s.clone(),
                _ => {
                    return Err(ParseError("identifier expected".to_owned()));
                },
            };
            params.push((name, None));
            p = p + 1;
        } else if p < toks.len() && matches!(&toks[p], Token::LParen) {
            if !(p + 1 < toks.len() && matches!(&toks[p + 1], Token::Ident(_))) {
                return Err(ParseError("identifier expected in parameter".to_owned()));
            }
            let name = match &toks[p + 1] {
                Token::Ident(s) => s.clone(),
                _ => {
                    return Err(ParseError("identifier expected in parameter".to_owned()));
                },
            };
            if !(p + 2 < toks.len() && matches!(&toks[p + 2], Token::Colon)) {
                return Err(ParseError("annotation expected in parameter".to_owned()));
            }
            let ann = parse_term(toks, p + 3)?;
            p = ann.1;
            if !(p < toks.len() && matches!(&toks[p], Token::RParen)) {
                return Err(ParseError("unclosed parameter".to_owned()));
            }
            params.push((name, Some(Box::new(ann.0))));
            p = p + 1;
        } else {
            break;
        }
    }
    if params.len() == 0 {
        return Err(ParseError("parameter expected".to_owned()));
    }
    if !(p < toks.len() && matches!(&toks[p], Token::FatArrow)) {
        return Err(ParseError("body expected after parameters".to_owned()));
    }
    let body = parse_term(toks, p + 1)?;
    Ok((Term::Lam(params, Box::new(body.0)), body.1))
}

/// Parse an arrow chain. Arrows associate to the right. A parenthesized
/// ascription of an identifier on the left of an arrow forms a dependent
/// function type; any other ascription there is an error.
fn parse_arrow(toks: &Vec<Token>, pos: usize) -> (r: Result<(Term, usize), ParseError>)
    requires
        pos <= toks@.len(),
    ensures
        match r {
            Ok(tp) => pos < tp.1 <= toks@.len(),
            Err(_) => true,
        },
    decreases toks@.len() - pos, 3int,
{
    if pos < toks.len() && matches!(&toks[pos], Token::Lambda) {
        return parse_lam(toks, pos);
    }
    let lhs = parse_app(toks, pos)?;
    let p = lhs.1;
    if p < toks.len() && matches!(&toks[p], Token::Arrow) {
        let rhs = parse_arrow(toks, p + 1)?;
        match lhs.0 {
            Term::Ann(l, ty) => match *l {
                Term::Var(name) => Ok(
                    (Term::Pi(name, ty, Box::new(rhs.0)), rhs.1),
                ),
                _ => Err(ParseError("identifier expected in pi type".to_owned())),
            },
            other => Ok((Term::Arrow(Box::new(other), Box::new(rhs.0)), rhs.1)),
        }
    } else {
        Ok(lhs)
    }
}

/// Parse an application chain: one or more atoms, associating to the left.
fn parse_app(toks: &Vec<Token>, pos: usize) -> (r: Result<(Term, usize), ParseError>)
    requires
        pos <= toks@.len(),
    ensures
        match r {
            Ok(tp) => pos < tp.1 <= toks@.len(),
            Err(_) => true,
        },
    decreases toks@.len() - pos, 1int,
{
    let first = parse_atom(toks, pos)?;
    let mut t = first.0;
    let mut p = first.1;
    while p < toks.len() && (matches!(&toks[p], Token::Ident(_)) || matches!(
        &toks[p],
        Token::TypeKw,
    ) || matches!(&toks[p], Token::LParen))
        invariant
            pos < p <= toks@.len(),
        decreases toks@.len() - p,
    {
        let arg = parse_atom(toks, p)?;
        t = Term::App(Box::new(t), Box::new(arg.0));
        p = arg.1;
    }
    Ok((t, p))
}

/// Parse an atom: a variable, the type of types, or a parenthesized term.
fn parse_atom(toks: &Vec<Token>, pos: usize) -> (r: Result<(Term, usize), ParseError>)
    requires
        pos <= toks@.len(),
    ensures
        match r {
            Ok(tp) => pos < tp.1 <= toks@.len(),
            Err(_) => true,
        },
    decreases toks@.len() - pos, 0int,
{
    if pos >= toks.len() {
        return Err(ParseError("term expected".to_owned()));
    }
    match &toks[pos] {
        Token::Ident(s) => Ok((Term::Var(s.clone()), pos + 1)),
        Token::TypeKw => Ok((Term::Type, pos + 1)),
        Token::LParen => {
            let inner = parse_term(toks, pos + 1)?;
            if inner.1 < toks.len() && matches!(&toks[inner.1], Token::RParen) {
                Ok((inner.0, inner.1 + 1))
            } else {
                Err(ParseError("unclosed parenthesis".to_owned()))
            }
        },
        _ => Err(ParseError("term expected".to_owned())),
    }
}

/// Parse one declaration: `name : term ;` claims a type, and
/// `name params = term ;` defines a body.
fn parse_declaration(toks: &Vec<Token>, pos: usize) -> (r: Result<
    (Declaration, usize),
    ParseError,
>)
    requires
        pos <= toks@.len(),
    ensures
        match r {
            Ok(dp) => pos < dp.1 <= toks@.len(),
            Err(_) => true,
        },
{
    if !(pos < toks.len() && matches!(&toks[pos], Token::Ident(_))) {
        return Err(ParseError("declaration expected".to_owned()));
    }
    let name = match &toks[pos] {
        Token::Ident(s) => s.clone(),
        _ => {
            return Err(ParseError("declaration expected".to_owned()));
        },
    };
    let mut p = pos + 1;
    if p < toks.len() && matches!(&toks[p], Token::Colon) {
        let ty = parse_term(toks, p + 1)?;
        p = ty.1;
        if !(p < toks.len() && matches!(&toks[p], Token::Semi)) {
            return Err(ParseError("semicolon expected after claim".to_owned()));
        }
        return Ok((Declaration::Claim(name, ty.0), p + 1));
    }
    let mut params: Vec<(String, Option<Box<Term>>)> = Vec::new();
    while p < toks.len() && (matches!(&toks[p], Token::Ident(_)) || matches!(
        &toks[p],
        Token::LParen,
    ))
        invariant
            pos < p <= toks@.len(),
        decreases toks@.len() - p,
    {
        if matches!(&toks[p], Token::Ident(_)) {
            let pname = match &toks[p] {
                Token::Ident(s) => s.clone(),
                _ => {
                    return Err(ParseError("parameter expected".to_owned()));
                },
            };
            params.push((pname, None));
            p = p + 1;
        } else {
            if !(p + 1 < toks.len() && matches!(&toks[p + 1], Token::Ident(_))) {
                return Err(ParseError("identifier expected in parameter".to_owned()));
            }
            let pname = match &toks[p + 1] {
                Token::Ident(s) => s.clone(),
                _ => {
                    return Err(ParseError("identifier expected in parameter".to_owned()));
                },
            };
            if !(p + 2 < toks.len() && matches!(&toks[p + 2], Token::Colon)) {
                return Err(ParseError("annotation expected in parameter".to_owned()));
            }
            let ann = parse_term(toks, p + 3)?;
            p = ann.1;
            if !(p < toks.len() && matches!(&toks[p], Token::RParen)) {
                return Err(ParseError("unclosed parameter".to_owned()));
            }
            params.push((pname, Some(Box::new(ann.0))));
            p = p + 1;
        }
    }
    if !(p < toks.len() && matches!(&toks[p], Token::Equals)) {
        return Err(ParseError("definition expected".to_owned()));
    }
    let body = parse_term(toks, p + 1)?;
    p = body.1;
    if !(p < toks.len() && matches!(&toks[p], Token::Semi)) {
        return Err(ParseError("semicolon expected after definition".to_owned()));
    }
    Ok((Declaration::Definition(name, params, body.0), p + 1))
}

/// Parse a whole module: a `module name ;` header followed by its
/// declarations.
fn parse_module(toks: &Vec<Token>) -> (r: Result<Module, ParseError>) {
    if !(0 < toks.len() && matches!(&toks[0], Token::ModuleKw)) {
        return Err(ParseError("module header expected".to_owned()));
    }
    if !(1 < toks.len() && matches!(&toks[1], Token::Ident(_))) {
        return Err(ParseError("module name expected".to_owned()));
    }
    let name = match &toks[1] {
        Token::Ident(s) => s.clone(),
        _ => {
            return Err(ParseError("module name expected".to_owned()));
        },
    };
    if !(2 < toks.len() && matches!(&toks[2], Token::Semi)) {
        return Err(ParseError("semicolon expected after module name".to_owned()));
    }
    let mut declarations: Vec<Declaration> = Vec::new();
    let mut p: usize = 3;
    while p < toks.len()
        invariant
            p <= toks@.len(),
        decreases toks@.len() - p,
    {
        let d = parse_declaration(toks, p)?;
        declarations.push(d.0);
        p = d.1;
    }
    Ok(Module { name, declarations })
}

impl Term {
    /// Parse a term from source text.
    pub fn parse_str(src: &str) -> (r: Result<Term, ParseError>) {
        let toks = lex(src)?;
        let t = parse_term(&toks, 0)?;
        if t.1 == toks.len() {
            Ok(t.0)
        } else {
            Err(ParseError("unexpected trailing input".to_owned()))
        }
    }
}

impl Declaration {
    /// Parse a declaration from source text.
    pub fn parse_str(src: &str) -> (r: Result<Declaration, ParseError>) {
        let toks = lex(src)?;
        let d = parse_declaration(&toks, 0)?;
        if d.1 == toks.len() {
            Ok(d.0)
        } else {
            Err(ParseError("unexpected trailing input".to_owned()))
        }
    }
}

impl Module {
    /// Parse a module from source text.
    pub fn parse_str(src: &str) -> (r: Result<Module, ParseError>) {
        let toks = lex(src)?;
        parse_module(&toks)
    }
}

impl ReplCommand {
    /// Parse a command of an interactive session: nothing, a `:`-prefixed
    /// command, or a term to evaluate.
    pub fn parse_str(src: &str) -> (r: Result<ReplCommand, ParseError>) {
        let toks = lex(src)?;
        if toks.len() == 0 {
            return Ok(ReplCommand::NoOp);
        }
        if matches!(&toks[0], Token::Colon) {
            if !(1 < toks.len() && matches!(&toks[1], Token::Ident(_))) {
                return Err(ParseError("unknown command".to_owned()));
            }
            let word = match &toks[1] {
                Token::Ident(s) => s.clone(),
                _ => {
                    return Err(ParseError("unknown command".to_owned()));
                },
            };
            if word.eq(&"q".to_owned()) || word.eq(&"quit".to_owned()) {
                if toks.len() == 2 {
                    Ok(ReplCommand::Quit)
                } else {
                    Err(ParseError("unexpected trailing input".to_owned()))
                }
            } else if word.eq(&"h".to_owned()) || word.eq(&"help".to_owned()) {
                if toks.len() == 2 {
                    Ok(ReplCommand::Help)
                } else {
                    Err(ParseError("unexpected trailing input".to_owned()))
                }
            } else if word.eq(&"t".to_owned()) || word.eq(&"type".to_owned()) {
                let t = parse_term(&toks, 2)?;
                if t.1 == toks.len() {
                    Ok(ReplCommand::TypeOf(Box::new(t.0)))
                } else {
                    Err(ParseError("unexpected trailing input".to_owned()))
                }
            } else {
                Err(ParseError("unknown command".to_owned()))
            }
        } else {
            let t = parse_term(&toks, 0)?;
            if t.1 == toks.len() {
                Ok(ReplCommand::Eval(Box::new(t.0)))
            } else {
                Err(ParseError("unexpected trailing input".to_owned()))
            }
        }
    }
}

impl std::str::FromStr for Term {
    type Err = ParseError;

    fn from_str(src: &str) -> (r: Result<Term, ParseError>) {
        Term::parse_str(src)
    }
}

impl std::str::FromStr for Declaration {
    type Err = ParseError;

    fn from_str(src: &str) -> (r: Result<Declaration, ParseError>) {
        Declaration::parse_str(src)
    }
}

impl std::str::FromStr for Module {
    type Err = ParseError;

    fn from_str(src: &str) -> (r: Result<Module, ParseError>) {
        Module::parse_str(src)
    }
}

impl std::str::FromStr for ReplCommand {
    type Err = ParseError;

    fn from_str(src: &str) -> (r: Result<ReplCommand, ParseError>) {
        ReplCommand::parse_str(src)
    }
}

} // verus!
