//! The syntax model that the tree rewriter works on: expression trees with
//! call, method-call and macro-invocation forms, statements and function
//! items, and the comma-delimited token lists and type expressions that the
//! type-registration entry points consume.
//!
//! Each executable type has a mathematical counterpart over `Seq` that the
//! contracts speak of, reached through `view`.

use vstd::prelude::*;

verus! {

/// Mathematical model of an expression tree.
pub enum ExprS {
    /// An integer literal.
    Lit(u64),
    /// A plain function call: a callee path and arguments.
    Call { func: Seq<Seq<char>>, args: Seq<ExprS> },
    /// A method call: a receiver, a method name and arguments.
    MethodCall { recv: Box<ExprS>, method: Seq<char>, args: Seq<ExprS> },
    /// An addition of two sub-expressions.
    Add(Box<ExprS>, Box<ExprS>),
    /// An explicit suspension point on a sub-expression.
    Await(Box<ExprS>),
    /// The conversion step that the rewriter inserts: turn the operand into
    /// an awaitable value through the conversion shim.
    Convert(Box<ExprS>),
    /// A macro invocation: an invoked path and argument expressions.
    Mac { path: Seq<Seq<char>>, args: Seq<ExprS> },
}

/// An executable expression tree.
#[derive(Debug, PartialEq, Eq)]
pub enum Expr {
    Lit(u64),
    Call { func: Vec<String>, args: Vec<Expr> },
    MethodCall { recv: Box<Expr>, method: String, args: Vec<Expr> },
    Add(Box<Expr>, Box<Expr>),
    Await(Box<Expr>),
    Convert(Box<Expr>),
    Mac { path: Vec<String>, args: Vec<Expr> },
}

/// The view of a path or name list: each identifier as its character sequence.
pub open spec fn names_view(v: Seq<String>) -> Seq<Seq<char>> {
    v.map_values(|s: String| s@)
}

/// The view of an executable expression.
pub open spec fn expr_view(e: Expr) -> ExprS
    decreases e,
{
    match e {
        Expr::Lit(n) => ExprS::Lit(n),
        Expr::Call { func, args } => ExprS::Call {
            func: names_view(func@),
            args: exprs_view(args@),
        },
        Expr::MethodCall { recv, method, args } => ExprS::MethodCall {
            recv: Box::new(expr_view(*recv)),
            method: method@,
            args: exprs_view(args@),
        },
        Expr::Add(a, b) => ExprS::Add(Box::new(expr_view(*a)), Box::new(expr_view(*b))),
        Expr::Await(a) => ExprS::Await(Box::new(expr_view(*a))),
        Expr::Convert(a) => ExprS::Convert(Box::new(expr_view(*a))),
        Expr::Mac { path, args } => ExprS::Mac {
            path: names_view(path@),
            args: exprs_view(args@),
        },
    }
}

/// The view of a sequence of executable expressions, element by element.
pub open spec fn exprs_view(s: Seq<Expr>) -> Seq<ExprS>
    decreases s,
{
    if s.len() == 0 {
        Seq::empty()
    } else {
        exprs_view(s.drop_last()).push(expr_view(s.last()))
    }
}

impl View for Expr {
    type V = ExprS;

    open spec fn view(&self) -> ExprS {
        expr_view(*self)
    }
}

/// `exprs_view` maps `expr_view` over the sequence, element by element.
pub proof fn lemma_exprs_view(s: Seq<Expr>)
    ensures
        exprs_view(s).len() == s.len(),
        forall|i: int| 0 <= i < s.len() ==> exprs_view(s)[i] == expr_view(s[i]),
    decreases s,
{
    if s.len() > 0 {
        lemma_exprs_view(s.drop_last());
    }
}

/// A statement of a function body: either a capability import or an
/// expression statement.
#[derive(Debug, PartialEq, Eq)]
pub enum Stmt {
    Use { path: Vec<String> },
    Expr(Expr),
}

/// Mathematical model of a statement.
pub enum StmtS {
    Use { path: Seq<Seq<char>> },
    Expr(ExprS),
}

pub open spec fn stmt_view(s: Stmt) -> StmtS {
    match s {
        Stmt::Use { path } => StmtS::Use { path: names_view(path@) },
        Stmt::Expr(e) => StmtS::Expr(expr_view(e)),
    }
}

impl View for Stmt {
    type V = StmtS;

    open spec fn view(&self) -> StmtS {
        stmt_view(*self)
    }
}

pub open spec fn stmts_view(s: Seq<Stmt>) -> Seq<StmtS> {
    s.map_values(|st: Stmt| stmt_view(st))
}

/// A function (or method) item: a name and the statement list of its body.
#[derive(Debug, PartialEq, Eq)]
pub struct FnItem {
    pub name: String,
    pub body: Vec<Stmt>,
}

/// Mathematical model of a function item.
pub struct FnS {
    pub name: Seq<char>,
    pub body: Seq<StmtS>,
}

impl View for FnItem {
    type V = FnS;

    open spec fn view(&self) -> FnS {
        FnS { name: self.name@, body: stmts_view(self.body@) }
    }
}

/// One token of a type-registration list.
#[derive(Debug, PartialEq, Eq)]
pub enum Token {
    /// A punctuation token.
    Punct(char),
    /// Any other token, carried as its text.
    Text(String),
}

/// Mathematical model of a token.
pub enum TokenS {
    Punct(char),
    Text(Seq<char>),
}

pub open spec fn token_view(t: Token) -> TokenS {
    match t {
        Token::Punct(c) => TokenS::Punct(c),
        Token::Text(s) => TokenS::Text(s@),
    }
}

impl View for Token {
    type V = TokenS;

    open spec fn view(&self) -> TokenS {
        token_view(*self)
    }
}

pub open spec fn tokens_view(s: Seq<Token>) -> Seq<TokenS> {
    s.map_values(|t: Token| token_view(t))
}

pub open spec fn token_groups_view(s: Seq<Vec<Token>>) -> Seq<Seq<TokenS>> {
    s.map_values(|g: Vec<Token>| tokens_view(g@))
}

/// One segment of a type path: an identifier and, possibly, the names of the
/// angle-bracketed generic arguments attached to it.
#[derive(Debug, PartialEq, Eq)]
pub struct PathSegment {
    pub ident: String,
    pub args: Option<Vec<String>>,
}

/// Mathematical model of a path segment.
pub struct SegS {
    pub ident: Seq<char>,
    pub args: Option<Seq<Seq<char>>>,
}

pub open spec fn seg_view(s: PathSegment) -> SegS {
    SegS {
        ident: s.ident@,
        args: match s.args {
            Some(a) => Some(names_view(a@)),
            None => None,
        },
    }
}

impl View for PathSegment {
    type V = SegS;

    open spec fn view(&self) -> SegS {
        seg_view(*self)
    }
}

/// A type expression of a type-registration list: a path type, or any other
/// form carried as its text.
#[derive(Debug, PartialEq, Eq)]
pub enum TypeExpr {
    Path { segments: Vec<PathSegment> },
    Other { text: String },
}

/// Mathematical model of a type expression.
pub enum TypeS {
    Path { segments: Seq<SegS> },
    Other { text: Seq<char> },
}

pub open spec fn type_view(t: TypeExpr) -> TypeS {
    match t {
        TypeExpr::Path { segments } => TypeS::Path {
            segments: segments@.map_values(|s: PathSegment| seg_view(s)),
        },
        TypeExpr::Other { text } => TypeS::Other { text: text@ },
    }
}

impl View for TypeExpr {
    type V = TypeS;

    open spec fn view(&self) -> TypeS {
        type_view(*self)
    }
}

pub open spec fn types_view(s: Seq<TypeExpr>) -> Seq<TypeS> {
    s.map_values(|t: TypeExpr| type_view(t))
}

/// How an emitted implementation qualifies the shim's own path: through the
/// crate's external name, or through the crate-internal prefix.
#[derive(Debug, PartialEq, Eq, Clone, Copy, Structural)]
pub enum CratePrefix {
    External,
    Internal,
}

/// One emitted implementation of the immediate-wrap capability: its generic
/// parameter list, the type it is for, and the path qualification it uses.
#[derive(Debug, PartialEq, Eq)]
pub struct ImplBlock {
    pub generics: Option<Vec<String>>,
    pub self_type: TypeExpr,
    pub prefix: CratePrefix,
}

/// Mathematical model of an emitted implementation.
pub struct ImplS {
    pub generics: Option<Seq<Seq<char>>>,
    pub self_type: TypeS,
    pub prefix: CratePrefix,
}

pub open spec fn impl_view(b: ImplBlock) -> ImplS {
    ImplS {
        generics: match b.generics {
            Some(a) => Some(names_view(a@)),
            None => None,
        },
        self_type: type_view(b.self_type),
        prefix: b.prefix,
    }
}

impl View for ImplBlock {
    type V = ImplS;

    open spec fn view(&self) -> ImplS {
        impl_view(*self)
    }
}

} // verus!
