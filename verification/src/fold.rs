//! The tree rewriter: a post-order fold over the expression tree that wraps
//! every call-shaped expression as `{ <call> }.as_future().await` — a
//! conversion step followed by a suspension point — unless the expression
//! stands inside a deferred region, and that injects the two capability
//! imports at the front of a transformed function body.

use vstd::prelude::*;

use crate::ast::{
    Expr, ExprS, FnItem, FnS, Stmt, StmtS, exprs_view, expr_view, lemma_exprs_view, names_view,
    stmts_view,
};

verus! {

/// Whether a path's final segment is named `defer`. Detection of a deferred
/// region is purely name-based: it does not check what the path resolves to.
pub open spec fn is_defer_path(path: Seq<Seq<char>>) -> bool {
    path.len() > 0 && path.last() == "defer"@
}

/// Whether an expression's outermost form is a call form.
pub open spec fn call_shaped(e: ExprS) -> bool {
    e is Call || e is MethodCall
}

/// The rewrite of one call site: keep the call in its own scope, convert its
/// result through the conversion capability, then suspend on the conversion.
pub open spec fn wrap_call(e: ExprS) -> ExprS {
    ExprS::Await(Box::new(ExprS::Convert(Box::new(e))))
}

/// The fold of one expression under `defer` enclosing deferred regions:
/// sub-expressions are folded first (so nested calls are rewritten
/// bottom-up), the nesting counter rises by one inside a deferred region's
/// arguments, and the result is wrapped exactly when the counter is zero and
/// the folded form is call-shaped.
pub open spec fn fold_expr_spec(e: ExprS, defer: nat) -> ExprS
    decreases e,
{
    let folded = match e {
        ExprS::Lit(n) => ExprS::Lit(n),
        ExprS::Call { func, args } => ExprS::Call { func, args: fold_args_spec(args, defer) },
        ExprS::MethodCall { recv, method, args } => ExprS::MethodCall {
            recv: Box::new(fold_expr_spec(*recv, defer)),
            method,
            args: fold_args_spec(args, defer),
        },
        ExprS::Add(a, b) => ExprS::Add(
            Box::new(fold_expr_spec(*a, defer)),
            Box::new(fold_expr_spec(*b, defer)),
        ),
        ExprS::Await(a) => ExprS::Await(Box::new(fold_expr_spec(*a, defer))),
        ExprS::Convert(a) => ExprS::Convert(Box::new(fold_expr_spec(*a, defer))),
        ExprS::Mac { path, args } => ExprS::Mac {
            path,
            args: fold_args_spec(args, if is_defer_path(path) { defer + 1 } else { defer }),
        },
    };
    if defer == 0 && call_shaped(folded) {
        wrap_call(folded)
    } else {
        folded
    }
}

/// The fold of an argument list, element by element.
pub open spec fn fold_args_spec(s: Seq<ExprS>, defer: nat) -> Seq<ExprS>
    decreases s,
{
    if s.len() == 0 {
        Seq::empty()
    } else {
        fold_args_spec(s.drop_last(), defer).push(fold_expr_spec(s.last(), defer))
    }
}

/// `fold_args_spec` maps `fold_expr_spec` over the list, element by element.
pub proof fn lemma_fold_args_spec(s: Seq<ExprS>, defer: nat)
    ensures
        fold_args_spec(s, defer).len() == s.len(),
        forall|i: int| 0 <= i < s.len() ==> fold_args_spec(s, defer)[i] == fold_expr_spec(
            s[i],
            defer,
        ),
    decreases s,
{
    if s.len() > 0 {
        lemma_fold_args_spec(s.drop_last(), defer);
    }
}

/// Inside a deferred region nothing is rewritten: with a positive nesting
/// counter the fold is the identity on every expression, however deeply
/// deferred regions nest within it.
pub proof fn lemma_fold_deferred_identity(e: ExprS, defer: nat)
    requires
        defer > 0,
    ensures
        fold_expr_spec(e, defer) == e,
    decreases e,
{
    match e {
        ExprS::Lit(_) => {},
        ExprS::Call { func, args } => {
            lemma_fold_args_deferred_identity(args, defer);
        },
        ExprS::MethodCall { recv, method, args } => {
            lemma_fold_deferred_identity(*recv, defer);
            lemma_fold_args_deferred_identity(args, defer);
        },
        ExprS::Add(a, b) => {
            lemma_fold_deferred_identity(*a, defer);
            lemma_fold_deferred_identity(*b, defer);
        },
        ExprS::Await(a) => {
            lemma_fold_deferred_identity(*a, defer);
        },
        ExprS::Convert(a) => {
            lemma_fold_deferred_identity(*a, defer);
        },
        ExprS::Mac { path, args } => {
            lemma_fold_args_deferred_identity(
                args,
                if is_defer_path(path) { defer + 1 } else { defer },
            );
        },
    }
}

/// The argument-list form of `lemma_fold_deferred_identity`.
pub proof fn lemma_fold_args_deferred_identity(s: Seq<ExprS>, defer: nat)
    requires
        defer > 0,
    ensures
        fold_args_spec(s, defer) == s,
    decreases s,
{
    if s.len() == 0 {
        assert(fold_args_spec(s, defer) =~= s);
    } else {
        lemma_fold_args_deferred_identity(s.drop_last(), defer);
        lemma_fold_deferred_identity(s.last(), defer);
        assert(fold_args_spec(s, defer) =~= s);
    }
}

/// The fold of one statement: an import passes through, an expression
/// statement has its expression folded.
pub open spec fn fold_stmt_spec(s: StmtS, defer: nat) -> StmtS {
    match s {
        StmtS::Use { path } => StmtS::Use { path },
        StmtS::Expr(e) => StmtS::Expr(fold_expr_spec(e, defer)),
    }
}

pub open spec fn fold_stmts_spec(s: Seq<StmtS>, defer: nat) -> Seq<StmtS> {
    s.map_values(|st: StmtS| fold_stmt_spec(st, defer))
}

/// The capability import injected first: the immediate-wrap capability.
pub open spec fn use_non_future_stmt() -> StmtS {
    StmtS::Use { path: seq!["implicit_await"@, "as_future"@, "NonFutureAsFuture"@] }
}

/// The capability import injected second: the self-suspension capability.
pub open spec fn use_future_stmt() -> StmtS {
    StmtS::Use { path: seq!["implicit_await"@, "as_future"@, "FutureAsFuture"@] }
}

/// The whole transformation of a function item: the body is folded with the
/// nesting counter at zero, and the two capability imports are placed at the
/// very start of the statement list so that every call site within can
/// resolve the conversion methods.
pub open spec fn transform_spec(f: FnS) -> FnS {
    FnS {
        name: f.name,
        body: seq![use_non_future_stmt(), use_future_stmt()] + fold_stmts_spec(f.body, 0),
    }
}

/// The fold context: the one piece of state threaded through the whole pass,
/// the counter of how many deferred regions enclose the expression currently
/// being visited.
pub struct ImplicitAwaitFold {
    pub defer: usize,
}

impl ImplicitAwaitFold {
    /// Fold one expression. The nesting counter always returns to its
    /// entry value once the subtree has been visited.
    pub fn fold_expr(&mut self, e: Expr) -> (r: Expr)
        ensures
            r@ == fold_expr_spec(e@, old(self).defer as nat),
            final(self).defer == old(self).defer,
        decreases e,
    {
        proof {
            reveal_with_fuel(fold_expr_spec, 3);
            reveal_with_fuel(expr_view, 3);
        }
        match e {
            Expr::Lit(n) => Expr::Lit(n),
            Expr::Call { func, args } => {
                let folded_args = self.fold_exprs(args);
                let folded = Expr::Call { func, args: folded_args };
                if self.defer == 0 {
                    Expr::Await(Box::new(Expr::Convert(Box::new(folded))))
                } else {
                    folded
                }
            },
            Expr::MethodCall { recv, method, args } => {
                let folded_recv = Box::new(self.fold_expr(*recv));
                let folded_args = self.fold_exprs(args);
                let folded = Expr::MethodCall { recv: folded_recv, method, args: folded_args };
                if self.defer == 0 {
                    Expr::Await(Box::new(Expr::Convert(Box::new(folded))))
                } else {
                    folded
                }
            },
            Expr::Add(a, b) => {
                let fa = Box::new(self.fold_expr(*a));
                let fb = Box::new(self.fold_expr(*b));
                Expr::Add(fa, fb)
            },
            Expr::Await(a) => Expr::Await(Box::new(self.fold_expr(*a))),
            Expr::Convert(a) => Expr::Convert(Box::new(self.fold_expr(*a))),
            Expr::Mac { path, args } => {
                let is_defer = path_ends_in_defer(&path);
                // The counter cannot pass the machine limit; at the limit the
                // increment is skipped, which folds the arguments at the same
                // positive counter and so rewrites nothing there either.
                let bumped = is_defer && self.defer < usize::MAX;
                if bumped {
                    self.defer = self.defer + 1;
                }
                let folded_args = self.fold_exprs(args);
                if bumped {
                    self.defer = self.defer - 1;
                }
                proof {
                    if is_defer && !bumped {
                        lemma_fold_args_deferred_identity(
                            exprs_view(args@),
                            old(self).defer as nat,
                        );
                        lemma_fold_args_deferred_identity(
                            exprs_view(args@),
                            old(self).defer as nat + 1,
                        );
                    }
                }
                Expr::Mac { path, args: folded_args }
            },
        }
    }

    /// Fold an argument list, element by element.
    pub fn fold_exprs(&mut self, v: Vec<Expr>) -> (r: Vec<Expr>)
        ensures
            exprs_view(r@) == fold_args_spec(exprs_view(v@), old(self).defer as nat),
            final(self).defer == old(self).defer,
        decreases v@,
    {
        let mut input = v;
        match input.pop() {
            None => {
                proof {
                    assert(exprs_view(input@) =~= fold_args_spec(exprs_view(v@), old(self).defer as nat));
                }
                input
            },
            Some(last) => {
                let ghost rest: Seq<Expr> = input@;
                let mut front = self.fold_exprs(input);
                let ghost front0: Seq<Expr> = front@;
                let folded = self.fold_expr(last);
                front.push(folded);
                proof {
                    let d = old(self).defer as nat;
                    let ev = exprs_view(v@);
                    lemma_exprs_view(v@);
                    lemma_exprs_view(rest);
                    assert(rest =~= v@.drop_last());
                    assert(exprs_view(rest) =~= ev.drop_last());
                    assert(front@.drop_last() =~= front0);
                    assert(front@.last() == folded);
                    assert(exprs_view(front@) == exprs_view(front@.drop_last()).push(
                        expr_view(front@.last()),
                    ));
                    assert(ev.len() > 0);
                    assert(fold_args_spec(ev, d) == fold_args_spec(ev.drop_last(), d).push(
                        fold_expr_spec(ev.last(), d),
                    ));
                    assert(expr_view(last) == ev.last());
                }
                front
            },
        }
    }

    /// Fold one statement.
    pub fn fold_stmt(&mut self, s: Stmt) -> (r: Stmt)
        ensures
            r@ == fold_stmt_spec(s@, old(self).defer as nat),
            final(self).defer == old(self).defer,
    {
        match s {
            Stmt::Use { path } => Stmt::Use { path },
            Stmt::Expr(e) => Stmt::Expr(self.fold_expr(e)),
        }
    }

    /// Fold a function item and inject the two capability imports at the
    /// very start of its body.
    pub fn fold_item_fn(&mut self, f: FnItem) -> (r: FnItem)
        ensures
            r@ == (FnS {
                name: f@.name,
                body: seq![use_non_future_stmt(), use_future_stmt()] + fold_stmts_spec(
                    f@.body,
                    old(self).defer as nat,
                ),
            }),
            final(self).defer == old(self).defer,
    {
        let FnItem { name, body } = f;
        let mut folded_body: Vec<Stmt> = Vec::new();
        folded_body.push(use_stmt_non_future());
        folded_body.push(use_stmt_future());
        let mut input = body;
        let ghost orig: Seq<Stmt> = input@;
        let ghost d: nat = self.defer as nat;
        let total: usize = input.len();
        let mut i: usize = 0;
        while input.len() > 0
            invariant
                self.defer as nat == d,
                total == orig.len(),
                i + input@.len() == orig.len(),
                input@ =~= orig.skip(i as int),
                folded_body@.len() == i + 2,
                folded_body@[0]@ == use_non_future_stmt(),
                folded_body@[1]@ == use_future_stmt(),
                forall|j: int| 0 <= j < i ==> folded_body@[j + 2]@ == fold_stmt_spec(orig[j]@, d),
            decreases input@.len(),
        {
            let s = input.remove(0);
            proof {
                assert(orig.skip(i as int)[0] == orig[i as int]);
                assert(input@ =~= orig.skip(i as int).remove(0));
                assert(input@ =~= orig.skip(i as int + 1));
            }
            let fs = self.fold_stmt(s);
            folded_body.push(fs);
            i = i + 1;
        }
        let out = FnItem { name, body: folded_body };
        proof {
            assert(stmts_view(out.body@) =~= seq![use_non_future_stmt(), use_future_stmt()]
                + fold_stmts_spec(stmts_view(orig), d));
        }
        out
    }
}

/// Build the injected import of the immediate-wrap capability.
pub fn use_stmt_non_future() -> (r: Stmt)
    ensures
        r@ == use_non_future_stmt(),
{
    let mut path: Vec<String> = Vec::new();
    path.push("implicit_await".to_owned());
    path.push("as_future".to_owned());
    path.push("NonFutureAsFuture".to_owned());
    let r = Stmt::Use { path };
    proof {
        assert(names_view(r->Use_path@) =~= use_non_future_stmt()->Use_path);
    }
    r
}

/// Build the injected import of the self-suspension capability.
pub fn use_stmt_future() -> (r: Stmt)
    ensures
        r@ == use_future_stmt(),
{
    let mut path: Vec<String> = Vec::new();
    path.push("implicit_await".to_owned());
    path.push("as_future".to_owned());
    path.push("FutureAsFuture".to_owned());
    let r = Stmt::Use { path };
    proof {
        assert(names_view(r->Use_path@) =~= use_future_stmt()->Use_path);
    }
    r
}

/// Whether a path's final segment is named `defer`, executably.
pub fn path_ends_in_defer(path: &Vec<String>) -> (r: bool)
    ensures
        r == is_defer_path(names_view(path@)),
{
    if path.len() == 0 {
        return false;
    }
    let last = &path[path.len() - 1];
    let defer_name: String = "defer".to_owned();
    *last == defer_name
}

/// The attribute's entry point: rewrite a whole function item, starting with
/// the nesting counter at zero.
pub fn implicit_await(f: FnItem) -> (r: FnItem)
    ensures
        r@ == transform_spec(f@),
{
    let mut folder = ImplicitAwaitFold { defer: 0 };
    folder.fold_item_fn(f)
}

} // verus!
