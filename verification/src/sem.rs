//! What the rewrite means at run time: a small evaluation model for the
//! expression trees, under an environment that fixes what each callable
//! returns, and the laws that relate a rewritten tree to the tree a
//! programmer would have written by hand.
//!
//! A value is either a plain number, a pending (awaitable) number, a tuple of
//! numbers (what joining pending values yields), or an error for ill-shaped
//! programs. The conversion step turns a plain value into a pending one and
//! leaves a pending one alone — exactly the two capabilities of the shim —
//! and a suspension point turns a pending value back into a plain one.

use vstd::prelude::*;

use crate::ast::{ExprS, FnS, StmtS};
use crate::fold::{
    call_shaped, fold_args_spec, fold_expr_spec, fold_stmt_spec, fold_stmts_spec, is_defer_path,
    lemma_fold_args_deferred_identity, lemma_fold_args_spec, lemma_fold_deferred_identity,
    transform_spec, use_future_stmt, use_non_future_stmt,
};

verus! {

/// A run-time value of the evaluation model.
pub enum Val {
    /// A plain number.
    Num(int),
    /// A pending, awaitable number.
    Fut(int),
    /// A tuple of numbers, as a join of pending values yields.
    Tup(Seq<int>),
    /// The result of an ill-shaped program.
    Stuck,
}

/// An environment: what a call of the given path, on the given argument
/// values, returns. A method call is keyed by its method name, with the
/// receiver's value placed before the arguments.
pub type FnEnv = spec_fn(Seq<Seq<char>>, Seq<Val>) -> Val;

/// A classification of the callables: whether a call of this key returns an
/// already-pending value.
pub type FutureFlags = spec_fn(Seq<Seq<char>>) -> bool;

/// Whether a path's final segment is named `join`.
pub open spec fn is_join_path(path: Seq<Seq<char>>) -> bool {
    path.len() > 0 && path.last() == "join"@
}

/// The environment key of a method call.
pub open spec fn method_key(method: Seq<char>) -> Seq<Seq<char>> {
    seq![method]
}

/// The value of an expression under an environment.
pub open spec fn eval(e: ExprS, env: FnEnv) -> Val
    decreases e,
{
    match e {
        ExprS::Lit(n) => Val::Num(n as int),
        ExprS::Call { func, args } => env(func, eval_args(args, env)),
        ExprS::MethodCall { recv, method, args } => env(
            method_key(method),
            seq![eval(*recv, env)] + eval_args(args, env),
        ),
        ExprS::Add(a, b) => add_vals(eval(*a, env), eval(*b, env)),
        ExprS::Await(a) => match eval(*a, env) {
            Val::Fut(n) => Val::Num(n),
            _ => Val::Stuck,
        },
        ExprS::Convert(a) => match eval(*a, env) {
            Val::Num(n) => Val::Fut(n),
            Val::Fut(n) => Val::Fut(n),
            _ => Val::Stuck,
        },
        ExprS::Mac { path, args } => if is_defer_path(path) {
            if args.len() == 1 {
                eval(args[0], env)
            } else {
                Val::Stuck
            }
        } else if is_join_path(path) {
            match join_vals(args, env) {
                Some(ns) => Val::Tup(ns),
                None => Val::Stuck,
            }
        } else {
            Val::Stuck
        },
    }
}

/// Addition is defined on plain numbers alone.
pub open spec fn add_vals(a: Val, b: Val) -> Val {
    match (a, b) {
        (Val::Num(x), Val::Num(y)) => Val::Num(x + y),
        _ => Val::Stuck,
    }
}

/// The values of an argument list, element by element.
pub open spec fn eval_args(s: Seq<ExprS>, env: FnEnv) -> Seq<Val>
    decreases s,
{
    if s.len() == 0 {
        Seq::empty()
    } else {
        eval_args(s.drop_last(), env).push(eval(s.last(), env))
    }
}

/// The numbers behind a list of pending values, if every element of the list
/// is indeed pending.
pub open spec fn join_vals(s: Seq<ExprS>, env: FnEnv) -> Option<Seq<int>>
    decreases s,
{
    if s.len() == 0 {
        Some(Seq::empty())
    } else {
        match (join_vals(s.drop_last(), env), eval(s.last(), env)) {
            (Some(ns), Val::Fut(n)) => Some(ns.push(n)),
            _ => None,
        }
    }
}

/// `eval_args` maps `eval` over the list, element by element.
pub proof fn lemma_eval_args(s: Seq<ExprS>, env: FnEnv)
    ensures
        eval_args(s, env).len() == s.len(),
        forall|i: int| 0 <= i < s.len() ==> eval_args(s, env)[i] == eval(s[i], env),
    decreases s,
{
    if s.len() > 0 {
        lemma_eval_args(s.drop_last(), env);
    }
}

/// An environment where every callable returns a plain value.
pub open spec fn plain_env(env: FnEnv) -> bool {
    forall|k: Seq<Seq<char>>, vs: Seq<Val>| (#[trigger] env(k, vs)) is Num
}

/// An environment that agrees with a classification: a call returns a
/// pending value exactly when its key is classified as future-returning, and
/// a plain number otherwise.
pub open spec fn consistent_env(env: FnEnv, returns_future: FutureFlags) -> bool {
    forall|k: Seq<Seq<char>>, vs: Seq<Val>|
        {
            let v = #[trigger] env(k, vs);
            (v is Num || v is Fut) && ((v is Fut) <==> returns_future(k))
        }
}

/// The environment key that decides whether a call-shaped expression is
/// future-returning.
pub open spec fn call_key(e: ExprS) -> Seq<Seq<char>> {
    match e {
        ExprS::Call { func, .. } => func,
        ExprS::MethodCall { method, .. } => method_key(method),
        _ => Seq::empty(),
    }
}

/// The rewrite a careful programmer performs by hand: place a suspension
/// point on exactly the calls that return a pending value, and leave
/// everything else alone, with the same deferred-region discipline as the
/// automatic rewrite.
pub open spec fn manual_spec(e: ExprS, returns_future: FutureFlags, defer: nat) -> ExprS
    decreases e,
{
    let folded = match e {
        ExprS::Lit(n) => ExprS::Lit(n),
        ExprS::Call { func, args } => ExprS::Call {
            func,
            args: manual_args_spec(args, returns_future, defer),
        },
        ExprS::MethodCall { recv, method, args } => ExprS::MethodCall {
            recv: Box::new(manual_spec(*recv, returns_future, defer)),
            method,
            args: manual_args_spec(args, returns_future, defer),
        },
        ExprS::Add(a, b) => ExprS::Add(
            Box::new(manual_spec(*a, returns_future, defer)),
            Box::new(manual_spec(*b, returns_future, defer)),
        ),
        ExprS::Await(a) => ExprS::Await(Box::new(manual_spec(*a, returns_future, defer))),
        ExprS::Convert(a) => ExprS::Convert(Box::new(manual_spec(*a, returns_future, defer))),
        ExprS::Mac { path, args } => ExprS::Mac {
            path,
            args: manual_args_spec(
                args,
                returns_future,
                if is_defer_path(path) { defer + 1 } else { defer },
            ),
        },
    };
    if defer == 0 && call_shaped(folded) && returns_future(call_key(folded)) {
        ExprS::Await(Box::new(folded))
    } else {
        folded
    }
}

/// The hand rewrite of an argument list, element by element.
pub open spec fn manual_args_spec(s: Seq<ExprS>, returns_future: FutureFlags, defer: nat) -> Seq<
    ExprS,
>
    decreases s,
{
    if s.len() == 0 {
        Seq::empty()
    } else {
        manual_args_spec(s.drop_last(), returns_future, defer).push(
            manual_spec(s.last(), returns_future, defer),
        )
    }
}

/// Inside a deferred region the hand rewrite, too, changes nothing.
pub proof fn lemma_manual_deferred_identity(e: ExprS, returns_future: FutureFlags, defer: nat)
    requires
        defer > 0,
    ensures
        manual_spec(e, returns_future, defer) == e,
    decreases e,
{
    match e {
        ExprS::Lit(_) => {},
        ExprS::Call { func, args } => {
            lemma_manual_args_deferred_identity(args, returns_future, defer);
        },
        ExprS::MethodCall { recv, method, args } => {
            lemma_manual_deferred_identity(*recv, returns_future, defer);
            lemma_manual_args_deferred_identity(args, returns_future, defer);
        },
        ExprS::Add(a, b) => {
            lemma_manual_deferred_identity(*a, returns_future, defer);
            lemma_manual_deferred_identity(*b, returns_future, defer);
        },
        ExprS::Await(a) => {
            lemma_manual_deferred_identity(*a, returns_future, defer);
        },
        ExprS::Convert(a) => {
            lemma_manual_deferred_identity(*a, returns_future, defer);
        },
        ExprS::Mac { path, args } => {
            lemma_manual_args_deferred_identity(
                args,
                returns_future,
                if is_defer_path(path) { defer + 1 } else { defer },
            );
        },
    }
}

/// The argument-list form of `lemma_manual_deferred_identity`.
pub proof fn lemma_manual_args_deferred_identity(
    s: Seq<ExprS>,
    returns_future: FutureFlags,
    defer: nat,
)
    requires
        defer > 0,
    ensures
        manual_args_spec(s, returns_future, defer) == s,
    decreases s,
{
    if s.len() == 0 {
        assert(manual_args_spec(s, returns_future, defer) =~= s);
    } else {
        lemma_manual_args_deferred_identity(s.drop_last(), returns_future, defer);
        lemma_manual_deferred_identity(s.last(), returns_future, defer);
        assert(manual_args_spec(s, returns_future, defer) =~= s);
    }
}

/// `manual_args_spec` maps `manual_spec` over the list, element by element.
pub proof fn lemma_manual_args_spec(s: Seq<ExprS>, returns_future: FutureFlags, defer: nat)
    ensures
        manual_args_spec(s, returns_future, defer).len() == s.len(),
        forall|i: int| 0 <= i < s.len() ==> manual_args_spec(s, returns_future, defer)[i]
            == manual_spec(s[i], returns_future, defer),
    decreases s,
{
    if s.len() > 0 {
        lemma_manual_args_spec(s.drop_last(), returns_future, defer);
    }
}

/// Equal element values give equal join results.
pub proof fn lemma_join_vals_match(s1: Seq<ExprS>, s2: Seq<ExprS>, env: FnEnv)
    requires
        s1.len() == s2.len(),
        forall|i: int| 0 <= i < s1.len() ==> eval(#[trigger] s1[i], env) == eval(s2[i], env),
    ensures
        join_vals(s1, env) == join_vals(s2, env),
    decreases s1,
{
    if s1.len() > 0 {
        assert forall|i: int| 0 <= i < s1.drop_last().len() implies eval(
            #[trigger] s1.drop_last()[i],
            env,
        ) == eval(s2.drop_last()[i], env) by {
            assert(s1.drop_last()[i] == s1[i]);
            assert(s2.drop_last()[i] == s2[i]);
        }
        lemma_join_vals_match(s1.drop_last(), s2.drop_last(), env);
        assert(eval(s1.last(), env) == eval(s2.last(), env));
    }
}

/// The central law of the rewriter: under an environment that agrees with a
/// classification of the callables, the automatic rewrite — convert, then
/// suspend, at every non-deferred call — computes exactly what the hand
/// rewrite computes that places a suspension point on exactly the
/// future-returning calls. Both kinds of call resolve to their underlying
/// value before being combined.
pub proof fn lemma_rewrite_matches_manual(
    e: ExprS,
    env: FnEnv,
    returns_future: FutureFlags,
    defer: nat,
)
    requires
        consistent_env(env, returns_future),
    ensures
        eval(fold_expr_spec(e, defer), env) == eval(manual_spec(e, returns_future, defer), env),
    decreases e,
{
    reveal_with_fuel(eval, 4);
    if defer > 0 {
        lemma_fold_deferred_identity(e, defer);
        lemma_manual_deferred_identity(e, returns_future, defer);
        return ;
    }
    match e {
        ExprS::Lit(_) => {},
        ExprS::Call { func, args } => {
            lemma_rewrite_args_match(args, env, returns_future, defer);
            let fargs = fold_args_spec(args, defer);
            let margs = manual_args_spec(args, returns_future, defer);
            let vals = eval_args(fargs, env);
            assert(eval_args(margs, env) == vals);
            let v = env(func, vals);
            assert(v is Num || v is Fut);
        },
        ExprS::MethodCall { recv, method, args } => {
            lemma_rewrite_matches_manual(*recv, env, returns_future, defer);
            lemma_rewrite_args_match(args, env, returns_future, defer);
            let v = env(
                method_key(method),
                seq![eval(fold_expr_spec(*recv, defer), env)] + eval_args(
                    fold_args_spec(args, defer),
                    env,
                ),
            );
            assert(v is Num || v is Fut);
        },
        ExprS::Add(a, b) => {
            lemma_rewrite_matches_manual(*a, env, returns_future, defer);
            lemma_rewrite_matches_manual(*b, env, returns_future, defer);
        },
        ExprS::Await(a) => {
            lemma_rewrite_matches_manual(*a, env, returns_future, defer);
        },
        ExprS::Convert(a) => {
            lemma_rewrite_matches_manual(*a, env, returns_future, defer);
        },
        ExprS::Mac { path, args } => {
            if is_defer_path(path) {
                lemma_fold_args_deferred_identity(args, defer + 1);
                lemma_manual_args_deferred_identity(args, returns_future, defer + 1);
            } else {
                lemma_rewrite_args_match(args, env, returns_future, defer);
                let fargs = fold_args_spec(args, defer);
                let margs = manual_args_spec(args, returns_future, defer);
                lemma_fold_args_spec(args, defer);
                lemma_manual_args_spec(args, returns_future, defer);
                lemma_eval_args(fargs, env);
                lemma_eval_args(margs, env);
                assert forall|i: int| 0 <= i < fargs.len() implies eval(
                    #[trigger] fargs[i],
                    env,
                ) == eval(margs[i], env) by {
                    assert(eval_args(fargs, env)[i] == eval(fargs[i], env));
                    assert(eval_args(margs, env)[i] == eval(margs[i], env));
                }
                lemma_join_vals_match(fargs, margs, env);
            }
        },
    }
}

/// The argument-list form of `lemma_rewrite_matches_manual`: folded and
/// hand-rewritten argument lists have the same element values.
pub proof fn lemma_rewrite_args_match(
    s: Seq<ExprS>,
    env: FnEnv,
    returns_future: FutureFlags,
    defer: nat,
)
    requires
        consistent_env(env, returns_future),
    ensures
        eval_args(fold_args_spec(s, defer), env) == eval_args(
            manual_args_spec(s, returns_future, defer),
            env,
        ),
    decreases s,
{
    if s.len() == 0 {
        assert(eval_args(fold_args_spec(s, defer), env) =~= eval_args(
            manual_args_spec(s, returns_future, defer),
            env,
        ));
    } else {
        lemma_rewrite_args_match(s.drop_last(), env, returns_future, defer);
        lemma_rewrite_matches_manual(s.last(), env, returns_future, defer);
        let fq = fold_args_spec(s.drop_last(), defer);
        let fx = fold_expr_spec(s.last(), defer);
        let mq = manual_args_spec(s.drop_last(), returns_future, defer);
        let mx = manual_spec(s.last(), returns_future, defer);
        assert(fold_args_spec(s, defer) == fq.push(fx));
        assert(manual_args_spec(s, returns_future, defer) == mq.push(mx));
        assert(fq.push(fx).drop_last() =~= fq);
        assert(mq.push(mx).drop_last() =~= mq);
        assert(eval_args(fq.push(fx), env) == eval_args(fq, env).push(eval(fx, env)));
        assert(eval_args(mq.push(mx), env) == eval_args(mq, env).push(eval(mx, env)));
    }
}

/// When no callable returns a pending value, the hand rewrite changes
/// nothing at all.
pub proof fn lemma_manual_plain_identity(e: ExprS, returns_future: FutureFlags, defer: nat)
    requires
        forall|k: Seq<Seq<char>>| !(#[trigger] returns_future(k)),
    ensures
        manual_spec(e, returns_future, defer) == e,
    decreases e,
{
    match e {
        ExprS::Lit(_) => {},
        ExprS::Call { func, args } => {
            lemma_manual_plain_args_identity(args, returns_future, defer);
        },
        ExprS::MethodCall { recv, method, args } => {
            lemma_manual_plain_identity(*recv, returns_future, defer);
            lemma_manual_plain_args_identity(args, returns_future, defer);
        },
        ExprS::Add(a, b) => {
            lemma_manual_plain_identity(*a, returns_future, defer);
            lemma_manual_plain_identity(*b, returns_future, defer);
        },
        ExprS::Await(a) => {
            lemma_manual_plain_identity(*a, returns_future, defer);
        },
        ExprS::Convert(a) => {
            lemma_manual_plain_identity(*a, returns_future, defer);
        },
        ExprS::Mac { path, args } => {
            lemma_manual_plain_args_identity(
                args,
                returns_future,
                if is_defer_path(path) { defer + 1 } else { defer },
            );
        },
    }
}

/// The argument-list form of `lemma_manual_plain_identity`.
pub proof fn lemma_manual_plain_args_identity(
    s: Seq<ExprS>,
    returns_future: FutureFlags,
    defer: nat,
)
    requires
        forall|k: Seq<Seq<char>>| !(#[trigger] returns_future(k)),
    ensures
        manual_args_spec(s, returns_future, defer) == s,
    decreases s,
{
    if s.len() == 0 {
        assert(manual_args_spec(s, returns_future, defer) =~= s);
    } else {
        lemma_manual_plain_args_identity(s.drop_last(), returns_future, defer);
        lemma_manual_plain_identity(s.last(), returns_future, defer);
        assert(manual_args_spec(s, returns_future, defer) =~= s);
    }
}

/// A body of uniformly plain calls behaves identically rewritten and
/// unrewritten: each rewritten call converts its plain result to an
/// immediately-ready value and suspends on it at once, which yields the
/// result unchanged.
pub proof fn lemma_plain_calls_unchanged(e: ExprS, env: FnEnv)
    requires
        plain_env(env),
    ensures
        eval(fold_expr_spec(e, 0), env) == eval(e, env),
{
    let returns_future = |k: Seq<Seq<char>>| false;
    assert(consistent_env(env, returns_future));
    lemma_rewrite_matches_manual(e, env, returns_future, 0);
    lemma_manual_plain_identity(e, returns_future, 0);
}

/// A deferred region is left exactly as written: folding a deferred-region
/// marker rewrites nothing anywhere inside its arguments, so the
/// asynchronous operations constructed there are not awaited at
/// construction time.
pub proof fn lemma_defer_region_unrewritten(path: Seq<Seq<char>>, args: Seq<ExprS>)
    requires
        is_defer_path(path),
    ensures
        fold_expr_spec(ExprS::Mac { path, args }, 0) == (ExprS::Mac { path, args }),
{
    lemma_fold_args_deferred_identity(args, 1);
}

/// The numbers behind an all-pending argument list, one by one.
pub proof fn lemma_join_vals_complete(s: Seq<ExprS>, env: FnEnv)
    requires
        forall|i: int| 0 <= i < s.len() ==> eval(#[trigger] s[i], env) is Fut,
    ensures
        join_vals(s, env) is Some,
        join_vals(s, env)->0.len() == s.len(),
        forall|i: int| 0 <= i < s.len() ==> Val::Num(join_vals(s, env)->0[i]) == eval(
            ExprS::Await(Box::new(s[i])),
            env,
        ),
    decreases s,
{
    if s.len() > 0 {
        assert forall|i: int| 0 <= i < s.drop_last().len() implies eval(
            #[trigger] s.drop_last()[i],
            env,
        ) is Fut by {
            assert(s.drop_last()[i] == s[i]);
        }
        lemma_join_vals_complete(s.drop_last(), env);
        assert(eval(s.last(), env) is Fut);
    }
}

/// Joining the pending values of a deferred region later yields exactly the
/// combined result that awaiting each of them individually, in sequence,
/// would have yielded.
pub proof fn lemma_join_matches_sequential_awaits(
    path: Seq<Seq<char>>,
    args: Seq<ExprS>,
    env: FnEnv,
)
    requires
        is_join_path(path),
        forall|i: int| 0 <= i < args.len() ==> eval(#[trigger] args[i], env) is Fut,
    ensures
        eval(ExprS::Mac { path, args }, env) is Tup,
        eval(ExprS::Mac { path, args }, env)->Tup_0.len() == args.len(),
        forall|i: int| 0 <= i < args.len() ==> Val::Num(
            eval(ExprS::Mac { path, args }, env)->Tup_0[i],
        ) == eval(ExprS::Await(Box::new(args[i])), env),
{
    reveal_strlit("join");
    reveal_strlit("defer");
    assert("join"@.len() == 4);
    assert("defer"@.len() == 5);
    assert(!is_defer_path(path));
    lemma_join_vals_complete(args, env);
}

/// The values a statement list computes: the value of each expression
/// statement in order; capability imports compute nothing.
pub open spec fn body_results(body: Seq<StmtS>, env: FnEnv) -> Seq<Val>
    decreases body,
{
    if body.len() == 0 {
        Seq::empty()
    } else {
        let front = body_results(body.drop_last(), env);
        match body.last() {
            StmtS::Use { .. } => front,
            StmtS::Expr(e) => front.push(eval(e, env)),
        }
    }
}

/// The hand rewrite of one statement.
pub open spec fn manual_stmt_spec(s: StmtS, returns_future: FutureFlags) -> StmtS {
    match s {
        StmtS::Use { path } => StmtS::Use { path },
        StmtS::Expr(e) => StmtS::Expr(manual_spec(e, returns_future, 0)),
    }
}

/// The hand rewrite of a whole statement list.
pub open spec fn manual_body_spec(s: Seq<StmtS>, returns_future: FutureFlags) -> Seq<StmtS> {
    s.map_values(|st: StmtS| manual_stmt_spec(st, returns_future))
}

/// The whole-function form of the central law: for a body mixing
/// already-asynchronous and plain calls, the transformed body computes
/// exactly the values of the body a programmer rewrites by hand, placing a
/// suspension point on exactly the future-returning calls.
pub proof fn lemma_transform_mixed_body(f: FnS, env: FnEnv, returns_future: FutureFlags)
    requires
        consistent_env(env, returns_future),
    ensures
        body_results(transform_spec(f).body, env) == body_results(
            manual_body_spec(f.body, returns_future),
            env,
        ),
{
    lemma_transform_mixed_stmts(f.body, env, returns_future);
}

/// The statement-list form of `lemma_transform_mixed_body`.
pub proof fn lemma_transform_mixed_stmts(s: Seq<StmtS>, env: FnEnv, returns_future: FutureFlags)
    requires
        consistent_env(env, returns_future),
    ensures
        body_results(
            seq![use_non_future_stmt(), use_future_stmt()] + fold_stmts_spec(s, 0),
            env,
        ) == body_results(manual_body_spec(s, returns_future), env),
    decreases s,
{
    reveal_with_fuel(body_results, 4);
    let pre = seq![use_non_future_stmt(), use_future_stmt()];
    let whole = pre + fold_stmts_spec(s, 0);
    let manual = manual_body_spec(s, returns_future);
    if s.len() == 0 {
        assert(fold_stmts_spec(s, 0).len() == 0);
        assert(manual.len() == 0);
        assert(whole =~= pre);
        assert(pre.drop_last() =~= seq![use_non_future_stmt()]);
        assert(seq![use_non_future_stmt()].drop_last() =~= Seq::<StmtS>::empty());
    } else {
        lemma_transform_mixed_stmts(s.drop_last(), env, returns_future);
        let sub = pre + fold_stmts_spec(s.drop_last(), 0);
        assert(fold_stmts_spec(s, 0).len() == s.len());
        assert(whole.drop_last() =~= sub);
        assert(whole.last() == fold_stmt_spec(s.last(), 0));
        assert(manual.len() == s.len());
        assert(manual.drop_last() =~= manual_body_spec(s.drop_last(), returns_future));
        assert(manual.last() == manual_stmt_spec(s.last(), returns_future));
        match s.last() {
            StmtS::Use { .. } => {},
            StmtS::Expr(e) => {
                lemma_rewrite_matches_manual(e, env, returns_future, 0);
            },
        }
    }
}

/// The whole-function form of the plain-calls law: transforming a function
/// whose calls all yield plain values leaves the values its body computes
/// unchanged — the injected imports compute nothing, and each rewritten
/// statement computes what it computed before.
pub proof fn lemma_transform_plain_body(f: FnS, env: FnEnv)
    requires
        plain_env(env),
    ensures
        body_results(transform_spec(f).body, env) == body_results(f.body, env),
{
    lemma_transform_plain_stmts(f.body, env);
}

/// The statement-list form of `lemma_transform_plain_body`.
pub proof fn lemma_transform_plain_stmts(s: Seq<StmtS>, env: FnEnv)
    requires
        plain_env(env),
    ensures
        body_results(
            seq![use_non_future_stmt(), use_future_stmt()] + fold_stmts_spec(s, 0),
            env,
        ) == body_results(s, env),
    decreases s,
{
    reveal_with_fuel(body_results, 4);
    let pre = seq![use_non_future_stmt(), use_future_stmt()];
    let whole = pre + fold_stmts_spec(s, 0);
    if s.len() == 0 {
        assert(fold_stmts_spec(s, 0).len() == 0);
        assert(whole =~= pre);
        assert(pre.drop_last() =~= seq![use_non_future_stmt()]);
        assert(seq![use_non_future_stmt()].drop_last() =~= Seq::<StmtS>::empty());
    } else {
        lemma_transform_plain_stmts(s.drop_last(), env);
        let sub = pre + fold_stmts_spec(s.drop_last(), 0);
        assert(fold_stmts_spec(s, 0).len() == s.len());
        assert(whole.drop_last() =~= sub);
        assert(whole.last() == fold_stmts_spec(s, 0).last());
        assert(fold_stmts_spec(s, 0).last() == fold_stmt_spec(s.last(), 0));
        match s.last() {
            StmtS::Use { .. } => {},
            StmtS::Expr(e) => {
                lemma_plain_calls_unchanged(e, env);
            },
        }
    }
}

} // verus!
