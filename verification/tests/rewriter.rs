//! Tests of the tree rewriter: calls are wrapped bottom-up as
//! convert-then-suspend, deferred regions are left alone, the nesting
//! counter restores itself, and a transformed function starts with the two
//! capability imports.

use implicit_await::ast::{Expr, FnItem, Stmt};
use implicit_await::fold::{implicit_await, ImplicitAwaitFold};

fn path(segments: &[&str]) -> Vec<String> {
    segments.iter().map(|s| s.to_string()).collect()
}

fn call(name: &str, args: Vec<Expr>) -> Expr {
    Expr::Call { func: path(&[name]), args }
}

fn wrapped(e: Expr) -> Expr {
    Expr::Await(Box::new(Expr::Convert(Box::new(e))))
}

#[test]
fn plain_call_becomes_convert_then_await() {
    let mut folder = ImplicitAwaitFold { defer: 0 };
    let rewritten = folder.fold_expr(call("num_sync", vec![Expr::Lit(1)]));
    assert_eq!(rewritten, wrapped(call("num_sync", vec![Expr::Lit(1)])));
    assert_eq!(folder.defer, 0);
}

#[test]
fn method_call_becomes_convert_then_await() {
    let mut folder = ImplicitAwaitFold { defer: 0 };
    let e = Expr::MethodCall {
        recv: Box::new(Expr::Lit(7)),
        method: "frobnicate".to_string(),
        args: vec![],
    };
    let expected = wrapped(Expr::MethodCall {
        recv: Box::new(Expr::Lit(7)),
        method: "frobnicate".to_string(),
        args: vec![],
    });
    assert_eq!(folder.fold_expr(e), expected);
}

#[test]
fn nested_call_is_rewritten_at_the_call_not_at_the_operator() {
    let mut folder = ImplicitAwaitFold { defer: 0 };
    let e = Expr::Add(Box::new(call("num_sync", vec![])), Box::new(Expr::Lit(2)));
    let expected = Expr::Add(
        Box::new(wrapped(call("num_sync", vec![]))),
        Box::new(Expr::Lit(2)),
    );
    assert_eq!(folder.fold_expr(e), expected);
}

#[test]
fn call_argument_is_rewritten_bottom_up() {
    let mut folder = ImplicitAwaitFold { defer: 0 };
    let e = call("outer", vec![call("inner", vec![])]);
    let expected = wrapped(call("outer", vec![wrapped(call("inner", vec![]))]));
    assert_eq!(folder.fold_expr(e), expected);
}

#[test]
fn deferred_region_is_left_unrewritten() {
    let mut folder = ImplicitAwaitFold { defer: 0 };
    let e = Expr::Mac {
        path: path(&["defer"]),
        args: vec![call("num_fut", vec![Expr::Lit(4)])],
    };
    let expected = Expr::Mac {
        path: path(&["defer"]),
        args: vec![call("num_fut", vec![Expr::Lit(4)])],
    };
    assert_eq!(folder.fold_expr(e), expected);
    assert_eq!(folder.defer, 0);
}

#[test]
fn defer_detection_goes_by_the_last_path_segment() {
    let mut folder = ImplicitAwaitFold { defer: 0 };
    let qualified = Expr::Mac {
        path: path(&["implicit_await", "defer"]),
        args: vec![call("f", vec![])],
    };
    let expected = Expr::Mac {
        path: path(&["implicit_await", "defer"]),
        args: vec![call("f", vec![])],
    };
    assert_eq!(folder.fold_expr(qualified), expected);
    // A path that merely starts with `defer` is no deferred region.
    let unrelated = Expr::Mac { path: path(&["defer", "other"]), args: vec![call("f", vec![])] };
    let rewritten = Expr::Mac {
        path: path(&["defer", "other"]),
        args: vec![wrapped(call("f", vec![]))],
    };
    assert_eq!(folder.fold_expr(unrelated), rewritten);
}

#[test]
fn non_defer_macro_arguments_are_rewritten() {
    let mut folder = ImplicitAwaitFold { defer: 0 };
    let e = Expr::Mac { path: path(&["join"]), args: vec![call("a", vec![]), call("b", vec![])] };
    let expected = Expr::Mac {
        path: path(&["join"]),
        args: vec![wrapped(call("a", vec![])), wrapped(call("b", vec![]))],
    };
    assert_eq!(folder.fold_expr(e), expected);
}

#[test]
fn nesting_counter_restores_after_nested_deferred_regions() {
    let mut folder = ImplicitAwaitFold { defer: 0 };
    let inner = Expr::Mac { path: path(&["defer"]), args: vec![call("g", vec![])] };
    let outer = Expr::Mac { path: path(&["defer"]), args: vec![inner] };
    let expected_inner = Expr::Mac { path: path(&["defer"]), args: vec![call("g", vec![])] };
    let expected = Expr::Mac { path: path(&["defer"]), args: vec![expected_inner] };
    assert_eq!(folder.fold_expr(outer), expected);
    assert_eq!(folder.defer, 0);
}

#[test]
fn sibling_after_deferred_region_is_still_rewritten() {
    let mut folder = ImplicitAwaitFold { defer: 0 };
    let region = Expr::Mac { path: path(&["defer"]), args: vec![call("slow", vec![])] };
    let e = Expr::Add(Box::new(region), Box::new(call("fast", vec![])));
    let expected_region = Expr::Mac { path: path(&["defer"]), args: vec![call("slow", vec![])] };
    let expected = Expr::Add(
        Box::new(expected_region),
        Box::new(wrapped(call("fast", vec![]))),
    );
    assert_eq!(folder.fold_expr(e), expected);
}

#[test]
fn folding_with_positive_counter_changes_nothing() {
    let mut folder = ImplicitAwaitFold { defer: 1 };
    let e = call("num_sync", vec![Expr::Lit(1)]);
    assert_eq!(folder.fold_expr(e), call("num_sync", vec![Expr::Lit(1)]));
    assert_eq!(folder.defer, 1);
}

#[test]
fn transformed_function_starts_with_the_two_capability_imports() {
    let f = FnItem {
        name: "sum".to_string(),
        body: vec![Stmt::Expr(call("num_sync", vec![Expr::Lit(1)]))],
    };
    let out = implicit_await(f);
    assert_eq!(out.name, "sum".to_string());
    assert_eq!(out.body.len(), 3);
    assert_eq!(
        out.body[0],
        Stmt::Use { path: path(&["implicit_await", "as_future", "NonFutureAsFuture"]) }
    );
    assert_eq!(
        out.body[1],
        Stmt::Use { path: path(&["implicit_await", "as_future", "FutureAsFuture"]) }
    );
    assert_eq!(
        out.body[2],
        Stmt::Expr(wrapped(call("num_sync", vec![Expr::Lit(1)])))
    );
}

#[test]
fn empty_body_gains_only_the_two_imports() {
    let f = FnItem { name: "noop".to_string(), body: vec![] };
    let out = implicit_await(f);
    assert_eq!(out.name, "noop".to_string());
    assert_eq!(out.body.len(), 2);
    assert_eq!(
        out.body[0],
        Stmt::Use { path: path(&["implicit_await", "as_future", "NonFutureAsFuture"]) }
    );
    assert_eq!(
        out.body[1],
        Stmt::Use { path: path(&["implicit_await", "as_future", "FutureAsFuture"]) }
    );
}

#[test]
fn sum_function_rewrites_as_the_six_value_scenario_expects() {
    // The end-to-end shape: three implicitly suspended calls, a deferred
    // region constructing three operations that a later call joins, one
    // explicit suspension, and the final addition of six values.
    let region = Expr::Mac {
        path: path(&["defer"]),
        args: vec![
            call("num_fut", vec![Expr::Lit(4)]),
            call("num_async", vec![Expr::Lit(5)]),
            call("num_async", vec![Expr::Lit(6)]),
        ],
    };
    let f = FnItem {
        name: "sum".to_string(),
        body: vec![
            Stmt::Expr(call("num_sync", vec![Expr::Lit(1)])),
            Stmt::Expr(call("num_fut", vec![Expr::Lit(2)])),
            Stmt::Expr(call("num_async", vec![Expr::Lit(3)])),
            Stmt::Expr(region),
            Stmt::Expr(Expr::Await(Box::new(Expr::Lit(6)))),
        ],
    };
    let out = implicit_await(f);
    assert_eq!(out.body.len(), 7);
    // The plain and asynchronous calls are all uniformly wrapped.
    assert_eq!(
        out.body[2],
        Stmt::Expr(wrapped(call("num_sync", vec![Expr::Lit(1)])))
    );
    assert_eq!(
        out.body[3],
        Stmt::Expr(wrapped(call("num_fut", vec![Expr::Lit(2)])))
    );
    assert_eq!(
        out.body[4],
        Stmt::Expr(wrapped(call("num_async", vec![Expr::Lit(3)])))
    );
    // The deferred region is untouched.
    assert_eq!(
        out.body[5],
        Stmt::Expr(Expr::Mac {
            path: path(&["defer"]),
            args: vec![
                call("num_fut", vec![Expr::Lit(4)]),
                call("num_async", vec![Expr::Lit(5)]),
                call("num_async", vec![Expr::Lit(6)]),
            ],
        })
    );
    // An explicit suspension stays an explicit suspension.
    assert_eq!(out.body[6], Stmt::Expr(Expr::Await(Box::new(Expr::Lit(6)))));
}
