//! Implicit suspension for asynchronous code: a tree rewriter that turns every
//! plain call in a function body into a convert-then-await step, together with
//! the conversion shim (`FutureAsFuture` / `NonFutureAsFuture` and the
//! immediately-ready wrapper `Ready`) that the rewritten code calls into.

pub mod as_future;
pub mod ast;
pub mod fold;
pub mod sem;
pub mod typelist;
