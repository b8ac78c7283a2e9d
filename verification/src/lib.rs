//! A lint rule that reports direct calls of `Object.prototype` builtins on a
//! target object, such as `foo.hasOwnProperty("bar")`.
//!
//! The rule works on an already parsed syntax tree and reports its findings
//! to a [`Context`]. It decides by the shape of a call alone: a call is
//! reported if its immediate callee is a member access written with a dot
//! whose property is one of [`BANNED_PROPERTIES`]. So
//! `Object.prototype.hasOwnProperty.call(foo, "bar")` passes, because the
//! property that it calls is `call`.
//!
//! - [`ast`]: the syntax tree, and the calls that a tree holds.
//! - [`policy`]: the rule's code, the banned names and the wording of a
//!   finding.
//! - [`matcher`]: what one visit of a call reports.
//! - [`visitor`]: the pass over a tree.
//! - [`rule`]: what a host asks of a rule, and the rule.
//! - [`diagnostic`]: findings and the context that collects them.
//! - [`laws`]: what holds of the rule for every call and every program.
//! - [`text`]: comparison of string slices.

pub mod ast;
pub mod diagnostic;
pub mod laws;
pub mod matcher;
pub mod policy;
pub mod rule;
pub mod text;
pub mod visitor;

pub use ast::{CallExpr, ExprOrSuper, Ident, MemberExpr, Node, Program, Span};
pub use diagnostic::{Context, Diagnostic, DiagnosticView};
pub use policy::{get_message, is_banned_property, BANNED_PROPERTIES, CODE};
pub use rule::{LintRule, NoPrototypeBuiltins};
pub use text::str_eq;
pub use visitor::NoPrototypeBuiltinsVisitor;
