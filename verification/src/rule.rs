//! The contract between a lint rule and its host, and the rule itself.

use crate::ast::Program;
use crate::diagnostic::{Context, DiagnosticView};
use crate::matcher::findings;
use crate::policy::CODE;
use crate::visitor::NoPrototypeBuiltinsVisitor;
use vstd::prelude::*;

verus! {

/// What a host asks of a lint rule: its identity, and one pass over a
/// program.
pub trait LintRule {
    /// What a pass of this rule over `program` reports, in order.
    spec fn diagnostics(&self, program: Program) -> Seq<DiagnosticView>;

    /// A new instance of the rule.
    fn new() -> Box<Self> where Self: Sized;

    /// The labels by which a host groups rules.
    fn tags(&self) -> &'static [&'static str];

    /// The stable identifier of the rule.
    fn code(&self) -> &'static str;

    /// Makes one pass over `program` and reports to `context`, behind what
    /// it holds already. A rule keeps no state: what it reports depends on
    /// the program alone.
    fn lint_program(&self, context: &mut Context, program: &Program)
        ensures
            final(context)@ == old(context)@ + self.diagnostics(*program),
    ;
}

/// The rule: no direct call of an `Object.prototype` builtin on a target
/// object.
pub struct NoPrototypeBuiltins;

/// What the rule reports for `program`: the findings of every call of the
/// program, in the order in which a pass meets the calls.
pub open spec fn program_diagnostics(program: Program) -> Seq<DiagnosticView> {
    findings(program.calls())
}

impl LintRule for NoPrototypeBuiltins {
    open spec fn diagnostics(&self, program: Program) -> Seq<DiagnosticView> {
        program_diagnostics(program)
    }

    fn new() -> (rule: Box<Self>)
        ensures
            *rule == NoPrototypeBuiltins,
    {
        Box::new(NoPrototypeBuiltins)
    }

    fn tags(&self) -> (tags: &'static [&'static str])
        ensures
            tags@.len() == 1,
            tags@[0]@ == "recommended"@,
    {
        &["recommended"]
    }

    fn code(&self) -> (code: &'static str)
        ensures
            code@ == "no-prototype-builtins"@,
    {
        CODE
    }

    fn lint_program(&self, context: &mut Context, program: &Program)
        ensures
            final(context)@ == old(context)@ + program_diagnostics(*program),
    {
        let mut visitor = NoPrototypeBuiltinsVisitor::new(context);
        visitor.visit_program(program);
    }
}

} // verus!
