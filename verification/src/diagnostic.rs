//! Findings and the context that collects them.

use crate::ast::Span;
use vstd::prelude::*;
use vstd::string::*;

verus! {

/// A finding of a rule: where, which rule, and what is wrong.
#[derive(Debug, PartialEq, Eq)]
pub struct Diagnostic {
    pub span: Span,
    pub code: String,
    pub message: String,
}

/// What a [`Diagnostic`] says, with its texts as sequences of characters.
pub struct DiagnosticView {
    pub span: Span,
    pub code: Seq<char>,
    pub message: Seq<char>,
}

impl View for Diagnostic {
    type V = DiagnosticView;

    open spec fn view(&self) -> DiagnosticView {
        DiagnosticView { span: self.span, code: self.code@, message: self.message@ }
    }
}

impl Clone for Diagnostic {
    fn clone(&self) -> (copy: Self)
        ensures
            copy == *self,
    {
        Diagnostic { span: self.span, code: self.code.clone(), message: self.message.clone() }
    }
}

/// The reporting context of one lint pass: the findings reported so far, in
/// the order in which they were reported.
#[derive(Debug, PartialEq, Eq)]
pub struct Context {
    pub diagnostics: Vec<Diagnostic>,
}

impl View for Context {
    type V = Seq<DiagnosticView>;

    open spec fn view(&self) -> Seq<DiagnosticView> {
        self.diagnostics@.map_values(|d: Diagnostic| d@)
    }
}

impl Context {
    /// A context that holds no finding yet.
    pub fn new() -> (context: Self)
        ensures
            context@ == Seq::<DiagnosticView>::empty(),
    {
        let context = Context { diagnostics: Vec::new() };
        context
    }

    /// Records one finding behind those already recorded.
    pub fn add_diagnostic(&mut self, span: Span, code: &str, message: String)
        ensures
            final(self)@ == old(self)@.push(
                DiagnosticView { span: span, code: code@, message: message@ },
            ),
    {
        let diagnostic = Diagnostic { span, code: String::from_str(code), message };
        self.diagnostics.push(diagnostic);
    }
}

} // verus!
