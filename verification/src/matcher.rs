//! The call-site matcher: which calls the rule reports, and what it reports
//! for them. It looks at the immediate callee of a call and at nothing below
//! it.

use crate::ast::{CallExpr, ExprOrSuper, Node};
use crate::diagnostic::DiagnosticView;
use crate::policy::{is_banned, message_text, CODE};
use vstd::prelude::*;

verus! {

/// The property name through which `call` reaches its callee, where the
/// callee is a member access that is not computed and whose property is an
/// identifier. `None` for every other callee.
pub open spec fn static_property(call: CallExpr) -> Option<Seq<char>> {
    match call.callee {
        ExprOrSuper::Expr(callee) => match *callee {
            Node::Member(member) => if member.computed {
                None
            } else {
                match *member.prop {
                    Node::Ident(ident) => Some(ident.sym@),
                    _ => None,
                }
            },
            _ => None,
        },
        ExprOrSuper::Super(_) => None,
    }
}

/// Whether `call` calls a banned property directly on a target object.
pub open spec fn is_direct_builtin_call(call: CallExpr) -> bool {
    match static_property(call) {
        Some(name) => is_banned(name),
        None => false,
    }
}

/// The finding that one visit of `call` reports, if it reports one: a direct
/// call of a banned property is reported at the span of the whole call, with
/// the rule's code and a message that names the property.
pub open spec fn call_finding(call: CallExpr) -> Option<DiagnosticView> {
    match static_property(call) {
        Some(name) => if is_banned(name) {
            Some(DiagnosticView { span: call.span, code: CODE@, message: message_text(name) })
        } else {
            None
        },
        None => None,
    }
}

/// The findings of one visit of each of `calls`, in their order.
pub open spec fn findings(calls: Seq<CallExpr>) -> Seq<DiagnosticView> {
    calls.filter_map(|call: CallExpr| call_finding(call))
}

/// The findings of a single call are its finding, if it has one.
pub proof fn lemma_findings_of_one(call: CallExpr)
    ensures
        findings(seq![call]) == match call_finding(call) {
            Some(finding) => seq![finding],
            None => Seq::empty(),
        },
{
    Seq::lemma_filter_map_singleton(call, |call: CallExpr| call_finding(call));
}

/// The findings of calls that follow one another are the findings of the
/// first ones followed by those of the others.
pub proof fn lemma_findings_of_concat(first: Seq<CallExpr>, others: Seq<CallExpr>)
    ensures
        findings(first + others) == findings(first) + findings(others),
    decreases others.len(),
{
    if others.len() > 0 {
        lemma_findings_of_concat(first, others.drop_last());
        assert((first + others).drop_last() =~= first + others.drop_last());
    }
}

} // verus!
