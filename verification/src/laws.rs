//! What holds of the rule for every call and every program.

use crate::ast::{calls_of, CallExpr, ExprOrSuper, Ident, MemberExpr, Node, Program};
use crate::diagnostic::DiagnosticView;
use crate::matcher::{
    call_finding, findings, is_direct_builtin_call, lemma_findings_of_concat,
    lemma_findings_of_one, static_property,
};
use crate::policy::{is_banned, lemma_banned_name_lengths, message_text, CODE};
use crate::rule::LintRule;
use vstd::prelude::*;

verus! {

/// A call of a banned property on a target object, written with a dot, is
/// reported once, at the span of the whole call and with a message that
/// names the property, whatever the target object is.
pub proof fn lemma_direct_call_is_reported(call: CallExpr, member: MemberExpr, property: Ident)
    requires
        call.callee == ExprOrSuper::Expr(Box::new(Node::Member(member))),
        !member.computed,
        *member.prop == Node::Ident(property),
        is_banned(property.sym@),
    ensures
        call_finding(call) == Some(
            DiagnosticView {
                span: call.span,
                code: CODE@,
                message: message_text(property.sym@),
            },
        ),
        findings(seq![call]) == seq![call_finding(call).unwrap()],
{
    lemma_findings_of_one(call);
}

/// A call through a computed member access is not reported, whatever the
/// computed property is.
pub proof fn lemma_computed_access_is_not_reported(call: CallExpr, member: MemberExpr)
    requires
        call.callee == ExprOrSuper::Expr(Box::new(Node::Member(member))),
        member.computed,
    ensures
        call_finding(call) is None,
        findings(seq![call]) == Seq::<DiagnosticView>::empty(),
{
    lemma_findings_of_one(call);
}

/// A call whose callee is no member access (a plain name, `super`, or any
/// other form) is not reported, whatever the callee is named.
pub proof fn lemma_call_without_target_is_not_reported(call: CallExpr)
    requires
        match call.callee {
            ExprOrSuper::Expr(callee) => !(*callee is Member),
            ExprOrSuper::Super(_) => true,
        },
    ensures
        call_finding(call) is None,
        findings(seq![call]) == Seq::<DiagnosticView>::empty(),
{
    lemma_findings_of_one(call);
}

/// A call is reported if and only if its immediate callee is a member access
/// that is not computed and whose property is a banned identifier.
pub proof fn lemma_reported_iff_direct_builtin_call(call: CallExpr)
    ensures
        call_finding(call) is Some <==> is_direct_builtin_call(call),
        call_finding(call) is Some ==> static_property(call) is Some && is_banned(
            static_property(call).unwrap(),
        ),
{
}

/// A call through `.call` or `.apply` is not reported, whatever it is called
/// on.
pub proof fn lemma_call_and_apply_are_not_reported(call: CallExpr)
    requires
        static_property(call) == Some("call"@) || static_property(call) == Some("apply"@),
    ensures
        call_finding(call) is None,
{
    reveal_strlit("call");
    reveal_strlit("apply");
    lemma_banned_name_lengths("call"@);
    lemma_banned_name_lengths("apply"@);
    assert("call"@.len() == 4);
    assert("apply"@.len() == 5);
}

/// Two calls that differ only in their target objects are reported alike.
pub proof fn lemma_target_object_is_not_inspected(
    call: CallExpr,
    member: MemberExpr,
    other_object: ExprOrSuper,
)
    requires
        call.callee == ExprOrSuper::Expr(Box::new(Node::Member(member))),
    ensures
        call_finding(
            CallExpr {
                callee: ExprOrSuper::Expr(
                    Box::new(Node::Member(MemberExpr { obj: other_object, ..member })),
                ),
                ..call
            },
        ) == call_finding(call),
{
}

/// A pass reports one finding for each call of a banned property directly on
/// a target object, in the order of the calls, and no other.
pub proof fn lemma_one_finding_per_direct_call(calls: Seq<CallExpr>)
    ensures
        findings(calls) == calls.filter(|call: CallExpr| is_direct_builtin_call(call)).map_values(
            |call: CallExpr| call_finding(call).unwrap(),
        ),
    decreases calls.len(),
{
    reveal(Seq::filter);
    if calls.len() > 0 {
        lemma_one_finding_per_direct_call(calls.drop_last());
    }
}

/// Every call of a banned property directly on a target object, wherever it
/// stands among the calls that a pass meets, has its finding reported.
pub proof fn lemma_every_direct_call_is_reported(calls: Seq<CallExpr>, i: int)
    requires
        0 <= i < calls.len(),
        is_direct_builtin_call(calls[i]),
    ensures
        findings(calls).contains(call_finding(calls[i]).unwrap()),
    decreases calls.len(),
{
    let found = findings(calls.drop_last());
    if i == calls.len() - 1 {
        let own = findings(calls);
        assert(own[own.len() - 1] == call_finding(calls[i]).unwrap());
    } else {
        lemma_every_direct_call_is_reported(calls.drop_last(), i);
        let at = choose|at: int|
            0 <= at < found.len() && found[at] == call_finding(calls[i]).unwrap();
        assert(findings(calls)[at] == found[at]);
    }
}

/// Every finding of a pass is the finding of one of the calls that the pass
/// met.
pub proof fn lemma_every_finding_has_its_call(calls: Seq<CallExpr>, at: int)
    requires
        0 <= at < findings(calls).len(),
    ensures
        exists|i: int|
            0 <= i < calls.len() && is_direct_builtin_call(#[trigger] calls[i]) && call_finding(
                calls[i],
            ) == Some(findings(calls)[at]),
    decreases calls.len(),
{
    if calls.len() > 0 && at < findings(calls.drop_last()).len() {
        lemma_every_finding_has_its_call(calls.drop_last(), at);
    }
}

/// The rule does not hold back a finding that it has reported before: two
/// visits of one call report its finding twice.
pub proof fn lemma_each_visit_reports(call: CallExpr)
    ensures
        findings(seq![call, call]) == findings(seq![call]) + findings(seq![call]),
{
    assert(seq![call, call] =~= seq![call] + seq![call]);
    lemma_findings_of_concat(seq![call], seq![call]);
}

/// A pass over a call reports the call itself first, then what is in its
/// callee, then what is in its arguments.
pub proof fn lemma_pass_over_call(call: CallExpr)
    ensures
        findings(Node::Call(call).calls()) == findings(seq![call]) + findings(
            call.callee.calls(),
        ) + findings(calls_of(call.args@)),
{
    lemma_findings_of_concat(seq![call], call.callee.calls());
    lemma_findings_of_concat(seq![call] + call.callee.calls(), calls_of(call.args@));
}

/// A pass keeps what the context held before it, in its place.
pub proof fn lemma_pass_keeps_earlier_findings<R: LintRule>(
    rule: R,
    program: Program,
    before: Seq<DiagnosticView>,
    after: Seq<DiagnosticView>,
)
    requires
        after == before + rule.diagnostics(program),
    ensures
        before.is_prefix_of(after),
        after.skip(before.len() as int) == rule.diagnostics(program),
{
}

/// Two passes of a rule over the same program report the same findings in
/// the same order, whatever the two contexts held before.
pub proof fn lemma_passes_agree<R: LintRule>(
    rule: R,
    program: Program,
    first_before: Seq<DiagnosticView>,
    first_after: Seq<DiagnosticView>,
    second_before: Seq<DiagnosticView>,
    second_after: Seq<DiagnosticView>,
)
    requires
        first_after == first_before + rule.diagnostics(program),
        second_after == second_before + rule.diagnostics(program),
    ensures
        first_after.skip(first_before.len() as int) == second_after.skip(
            second_before.len() as int,
        ),
{
    lemma_pass_keeps_earlier_findings(rule, program, first_before, first_after);
    lemma_pass_keeps_earlier_findings(rule, program, second_before, second_after);
}

} // verus!
