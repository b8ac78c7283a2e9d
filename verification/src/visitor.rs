//! The pass over a syntax tree: it visits every node once, depth first, and
//! hands each call to the call-site matcher.

use crate::ast::{calls_of, CallExpr, ExprOrSuper, Node, Program};
use crate::diagnostic::Context;
use crate::matcher::{call_finding, findings, lemma_findings_of_concat, lemma_findings_of_one};
use crate::policy::{get_message, is_banned_property, CODE};
use vstd::prelude::*;

verus! {

/// The state of one pass: the context that the findings go to.
///
/// Every method says two things of the visitor: what its context holds when
/// the method returns, and that the visitor still reports to the context that
/// it was made for (what that context holds in the end is what the visitor
/// leaves in it).
pub struct NoPrototypeBuiltinsVisitor<'c> {
    pub context: &'c mut Context,
}

impl<'c> NoPrototypeBuiltinsVisitor<'c> {
    /// A visitor that reports to `context`.
    pub fn new(context: &'c mut Context) -> (visitor: Self)
        ensures
            *visitor.context == *old(context),
            *final(visitor.context) == *final(context),
    {
        Self { context }
    }

    /// Visits one call, and nothing below it: reports the call if its
    /// immediate callee is a member access that is not computed and whose
    /// property is a banned identifier.
    pub fn visit_call_expr(&mut self, call_expr: &CallExpr)
        ensures
            final(self).context@ == match call_finding(*call_expr) {
                Some(finding) => old(self).context@.push(finding),
                None => old(self).context@,
            },
            *final(final(self).context) == *final(old(self).context),
    {
        let member_expr = match &call_expr.callee {
            ExprOrSuper::Expr(boxed_expr) => match &**boxed_expr {
                Node::Member(member_expr) => {
                    if member_expr.computed {
                        return ;
                    }
                    member_expr
                },
                _ => return ,
            },
            ExprOrSuper::Super(_) => return ,
        };

        if let Node::Ident(ident) = &*member_expr.prop {
            let prop_name = ident.sym.as_str();
            if is_banned_property(prop_name) {
                self.context.add_diagnostic(call_expr.span, CODE, get_message(prop_name));
            }
        }
    }

    /// Visits `node` and everything below it.
    pub fn visit_node(&mut self, node: &Node)
        ensures
            final(self).context@ == old(self).context@ + findings(node.calls()),
            *final(final(self).context) == *final(old(self).context),
        decreases node,
    {
        match node {
            Node::Ident(_) => {},
            Node::Member(member_expr) => {
                self.visit_expr_or_super(&member_expr.obj);
                self.visit_node(&*member_expr.prop);
                proof {
                    lemma_findings_of_concat(member_expr.obj.calls(), member_expr.prop.calls());
                }
            },
            Node::Call(call_expr) => {
                self.visit_call_expr(call_expr);
                self.visit_expr_or_super(&call_expr.callee);
                self.visit_nodes(&call_expr.args);
                proof {
                    let own = seq![*call_expr];
                    let callee = call_expr.callee.calls();
                    let args = calls_of(call_expr.args@);
                    lemma_findings_of_one(*call_expr);
                    lemma_findings_of_concat(own, callee);
                    lemma_findings_of_concat(own + callee, args);
                }
            },
            Node::Other(children) => {
                self.visit_nodes(children);
            },
        }
    }

    /// Visits a callee, or the object of a member access.
    pub fn visit_expr_or_super(&mut self, expr: &ExprOrSuper)
        ensures
            final(self).context@ == old(self).context@ + findings(expr.calls()),
            *final(final(self).context) == *final(old(self).context),
        decreases expr,
    {
        match expr {
            ExprOrSuper::Super(_) => {},
            ExprOrSuper::Expr(node) => {
                self.visit_node(&**node);
            },
        }
    }

    /// Visits `nodes` one after the other.
    pub fn visit_nodes(&mut self, nodes: &Vec<Node>)
        ensures
            final(self).context@ == old(self).context@ + findings(calls_of(nodes@)),
            *final(final(self).context) == *final(old(self).context),
        decreases nodes,
    {
        let mut i: usize = 0;
        while i < nodes.len()
            invariant
                i <= nodes.len(),
                self.context@ == old(self).context@ + findings(calls_of(nodes@.take(i as int))),
                *final(self.context) == *final(old(self).context),
            decreases nodes.len() - i,
        {
            self.visit_node(&nodes[i]);
            proof {
                let done = nodes@.take(i as int);
                assert(nodes@.take(i + 1).drop_last() == done);
                lemma_findings_of_concat(calls_of(done), nodes@[i as int].calls());
            }
            i += 1;
        }
        proof {
            assert(nodes@.take(i as int) == nodes@);
        }
    }

    /// Visits a whole program.
    pub fn visit_program(&mut self, program: &Program)
        ensures
            final(self).context@ == old(self).context@ + findings(program.calls()),
            *final(final(self).context) == *final(old(self).context),
    {
        self.visit_nodes(&program.body);
    }
}

} // verus!
