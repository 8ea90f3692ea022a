//! The source-node value handed in by the lexer/parser collaborator. This
//! core treats a node as opaque beyond the position span it carries: the span
//! is copied into diagnostics, and the node itself is kept so a failure can
//! be rendered near the text that caused it.

use crate::diagnostic::span_seq;
use crate::diagnostic::Span;
use crate::text::join_seq;
use vstd::prelude::*;

verus! {

/// Opaque unit of parsed-but-not-yet-validated syntax, used only for the
/// position it carries.
#[derive(Debug, Clone, Copy, PartialEq, Eq)]
pub struct PreSymbolicExpression {
    pub span: Span,
}

/// The structural rendering of a node is the rendering of its span.
pub open spec fn node_seq(p: PreSymbolicExpression) -> Seq<char> {
    span_seq(p.span)
}

impl PreSymbolicExpression {
    /// Renders the node structurally.
    pub fn render(&self) -> (r: String)
        ensures
            r@ == node_seq(*self),
    {
        self.span.render()
    }
}

/// The structural rendering of a node list: the nodes' renderings between
/// square brackets, separated by commas.
pub open spec fn nodes_seq(nodes: Seq<PreSymbolicExpression>) -> Seq<char> {
    "["@ + join_seq(nodes.map_values(|p: PreSymbolicExpression| node_seq(p)), ", "@) + "]"@
}

/// Renders a node list structurally.
pub fn render_nodes(nodes: &Vec<PreSymbolicExpression>) -> (r: String)
    ensures
        r@ == nodes_seq(nodes@),
{
    let mut r = String::new();
    r.append("[");
    let ghost all = nodes@.map_values(|p: PreSymbolicExpression| node_seq(p));
    proof {
        assert(r@ =~= "["@ + join_seq(all.take(0), ", "@));
    }
    let mut i: usize = 0;
    while i < nodes.len()
        invariant
            i <= nodes.len(),
            all == nodes@.map_values(|p: PreSymbolicExpression| node_seq(p)),
            all.len() == nodes@.len(),
            r@ == "["@ + join_seq(all.take(i as int), ", "@),
        decreases nodes.len() - i,
    {
        if i > 0 {
            r.append(", ");
        }
        let one = nodes[i].render();
        r.append(one.as_str());
        proof {
            assert(all.take(i as int + 1).drop_last() =~= all.take(i as int));
            assert(all.take(i as int + 1).last() == node_seq(nodes@[i as int]));
            assert(r@ =~= "["@ + join_seq(all.take(i as int + 1), ", "@));
        }
        i = i + 1;
    }
    r.append("]");
    proof {
        assert(all.take(nodes@.len() as int) =~= all);
        assert(r@ =~= nodes_seq(nodes@));
    }
    r
}

} // verus!
