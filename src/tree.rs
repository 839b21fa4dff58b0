use vstd::prelude::*;

verus! {

/// Macro-expansion metadata of a source location.
pub struct ExpansionOrigin {
    /// The file this text was included from, when it came in through an `#include`.
    pub included_from: Option<String>,
}

/// A point in the source file under analysis.
pub struct SourceLocation {
    /// Byte offset into the source text.
    pub offset: usize,
    pub expansion_origin: Option<ExpansionOrigin>,
}

/// The span of a definition: `begin` inclusive, `end` exclusive, both byte offsets.
pub struct SourceRange {
    pub begin: SourceLocation,
    pub end: SourceLocation,
}

/// What a syntax tree node is, as far as extraction cares.
pub enum Data {
    FunctionDecl { name: Option<String>, loc: SourceLocation, range: SourceRange },
    Other,
}

/// A node of the compiler's syntax tree; `inner` holds the children in document order.
pub struct Node {
    pub kind: Data,
    pub inner: Vec<Node>,
}

/// What a visitor answers for a node: whether the traversal descends into its children.
pub struct DoRecurse(pub bool);

/// A callback of the pre-order traversal `visit`.
///
/// `trace` is the sequence of nodes the visitor has been shown so far,
/// `descends` says, for each node, whether the visitor asks to see its children,
/// and `inv` is the visitor's own invariant, which each step keeps.
pub trait Visitor {
    spec fn descends(node: Node) -> bool;

    spec fn trace(&self) -> Seq<Node>;

    spec fn inv(&self) -> bool;

    fn enter(&mut self, node: &Node) -> (r: DoRecurse)
        requires
            old(self).inv(),
        ensures
            final(self).inv(),
            r.0 == Self::descends(*node),
            final(self).trace() == old(self).trace().push(*node),
    ;
}

/// The nodes a pre-order traversal of `node` shows to a visitor of type `V`:
/// the node itself, then, if `V` descends into it, the traversals of its children.
pub open spec fn preorder<V: Visitor>(node: Node) -> Seq<Node>
    decreases node, 1int, 0int,
{
    if V::descends(node) {
        seq![node] + children_preorder::<V>(node, node.inner.len() as int)
    } else {
        seq![node]
    }
}

/// The traversals of the first `i` children of `node`, one after another.
pub open spec fn children_preorder<V: Visitor>(node: Node, i: int) -> Seq<Node>
    decreases node, 0int, i,
{
    if i <= 0 || i > node.inner.len() {
        Seq::empty()
    } else {
        children_preorder::<V>(node, i - 1) + preorder::<V>(node.inner[i - 1])
    }
}

fn visit_node<V: Visitor>(node: &Node, v: &mut V)
    requires
        old(v).inv(),
    ensures
        final(v).inv(),
        final(v).trace() == old(v).trace() + preorder::<V>(*node),
    decreases node,
{
    let go = v.enter(node);
    if go.0 {
        let ghost start = v.trace();
        let mut i: usize = 0;
        while i < node.inner.len()
            invariant
                0 <= i <= node.inner.len(),
                v.inv(),
                v.trace() == start + children_preorder::<V>(*node, i as int),
            decreases node.inner.len() - i,
        {
            visit_node(&node.inner[i], v);
            i = i + 1;
        }
    }
}

/// Shows `v` every node of the tree rooted at `node` in depth-first pre-order,
/// descending into a node's children only where `v` answers that it should.
pub fn visit<V: Visitor>(node: &Node, v: &mut V)
    requires
        old(v).inv(),
    ensures
        final(v).inv(),
        final(v).trace() == old(v).trace() + preorder::<V>(*node),
{
    visit_node(node, v);
}

} // verus!
