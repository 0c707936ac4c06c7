//! The declarative node-graph language's data model: values, nodes,
//! connections and the graph itself.
//!
//! Numeric literals are carried as exact decimals — a mantissa and the
//! number of fraction digits — so a graph value is a plain value with
//! exact equality wherever it travels.

use vstd::prelude::*;
use vstd::seq_lib::*;

verus! {

/// A decimal literal: `mantissa` scaled down by `scale` fraction digits,
/// so `{ mantissa: 425, scale: 1 }` is the literal `42.5`.
#[derive(Clone, Copy, Debug, PartialEq, Eq, Structural)]
pub struct Decimal {
    pub mantissa: i64,
    pub scale: usize,
}

impl Decimal {
    pub fn new(mantissa: i64, scale: usize) -> (r: Decimal)
        ensures
            r == (Decimal { mantissa, scale }),
    {
        Decimal { mantissa, scale }
    }
}

/// A literal value of the language.
#[derive(Clone, Copy, Debug, PartialEq, Eq, Structural)]
pub enum Value {
    Integer(i64),
    Float(Decimal),
    Boolean(bool),
    Vector(Decimal, Decimal, Decimal),
    Color(Decimal, Decimal, Decimal, Decimal),
}

/// A node's identifier.
#[derive(Debug, PartialEq, Eq, Hash)]
pub struct NodeId(pub String);

impl Clone for NodeId {
    fn clone(&self) -> (r: Self)
        ensures
            r@ == self@,
    {
        NodeId(self.0.clone())
    }
}

impl View for NodeId {
    type V = Seq<char>;

    open spec fn view(&self) -> Seq<char> {
        self.0@
    }
}

/// A directed connection between two node sockets.
#[derive(Clone, Debug, PartialEq)]
pub struct Connection {
    pub from_node: NodeId,
    pub from_output: String,
    pub to_node: NodeId,
    pub to_input: String,
}

#[verifier::ext_equal]
pub struct ConnectionView {
    pub from_node: Seq<char>,
    pub from_output: Seq<char>,
    pub to_node: Seq<char>,
    pub to_input: Seq<char>,
}

impl View for Connection {
    type V = ConnectionView;

    open spec fn view(&self) -> ConnectionView {
        ConnectionView {
            from_node: self.from_node@,
            from_output: self.from_output@,
            to_node: self.to_node@,
            to_input: self.to_input@,
        }
    }
}

impl DeepView for Connection {
    type V = ConnectionView;

    open spec fn deep_view(&self) -> ConnectionView {
        self.view()
    }
}

/// A node of the graph: a bare value, or a cube with a size.
#[derive(Clone, Debug, PartialEq)]
pub enum Node {
    Value { id: NodeId, value: Value },
    Cube { id: NodeId, size: Value },
}

#[verifier::ext_equal]
pub enum NodeView {
    Value { id: Seq<char>, value: Value },
    Cube { id: Seq<char>, size: Value },
}

impl View for Node {
    type V = NodeView;

    open spec fn view(&self) -> NodeView {
        match self {
            Node::Value { id, value } => NodeView::Value { id: id@, value: *value },
            Node::Cube { id, size } => NodeView::Cube { id: id@, size: *size },
        }
    }
}

impl DeepView for Node {
    type V = NodeView;

    open spec fn deep_view(&self) -> NodeView {
        self.view()
    }
}

pub open spec fn spec_node_id(n: NodeView) -> Seq<char> {
    match n {
        NodeView::Value { id, .. } => id,
        NodeView::Cube { id, .. } => id,
    }
}

impl Node {
    /// The node's identifier, whichever kind it is.
    pub fn id(&self) -> (r: &NodeId)
        ensures
            r@ == spec_node_id(self@),
    {
        match self {
            Node::Value { id, .. } => id,
            Node::Cube { id, .. } => id,
        }
    }
}

/// An ordered collection of nodes and the connections between them.
#[derive(Clone, Debug, PartialEq)]
pub struct NodeGraph {
    pub nodes: Vec<Node>,
    pub connections: Vec<Connection>,
}

#[verifier::ext_equal]
pub struct NodeGraphView {
    pub nodes: Seq<NodeView>,
    pub connections: Seq<ConnectionView>,
}

impl View for NodeGraph {
    type V = NodeGraphView;

    open spec fn view(&self) -> NodeGraphView {
        NodeGraphView {
            nodes: self.nodes.deep_view(),
            connections: self.connections.deep_view(),
        }
    }
}

impl DeepView for NodeGraph {
    type V = NodeGraphView;

    open spec fn deep_view(&self) -> NodeGraphView {
        self.view()
    }
}

pub open spec fn spec_empty_graph() -> NodeGraphView {
    NodeGraphView { nodes: Seq::empty(), connections: Seq::empty() }
}

/// Index of the first node with the given identifier, if any.
pub open spec fn spec_find_node(nodes: Seq<NodeView>, id: Seq<char>) -> Option<int> {
    nodes.map_values(|n: NodeView| spec_node_id(n)).index_of_first(id)
}

impl NodeGraph {
    pub fn new() -> (r: NodeGraph)
        ensures
            r@ == spec_empty_graph(),
    {
        let r = NodeGraph { nodes: Vec::new(), connections: Vec::new() };
        proof {
            assert(r@ =~= spec_empty_graph());
        }
        r
    }

    /// Appends a node; nodes keep insertion order.
    pub fn add_node(&mut self, node: Node)
        ensures
            final(self)@ == (NodeGraphView {
                nodes: old(self)@.nodes.push(node@),
                connections: old(self)@.connections,
            }),
    {
        let ghost n_view = node@;
        self.nodes.push(node);
        proof {
            assert(self@.nodes =~= old(self)@.nodes.push(n_view));
            assert(self@ =~= (NodeGraphView {
                nodes: old(self)@.nodes.push(n_view),
                connections: old(self)@.connections,
            }));
        }
    }

    /// Appends a connection; connections keep insertion order.
    pub fn add_connection(&mut self, connection: Connection)
        ensures
            final(self)@ == (NodeGraphView {
                nodes: old(self)@.nodes,
                connections: old(self)@.connections.push(connection@),
            }),
    {
        let ghost c_view = connection@;
        self.connections.push(connection);
        proof {
            assert(self@.connections =~= old(self)@.connections.push(c_view));
            assert(self@ =~= (NodeGraphView {
                nodes: old(self)@.nodes,
                connections: old(self)@.connections.push(c_view),
            }));
        }
    }

    /// The first node with the given identifier, if any.
    pub fn find_node(&self, id: &NodeId) -> (r: Option<&Node>)
        ensures
            match r {
                Some(n) => spec_find_node(self@.nodes, id@) matches Some(i) && n@ == self@.nodes[i],
                None => spec_find_node(self@.nodes, id@) is None,
            },
    {
        let ghost ids = self@.nodes.map_values(|n: NodeView| spec_node_id(n));
        let mut i: usize = 0;
        while i < self.nodes.len()
            invariant
                i <= self.nodes@.len(),
                ids == self@.nodes.map_values(|n: NodeView| spec_node_id(n)),
                ids.len() == self.nodes@.len(),
                forall|j: int| 0 <= j < i ==> ids[j] != id@,
            decreases self.nodes@.len() - i,
        {
            if self.nodes[i].id().0 == id.0 {
                proof {
                    assert(ids[i as int] == id@);
                    ids.index_of_first_ensures(id@);
                    let k = ids.index_of_first(id@)->Some_0;
                    assert(!(k < i)) by {
                        if 0 <= k < i {
                            assert(ids[k] != id@);
                        }
                    }
                    assert(!(k > i)) by {
                        if k > i {
                            assert(ids[i as int] != id@);
                        }
                    }
                }
                return Some(&self.nodes[i]);
            }
            i = i + 1;
        }
        proof {
            ids.index_of_first_ensures(id@);
            if ids.index_of_first(id@) is Some {
                let k = ids.index_of_first(id@)->Some_0;
                assert(ids[k] != id@);
            }
        }
        None
    }
}

impl Default for NodeGraph {
    fn default() -> (r: Self)
        ensures
            r@ == spec_empty_graph(),
    {
        NodeGraph::new()
    }
}

} // verus!
