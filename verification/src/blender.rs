//! The editor-side form of a node graph: concrete node records with
//! typed sockets and parameters, and the conversions from the language's
//! graph into it.
//!
//! Value conversion is a round trip for every language value; the
//! editor-side string value has no language counterpart and falls back to
//! a boolean when it comes across.

use vstd::prelude::*;
use vstd::seq_lib::*;
use crate::graph::{Decimal, Node, NodeGraph, NodeGraphView, NodeView, Value};
use crate::protocol::Fixed;

verus! {

/// A value carried on an editor-side socket or parameter.
#[derive(Clone, Debug, PartialEq)]
pub enum BlenderValue {
    Integer(i64),
    Float(Decimal),
    Boolean(bool),
    Vector(Decimal, Decimal, Decimal),
    Color(Decimal, Decimal, Decimal, Decimal),
    String(String),
}

#[verifier::ext_equal]
pub enum BlenderValueView {
    Integer(i64),
    Float(Decimal),
    Boolean(bool),
    Vector(Decimal, Decimal, Decimal),
    Color(Decimal, Decimal, Decimal, Decimal),
    String(Seq<char>),
}

impl View for BlenderValue {
    type V = BlenderValueView;

    open spec fn view(&self) -> BlenderValueView {
        match self {
            BlenderValue::Integer(i) => BlenderValueView::Integer(*i),
            BlenderValue::Float(d) => BlenderValueView::Float(*d),
            BlenderValue::Boolean(b) => BlenderValueView::Boolean(*b),
            BlenderValue::Vector(x, y, z) => BlenderValueView::Vector(*x, *y, *z),
            BlenderValue::Color(r, g, b, a) => BlenderValueView::Color(*r, *g, *b, *a),
            BlenderValue::String(s) => BlenderValueView::String(s@),
        }
    }
}

/// The editor-side value a language value converts to.
pub open spec fn spec_blender_value(v: Value) -> BlenderValueView {
    match v {
        Value::Integer(i) => BlenderValueView::Integer(i),
        Value::Float(d) => BlenderValueView::Float(d),
        Value::Boolean(b) => BlenderValueView::Boolean(b),
        Value::Vector(x, y, z) => BlenderValueView::Vector(x, y, z),
        Value::Color(r, g, b, a) => BlenderValueView::Color(r, g, b, a),
    }
}

/// The language value an editor-side value converts back to; a string has
/// no counterpart and falls back to a false boolean.
pub open spec fn spec_language_value(v: BlenderValueView) -> Value {
    match v {
        BlenderValueView::Integer(i) => Value::Integer(i),
        BlenderValueView::Float(d) => Value::Float(d),
        BlenderValueView::Boolean(b) => Value::Boolean(b),
        BlenderValueView::Vector(x, y, z) => Value::Vector(x, y, z),
        BlenderValueView::Color(r, g, b, a) => Value::Color(r, g, b, a),
        BlenderValueView::String(_) => Value::Boolean(false),
    }
}

impl From<Value> for BlenderValue {
    fn from(value: Value) -> (r: Self) {
        match value {
            Value::Integer(i) => BlenderValue::Integer(i),
            Value::Float(d) => BlenderValue::Float(d),
            Value::Boolean(b) => BlenderValue::Boolean(b),
            Value::Vector(x, y, z) => BlenderValue::Vector(x, y, z),
            Value::Color(r, g, b, a) => BlenderValue::Color(r, g, b, a),
        }
    }
}

impl vstd::std_specs::convert::FromSpecImpl<Value> for BlenderValue {
    open spec fn obeys_from_spec() -> bool {
        true
    }

    open spec fn from_spec(v: Value) -> Self {
        match v {
            Value::Integer(i) => BlenderValue::Integer(i),
            Value::Float(d) => BlenderValue::Float(d),
            Value::Boolean(b) => BlenderValue::Boolean(b),
            Value::Vector(x, y, z) => BlenderValue::Vector(x, y, z),
            Value::Color(r, g, b, a) => BlenderValue::Color(r, g, b, a),
        }
    }
}

impl From<BlenderValue> for Value {
    fn from(value: BlenderValue) -> (r: Self) {
        match value {
            BlenderValue::Integer(i) => Value::Integer(i),
            BlenderValue::Float(d) => Value::Float(d),
            BlenderValue::Boolean(b) => Value::Boolean(b),
            BlenderValue::Vector(x, y, z) => Value::Vector(x, y, z),
            BlenderValue::Color(r, g, b, a) => Value::Color(r, g, b, a),
            BlenderValue::String(_) => Value::Boolean(false),
        }
    }
}

impl vstd::std_specs::convert::FromSpecImpl<BlenderValue> for Value {
    open spec fn obeys_from_spec() -> bool {
        true
    }

    open spec fn from_spec(v: BlenderValue) -> Self {
        match v {
            BlenderValue::Integer(i) => Value::Integer(i),
            BlenderValue::Float(d) => Value::Float(d),
            BlenderValue::Boolean(b) => Value::Boolean(b),
            BlenderValue::Vector(x, y, z) => Value::Vector(x, y, z),
            BlenderValue::Color(r, g, b, a) => Value::Color(r, g, b, a),
            BlenderValue::String(_) => Value::Boolean(false),
        }
    }
}

/// Converting a language value to the editor side and back is a round
/// trip: every language value comes back unchanged.
pub proof fn lemma_value_conversion_round_trip(v: Value)
    ensures
        spec_language_value(spec_blender_value(v)) == v,
{
}

/// A typed socket of an editor-side node.
#[derive(Clone, Debug, PartialEq)]
pub struct BlenderSocket {
    pub name: String,
    pub socket_type: String,
    pub default_value: Option<BlenderValue>,
}

#[verifier::ext_equal]
pub struct BlenderSocketView {
    pub name: Seq<char>,
    pub socket_type: Seq<char>,
    pub default_value: Option<BlenderValueView>,
}

impl View for BlenderSocket {
    type V = BlenderSocketView;

    open spec fn view(&self) -> BlenderSocketView {
        BlenderSocketView {
            name: self.name@,
            socket_type: self.socket_type@,
            default_value: match &self.default_value {
                Some(v) => Some(v@),
                None => None,
            },
        }
    }
}

impl DeepView for BlenderSocket {
    type V = BlenderSocketView;

    open spec fn deep_view(&self) -> BlenderSocketView {
        self.view()
    }
}

/// An editor-side node: its type, canvas location, sockets and
/// parameters.
#[derive(Debug, PartialEq)]
pub struct BlenderNode {
    pub node_type: String,
    pub location: (Fixed, Fixed),
    pub inputs: Vec<BlenderSocket>,
    pub outputs: Vec<BlenderSocket>,
    pub parameters: Vec<(String, BlenderValue)>,
}

#[verifier::ext_equal]
pub struct BlenderNodeView {
    pub node_type: Seq<char>,
    pub location: (Fixed, Fixed),
    pub inputs: Seq<BlenderSocketView>,
    pub outputs: Seq<BlenderSocketView>,
    pub parameters: Seq<(Seq<char>, BlenderValueView)>,
}

impl View for BlenderNode {
    type V = BlenderNodeView;

    open spec fn view(&self) -> BlenderNodeView {
        BlenderNodeView {
            node_type: self.node_type@,
            location: self.location,
            inputs: self.inputs.deep_view(),
            outputs: self.outputs.deep_view(),
            parameters: self.parameters@.map_values(|p: (String, BlenderValue)| (p.0@, p.1@)),
        }
    }
}

impl DeepView for BlenderNode {
    type V = BlenderNodeView;

    open spec fn deep_view(&self) -> BlenderNodeView {
        self.view()
    }
}

/// A link between two editor-side nodes, by node index and socket name.
#[derive(Clone, Debug, PartialEq)]
pub struct BlenderLink {
    pub from_node: usize,
    pub from_socket: String,
    pub to_node: usize,
    pub to_socket: String,
}

#[verifier::ext_equal]
pub struct BlenderLinkView {
    pub from_node: usize,
    pub from_socket: Seq<char>,
    pub to_node: usize,
    pub to_socket: Seq<char>,
}

impl View for BlenderLink {
    type V = BlenderLinkView;

    open spec fn view(&self) -> BlenderLinkView {
        BlenderLinkView {
            from_node: self.from_node,
            from_socket: self.from_socket@,
            to_node: self.to_node,
            to_socket: self.to_socket@,
        }
    }
}

impl DeepView for BlenderLink {
    type V = BlenderLinkView;

    open spec fn deep_view(&self) -> BlenderLinkView {
        self.view()
    }
}

/// An editor-side graph: node records and the links between them.
#[derive(Debug, PartialEq)]
pub struct BlenderNodeGraph {
    pub nodes: Vec<BlenderNode>,
    pub links: Vec<BlenderLink>,
}

#[verifier::ext_equal]
pub struct BlenderNodeGraphView {
    pub nodes: Seq<BlenderNodeView>,
    pub links: Seq<BlenderLinkView>,
}

impl View for BlenderNodeGraph {
    type V = BlenderNodeGraphView;

    open spec fn view(&self) -> BlenderNodeGraphView {
        BlenderNodeGraphView { nodes: self.nodes.deep_view(), links: self.links.deep_view() }
    }
}

/// The editor-side record a language node converts to: a bare value
/// becomes a value node exposing one output; a cube becomes a cube-mesh
/// node with its size on an input socket and as a parameter.
pub open spec fn spec_blender_node(n: NodeView) -> BlenderNodeView {
    match n {
        NodeView::Value { id: _, value } => BlenderNodeView {
            node_type: "ShaderNodeValue"@,
            location: (Fixed { milli: 0 }, Fixed { milli: 0 }),
            inputs: Seq::empty(),
            outputs: seq![
                BlenderSocketView {
                    name: "Value"@,
                    socket_type: "NodeSocketFloat"@,
                    default_value: Some(spec_blender_value(value)),
                },
            ],
            parameters: Seq::empty(),
        },
        NodeView::Cube { id: _, size } => BlenderNodeView {
            node_type: "GeometryNodeMeshCube"@,
            location: (Fixed { milli: 0 }, Fixed { milli: 0 }),
            inputs: seq![
                BlenderSocketView {
                    name: "Size"@,
                    socket_type: "NodeSocketVector"@,
                    default_value: Some(spec_blender_value(size)),
                },
            ],
            outputs: seq![
                BlenderSocketView {
                    name: "Mesh"@,
                    socket_type: "NodeSocketGeometry"@,
                    default_value: None,
                },
            ],
            parameters: seq![("size"@, spec_blender_value(size))],
        },
    }
}

/// The editor-side graph a language graph converts to: every node in
/// order; links are not derived from the graph's connections — the
/// conversion carries nodes only.
pub open spec fn spec_blender_graph(g: NodeGraphView) -> BlenderNodeGraphView {
    BlenderNodeGraphView {
        nodes: g.nodes.map_values(|n: NodeView| spec_blender_node(n)),
        links: Seq::empty(),
    }
}

impl Node {
    /// Converts the node to its editor-side record.
    pub fn to_blender(self) -> (r: BlenderNode)
        ensures
            r@ == spec_blender_node(self@),
    {
        let ghost n_view = self@;
        match self {
            Node::Value { id: _, value } => {
                let mut outputs: Vec<BlenderSocket> = Vec::new();
                outputs.push(
                    BlenderSocket {
                        name: "Value".to_owned(),
                        socket_type: "NodeSocketFloat".to_owned(),
                        default_value: Some(BlenderValue::from(value)),
                    },
                );
                let r = BlenderNode {
                    node_type: "ShaderNodeValue".to_owned(),
                    location: (Fixed { milli: 0 }, Fixed { milli: 0 }),
                    inputs: Vec::new(),
                    outputs,
                    parameters: Vec::new(),
                };
                proof {
                    assert(r@.inputs =~= spec_blender_node(n_view).inputs);
                    assert(r@.outputs =~= spec_blender_node(n_view).outputs);
                    assert(r@.parameters =~= spec_blender_node(n_view).parameters);
                    assert(r@ =~= spec_blender_node(n_view));
                }
                r
            },
            Node::Cube { id: _, size } => {
                let mut inputs: Vec<BlenderSocket> = Vec::new();
                inputs.push(
                    BlenderSocket {
                        name: "Size".to_owned(),
                        socket_type: "NodeSocketVector".to_owned(),
                        default_value: Some(BlenderValue::from(size)),
                    },
                );
                let mut outputs: Vec<BlenderSocket> = Vec::new();
                outputs.push(
                    BlenderSocket {
                        name: "Mesh".to_owned(),
                        socket_type: "NodeSocketGeometry".to_owned(),
                        default_value: None,
                    },
                );
                let mut parameters: Vec<(String, BlenderValue)> = Vec::new();
                parameters.push(("size".to_owned(), BlenderValue::from(size)));
                let r = BlenderNode {
                    node_type: "GeometryNodeMeshCube".to_owned(),
                    location: (Fixed { milli: 0 }, Fixed { milli: 0 }),
                    inputs,
                    outputs,
                    parameters,
                };
                proof {
                    assert(r@.inputs =~= spec_blender_node(n_view).inputs);
                    assert(r@.outputs =~= spec_blender_node(n_view).outputs);
                    assert(r@.parameters =~= spec_blender_node(n_view).parameters);
                    assert(r@ =~= spec_blender_node(n_view));
                }
                r
            },
        }
    }
}

impl NodeGraph {
    /// Converts the whole graph to its editor-side form.
    pub fn to_blender(self) -> (r: BlenderNodeGraph)
        ensures
            r@ == spec_blender_graph(self@),
    {
        let ghost g_view = self@;
        let mut nodes: Vec<BlenderNode> = Vec::new();
        let node_count = self.nodes.len();
        let mut remaining = self.nodes;
        let mut i: usize = 0;
        while i < node_count
            invariant
                i <= node_count,
                node_count == g_view.nodes.len(),
                remaining@.len() == node_count - i,
                forall|j: int|
                    0 <= j < remaining@.len() ==> (#[trigger] remaining@[j]).deep_view()
                        == g_view.nodes[i + j],
                nodes@.len() == i,
                forall|j: int|
                    0 <= j < i ==> (#[trigger] nodes.deep_view()[j]) == spec_blender_node(
                        g_view.nodes[j],
                    ),
            decreases node_count - i,
        {
            let node = remaining.remove(0);
            proof {
                assert(node.deep_view() == g_view.nodes[i as int]);
            }
            let ghost nodes0 = nodes.deep_view();
            let converted = node.to_blender();
            let ghost c_view = converted@;
            nodes.push(converted);
            proof {
                assert forall|j: int|
                    0 <= j < i + 1 implies (#[trigger] nodes.deep_view()[j]) == spec_blender_node(
                    g_view.nodes[j],
                ) by {
                    if j < i {
                        assert(nodes.deep_view()[j] == nodes0[j]);
                        assert(nodes0[j] == spec_blender_node(g_view.nodes[j]));
                    } else {
                        assert(nodes.deep_view()[j] == c_view);
                    }
                }
            }
            i = i + 1;
        }
        let r = BlenderNodeGraph { nodes, links: Vec::new() };
        proof {
            assert(r@.nodes =~= spec_blender_graph(g_view).nodes);
            assert(r@.links =~= spec_blender_graph(g_view).links);
            assert(r@ =~= spec_blender_graph(g_view));
        }
        r
    }
}

} // verus!
