//! Editor-facing metadata over the node graph: where a node sits on a
//! canvas and how it is displayed, keyed by node identifier.

use vstd::prelude::*;
use vstd::seq_lib::*;
use crate::graph::{Node, NodeGraph, NodeGraphView, NodeId, spec_node_id};
use crate::protocol::Fixed;
use crate::scene::{lemma_push_new_name, lemma_update_same_name};

verus! {

/// A canvas position, in thousandths.
#[derive(Clone, Copy, Debug, PartialEq, Eq, Structural)]
pub struct Position {
    pub x: Fixed,
    pub y: Fixed,
}

/// How a node is displayed on the canvas.
#[derive(Clone, Copy, Debug, PartialEq)]
pub struct NodeMetadata {
    pub position: Option<Position>,
    pub selected: bool,
    pub expanded: bool,
}

pub open spec fn spec_default_metadata() -> NodeMetadata {
    NodeMetadata { position: None, selected: false, expanded: true }
}

impl Default for NodeMetadata {
    /// A fresh node has no pinned position, is unselected, and expanded.
    fn default() -> (r: Self)
        ensures
            r == spec_default_metadata(),
    {
        NodeMetadata { position: None, selected: false, expanded: true }
    }
}

/// A node together with its display metadata.
#[derive(Clone, Debug, PartialEq)]
pub struct NodeWithMetadata {
    pub node: Node,
    pub metadata: NodeMetadata,
}

#[verifier::ext_equal]
pub struct NodeWithMetadataView {
    pub node: crate::graph::NodeView,
    pub metadata: NodeMetadata,
}

impl View for NodeWithMetadata {
    type V = NodeWithMetadataView;

    open spec fn view(&self) -> NodeWithMetadataView {
        NodeWithMetadataView { node: self.node@, metadata: self.metadata }
    }
}

/// A node graph with display metadata per node identifier; one metadata
/// record per identifier, in first-insertion order.
pub struct NodeGraphWithMetadata {
    pub graph: NodeGraph,
    node_metadata: Vec<(NodeId, NodeMetadata)>,
}

#[verifier::ext_equal]
pub struct NodeGraphWithMetadataView {
    pub graph: NodeGraphView,
    pub node_metadata: Seq<(Seq<char>, NodeMetadata)>,
}

impl View for NodeGraphWithMetadata {
    type V = NodeGraphWithMetadataView;

    closed spec fn view(&self) -> NodeGraphWithMetadataView {
        NodeGraphWithMetadataView {
            graph: self.graph@,
            node_metadata: self.node_metadata@.map_values(
                |p: (NodeId, NodeMetadata)| (p.0@, p.1),
            ),
        }
    }
}

pub open spec fn metadata_keys(pairs: Seq<(Seq<char>, NodeMetadata)>) -> Seq<Seq<char>> {
    pairs.map_values(|p: (Seq<char>, NodeMetadata)| p.0)
}

pub open spec fn spec_find_metadata(pairs: Seq<(Seq<char>, NodeMetadata)>, id: Seq<char>) -> Option<
    int,
> {
    metadata_keys(pairs).index_of_first(id)
}

/// Storing metadata for an identifier replaces its record or appends one.
pub open spec fn spec_upsert_metadata(
    pairs: Seq<(Seq<char>, NodeMetadata)>,
    id: Seq<char>,
    metadata: NodeMetadata,
) -> Seq<(Seq<char>, NodeMetadata)> {
    match spec_find_metadata(pairs, id) {
        Some(i) => pairs.update(i, (id, metadata)),
        None => pairs.push((id, metadata)),
    }
}

impl NodeGraphWithMetadata {
    /// Metadata records are keyed uniquely.
    pub open spec fn wf(&self) -> bool {
        metadata_keys(self@.node_metadata).no_duplicates()
    }

    pub fn new() -> (r: NodeGraphWithMetadata)
        ensures
            r@.graph == crate::graph::spec_empty_graph(),
            r@.node_metadata == Seq::<(Seq<char>, NodeMetadata)>::empty(),
            r.wf(),
    {
        let r = NodeGraphWithMetadata { graph: NodeGraph::new(), node_metadata: Vec::new() };
        proof {
            assert(r@.node_metadata =~= Seq::<(Seq<char>, NodeMetadata)>::empty());
            assert(metadata_keys(r@.node_metadata) =~= Seq::<Seq<char>>::empty());
        }
        r
    }

    /// The stored metadata for an identifier, if any.
    pub fn metadata_for(&self, id: &NodeId) -> (r: Option<NodeMetadata>)
        ensures
            match r {
                Some(m) => spec_find_metadata(self@.node_metadata, id@) matches Some(i) && (
                self@.node_metadata[i].1) == m,
                None => spec_find_metadata(self@.node_metadata, id@) is None,
            },
    {
        let ghost keys = metadata_keys(self@.node_metadata);
        let mut i: usize = 0;
        while i < self.node_metadata.len()
            invariant
                i <= self.node_metadata@.len(),
                keys == metadata_keys(self@.node_metadata),
                keys.len() == self.node_metadata@.len(),
                forall|j: int| 0 <= j < i ==> keys[j] != id@,
            decreases self.node_metadata@.len() - i,
        {
            if self.node_metadata[i].0.0 == id.0 {
                proof {
                    assert(keys[i as int] == id@);
                    keys.index_of_first_ensures(id@);
                    let k = keys.index_of_first(id@)->Some_0;
                    assert(!(k < i)) by {
                        if 0 <= k < i {
                            assert(keys[k] != id@);
                        }
                    }
                    assert(!(k > i)) by {
                        if k > i {
                            assert(keys[i as int] != id@);
                        }
                    }
                }
                return Some(self.node_metadata[i].1);
            }
            i = i + 1;
        }
        proof {
            keys.index_of_first_ensures(id@);
            if keys.index_of_first(id@) is Some {
                let k = keys.index_of_first(id@)->Some_0;
                assert(keys[k] != id@);
            }
        }
        None
    }

    /// Stores (or replaces) the metadata for an identifier.
    fn upsert_metadata(&mut self, id: NodeId, metadata: NodeMetadata)
        requires
            old(self).wf(),
        ensures
            final(self)@.graph == old(self)@.graph,
            final(self)@.node_metadata == spec_upsert_metadata(
                old(self)@.node_metadata,
                id@,
                metadata,
            ),
            final(self).wf(),
    {
        let ghost keys = metadata_keys(self@.node_metadata);
        let ghost id_view = id@;
        let mut i: usize = 0;
        while i < self.node_metadata.len()
            invariant
                i <= self.node_metadata@.len(),
                self@ == old(self)@,
                keys == metadata_keys(self@.node_metadata),
                keys.len() == self.node_metadata@.len(),
                id_view == id@,
                old(self).wf(),
                forall|j: int| 0 <= j < i ==> keys[j] != id@,
            decreases self.node_metadata@.len() - i,
        {
            if self.node_metadata[i].0.0 == id.0 {
                proof {
                    assert(keys[i as int] == id_view);
                    keys.index_of_first_ensures(id_view);
                    let k = keys.index_of_first(id_view)->Some_0;
                    assert(!(k < i)) by {
                        if 0 <= k < i {
                            assert(keys[k] != id_view);
                        }
                    }
                    assert(!(k > i)) by {
                        if k > i {
                            assert(keys[i as int] != id_view);
                        }
                    }
                }
                self.node_metadata[i] = (id, metadata);
                proof {
                    assert(self@.node_metadata =~= old(self)@.node_metadata.update(
                        i as int,
                        (id_view, metadata),
                    ));
                    lemma_update_same_name(keys, id_view, i as int);
                    assert(metadata_keys(self@.node_metadata) =~= keys.update(i as int, id_view));
                    assert(metadata_keys(self@.node_metadata) =~= keys);
                }
                return ;
            }
            i = i + 1;
        }
        proof {
            keys.index_of_first_ensures(id_view);
            if keys.index_of_first(id_view) is Some {
                let k = keys.index_of_first(id_view)->Some_0;
                assert(keys[k] != id_view);
            }
        }
        self.node_metadata.push((id, metadata));
        proof {
            assert(self@.node_metadata =~= old(self)@.node_metadata.push((id_view, metadata)));
            lemma_push_new_name(keys, id_view);
            assert(metadata_keys(self@.node_metadata) =~= keys.push(id_view));
        }
    }

    /// Appends a node and stores the given metadata under its identifier.
    pub fn add_node_with_metadata(&mut self, node: Node, metadata: NodeMetadata)
        requires
            old(self).wf(),
        ensures
            final(self)@.graph == (NodeGraphView {
                nodes: old(self)@.graph.nodes.push(node@),
                connections: old(self)@.graph.connections,
            }),
            final(self)@.node_metadata == spec_upsert_metadata(
                old(self)@.node_metadata,
                spec_node_id(node@),
                metadata,
            ),
            final(self).wf(),
    {
        let id = node.id().clone();
        self.graph.add_node(node);
        self.upsert_metadata(id, metadata);
    }

    /// Appends a node with the default metadata.
    pub fn add_node(&mut self, node: Node)
        requires
            old(self).wf(),
        ensures
            final(self)@.graph == (NodeGraphView {
                nodes: old(self)@.graph.nodes.push(node@),
                connections: old(self)@.graph.connections,
            }),
            final(self)@.node_metadata == spec_upsert_metadata(
                old(self)@.node_metadata,
                spec_node_id(node@),
                spec_default_metadata(),
            ),
            final(self).wf(),
    {
        let id = node.id().clone();
        self.graph.add_node(node);
        self.upsert_metadata(id, NodeMetadata { position: None, selected: false, expanded: true });
    }
}

impl Default for NodeGraphWithMetadata {
    fn default() -> (r: Self)
        ensures
            r@.graph == crate::graph::spec_empty_graph(),
            r@.node_metadata == Seq::<(Seq<char>, NodeMetadata)>::empty(),
            r.wf(),
    {
        NodeGraphWithMetadata::new()
    }
}

} // verus!
