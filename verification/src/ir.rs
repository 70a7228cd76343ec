//! The intermediate representation: a validated, immutable model made of an
//! ordered sequence of trees, each an index from node identifier to one of
//! three typed node variants, plus ensemble-level metadata.

use vstd::prelude::*;

verus! {

/// A numeric model constant (a leaf value, a split threshold or the base
/// score), held as the plain values the emitters read: its sign and zeroness,
/// and the decimal renderings of the value and of its absolute value as the
/// standard formatter produces them. The caller that parses the model file
/// fills these in; the emitters never re-derive one field from another.
#[derive(Debug, Clone)]
pub struct Scalar {
    /// Whether the value compares strictly below zero.
    pub negative: bool,
    /// Whether the value compares strictly above zero.
    pub positive: bool,
    /// Whether the value compares unequal to zero.
    pub nonzero: bool,
    /// The rendering of the value itself.
    pub text: String,
    /// The rendering of the absolute value.
    pub abs_text: String,
}

/// The mathematical view of a [`Scalar`].
pub struct ScalarV {
    pub negative: bool,
    pub positive: bool,
    pub nonzero: bool,
    pub text: Seq<char>,
    pub abs_text: Seq<char>,
}

impl View for Scalar {
    type V = ScalarV;

    open spec fn view(&self) -> ScalarV {
        ScalarV {
            negative: self.negative,
            positive: self.positive,
            nonzero: self.nonzero,
            text: self.text@,
            abs_text: self.abs_text@,
        }
    }
}

/// A terminal node: contributes `leaf_value` additively to the tree's result.
#[derive(Debug, Clone)]
pub struct Leaf {
    pub node_id: u32,
    pub leaf_value: Scalar,
}

pub struct LeafV {
    pub node_id: u32,
    pub leaf_value: ScalarV,
}

impl View for Leaf {
    type V = LeafV;

    open spec fn view(&self) -> LeafV {
        LeafV { node_id: self.node_id, leaf_value: self.leaf_value@ }
    }
}

/// A numeric test node: routes to `left_child` when
/// `feature[split_feature_id] <comparison_op> threshold` holds, else to
/// `right_child`. The comparison operator is carried verbatim.
#[derive(Debug, Clone)]
pub struct TestNode {
    pub node_id: u32,
    pub split_feature_id: u32,
    pub comparison_op: String,
    pub threshold: Scalar,
    pub left_child: u32,
    pub right_child: u32,
}

pub struct TestNodeV {
    pub node_id: u32,
    pub split_feature_id: u32,
    pub comparison_op: Seq<char>,
    pub threshold: ScalarV,
    pub left_child: u32,
    pub right_child: u32,
}

impl View for TestNode {
    type V = TestNodeV;

    open spec fn view(&self) -> TestNodeV {
        TestNodeV {
            node_id: self.node_id,
            split_feature_id: self.split_feature_id,
            comparison_op: self.comparison_op@,
            threshold: self.threshold@,
            left_child: self.left_child,
            right_child: self.right_child,
        }
    }
}

/// A categorical test node: when the integer value of
/// `feature[split_feature_id]` is a member of `category_list`, control goes to
/// `right_child`, otherwise to `left_child`. Only this membership direction is
/// supported.
#[derive(Debug, Clone)]
pub struct CategoricalTestNode {
    pub node_id: u32,
    pub left_child: u32,
    pub right_child: u32,
    pub split_feature_id: u32,
    pub category_list: Vec<u32>,
}

pub struct CategoricalTestNodeV {
    pub node_id: u32,
    pub left_child: u32,
    pub right_child: u32,
    pub split_feature_id: u32,
    pub category_list: Seq<u32>,
}

impl View for CategoricalTestNode {
    type V = CategoricalTestNodeV;

    open spec fn view(&self) -> CategoricalTestNodeV {
        CategoricalTestNodeV {
            node_id: self.node_id,
            left_child: self.left_child,
            right_child: self.right_child,
            split_feature_id: self.split_feature_id,
            category_list: self.category_list@,
        }
    }
}

/// The closed union of node variants; every consumer handles all three.
#[derive(Debug, Clone)]
pub enum Node {
    Leaf(Leaf),
    TestNode(TestNode),
    Categorical(CategoricalTestNode),
}

pub enum NodeV {
    Leaf(LeafV),
    TestNode(TestNodeV),
    Categorical(CategoricalTestNodeV),
}

impl View for Node {
    type V = NodeV;

    open spec fn view(&self) -> NodeV {
        match self {
            Node::Leaf(l) => NodeV::Leaf(l@),
            Node::TestNode(t) => NodeV::TestNode(t@),
            Node::Categorical(c) => NodeV::Categorical(c@),
        }
    }
}

impl NodeV {
    /// The identifier of a node, whatever its variant.
    pub open spec fn id(self) -> u32 {
        match self {
            NodeV::Leaf(l) => l.node_id,
            NodeV::TestNode(t) => t.node_id,
            NodeV::Categorical(c) => c.node_id,
        }
    }
}

impl Node {
    /// The identifier of a node, whatever its variant.
    pub fn id(&self) -> (r: u32)
        ensures
            r == self@.id(),
    {
        match self {
            Node::Leaf(leaf) => leaf.node_id,
            Node::TestNode(test_node) => test_node.node_id,
            Node::Categorical(cat) => cat.node_id,
        }
    }
}

/// Whether `node` carries the identifier `id`.
pub fn node_matches(id: &u32, node: &Node) -> (r: bool)
    ensures
        r == (node@.id() == *id),
{
    match node {
        Node::Leaf(Leaf { node_id, leaf_value: _ }) => *node_id == *id,
        Node::TestNode(
            TestNode {
                node_id,
                split_feature_id: _,
                comparison_op: _,
                threshold: _,
                left_child: _,
                right_child: _,
            },
        ) => *node_id == *id,
        Node::Categorical(cat) => cat.node_id == *id,
    }
}

/// The first node of `nodes` carrying the identifier `id`, if any. Node
/// identifiers are unique within a well-formed tree, so at most one matches.
pub open spec fn spec_find(nodes: Seq<NodeV>, id: u32) -> Option<NodeV>
    decreases nodes.len(),
{
    if nodes.len() == 0 {
        None
    } else if nodes[0].id() == id {
        Some(nodes[0])
    } else {
        spec_find(nodes.skip(1), id)
    }
}

/// Looks up the node with identifier `id` in `nodes`.
pub fn find_node<'a>(nodes: &'a Vec<Node>, id: &u32) -> (r: Option<&'a Node>)
    ensures
        match r {
            Some(n) => spec_find(nodes@.map_values(|n: Node| n@), *id) == Some(n@),
            None => spec_find(nodes@.map_values(|n: Node| n@), *id) is None,
        },
{
    let ghost seq = nodes@.map_values(|n: Node| n@);
    proof {
        assert(seq.skip(0) =~= seq);
    }
    let mut i: usize = 0;
    while i < nodes.len()
        invariant
            i <= nodes.len(),
            seq == nodes@.map_values(|n: Node| n@),
            spec_find(seq, *id) == spec_find(seq.skip(i as int), *id),
        decreases nodes.len() - i,
    {
        proof {
            assert(seq.skip(i as int)[0] == seq[i as int]);
        }
        if node_matches(id, &nodes[i]) {
            return Some(&nodes[i]);
        }
        proof {
            assert(seq.skip(i as int).skip(1) =~= seq.skip(i as int + 1));
        }
        i = i + 1;
    }
    proof {
        assert(seq.skip(nodes@.len() as int).len() == 0);
    }
    None
}

/// One decision tree: an id-indexed collection of nodes, and a flag saying
/// whether the emitted routine needs a temporary integer slot for categorical
/// membership tests. The node with identifier `0` is the root.
#[derive(Debug, Clone)]
pub struct Tree {
    pub nodes: Vec<Node>,
    pub has_categorical_split: bool,
}

pub struct TreeV {
    pub nodes: Seq<NodeV>,
    pub has_categorical_split: bool,
}

impl View for Tree {
    type V = TreeV;

    open spec fn view(&self) -> TreeV {
        TreeV {
            nodes: self.nodes@.map_values(|n: Node| n@),
            has_categorical_split: self.has_categorical_split,
        }
    }
}

impl Tree {
    /// The root of the tree: the node carrying identifier `0`, if present.
    pub fn first_node(&self) -> (r: Option<&Node>)
        ensures
            match r {
                Some(n) => spec_find(self@.nodes, 0) == Some(n@),
                None => spec_find(self@.nodes, 0) is None,
            },
    {
        find_node(&self.nodes, &0)
    }
}

/// The validated model: feature count, the ordered trees (order fixes both
/// summation order and per-tree output naming), the averaging flag, and the
/// base score. Constructed once by the decoder and never mutated.
#[derive(Debug, Clone)]
pub struct ModelIR {
    pub num_features: u32,
    pub trees: Vec<Tree>,
    pub average_tree_output: bool,
    pub base_score: Scalar,
}

pub struct ModelIRV {
    pub num_features: u32,
    pub trees: Seq<TreeV>,
    pub average_tree_output: bool,
    pub base_score: ScalarV,
}

impl View for ModelIR {
    type V = ModelIRV;

    open spec fn view(&self) -> ModelIRV {
        ModelIRV {
            num_features: self.num_features,
            trees: self.trees@.map_values(|t: Tree| t@),
            average_tree_output: self.average_tree_output,
            base_score: self.base_score@,
        }
    }
}

} // verus!
