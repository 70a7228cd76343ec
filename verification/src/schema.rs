//! The permissive model schema and the decoder/validator that turns it into
//! the typed intermediate representation, failing fast on the first
//! unsupported configuration.

use vstd::prelude::*;
use crate::errors::{DecodeError, DecodeErrorV};
use crate::ir::{
    CategoricalTestNode, CategoricalTestNodeV, Leaf, LeafV, ModelIR, ModelIRV, Node, NodeV, Scalar,
    ScalarV, TestNode, TestNodeV, TreeV,
};

verus! {

/// A raw node record: all variant fields optional, the true variant inferred
/// from `node_type`.
#[derive(Debug, Clone)]
pub struct UnknownNode {
    pub node_id: u32,
    pub leaf_value: Option<Scalar>,
    pub split_feature_id: Option<u32>,
    pub comparison_op: Option<String>,
    pub threshold: Option<Scalar>,
    pub left_child: Option<u32>,
    pub right_child: Option<u32>,
    pub node_type: Option<String>,
    pub has_categorical_split: Option<bool>,
    pub category_list: Option<Vec<u32>>,
    pub category_list_right_child: Option<bool>,
}

#[verifier::ext_equal]
pub struct UnknownNodeV {
    pub node_id: u32,
    pub leaf_value: Option<ScalarV>,
    pub split_feature_id: Option<u32>,
    pub comparison_op: Option<Seq<char>>,
    pub threshold: Option<ScalarV>,
    pub left_child: Option<u32>,
    pub right_child: Option<u32>,
    pub node_type: Option<Seq<char>>,
    pub has_categorical_split: Option<bool>,
    pub category_list: Option<Seq<u32>>,
    pub category_list_right_child: Option<bool>,
}

/// The view of an optional viewable value.
pub open spec fn opt_view<T: View>(o: Option<T>) -> Option<T::V> {
    match o {
        Some(x) => Some(x@),
        None => None,
    }
}

impl View for UnknownNode {
    type V = UnknownNodeV;

    open spec fn view(&self) -> UnknownNodeV {
        UnknownNodeV {
            node_id: self.node_id,
            leaf_value: opt_view(self.leaf_value),
            split_feature_id: self.split_feature_id,
            comparison_op: opt_view(self.comparison_op),
            threshold: opt_view(self.threshold),
            left_child: self.left_child,
            right_child: self.right_child,
            node_type: opt_view(self.node_type),
            has_categorical_split: self.has_categorical_split,
            category_list: opt_view(self.category_list),
            category_list_right_child: self.category_list_right_child,
        }
    }
}

/// A raw tree: its node records and the flag saying whether the emitted
/// routine needs a temporary integer slot.
#[derive(Debug, Clone)]
pub struct Tree {
    pub nodes: Vec<UnknownNode>,
    pub has_categorical_split: bool,
}

#[verifier::ext_equal]
pub struct RawTreeV {
    pub nodes: Seq<UnknownNodeV>,
    pub has_categorical_split: bool,
}

impl View for Tree {
    type V = RawTreeV;

    open spec fn view(&self) -> RawTreeV {
        RawTreeV {
            nodes: self.nodes@.map_values(|n: UnknownNode| n@),
            has_categorical_split: self.has_categorical_split,
        }
    }
}

/// The raw model file contents, decoded field for field.
#[derive(Debug, Clone)]
pub struct ModelJSON {
    pub leaf_output_type: String,
    pub num_feature: u32,
    pub task_type: String,
    pub average_tree_output: bool,
    pub num_target: u32,
    pub trees: Vec<Tree>,
    pub base_scores: Vec<Scalar>,
}

#[verifier::ext_equal]
pub struct ModelJSONV {
    pub leaf_output_type: Seq<char>,
    pub num_feature: u32,
    pub task_type: Seq<char>,
    pub average_tree_output: bool,
    pub num_target: u32,
    pub trees: Seq<RawTreeV>,
    pub base_scores: Seq<ScalarV>,
}

impl View for ModelJSON {
    type V = ModelJSONV;

    open spec fn view(&self) -> ModelJSONV {
        ModelJSONV {
            leaf_output_type: self.leaf_output_type@,
            num_feature: self.num_feature,
            task_type: self.task_type@,
            average_tree_output: self.average_tree_output,
            num_target: self.num_target,
            trees: self.trees@.map_values(|t: Tree| t@),
            base_scores: self.base_scores@.map_values(|s: Scalar| s@),
        }
    }
}

/// What decoding one raw node yields: the per-node rejects first, then the
/// variant inferred from `node_type`, each with its required fields checked
/// in order.
pub open spec fn spec_node_try_from(u: UnknownNodeV) -> Result<NodeV, DecodeErrorV> {
    if u.has_categorical_split == Some(true) {
        Err(DecodeErrorV::CategoricalSplitFlag)
    } else if u.category_list_right_child == Some(false) {
        Err(DecodeErrorV::CategoryListDirection)
    } else {
        match u.node_type {
            Some(t) => if t == "numerical_test_node"@ {
                if u.split_feature_id is None {
                    Err(DecodeErrorV::MissingField("split_feature_id"@))
                } else if u.comparison_op is None {
                    Err(DecodeErrorV::MissingField("comparison_op"@))
                } else if u.threshold is None {
                    Err(DecodeErrorV::MissingField("threshold"@))
                } else if u.left_child is None {
                    Err(DecodeErrorV::MissingField("left_child"@))
                } else if u.right_child is None {
                    Err(DecodeErrorV::MissingField("right_child"@))
                } else {
                    Ok(
                        NodeV::TestNode(
                            TestNodeV {
                                node_id: u.node_id,
                                split_feature_id: u.split_feature_id->Some_0,
                                comparison_op: u.comparison_op->Some_0,
                                threshold: u.threshold->Some_0,
                                left_child: u.left_child->Some_0,
                                right_child: u.right_child->Some_0,
                            },
                        ),
                    )
                }
            } else if t == "categorical_test_node"@ {
                if u.left_child is None {
                    Err(DecodeErrorV::MissingField("left_child"@))
                } else if u.right_child is None {
                    Err(DecodeErrorV::MissingField("right_child"@))
                } else if u.split_feature_id is None {
                    Err(DecodeErrorV::MissingField("split_feature_id"@))
                } else if u.category_list is None {
                    Err(DecodeErrorV::MissingField("category_list"@))
                } else {
                    Ok(
                        NodeV::Categorical(
                            CategoricalTestNodeV {
                                node_id: u.node_id,
                                left_child: u.left_child->Some_0,
                                right_child: u.right_child->Some_0,
                                split_feature_id: u.split_feature_id->Some_0,
                                category_list: u.category_list->Some_0,
                            },
                        ),
                    )
                }
            } else {
                Err(DecodeErrorV::NodeType(t))
            },
            None => if u.leaf_value is None {
                Err(DecodeErrorV::MissingField("leaf_value"@))
            } else {
                Ok(NodeV::Leaf(LeafV { node_id: u.node_id, leaf_value: u.leaf_value->Some_0 }))
            },
        }
    }
}

/// Decoding a sequence of raw nodes: the nodes in order, or the first fault.
pub open spec fn spec_nodes_try_from(s: Seq<UnknownNodeV>) -> Result<Seq<NodeV>, DecodeErrorV>
    decreases s.len(),
{
    if s.len() == 0 {
        Ok(Seq::empty())
    } else {
        match spec_node_try_from(s[0]) {
            Err(e) => Err(e),
            Ok(n) => match spec_nodes_try_from(s.skip(1)) {
                Err(e) => Err(e),
                Ok(rest) => Ok(seq![n] + rest),
            },
        }
    }
}

/// Decoding a raw tree: its nodes decoded in order, the flag carried over.
pub open spec fn spec_tree_try_from(t: RawTreeV) -> Result<TreeV, DecodeErrorV> {
    match spec_nodes_try_from(t.nodes) {
        Err(e) => Err(e),
        Ok(nodes) => Ok(TreeV { nodes, has_categorical_split: t.has_categorical_split }),
    }
}

/// Decoding a sequence of raw trees: the trees in order, or the first fault.
pub open spec fn spec_trees_try_from(s: Seq<RawTreeV>) -> Result<Seq<TreeV>, DecodeErrorV>
    decreases s.len(),
{
    if s.len() == 0 {
        Ok(Seq::empty())
    } else {
        match spec_tree_try_from(s[0]) {
            Err(e) => Err(e),
            Ok(t) => match spec_trees_try_from(s.skip(1)) {
                Err(e) => Err(e),
                Ok(rest) => Ok(seq![t] + rest),
            },
        }
    }
}

/// What decoding a raw model yields: the validation gate in order
/// (`leaf_output_type`, `num_target`, `task_type`), then the trees, then the
/// `base_scores` length check; a fully validated model only when every check
/// holds.
pub open spec fn spec_decode(m: ModelJSONV) -> Result<ModelIRV, DecodeErrorV> {
    if m.leaf_output_type != "float64"@ && m.leaf_output_type != "float32"@ {
        Err(DecodeErrorV::LeafOutputType(m.leaf_output_type))
    } else if m.num_target != 1 {
        Err(DecodeErrorV::NumTarget(m.num_target))
    } else if m.task_type != "kRegressor"@ {
        Err(DecodeErrorV::TaskType(m.task_type))
    } else {
        match spec_trees_try_from(m.trees) {
            Err(e) => Err(e),
            Ok(trees) => if m.base_scores.len() != 1 {
                Err(DecodeErrorV::BaseScores(m.base_scores.len() as usize))
            } else {
                Ok(
                    ModelIRV {
                        num_features: m.num_feature,
                        trees,
                        average_tree_output: m.average_tree_output,
                        base_score: m.base_scores[0],
                    },
                )
            },
        }
    }
}

/// The view of a node-decoding result.
pub open spec fn node_result_view(r: Result<Node, DecodeError>) -> Result<NodeV, DecodeErrorV> {
    match r {
        Ok(n) => Ok(n@),
        Err(e) => Err(e@),
    }
}

/// The view of a tree-decoding result.
pub open spec fn tree_result_view(
    r: Result<crate::ir::Tree, DecodeError>,
) -> Result<TreeV, DecodeErrorV> {
    match r {
        Ok(t) => Ok(t@),
        Err(e) => Err(e@),
    }
}

/// The view of a model-decoding result.
pub open spec fn model_result_view(
    r: Result<ModelIR, DecodeError>,
) -> Result<ModelIRV, DecodeErrorV> {
    match r {
        Ok(m) => Ok(m@),
        Err(e) => Err(e@),
    }
}

/// Copies a scalar field for field.
fn copy_scalar(s: &Scalar) -> (r: Scalar)
    ensures
        r@ == s@,
{
    Scalar {
        negative: s.negative,
        positive: s.positive,
        nonzero: s.nonzero,
        text: s.text.clone(),
        abs_text: s.abs_text.clone(),
    }
}

/// Copies a category list element for element.
fn copy_u32s(v: &Vec<u32>) -> (r: Vec<u32>)
    ensures
        r@ == v@,
{
    let mut r: Vec<u32> = Vec::new();
    let mut i: usize = 0;
    while i < v.len()
        invariant
            i <= v.len(),
            r@ == v@.take(i as int),
        decreases v.len() - i,
    {
        r.push(v[i]);
        proof {
            assert(v@.take(i as int).push(v@[i as int]) =~= v@.take(i as int + 1));
        }
        i = i + 1;
    }
    proof {
        assert(v@.take(v@.len() as int) =~= v@);
    }
    r
}

impl Node {
    /// Decodes one raw node record into its inferred variant, rejecting the
    /// unsupported per-node configurations and any absent required field.
    pub fn try_from(value: &UnknownNode) -> (r: Result<Node, DecodeError>)
        ensures
            node_result_view(r) == spec_node_try_from(value@),
    {
        if let Some(true) = value.has_categorical_split {
            return Err(DecodeError::CategoricalSplitFlag);
        }
        if let Some(false) = value.category_list_right_child {
            return Err(DecodeError::CategoryListDirection);
        }
        match &value.node_type {
            Some(node_type) => {
                let numerical = "numerical_test_node".to_owned();
                let categorical = "categorical_test_node".to_owned();
                if *node_type == numerical {
                    let split_feature_id = match &value.split_feature_id {
                        Some(x) => *x,
                        None => {
                            return Err(DecodeError::MissingField("split_feature_id".to_owned()));
                        },
                    };
                    let comparison_op = match &value.comparison_op {
                        Some(x) => x.clone(),
                        None => {
                            return Err(DecodeError::MissingField("comparison_op".to_owned()));
                        },
                    };
                    let threshold = match &value.threshold {
                        Some(x) => copy_scalar(x),
                        None => { return Err(DecodeError::MissingField("threshold".to_owned())) },
                    };
                    let left_child = match &value.left_child {
                        Some(x) => *x,
                        None => { return Err(DecodeError::MissingField("left_child".to_owned())) },
                    };
                    let right_child = match &value.right_child {
                        Some(x) => *x,
                        None => { return Err(DecodeError::MissingField("right_child".to_owned())) },
                    };
                    Ok(
                        Node::TestNode(
                            TestNode {
                                node_id: value.node_id,
                                split_feature_id,
                                comparison_op,
                                threshold,
                                left_child,
                                right_child,
                            },
                        ),
                    )
                } else if *node_type == categorical {
                    let left_child = match &value.left_child {
                        Some(x) => *x,
                        None => { return Err(DecodeError::MissingField("left_child".to_owned())) },
                    };
                    let right_child = match &value.right_child {
                        Some(x) => *x,
                        None => { return Err(DecodeError::MissingField("right_child".to_owned())) },
                    };
                    let split_feature_id = match &value.split_feature_id {
                        Some(x) => *x,
                        None => {
                            return Err(DecodeError::MissingField("split_feature_id".to_owned()));
                        },
                    };
                    let category_list = match &value.category_list {
                        Some(x) => copy_u32s(x),
                        None => {
                            return Err(DecodeError::MissingField("category_list".to_owned()));
                        },
                    };
                    Ok(
                        Node::Categorical(
                            CategoricalTestNode {
                                node_id: value.node_id,
                                left_child,
                                right_child,
                                split_feature_id,
                                category_list,
                            },
                        ),
                    )
                } else {
                    Err(DecodeError::NodeType(node_type.clone()))
                }
            },
            None => match &value.leaf_value {
                Some(lv) => Ok(
                    Node::Leaf(Leaf { node_id: value.node_id, leaf_value: copy_scalar(lv) }),
                ),
                None => Err(DecodeError::MissingField("leaf_value".to_owned())),
            },
        }
    }
}

impl crate::ir::Tree {
    /// Decodes one raw tree, failing on the first faulty node.
    pub fn try_from(value: &Tree) -> (r: Result<crate::ir::Tree, DecodeError>)
        ensures
            tree_result_view(r) == spec_tree_try_from(value@),
    {
        let ghost raw: Seq<UnknownNodeV> = value@.nodes;
        let mut nodes: Vec<Node> = Vec::new();
        proof {
            assert(raw.skip(0) =~= raw);
        }
        let mut i: usize = 0;
        while i < value.nodes.len()
            invariant
                i <= value.nodes.len(),
                raw == value@.nodes,
                raw.len() == value.nodes.len(),
                spec_nodes_try_from(raw) == match spec_nodes_try_from(raw.skip(i as int)) {
                    Ok(rest) => Ok::<Seq<NodeV>, DecodeErrorV>(
                        nodes@.map_values(|n: Node| n@) + rest,
                    ),
                    Err(e) => Err(e),
                },
            decreases value.nodes.len() - i,
        {
            proof {
                assert(raw.skip(i as int)[0] == raw[i as int]);
                assert(raw[i as int] == value.nodes@.map_values(|n: UnknownNode| n@)[i as int]);
            }
            let node = match Node::try_from(&value.nodes[i]) {
                Ok(n) => n,
                Err(e) => {
                    return Err(e);
                },
            };
            proof {
                let ghost old_views = nodes@.map_values(|n: Node| n@);
                assert(raw.skip(i as int).skip(1) =~= raw.skip(i as int + 1));
                match spec_nodes_try_from(raw.skip(i as int + 1)) {
                    Ok(rest) => {
                        assert(old_views + (seq![node@] + rest) =~= (old_views.push(node@)) + rest);
                    },
                    Err(_) => {},
                }
            }
            let ghost old_views = nodes@.map_values(|n: Node| n@);
            nodes.push(node);
            proof {
                assert(nodes@.map_values(|n: Node| n@) =~= old_views.push(node@));
            }
            i = i + 1;
        }
        proof {
            assert(raw.skip(raw.len() as int).len() == 0);
            assert(nodes@.map_values(|n: Node| n@) + Seq::<NodeV>::empty() =~= nodes@.map_values(
                |n: Node| n@,
            ));
        }
        Ok(crate::ir::Tree { nodes, has_categorical_split: value.has_categorical_split })
    }
}

/// Decodes and validates a raw model into the intermediate representation.
/// Succeeds exactly when the validation gate holds and every node of every
/// tree decodes; otherwise reports the first fault, naming the unsupported
/// value. No partial model is ever returned.
pub fn decode(json: &ModelJSON) -> (r: Result<ModelIR, DecodeError>)
    ensures
        model_result_view(r) == spec_decode(json@),
{
    let float64 = "float64".to_owned();
    let float32 = "float32".to_owned();
    if !(json.leaf_output_type == float64 || json.leaf_output_type == float32) {
        return Err(DecodeError::LeafOutputType(json.leaf_output_type.clone()));
    }
    if json.num_target != 1 {
        return Err(DecodeError::NumTarget(json.num_target));
    }
    let regressor = "kRegressor".to_owned();
    if json.task_type != regressor {
        return Err(DecodeError::TaskType(json.task_type.clone()));
    }
    let ghost raw: Seq<RawTreeV> = json@.trees;
    let mut trees: Vec<crate::ir::Tree> = Vec::new();
    proof {
        assert(raw.skip(0) =~= raw);
    }
    let mut i: usize = 0;
    while i < json.trees.len()
        invariant
            i <= json.trees.len(),
            raw == json@.trees,
            raw.len() == json.trees.len(),
            json@.leaf_output_type == "float64"@ || json@.leaf_output_type == "float32"@,
            json@.num_target == 1,
            json@.task_type == "kRegressor"@,
            spec_trees_try_from(raw) == match spec_trees_try_from(raw.skip(i as int)) {
                Ok(rest) => Ok::<Seq<TreeV>, DecodeErrorV>(
                    trees@.map_values(|t: crate::ir::Tree| t@) + rest,
                ),
                Err(e) => Err(e),
            },
        decreases json.trees.len() - i,
    {
        proof {
            assert(raw.skip(i as int)[0] == raw[i as int]);
            assert(raw[i as int] == json.trees@.map_values(|t: Tree| t@)[i as int]);
        }
        let tree = match crate::ir::Tree::try_from(&json.trees[i]) {
            Ok(t) => t,
            Err(e) => {
                return Err(e);
            },
        };
        proof {
            let ghost old_views = trees@.map_values(|t: crate::ir::Tree| t@);
            assert(raw.skip(i as int).skip(1) =~= raw.skip(i as int + 1));
            match spec_trees_try_from(raw.skip(i as int + 1)) {
                Ok(rest) => {
                    assert(old_views + (seq![tree@] + rest) =~= (old_views.push(tree@)) + rest);
                },
                Err(_) => {},
            }
        }
        let ghost old_views = trees@.map_values(|t: crate::ir::Tree| t@);
        trees.push(tree);
        proof {
            assert(trees@.map_values(|t: crate::ir::Tree| t@) =~= old_views.push(tree@));
        }
        i = i + 1;
    }
    proof {
        assert(raw.skip(raw.len() as int).len() == 0);
        assert(trees@.map_values(|t: crate::ir::Tree| t@) + Seq::<TreeV>::empty()
            =~= trees@.map_values(|t: crate::ir::Tree| t@));
    }
    if json.base_scores.len() != 1 {
        return Err(DecodeError::BaseScores(json.base_scores.len()));
    }
    let base_score = copy_scalar(&json.base_scores[0]);
    proof {
        assert(json@.base_scores[0] == json.base_scores@.map_values(|s: Scalar| s@)[0]);
    }
    Ok(
        ModelIR {
            num_features: json.num_feature,
            trees,
            average_tree_output: json.average_tree_output,
            base_score,
        },
    )
}

} // verus!
