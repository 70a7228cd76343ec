//! Decoder and validator behaviour: variant inference, per-node rejects,
//! the model-level validation gate and its error reports.

use treegen::errors::DecodeError;
use treegen::ir::{Node, Scalar};
use treegen::schema::{decode, ModelJSON, Tree, UnknownNode};

fn scalar(v: f64) -> Scalar {
    Scalar {
        negative: v < 0.0,
        positive: v > 0.0,
        nonzero: v != 0.0,
        text: v.to_string(),
        abs_text: v.abs().to_string(),
    }
}

fn blank_node(node_id: u32) -> UnknownNode {
    UnknownNode {
        node_id,
        leaf_value: None,
        split_feature_id: None,
        comparison_op: None,
        threshold: None,
        left_child: None,
        right_child: None,
        node_type: None,
        has_categorical_split: None,
        category_list: None,
        category_list_right_child: None,
    }
}

fn leaf_node(node_id: u32, v: f64) -> UnknownNode {
    let mut n = blank_node(node_id);
    n.leaf_value = Some(scalar(v));
    n
}

fn numeric_node(node_id: u32, feature: u32, op: &str, threshold: f64, l: u32, r: u32) -> UnknownNode {
    let mut n = blank_node(node_id);
    n.node_type = Some("numerical_test_node".to_string());
    n.split_feature_id = Some(feature);
    n.comparison_op = Some(op.to_string());
    n.threshold = Some(scalar(threshold));
    n.left_child = Some(l);
    n.right_child = Some(r);
    n
}

fn categorical_node(node_id: u32, feature: u32, cats: Vec<u32>, l: u32, r: u32) -> UnknownNode {
    let mut n = blank_node(node_id);
    n.node_type = Some("categorical_test_node".to_string());
    n.split_feature_id = Some(feature);
    n.category_list = Some(cats);
    n.left_child = Some(l);
    n.right_child = Some(r);
    n
}

fn model_of(trees: Vec<Tree>, num_feature: u32, base_score: f64) -> ModelJSON {
    ModelJSON {
        leaf_output_type: "float64".to_string(),
        num_feature,
        task_type: "kRegressor".to_string(),
        average_tree_output: true,
        num_target: 1,
        trees,
        base_scores: vec![scalar(base_score)],
    }
}

fn tree_of(nodes: Vec<UnknownNode>) -> Tree {
    let has_cat = nodes
        .iter()
        .any(|n| n.node_type.as_deref() == Some("categorical_test_node"));
    Tree { nodes, has_categorical_split: has_cat }
}

#[test]
fn decode_single_leaf_model() {
    let json = model_of(vec![tree_of(vec![leaf_node(0, 3.5)])], 2, 0.0);
    let model = decode(&json).unwrap();
    assert_eq!(model.num_features, 2);
    assert!(model.average_tree_output);
    assert_eq!(model.trees.len(), 1);
    assert!(!model.base_score.nonzero);
    match &model.trees[0].nodes[0] {
        Node::Leaf(l) => {
            assert_eq!(l.node_id, 0);
            assert_eq!(l.leaf_value.text, "3.5");
            assert!(!l.leaf_value.negative);
        }
        _ => panic!("expected a leaf"),
    }
}

#[test]
fn decode_numeric_test_node() {
    let json = model_of(
        vec![tree_of(vec![
            numeric_node(0, 0, "<", 5.0, 1, 2),
            leaf_node(1, 1.0),
            leaf_node(2, 2.0),
        ])],
        1,
        0.0,
    );
    let model = decode(&json).unwrap();
    match &model.trees[0].nodes[0] {
        Node::TestNode(t) => {
            assert_eq!(t.split_feature_id, 0);
            assert_eq!(t.comparison_op, "<");
            assert_eq!(t.threshold.text, "5");
            assert_eq!(t.left_child, 1);
            assert_eq!(t.right_child, 2);
        }
        _ => panic!("expected a numeric test node"),
    }
}

#[test]
fn decode_categorical_test_node() {
    let json = model_of(
        vec![tree_of(vec![
            categorical_node(0, 1, vec![1, 3, 5], 1, 2),
            leaf_node(1, 1.0),
            leaf_node(2, 2.0),
        ])],
        2,
        0.0,
    );
    let model = decode(&json).unwrap();
    assert!(model.trees[0].has_categorical_split);
    match &model.trees[0].nodes[0] {
        Node::Categorical(c) => {
            assert_eq!(c.split_feature_id, 1);
            assert_eq!(c.category_list, vec![1, 3, 5]);
            assert_eq!(c.left_child, 1);
            assert_eq!(c.right_child, 2);
        }
        _ => panic!("expected a categorical test node"),
    }
}

#[test]
fn num_target_two_is_rejected_naming_it() {
    let mut json = model_of(vec![tree_of(vec![leaf_node(0, 1.0)])], 1, 0.0);
    json.num_target = 2;
    match decode(&json) {
        Err(DecodeError::NumTarget(n)) => {
            assert_eq!(n, 2);
            assert_eq!(
                DecodeError::NumTarget(n).message(),
                "Unsupported num target: 2"
            );
        }
        other => panic!("expected a num-target error, got {:?}", other),
    }
}

#[test]
fn unsupported_leaf_output_type_is_rejected() {
    let mut json = model_of(vec![tree_of(vec![leaf_node(0, 1.0)])], 1, 0.0);
    json.leaf_output_type = "int8".to_string();
    match decode(&json) {
        Err(DecodeError::LeafOutputType(t)) => {
            assert_eq!(t, "int8");
            assert_eq!(
                DecodeError::LeafOutputType(t).message(),
                "Unsupported leaf output type: int8"
            );
        }
        other => panic!("expected a leaf-output-type error, got {:?}", other),
    }
}

#[test]
fn float32_leaf_output_type_is_accepted() {
    let mut json = model_of(vec![tree_of(vec![leaf_node(0, 1.0)])], 1, 0.0);
    json.leaf_output_type = "float32".to_string();
    assert!(decode(&json).is_ok());
}

#[test]
fn unsupported_task_type_is_rejected() {
    let mut json = model_of(vec![tree_of(vec![leaf_node(0, 1.0)])], 1, 0.0);
    json.task_type = "kBinaryClf".to_string();
    match decode(&json) {
        Err(DecodeError::TaskType(t)) => {
            assert_eq!(t, "kBinaryClf");
            assert_eq!(
                DecodeError::TaskType(t).message(),
                "Unsupported task type: kBinaryClf"
            );
        }
        other => panic!("expected a task-type error, got {:?}", other),
    }
}

#[test]
fn validation_gate_order_names_first_violation() {
    // Both the leaf output type and the task type are unsupported; the
    // leaf output type is validated first, so its error wins.
    let mut json = model_of(vec![tree_of(vec![leaf_node(0, 1.0)])], 1, 0.0);
    json.leaf_output_type = "int8".to_string();
    json.task_type = "kBinaryClf".to_string();
    assert!(matches!(decode(&json), Err(DecodeError::LeafOutputType(_))));
}

#[test]
fn multiple_base_scores_are_rejected() {
    let mut json = model_of(vec![tree_of(vec![leaf_node(0, 1.0)])], 1, 0.0);
    json.base_scores = vec![scalar(0.0), scalar(1.0)];
    match decode(&json) {
        Err(DecodeError::BaseScores(n)) => {
            assert_eq!(n, 2);
            assert_eq!(
                DecodeError::BaseScores(n).message(),
                "Unsupported json.base_scores.len() == 2"
            );
        }
        other => panic!("expected a base-scores error, got {:?}", other),
    }
}

#[test]
fn empty_base_scores_are_rejected() {
    let mut json = model_of(vec![tree_of(vec![leaf_node(0, 1.0)])], 1, 0.0);
    json.base_scores = Vec::new();
    assert!(matches!(decode(&json), Err(DecodeError::BaseScores(0))));
}

#[test]
fn per_node_categorical_flag_is_rejected() {
    let mut bad = leaf_node(0, 1.0);
    bad.has_categorical_split = Some(true);
    let json = model_of(vec![tree_of(vec![bad])], 1, 0.0);
    match decode(&json) {
        Err(DecodeError::CategoricalSplitFlag) => {
            assert_eq!(
                DecodeError::CategoricalSplitFlag.message(),
                "Unsupported categorical split"
            );
        }
        other => panic!("expected a categorical-split error, got {:?}", other),
    }
}

#[test]
fn category_list_left_direction_is_rejected() {
    let mut bad = categorical_node(0, 0, vec![1], 1, 2);
    bad.category_list_right_child = Some(false);
    let json = model_of(
        vec![tree_of(vec![bad, leaf_node(1, 1.0), leaf_node(2, 2.0)])],
        1,
        0.0,
    );
    match decode(&json) {
        Err(DecodeError::CategoryListDirection) => {
            assert_eq!(
                DecodeError::CategoryListDirection.message(),
                "Unsupported category list right child"
            );
        }
        other => panic!("expected a category-direction error, got {:?}", other),
    }
}

#[test]
fn unknown_node_type_is_rejected_naming_it() {
    let mut bad = blank_node(0);
    bad.node_type = Some("fancy_node".to_string());
    let json = model_of(vec![tree_of(vec![bad])], 1, 0.0);
    match decode(&json) {
        Err(DecodeError::NodeType(t)) => {
            assert_eq!(t, "fancy_node");
            assert_eq!(
                DecodeError::NodeType(t).message(),
                "Not supported node type: fancy_node"
            );
        }
        other => panic!("expected a node-type error, got {:?}", other),
    }
}

#[test]
fn missing_leaf_value_is_rejected() {
    let json = model_of(vec![tree_of(vec![blank_node(0)])], 1, 0.0);
    match decode(&json) {
        Err(DecodeError::MissingField(f)) => {
            assert_eq!(f, "leaf_value");
            assert_eq!(
                DecodeError::MissingField(f).message(),
                "Missing field: leaf_value"
            );
        }
        other => panic!("expected a missing-field error, got {:?}", other),
    }
}

#[test]
fn missing_threshold_is_rejected() {
    let mut bad = numeric_node(0, 0, "<", 5.0, 1, 2);
    bad.threshold = None;
    let json = model_of(
        vec![tree_of(vec![bad, leaf_node(1, 1.0), leaf_node(2, 2.0)])],
        1,
        0.0,
    );
    assert!(matches!(
        decode(&json),
        Err(DecodeError::MissingField(f)) if f == "threshold"
    ));
}

#[test]
fn missing_category_list_is_rejected() {
    let mut bad = categorical_node(0, 0, vec![1], 1, 2);
    bad.category_list = None;
    let json = model_of(
        vec![tree_of(vec![bad, leaf_node(1, 1.0), leaf_node(2, 2.0)])],
        1,
        0.0,
    );
    assert!(matches!(
        decode(&json),
        Err(DecodeError::MissingField(f)) if f == "category_list"
    ));
}

#[test]
fn first_faulty_node_wins() {
    // The second tree holds the faulty node; the first decodes cleanly.
    let good = tree_of(vec![leaf_node(0, 1.0)]);
    let mut bad = blank_node(0);
    bad.node_type = Some("alpha".to_string());
    let mut bad2 = blank_node(1);
    bad2.node_type = Some("beta".to_string());
    let json = model_of(vec![good, tree_of(vec![bad, bad2])], 1, 0.0);
    assert!(matches!(
        decode(&json),
        Err(DecodeError::NodeType(t)) if t == "alpha"
    ));
}

#[test]
fn node_id_and_matching() {
    let json = model_of(
        vec![tree_of(vec![
            numeric_node(0, 0, "<", 5.0, 1, 2),
            leaf_node(1, 1.0),
            leaf_node(2, 2.0),
        ])],
        1,
        0.0,
    );
    let model = decode(&json).unwrap();
    let tree = &model.trees[0];
    assert_eq!(tree.nodes[1].id(), 1);
    assert!(treegen::ir::node_matches(&2, &tree.nodes[2]));
    assert!(!treegen::ir::node_matches(&1, &tree.nodes[2]));
    let root = tree.first_node().unwrap();
    assert_eq!(root.id(), 0);
}
