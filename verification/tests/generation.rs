//! Code generation: exact emitted text for both backends, the evaluation
//! behaviour the emitted conditionals encode, determinism, and structural
//! faults.

use treegen::cli::Backend;
use treegen::dispatch::emit;
use treegen::errors::GenError;
use treegen::ir::{ModelIR, Node, Scalar};
use treegen::schema::{decode, ModelJSON, Tree, UnknownNode};
use treegen::text::u64_dec;

fn scalar(v: f64) -> Scalar {
    Scalar {
        negative: v < 0.0,
        positive: v > 0.0,
        nonzero: v != 0.0,
        text: v.to_string(),
        abs_text: v.abs().to_string(),
    }
}

fn blank_node(node_id: u32) -> UnknownNode {
    UnknownNode {
        node_id,
        leaf_value: None,
        split_feature_id: None,
        comparison_op: None,
        threshold: None,
        left_child: None,
        right_child: None,
        node_type: None,
        has_categorical_split: None,
        category_list: None,
        category_list_right_child: None,
    }
}

fn leaf_node(node_id: u32, v: f64) -> UnknownNode {
    let mut n = blank_node(node_id);
    n.leaf_value = Some(scalar(v));
    n
}

fn numeric_node(node_id: u32, feature: u32, op: &str, threshold: f64, l: u32, r: u32) -> UnknownNode {
    let mut n = blank_node(node_id);
    n.node_type = Some("numerical_test_node".to_string());
    n.split_feature_id = Some(feature);
    n.comparison_op = Some(op.to_string());
    n.threshold = Some(scalar(threshold));
    n.left_child = Some(l);
    n.right_child = Some(r);
    n
}

fn categorical_node(node_id: u32, feature: u32, cats: Vec<u32>, l: u32, r: u32) -> UnknownNode {
    let mut n = blank_node(node_id);
    n.node_type = Some("categorical_test_node".to_string());
    n.split_feature_id = Some(feature);
    n.category_list = Some(cats);
    n.left_child = Some(l);
    n.right_child = Some(r);
    n
}

fn tree_of(nodes: Vec<UnknownNode>) -> Tree {
    let has_cat = nodes
        .iter()
        .any(|n| n.node_type.as_deref() == Some("categorical_test_node"));
    Tree { nodes, has_categorical_split: has_cat }
}

fn model_of(trees: Vec<Tree>, num_feature: u32, base_score: f64) -> ModelJSON {
    ModelJSON {
        leaf_output_type: "float64".to_string(),
        num_feature,
        task_type: "kRegressor".to_string(),
        average_tree_output: true,
        num_target: 1,
        trees,
        base_scores: vec![scalar(base_score)],
    }
}

/// Evaluates one tree of the intermediate representation exactly as the
/// emitted conditionals do.
fn eval_tree(tree: &treegen::ir::Tree, features: &[f64]) -> f64 {
    let mut node = tree.first_node().expect("root");
    loop {
        match node {
            Node::Leaf(l) => return l.leaf_value.text.parse().unwrap(),
            Node::TestNode(t) => {
                let x = features[t.split_feature_id as usize];
                let th: f64 = t.threshold.text.parse().unwrap();
                let left = match t.comparison_op.as_str() {
                    "<" => x < th,
                    "<=" => x <= th,
                    ">" => x > th,
                    ">=" => x >= th,
                    "==" => x == th,
                    "!=" => x != th,
                    other => panic!("unexpected operator {}", other),
                };
                let id = if left { t.left_child } else { t.right_child };
                node = tree.nodes.iter().find(|n| n.id() == id).expect("child");
            }
            Node::Categorical(c) => {
                let tmp = features[c.split_feature_id as usize] as i32;
                let member = c.category_list.iter().any(|&cat| tmp == cat as i32);
                let id = if member { c.right_child } else { c.left_child };
                node = tree.nodes.iter().find(|n| n.id() == id).expect("child");
            }
        }
    }
}

/// Evaluates the whole ensemble as the emitted aggregation routine does.
fn eval_model(model: &ModelIR, features: &[f64]) -> f64 {
    let mut result = 0.0;
    for tree in &model.trees {
        result += eval_tree(tree, features);
    }
    if model.average_tree_output {
        result /= model.trees.len() as f64;
    }
    let base: f64 = model.base_score.text.parse().unwrap();
    result + base
}

#[test]
fn single_leaf_evaluates_to_its_value_for_any_features() {
    let json = model_of(vec![tree_of(vec![leaf_node(0, 3.5)])], 4, 0.0);
    let model = decode(&json).unwrap();
    assert_eq!(eval_model(&model, &[0.0, 0.0, 0.0, 0.0]), 3.5);
    assert_eq!(eval_model(&model, &[9.0, -7.5, 2.0, 100.0]), 3.5);
}

#[test]
fn numeric_test_routes_by_threshold() {
    let json = model_of(
        vec![tree_of(vec![
            numeric_node(0, 0, "<", 5.0, 1, 2),
            leaf_node(1, 1.0),
            leaf_node(2, 2.0),
        ])],
        1,
        0.0,
    );
    let model = decode(&json).unwrap();
    assert_eq!(eval_model(&model, &[3.0]), 1.0);
    assert_eq!(eval_model(&model, &[7.0]), 2.0);
}

#[test]
fn averaged_constant_ensemble_evaluates_to_the_constant() {
    for k in [1usize, 2, 5] {
        let trees: Vec<Tree> = (0..k).map(|_| tree_of(vec![leaf_node(0, 2.5)])).collect();
        let json = model_of(trees, 1, 0.0);
        let model = decode(&json).unwrap();
        assert_eq!(eval_model(&model, &[0.0]), 2.5);
    }
    let trees: Vec<Tree> = (0..3).map(|_| tree_of(vec![leaf_node(0, 2.5)])).collect();
    let json = model_of(trees, 1, 1.5);
    let model = decode(&json).unwrap();
    assert_eq!(eval_model(&model, &[0.0]), 4.0);
}

#[test]
fn categorical_membership_selects_right_subtree() {
    let json = model_of(
        vec![tree_of(vec![
            categorical_node(0, 0, vec![1, 3, 5], 1, 2),
            leaf_node(1, 10.0),
            leaf_node(2, 20.0),
        ])],
        1,
        0.0,
    );
    let model = decode(&json).unwrap();
    // 3 is in the list: right subtree; 2 is not: left subtree.
    assert_eq!(eval_model(&model, &[3.0]), 20.0);
    assert_eq!(eval_model(&model, &[2.0]), 10.0);
}

#[test]
fn java_tree_text_is_exact() {
    let json = model_of(
        vec![tree_of(vec![
            numeric_node(0, 0, "<", 5.0, 1, 2),
            leaf_node(1, 1.0),
            leaf_node(2, 2.0),
        ])],
        1,
        0.0,
    );
    let model = decode(&json).unwrap();
    let artifacts = emit(&model, &Backend::JAVA, "com.x").unwrap();
    assert_eq!(artifacts.len(), 2);
    assert_eq!(artifacts[1].name, "com/x/Tree0.java");
    let expected = "package com.x;\n\n\
                    import java.util.List;\n\n\
                    final class Tree0{\n\n\
                    \x20 public static double predict(double[] arr){\n\
                    \x20   double result = 0.0;\n\
                    \x20   if (arr[0] < 5) {\n\
                    \x20     result += 1;\n\
                    \x20   } else {\n\
                    \x20     result += 2;\n\
                    \x20   }\n\
                    \x20   return result;\n  }\n}";
    assert_eq!(artifacts[1].contents, expected);
}

#[test]
fn java_ensemble_text_is_exact() {
    let json = model_of(vec![tree_of(vec![leaf_node(0, 3.5)])], 1, 0.0);
    let model = decode(&json).unwrap();
    let artifacts = emit(&model, &Backend::JAVA, "com.x").unwrap();
    assert_eq!(artifacts[0].name, "com/x/TreeEnsemble.java");
    let expected = "package com.x;\n\n\
                    public final class TreeEnsemble {\n\n\
                    \x20 private TreeEnsemble(){ }\n\
                    \x20 private static final int NUM_FEATURES = 1;\n\n\
                    \x20 public static double predict(double[] arr){\n\
                    \x20    assert arr.length == NUM_FEATURES;\n\
                    \x20    double result = 0.0;\n\
                    \x20    result += Tree0.predict(arr);\n\
                    \x20    result /= 1.0;\n\
                    \x20    return result;\n  }\n\n}";
    assert_eq!(artifacts[0].contents, expected);
}

#[test]
fn java_categorical_tree_text_has_tmp_slot_and_membership_guard() {
    let json = model_of(
        vec![tree_of(vec![
            categorical_node(0, 1, vec![1, 3, 5], 1, 2),
            leaf_node(1, 1.0),
            leaf_node(2, 2.0),
        ])],
        2,
        0.0,
    );
    let model = decode(&json).unwrap();
    let artifacts = emit(&model, &Backend::JAVA, "p").unwrap();
    let tree = &artifacts[1].contents;
    assert!(tree.contains("  public static double predict(double[] arr){\n    int tmp;\n"));
    assert!(tree.contains("    tmp = (int)arr[1];\n"));
    assert!(tree.contains("    if (!List.of(1,3,5).contains(tmp)) {\n      result += 1;\n"));
    assert!(tree.contains("    } else {\n      result += 2;\n    }\n"));
}

#[test]
fn java_negative_leaf_and_base_are_sign_split() {
    let json = model_of(vec![tree_of(vec![leaf_node(0, -0.5)])], 1, -1.5);
    let model = decode(&json).unwrap();
    let artifacts = emit(&model, &Backend::JAVA, "p").unwrap();
    assert!(artifacts[1].contents.contains("    result -= 0.5;\n"));
    assert!(artifacts[0].contents.contains("     result -= 1.5;\n"));
}

#[test]
fn java_positive_base_is_added() {
    let json = model_of(vec![tree_of(vec![leaf_node(0, 1.0)])], 1, 1.5);
    let model = decode(&json).unwrap();
    let artifacts = emit(&model, &Backend::JAVA, "p").unwrap();
    assert!(artifacts[0].contents.contains("     result += 1.5;\n"));
}

#[test]
fn no_average_no_divide() {
    let mut json = model_of(vec![tree_of(vec![leaf_node(0, 1.0)])], 1, 0.0);
    json.average_tree_output = false;
    let model = decode(&json).unwrap();
    let artifacts = emit(&model, &Backend::JAVA, "p").unwrap();
    assert!(!artifacts[0].contents.contains("result /= "));
    let artifacts = emit(&model, &Backend::C, "").unwrap();
    assert!(!artifacts[1].contents.contains("result /= "));
}

#[test]
fn empty_package_keeps_artifact_names_flat() {
    let json = model_of(vec![tree_of(vec![leaf_node(0, 1.0)])], 1, 0.0);
    let model = decode(&json).unwrap();
    let artifacts = emit(&model, &Backend::JAVA, "").unwrap();
    assert_eq!(artifacts[0].name, "TreeEnsemble.java");
    assert_eq!(artifacts[1].name, "Tree0.java");
}

#[test]
fn package_maps_to_directory_path() {
    assert_eq!(
        treegen::backend_java::java_dir_of("com.example.model"),
        "com/example/model"
    );
    assert_eq!(treegen::backend_java::java_dir_of(""), "");
    assert_eq!(treegen::backend_java::java_dir_of("plain"), "plain");
}

#[test]
fn c_artifacts_are_exact() {
    let json = model_of(
        vec![tree_of(vec![
            numeric_node(0, 0, "<", 5.0, 1, 2),
            leaf_node(1, 1.0),
            leaf_node(2, 2.0),
        ])],
        1,
        0.0,
    );
    let model = decode(&json).unwrap();
    let artifacts = emit(&model, &Backend::C, "").unwrap();
    assert_eq!(artifacts.len(), 3);
    assert_eq!(artifacts[0].name, "header.h");
    assert_eq!(
        artifacts[0].contents,
        "#define EXPORT __attribute__((visibility(\"default\")))\n\n\
         EXPORT int get_num_features(void);\n\
         EXPORT double predict(double* data);\n\n\
         void predict_unit0(double* data, double* result);\n"
    );
    assert_eq!(artifacts[1].name, "main.c");
    assert_eq!(
        artifacts[1].contents,
        "#include \"header.h\"\n\n\
         EXPORT int get_num_features(void){\n  return 1;\n}\n\
         EXPORT double predict(double* data){\n  double result = 0;\n\
         \x20 predict_unit0(data, &result);\n\
         \x20 result /= 1.0;\n\
         \x20 return result;\n}"
    );
    assert_eq!(artifacts[2].name, "tu0.c");
    assert_eq!(
        artifacts[2].contents,
        "#include \"header.h\"\n\n\
         void predict_unit0(double* data, double* result){\n\
         \x20 if(data[0] < (double)5){\n\
         \x20   result[0] += 1;\n\
         \x20 } else {\n\
         \x20   result[0] += 2;\n\
         \x20 }\n\n}"
    );
}

#[test]
fn c_categorical_tree_uses_membership_disjunction() {
    let json = model_of(
        vec![tree_of(vec![
            categorical_node(0, 0, vec![1, 3, 5], 1, 2),
            leaf_node(1, 1.0),
            leaf_node(2, 2.0),
        ])],
        1,
        0.0,
    );
    let model = decode(&json).unwrap();
    let artifacts = emit(&model, &Backend::C, "").unwrap();
    let tree = &artifacts[2].contents;
    assert!(tree.contains("(double* data, double* result){\n  int tmp;\n"));
    assert!(tree.contains("  tmp = (int)data[0];\n"));
    assert!(tree.contains("  if(!(tmp == 1 || tmp == 3 || tmp == 5)){\n    result[0] += 1;\n"));
}

#[test]
fn c_negative_leaf_is_added_signed() {
    let json = model_of(vec![tree_of(vec![leaf_node(0, -0.5)])], 1, 0.0);
    let model = decode(&json).unwrap();
    let artifacts = emit(&model, &Backend::C, "").unwrap();
    assert!(artifacts[2].contents.contains("  result[0] += -0.5;\n"));
}

#[test]
fn generation_is_deterministic_byte_for_byte() {
    let json = model_of(
        vec![
            tree_of(vec![
                numeric_node(0, 0, "<=", 1.25, 1, 2),
                leaf_node(1, -3.5),
                leaf_node(2, 0.125),
            ]),
            tree_of(vec![
                categorical_node(0, 1, vec![2, 4], 1, 2),
                leaf_node(1, 7.0),
                leaf_node(2, 8.0),
            ]),
        ],
        2,
        0.25,
    );
    let model = decode(&json).unwrap();
    for backend in [Backend::JAVA, Backend::C] {
        let a = emit(&model, &backend, "com.x").unwrap();
        let b = emit(&model, &backend, "com.x").unwrap();
        assert_eq!(a.len(), b.len());
        for (x, y) in a.iter().zip(b.iter()) {
            assert_eq!(x.name, y.name);
            assert_eq!(x.contents.as_bytes(), y.contents.as_bytes());
        }
    }
}

#[test]
fn missing_left_child_aborts_the_run_naming_it() {
    let json = model_of(
        vec![tree_of(vec![
            numeric_node(0, 0, "<", 5.0, 99, 2),
            leaf_node(2, 2.0),
        ])],
        1,
        0.0,
    );
    let model = decode(&json).unwrap();
    for backend in [Backend::JAVA, Backend::C] {
        match emit(&model, &backend, "p") {
            Err(GenError::MissingNode { tree_index, node_id }) => {
                assert_eq!(tree_index, 0);
                assert_eq!(node_id, 99);
                assert_eq!(
                    GenError::MissingNode { tree_index, node_id }.message(),
                    "Missing node 99 in tree 0"
                );
            }
            other => panic!("expected a missing-node error, got {:?}", other),
        }
    }
}

#[test]
fn fault_in_a_later_tree_still_aborts() {
    let json = model_of(
        vec![
            tree_of(vec![leaf_node(0, 1.0)]),
            tree_of(vec![numeric_node(0, 0, "<", 5.0, 1, 7), leaf_node(1, 1.0)]),
        ],
        1,
        0.0,
    );
    let model = decode(&json).unwrap();
    match emit(&model, &Backend::JAVA, "p") {
        Err(GenError::MissingNode { tree_index, node_id }) => {
            assert_eq!(tree_index, 1);
            assert_eq!(node_id, 7);
        }
        other => panic!("expected a missing-node error, got {:?}", other),
    }
}

#[test]
fn missing_root_aborts() {
    let json = model_of(vec![tree_of(vec![leaf_node(5, 1.0)])], 1, 0.0);
    let model = decode(&json).unwrap();
    assert!(matches!(
        emit(&model, &Backend::C, ""),
        Err(GenError::MissingNode { tree_index: 0, node_id: 0 })
    ));
}

#[test]
fn reference_cycle_hits_the_depth_limit() {
    let json = model_of(
        vec![tree_of(vec![numeric_node(0, 0, "<", 5.0, 0, 0)])],
        1,
        0.0,
    );
    let model = decode(&json).unwrap();
    match emit(&model, &Backend::JAVA, "p") {
        Err(GenError::DepthLimit { tree_index, node_id }) => {
            assert_eq!(tree_index, 0);
            assert_eq!(node_id, 0);
            assert_eq!(
                GenError::DepthLimit { tree_index, node_id }.message(),
                "Depth limit exceeded at node 0 in tree 0"
            );
        }
        other => panic!("expected a depth-limit error, got {:?}", other),
    }
}

#[test]
fn model_without_trees_yields_only_aggregate_artifacts() {
    let json = model_of(Vec::new(), 1, 0.0);
    let model = decode(&json).unwrap();
    let java = emit(&model, &Backend::JAVA, "p").unwrap();
    assert_eq!(java.len(), 1);
    assert!(java[0].contents.contains("     double result = 0.0;\n     result /= 0.0;\n"));
    let c = emit(&model, &Backend::C, "").unwrap();
    assert_eq!(c.len(), 2);
    assert!(!c[0].contents.contains("predict_unit"));
}

#[test]
fn empty_and_singleton_category_lists() {
    let json = model_of(
        vec![
            tree_of(vec![
                categorical_node(0, 0, Vec::new(), 1, 2),
                leaf_node(1, 1.0),
                leaf_node(2, 2.0),
            ]),
            tree_of(vec![
                categorical_node(0, 0, vec![7], 1, 2),
                leaf_node(1, 1.0),
                leaf_node(2, 2.0),
            ]),
        ],
        1,
        0.0,
    );
    let model = decode(&json).unwrap();
    let java = emit(&model, &Backend::JAVA, "p").unwrap();
    assert!(java[1].contents.contains("if (!List.of().contains(tmp)) {\n"));
    assert!(java[2].contents.contains("if (!List.of(7).contains(tmp)) {\n"));
    let c = emit(&model, &Backend::C, "").unwrap();
    assert!(c[2].contents.contains("if(!(0)){\n"));
    assert!(c[3].contents.contains("if(!(tmp == 7)){\n"));
    // No member in an empty list: control always goes left.
    assert_eq!(eval_tree(&model.trees[0], &[5.0]), 1.0);
}

#[test]
fn backend_selector_drives_dispatch() {
    let cli = treegen::cli::CLI {
        backend: Backend::C,
        source: "model.json".to_string(),
        destination: "out".to_string(),
    };
    assert_eq!(cli.backend, Backend::C);
    assert_ne!(cli.backend, Backend::JAVA);
    let json = model_of(vec![tree_of(vec![leaf_node(0, 1.0)])], 1, 0.0);
    let model = decode(&json).unwrap();
    let artifacts = emit(&model, &cli.backend, "").unwrap();
    assert_eq!(artifacts[0].name, "header.h");
}

#[test]
fn decimal_rendering_is_exact() {
    assert_eq!(u64_dec(0), "0");
    assert_eq!(u64_dec(7), "7");
    assert_eq!(u64_dec(10), "10");
    assert_eq!(u64_dec(4294967295), "4294967295");
    assert_eq!(u64_dec(12345678901), "12345678901");
}
