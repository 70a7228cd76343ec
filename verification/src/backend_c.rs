//! The C backend: one translation unit per tree exposing a
//! `predict_unit<i>` routine, a `main.c` aggregation unit, and a flat
//! `header.h` declarations unit listing every exported entry point. All
//! artifact paths are flat: this backend has no package layout.

use vstd::prelude::*;
use vstd::string::StringExecFns;
use crate::artifact::{Artifact, ArtifactV};
use crate::errors::GenError;
use crate::ir::{
    CategoricalTestNode, CategoricalTestNodeV, Leaf, ModelIR, ModelIRV, Node, NodeV, ScalarV,
    TestNode, TestNodeV, Tree, TreeV, LeafV, spec_find,
};
use crate::ir::find_node;
use crate::text::{dec_str, indent, lemma_concat_assoc, make_indent, u64_dec};

verus! {

/// The accumulation statement for a leaf: the signed leaf value added into
/// the result slot.
pub open spec fn spec_leaf_c(l: LeafV, ind: Seq<char>) -> Seq<char> {
    ind + "result[0] += "@ + l.leaf_value.text + ";\n"@
}

/// The category membership disjunction over the temporary slot, preserving
/// input order; an empty list has no member, so its test is the false
/// literal.
pub open spec fn spec_cats_c(cats: Seq<u32>) -> Seq<char>
    decreases cats.len(),
{
    if cats.len() == 0 {
        "0"@
    } else if cats.len() == 1 {
        "tmp == "@ + dec_str(cats[0] as nat)
    } else {
        "tmp == "@ + dec_str(cats[0] as nat) + " || "@ + spec_cats_c(cats.skip(1))
    }
}

/// The opening of a numeric test: the comparison of the split feature
/// against the threshold, the stored operator carried verbatim.
pub open spec fn spec_test_head_c(t: TestNodeV, ind: Seq<char>) -> Seq<char> {
    ind + "if(data["@ + dec_str(t.split_feature_id as nat) + "] "@ + t.comparison_op
        + " (double)"@ + t.threshold.text + "){\n"@
}

/// The opening of a categorical test: the feature value is narrowed to an
/// integer slot, and membership in the category list routes to the right
/// subtree, so the guard of the left subtree is the negated membership test.
pub open spec fn spec_cat_head_c(c: CategoricalTestNodeV, ind: Seq<char>) -> Seq<char> {
    ind + "tmp = (int)data["@ + dec_str(c.split_feature_id as nat) + "];\n"@ + ind + "if(!("@
        + spec_cats_c(c.category_list) + ")){\n"@
}

/// The code emitted for one node of a tree, walking children recursively.
/// `fuel` bounds the walk: it starts at the tree's node count, which no
/// root-to-leaf path of a cycle-free tree can exceed.
pub open spec fn spec_node_c(
    nodes: Seq<NodeV>,
    node: NodeV,
    ind: Seq<char>,
    fuel: nat,
    tree_index: usize,
) -> Result<Seq<char>, GenError>
    decreases fuel,
{
    match node {
        NodeV::Leaf(l) => Ok(spec_leaf_c(l, ind)),
        NodeV::TestNode(t) => {
            if fuel == 0 {
                Err(GenError::DepthLimit { tree_index, node_id: t.node_id })
            } else {
                match spec_find(nodes, t.left_child) {
                    None => Err(GenError::MissingNode { tree_index, node_id: t.left_child }),
                    Some(lnode) => match spec_node_c(
                        nodes,
                        lnode,
                        ind + "  "@,
                        (fuel - 1) as nat,
                        tree_index,
                    ) {
                        Err(e) => Err(e),
                        Ok(ltext) => match spec_find(nodes, t.right_child) {
                            None => Err(
                                GenError::MissingNode { tree_index, node_id: t.right_child },
                            ),
                            Some(rnode) => match spec_node_c(
                                nodes,
                                rnode,
                                ind + "  "@,
                                (fuel - 1) as nat,
                                tree_index,
                            ) {
                                Err(e) => Err(e),
                                Ok(rtext) => Ok(
                                    spec_test_head_c(t, ind) + ltext + ind + "} else {\n"@ + rtext
                                        + ind + "}\n"@,
                                ),
                            },
                        },
                    },
                }
            }
        },
        NodeV::Categorical(c) => {
            if fuel == 0 {
                Err(GenError::DepthLimit { tree_index, node_id: c.node_id })
            } else {
                match spec_find(nodes, c.left_child) {
                    None => Err(GenError::MissingNode { tree_index, node_id: c.left_child }),
                    Some(lnode) => match spec_node_c(
                        nodes,
                        lnode,
                        ind + "  "@,
                        (fuel - 1) as nat,
                        tree_index,
                    ) {
                        Err(e) => Err(e),
                        Ok(ltext) => match spec_find(nodes, c.right_child) {
                            None => Err(
                                GenError::MissingNode { tree_index, node_id: c.right_child },
                            ),
                            Some(rnode) => match spec_node_c(
                                nodes,
                                rnode,
                                ind + "  "@,
                                (fuel - 1) as nat,
                                tree_index,
                            ) {
                                Err(e) => Err(e),
                                Ok(rtext) => Ok(
                                    spec_cat_head_c(c, ind) + ltext + ind + "} else {\n"@ + rtext
                                        + ind + "}\n"@,
                                ),
                            },
                        },
                    },
                }
            }
        },
    }
}

/// Appends the membership disjunction of `cats` from position `i` on.
fn push_cats_c(cats: &Vec<u32>, i: usize, out: &mut String)
    requires
        i <= cats.len(),
    ensures
        final(out)@ == old(out)@ + spec_cats_c(cats@.skip(i as int)),
    decreases cats.len() - i,
{
    proof {
        assert(cats@.skip(i as int).len() == cats@.len() - i);
    }
    if i < cats.len() {
        proof {
            assert(cats@.skip(i as int)[0] == cats@[i as int]);
        }
        let ghost base = out@;
        out.append("tmp == ");
        let d = u64_dec(cats[i] as u64);
        out.append(d.as_str());
        proof {
            lemma_concat_assoc(base, "tmp == "@, dec_str(cats@[i as int] as nat));
        }
        if i + 1 < cats.len() {
            let ghost t1 = "tmp == "@ + dec_str(cats@[i as int] as nat);
            out.append(" || ");
            proof {
                lemma_concat_assoc(base, t1, " || "@);
            }
            let ghost t2 = t1 + " || "@;
            push_cats_c(cats, i + 1, out);
            proof {
                assert(cats@.skip(i as int).skip(1) =~= cats@.skip(i as int + 1));
                lemma_concat_assoc(base, t2, spec_cats_c(cats@.skip(i as int + 1)));
            }
        }
    } else {
        out.append("0");
    }
}

/// Appends the leaf accumulation statement for `l` to `out`.
fn push_leaf_c(l: &Leaf, ind: &str, out: &mut String)
    ensures
        final(out)@ == old(out)@ + spec_leaf_c(l@, ind@),
{
    let ghost base = out@;
    out.append(ind);
    out.append("result[0] += ");
    proof {
        lemma_concat_assoc(base, ind@, "result[0] += "@);
    }
    let ghost t1 = ind@ + "result[0] += "@;
    out.append(l.leaf_value.text.as_str());
    proof {
        lemma_concat_assoc(base, t1, l.leaf_value@.text);
    }
    let ghost t2 = t1 + l.leaf_value@.text;
    out.append(";\n");
    proof {
        lemma_concat_assoc(base, t2, ";\n"@);
    }
}

/// Appends the opening of a numeric test for `t` to `out`.
fn push_test_head_c(t: &TestNode, ind: &str, out: &mut String)
    ensures
        final(out)@ == old(out)@ + spec_test_head_c(t@, ind@),
{
    let ghost base = out@;
    out.append(ind);
    out.append("if(data[");
    proof {
        lemma_concat_assoc(base, ind@, "if(data["@);
    }
    let ghost t1 = ind@ + "if(data["@;
    let f = u64_dec(t.split_feature_id as u64);
    out.append(f.as_str());
    proof {
        lemma_concat_assoc(base, t1, dec_str(t.split_feature_id as nat));
    }
    let ghost t2 = t1 + dec_str(t.split_feature_id as nat);
    out.append("] ");
    proof {
        lemma_concat_assoc(base, t2, "] "@);
    }
    let ghost t3 = t2 + "] "@;
    out.append(t.comparison_op.as_str());
    proof {
        lemma_concat_assoc(base, t3, t.comparison_op@);
    }
    let ghost t4 = t3 + t.comparison_op@;
    out.append(" (double)");
    proof {
        lemma_concat_assoc(base, t4, " (double)"@);
    }
    let ghost t5 = t4 + " (double)"@;
    out.append(t.threshold.text.as_str());
    proof {
        lemma_concat_assoc(base, t5, t.threshold@.text);
    }
    let ghost t6 = t5 + t.threshold@.text;
    out.append("){\n");
    proof {
        lemma_concat_assoc(base, t6, "){\n"@);
    }
}

/// Appends the opening of a categorical test for `c` to `out`.
fn push_cat_head_c(c: &CategoricalTestNode, ind: &str, out: &mut String)
    ensures
        final(out)@ == old(out)@ + spec_cat_head_c(c@, ind@),
{
    let ghost base = out@;
    out.append(ind);
    out.append("tmp = (int)data[");
    proof {
        lemma_concat_assoc(base, ind@, "tmp = (int)data["@);
    }
    let ghost t1 = ind@ + "tmp = (int)data["@;
    let f = u64_dec(c.split_feature_id as u64);
    out.append(f.as_str());
    proof {
        lemma_concat_assoc(base, t1, dec_str(c.split_feature_id as nat));
    }
    let ghost t2 = t1 + dec_str(c.split_feature_id as nat);
    out.append("];\n");
    proof {
        lemma_concat_assoc(base, t2, "];\n"@);
    }
    let ghost t3 = t2 + "];\n"@;
    out.append(ind);
    proof {
        lemma_concat_assoc(base, t3, ind@);
    }
    let ghost t4 = t3 + ind@;
    out.append("if(!(");
    proof {
        lemma_concat_assoc(base, t4, "if(!("@);
    }
    let ghost t5 = t4 + "if(!("@;
    push_cats_c(&c.category_list, 0, out);
    proof {
        assert(c.category_list@.skip(0) =~= c.category_list@);
        lemma_concat_assoc(base, t5, spec_cats_c(c.category_list@));
    }
    let ghost t6 = t5 + spec_cats_c(c.category_list@);
    out.append(")){\n");
    proof {
        lemma_concat_assoc(base, t6, ")){\n"@);
    }
}

/// Appends the code for `node` to `out`, or reports the structural fault
/// that stopped the walk (a child identifier absent from `nodes`, or a walk
/// longer than any cycle-free tree allows).
pub fn emit_node(
    nodes: &Vec<Node>,
    node: &Node,
    ind: &str,
    fuel: usize,
    tree_index: usize,
    out: &mut String,
) -> (r: Result<(), GenError>)
    ensures
        match spec_node_c(nodes@.map_values(|n: Node| n@), node@, ind@, fuel as nat, tree_index) {
            Ok(t) => r is Ok && final(out)@ == old(out)@ + t,
            Err(e) => r == Err::<(), GenError>(e),
        },
    decreases fuel,
{
    let ghost seq = nodes@.map_values(|n: Node| n@);
    match node {
        Node::Leaf(l) => {
            push_leaf_c(l, ind, out);
            Ok(())
        },
        Node::TestNode(t) => {
            if fuel == 0 {
                return Err(GenError::DepthLimit { tree_index, node_id: t.node_id });
            }
            let mut child_ind = ind.to_owned();
            child_ind.append("  ");
            let ghost base = out@;
            push_test_head_c(t, ind, out);
            let ghost hh = spec_test_head_c(t@, ind@);
            let lnode = match find_node(nodes, &t.left_child) {
                Some(n) => n,
                None => {
                    return Err(GenError::MissingNode { tree_index, node_id: t.left_child });
                },
            };
            match emit_node(nodes, lnode, child_ind.as_str(), fuel - 1, tree_index, out) {
                Ok(_) => {},
                Err(e) => {
                    return Err(e);
                },
            }
            let ghost lres = spec_node_c(seq, lnode@, ind@ + "  "@, (fuel - 1) as nat, tree_index);
            proof {
                lemma_concat_assoc(base, hh, lres->Ok_0);
            }
            let ghost p1 = hh + lres->Ok_0;
            out.append(ind);
            proof {
                lemma_concat_assoc(base, p1, ind@);
            }
            let ghost p2 = p1 + ind@;
            out.append("} else {\n");
            proof {
                lemma_concat_assoc(base, p2, "} else {\n"@);
            }
            let ghost p3 = p2 + "} else {\n"@;
            let rnode = match find_node(nodes, &t.right_child) {
                Some(n) => n,
                None => {
                    return Err(GenError::MissingNode { tree_index, node_id: t.right_child });
                },
            };
            match emit_node(nodes, rnode, child_ind.as_str(), fuel - 1, tree_index, out) {
                Ok(_) => {},
                Err(e) => {
                    return Err(e);
                },
            }
            let ghost rres = spec_node_c(seq, rnode@, ind@ + "  "@, (fuel - 1) as nat, tree_index);
            proof {
                lemma_concat_assoc(base, p3, rres->Ok_0);
            }
            let ghost p4 = p3 + rres->Ok_0;
            out.append(ind);
            proof {
                lemma_concat_assoc(base, p4, ind@);
            }
            let ghost p5 = p4 + ind@;
            out.append("}\n");
            proof {
                lemma_concat_assoc(base, p5, "}\n"@);
            }
            Ok(())
        },
        Node::Categorical(c) => {
            if fuel == 0 {
                return Err(GenError::DepthLimit { tree_index, node_id: c.node_id });
            }
            let mut child_ind = ind.to_owned();
            child_ind.append("  ");
            let ghost base = out@;
            push_cat_head_c(c, ind, out);
            let ghost hh = spec_cat_head_c(c@, ind@);
            let lnode = match find_node(nodes, &c.left_child) {
                Some(n) => n,
                None => {
                    return Err(GenError::MissingNode { tree_index, node_id: c.left_child });
                },
            };
            match emit_node(nodes, lnode, child_ind.as_str(), fuel - 1, tree_index, out) {
                Ok(_) => {},
                Err(e) => {
                    return Err(e);
                },
            }
            let ghost lres = spec_node_c(seq, lnode@, ind@ + "  "@, (fuel - 1) as nat, tree_index);
            proof {
                lemma_concat_assoc(base, hh, lres->Ok_0);
            }
            let ghost p1 = hh + lres->Ok_0;
            out.append(ind);
            proof {
                lemma_concat_assoc(base, p1, ind@);
            }
            let ghost p2 = p1 + ind@;
            out.append("} else {\n");
            proof {
                lemma_concat_assoc(base, p2, "} else {\n"@);
            }
            let ghost p3 = p2 + "} else {\n"@;
            let rnode = match find_node(nodes, &c.right_child) {
                Some(n) => n,
                None => {
                    return Err(GenError::MissingNode { tree_index, node_id: c.right_child });
                },
            };
            match emit_node(nodes, rnode, child_ind.as_str(), fuel - 1, tree_index, out) {
                Ok(_) => {},
                Err(e) => {
                    return Err(e);
                },
            }
            let ghost rres = spec_node_c(seq, rnode@, ind@ + "  "@, (fuel - 1) as nat, tree_index);
            proof {
                lemma_concat_assoc(base, p3, rres->Ok_0);
            }
            let ghost p4 = p3 + rres->Ok_0;
            out.append(ind);
            proof {
                lemma_concat_assoc(base, p4, ind@);
            }
            let ghost p5 = p4 + ind@;
            out.append("}\n");
            proof {
                lemma_concat_assoc(base, p5, "}\n"@);
            }
            Ok(())
        },
    }
}

/// The forward declaration lines of the per-tree routines, in input order,
/// for the first `k` trees.
pub open spec fn spec_header_decls(k: nat) -> Seq<char>
    decreases k,
{
    if k == 0 {
        Seq::empty()
    } else {
        spec_header_decls((k - 1) as nat) + "void predict_unit"@ + dec_str((k - 1) as nat)
            + "(double* data, double* result);\n"@
    }
}

/// The declarations artifact: the exported entry points and one forward
/// declaration per tree routine.
pub open spec fn spec_header_c(num_trees: usize) -> ArtifactV {
    ArtifactV {
        name: "header.h"@,
        contents: "#define EXPORT __attribute__((visibility(\"default\")))\n\nEXPORT int get_num_features(void);\nEXPORT double predict(double* data);\n\n"@
            + spec_header_decls(num_trees as nat),
    }
}

/// Generates the declarations unit. It depends only on the tree count and
/// cannot fail.
pub fn emit_header(num_trees: usize) -> (r: Artifact)
    ensures
        r@ == spec_header_c(num_trees),
{
    let mut contents =
        "#define EXPORT __attribute__((visibility(\"default\")))\n\nEXPORT int get_num_features(void);\nEXPORT double predict(double* data);\n\n".to_owned();
    let ghost before = contents@;
    let mut tu_id: usize = 0;
    while tu_id < num_trees
        invariant
            tu_id <= num_trees,
            contents@ == before + spec_header_decls(tu_id as nat),
        decreases num_trees - tu_id,
    {
        contents.append("void predict_unit");
        let d = u64_dec(tu_id as u64);
        contents.append(d.as_str());
        contents.append("(double* data, double* result);\n");
        proof {
            assert(contents@ =~= before + spec_header_decls((tu_id + 1) as nat));
        }
        tu_id = tu_id + 1;
    }
    Artifact { name: "header.h".to_owned(), contents }
}

/// The per-tree invocation lines of the aggregation routine, in input
/// order, for the first `k` trees.
pub open spec fn spec_main_calls(k: nat) -> Seq<char>
    decreases k,
{
    if k == 0 {
        Seq::empty()
    } else {
        spec_main_calls((k - 1) as nat) + "  predict_unit"@ + dec_str((k - 1) as nat)
            + "(data, &result);\n"@
    }
}

/// The aggregation artifact: `predict` sums every tree's contribution in
/// input order, divides by the tree count exactly when the model averages,
/// and applies a nonzero base score as a signed addition split into
/// add/subtract of the absolute value.
pub open spec fn spec_main_c(
    num_trees: usize,
    num_features: u32,
    average_tree_output: bool,
    base_score: ScalarV,
) -> ArtifactV {
    ArtifactV {
        name: "main.c"@,
        contents: "#include \"header.h\"\n\nEXPORT int get_num_features(void){\n  return "@
            + dec_str(num_features as nat)
            + ";\n}\nEXPORT double predict(double* data){\n  double result = 0;\n"@
            + spec_main_calls(num_trees as nat) + (if average_tree_output {
            "  result /= "@ + dec_str(num_trees as nat) + ".0;\n"@
        } else {
            Seq::<char>::empty()
        }) + (if base_score.nonzero {
            if base_score.positive {
                "  result += "@ + base_score.text + ";\n"@
            } else {
                "  result -= "@ + base_score.abs_text + ";\n"@
            }
        } else {
            Seq::<char>::empty()
        }) + "  return result;\n}"@,
    }
}

/// Generates the aggregation unit. It depends only on scalar metadata and
/// cannot fail.
pub fn emit_main(
    num_trees: usize,
    num_features: u32,
    average_tree_output: bool,
    base_score: &crate::ir::Scalar,
) -> (r: Artifact)
    ensures
        r@ == spec_main_c(num_trees, num_features, average_tree_output, base_score@),
{
    let mut contents = "#include \"header.h\"\n\nEXPORT int get_num_features(void){\n  return "
        .to_owned();
    let nf = u64_dec(num_features as u64);
    contents.append(nf.as_str());
    contents.append(";\n}\nEXPORT double predict(double* data){\n  double result = 0;\n");
    let ghost before = contents@;
    let mut tu_id: usize = 0;
    while tu_id < num_trees
        invariant
            tu_id <= num_trees,
            contents@ == before + spec_main_calls(tu_id as nat),
        decreases num_trees - tu_id,
    {
        contents.append("  predict_unit");
        let d = u64_dec(tu_id as u64);
        contents.append(d.as_str());
        contents.append("(data, &result);\n");
        proof {
            assert(contents@ =~= before + spec_main_calls((tu_id + 1) as nat));
        }
        tu_id = tu_id + 1;
    }
    if average_tree_output {
        contents.append("  result /= ");
        let k = u64_dec(num_trees as u64);
        contents.append(k.as_str());
        contents.append(".0;\n");
    }
    if base_score.nonzero {
        if base_score.positive {
            contents.append("  result += ");
            contents.append(base_score.text.as_str());
            contents.append(";\n");
        } else {
            contents.append("  result -= ");
            contents.append(base_score.abs_text.as_str());
            contents.append(";\n");
        }
    }
    contents.append("  return result;\n}");
    let r = Artifact { name: "main.c".to_owned(), contents };
    proof {
        let a = spec_main_c(num_trees, num_features, average_tree_output, base_score@);
        assert(r@.name =~= a.name);
        assert(r@.contents =~= a.contents);
    }
    r
}

/// The artifact for one tree: a translation unit whose `predict_unit<tu_id>`
/// routine accumulates the tree's contribution, with a temporary integer
/// slot exactly when the tree holds a categorical split.
pub open spec fn spec_tree_c(tree: TreeV, tu_id: usize) -> Result<ArtifactV, GenError> {
    match spec_find(tree.nodes, 0) {
        None => Err(GenError::MissingNode { tree_index: tu_id, node_id: 0 }),
        Some(root) => match spec_node_c(tree.nodes, root, indent(1), tree.nodes.len(), tu_id) {
            Err(e) => Err(e),
            Ok(body) => Ok(
                ArtifactV {
                    name: "tu"@ + dec_str(tu_id as nat) + ".c"@,
                    contents: "#include \"header.h\"\n\nvoid predict_unit"@ + dec_str(
                        tu_id as nat,
                    ) + "(double* data, double* result){\n"@ + (if tree.has_categorical_split {
                        "  int tmp;\n"@
                    } else {
                        Seq::<char>::empty()
                    }) + body + "\n}"@,
                },
            ),
        },
    }
}

/// Generates the translation unit for one tree, or reports the structural
/// fault.
pub fn emit_tree(tree: &Tree, tu_id: usize) -> (r: Result<Artifact, GenError>)
    ensures
        match spec_tree_c(tree@, tu_id) {
            Ok(a) => r is Ok && r->Ok_0@ == a,
            Err(e) => r == Err::<Artifact, GenError>(e),
        },
{
    let id_text = u64_dec(tu_id as u64);
    let mut name = "tu".to_owned();
    name.append(id_text.as_str());
    name.append(".c");

    let root = match tree.first_node() {
        Some(n) => n,
        None => {
            return Err(GenError::MissingNode { tree_index: tu_id, node_id: 0 });
        },
    };
    let mut contents = "#include \"header.h\"\n\nvoid predict_unit".to_owned();
    contents.append(id_text.as_str());
    contents.append("(double* data, double* result){\n");
    if tree.has_categorical_split {
        contents.append("  int tmp;\n");
    }
    let ind = make_indent(1);
    match emit_node(&tree.nodes, root, ind.as_str(), tree.nodes.len(), tu_id, &mut contents) {
        Ok(_) => {},
        Err(e) => {
            return Err(e);
        },
    }
    contents.append("\n}");
    let r = Artifact { name, contents };
    proof {
        let a = spec_tree_c(tree@, tu_id)->Ok_0;
        assert(r@.name =~= a.name);
        assert(r@.contents =~= a.contents);
    }
    Ok(r)
}

/// The per-tree artifacts from index `i` on, or the fault of the first tree
/// that fails.
pub open spec fn spec_c_trees_from(trees: Seq<TreeV>, i: nat) -> Result<Seq<ArtifactV>, GenError>
    decreases trees.len() - i when i <= trees.len()
{
    if i >= trees.len() {
        Ok(Seq::empty())
    } else {
        match spec_tree_c(trees[i as int], i as usize) {
            Err(e) => Err(e),
            Ok(a) => match spec_c_trees_from(trees, i + 1) {
                Err(e) => Err(e),
                Ok(rest) => Ok(seq![a] + rest),
            },
        }
    }
}

/// What generating the C backend yields: the declarations unit, the
/// aggregation unit, then one translation unit per tree in input order; or
/// the structural fault of the first tree that fails, in which case no
/// artifact list is returned and the run as a whole fails.
pub open spec fn spec_emit_c(m: ModelIRV) -> Result<Seq<ArtifactV>, GenError> {
    match spec_c_trees_from(m.trees, 0) {
        Err(e) => Err(e),
        Ok(tree_artifacts) => Ok(
            seq![
                spec_header_c(m.trees.len() as usize),
                spec_main_c(
                    m.trees.len() as usize,
                    m.num_features,
                    m.average_tree_output,
                    m.base_score,
                ),
            ] + tree_artifacts,
        ),
    }
}

/// The view of a generation result.
pub open spec fn artifacts_result_view(r: Result<Vec<Artifact>, GenError>) -> Result<
    Seq<ArtifactV>,
    GenError,
> {
    match r {
        Ok(v) => Ok(v@.map_values(|a: Artifact| a@)),
        Err(e) => Err(e),
    }
}

/// Generates every C artifact for the model: the declarations unit, the
/// aggregation unit and one translation unit per tree. The first structural
/// fault aborts the whole run.
pub fn emit(model: &ModelIR) -> (r: Result<Vec<Artifact>, GenError>)
    ensures
        artifacts_result_view(r) == spec_emit_c(model@),
{
    let header = emit_header(model.trees.len());
    let main = emit_main(
        model.trees.len(),
        model.num_features,
        model.average_tree_output,
        &model.base_score,
    );
    let mut artifacts: Vec<Artifact> = Vec::new();
    artifacts.push(header);
    artifacts.push(main);
    let ghost trees_v = model@.trees;
    let ghost head_v = seq![
        spec_header_c(model@.trees.len() as usize),
        spec_main_c(
            model@.trees.len() as usize,
            model@.num_features,
            model@.average_tree_output,
            model@.base_score,
        ),
    ];
    proof {
        assert(artifacts@.map_values(|a: Artifact| a@) =~= head_v);
    }
    let mut i: usize = 0;
    while i < model.trees.len()
        invariant
            i <= model.trees.len(),
            trees_v == model@.trees,
            trees_v.len() == model.trees.len(),
            head_v == seq![
                spec_header_c(model@.trees.len() as usize),
                spec_main_c(
                    model@.trees.len() as usize,
                    model@.num_features,
                    model@.average_tree_output,
                    model@.base_score,
                ),
            ],
            artifacts@.map_values(|a: Artifact| a@).len() == i + 2,
            spec_emit_c(model@) == match spec_c_trees_from(trees_v, i as nat) {
                Ok(rest) => Ok::<Seq<ArtifactV>, GenError>(
                    artifacts@.map_values(|a: Artifact| a@) + rest,
                ),
                Err(e) => Err(e),
            },
        decreases model.trees.len() - i,
    {
        proof {
            assert(trees_v[i as int] == model.trees@.map_values(|t: Tree| t@)[i as int]);
        }
        let a = match emit_tree(&model.trees[i], i) {
            Ok(a) => a,
            Err(e) => {
                return Err(e);
            },
        };
        proof {
            let ghost old_views = artifacts@.map_values(|a2: Artifact| a2@);
            match spec_c_trees_from(trees_v, i as nat + 1) {
                Ok(rest) => {
                    assert(old_views + (seq![a@] + rest) =~= old_views.push(a@) + rest);
                },
                Err(_) => {},
            }
        }
        let ghost old_views = artifacts@.map_values(|a2: Artifact| a2@);
        artifacts.push(a);
        proof {
            assert(artifacts@.map_values(|a2: Artifact| a2@) =~= old_views.push(a@));
        }
        i = i + 1;
    }
    proof {
        assert(artifacts@.map_values(|a: Artifact| a@) + Seq::<ArtifactV>::empty()
            =~= artifacts@.map_values(|a: Artifact| a@));
    }
    Ok(artifacts)
}

} // verus!
