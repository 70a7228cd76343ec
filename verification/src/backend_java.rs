//! The Java backend: one final class per tree exposing a static
//! `predict(double[])` routine, plus one `TreeEnsemble` class that sums the
//! per-tree contributions, divides by the tree count when the model averages,
//! and applies the base score. Artifacts live under the directory obtained
//! from the package name by the package-to-path convention.

use vstd::prelude::*;
use vstd::string::StrSliceExecFns;
use vstd::string::StringExecFns;
use crate::artifact::{Artifact, ArtifactV};
use crate::errors::GenError;
use crate::ir::{
    CategoricalTestNode, CategoricalTestNodeV, Leaf, ModelIR, ModelIRV, Node, NodeV, ScalarV,
    TestNode, TestNodeV, Tree, TreeV, LeafV, spec_find,
};
use crate::ir::find_node;
use crate::text::{dec_str, indent, lemma_concat_assoc, make_indent, u64_dec};

verus! {

/// The accumulation statement for a leaf: a signed addition of the leaf
/// value into the running result, split into add/subtract of the absolute
/// value for readability of the emitted code.
pub open spec fn spec_leaf_java(l: LeafV, ind: Seq<char>) -> Seq<char> {
    ind + (if l.leaf_value.negative {
        "result -= "@ + l.leaf_value.abs_text
    } else {
        "result += "@ + l.leaf_value.text
    }) + ";\n"@
}

/// The category list as an explicit comma-separated membership list,
/// preserving input order, with no re-sorting and no de-duplication.
pub open spec fn spec_cats(cats: Seq<u32>) -> Seq<char>
    decreases cats.len(),
{
    if cats.len() == 0 {
        Seq::empty()
    } else if cats.len() == 1 {
        dec_str(cats[0] as nat)
    } else {
        dec_str(cats[0] as nat) + ","@ + spec_cats(cats.skip(1))
    }
}

/// The opening of a numeric test: the comparison of the split feature
/// against the threshold, the stored operator carried verbatim.
pub open spec fn spec_test_head_java(t: TestNodeV, ind: Seq<char>) -> Seq<char> {
    ind + "if (arr["@ + dec_str(t.split_feature_id as nat) + "] "@ + t.comparison_op + " "@
        + t.threshold.text + ") {\n"@
}

/// The opening of a categorical test: the feature value is narrowed to an
/// integer slot, and membership in the category list routes to the right
/// subtree, so the guard of the left subtree is the negated membership test.
pub open spec fn spec_cat_head_java(c: CategoricalTestNodeV, ind: Seq<char>) -> Seq<char> {
    ind + "tmp = (int)arr["@ + dec_str(c.split_feature_id as nat) + "];\n"@ + ind
        + "if (!List.of("@ + spec_cats(c.category_list) + ").contains(tmp)) {\n"@
}

/// The code emitted for one node of a tree, walking children recursively.
/// `fuel` bounds the walk: it starts at the tree's node count, which no
/// root-to-leaf path of a cycle-free tree can exceed.
pub open spec fn spec_node_java(
    nodes: Seq<NodeV>,
    node: NodeV,
    ind: Seq<char>,
    fuel: nat,
    tree_index: usize,
) -> Result<Seq<char>, GenError>
    decreases fuel,
{
    match node {
        NodeV::Leaf(l) => Ok(spec_leaf_java(l, ind)),
        NodeV::TestNode(t) => {
            if fuel == 0 {
                Err(GenError::DepthLimit { tree_index, node_id: t.node_id })
            } else {
                match spec_find(nodes, t.left_child) {
                    None => Err(GenError::MissingNode { tree_index, node_id: t.left_child }),
                    Some(lnode) => match spec_node_java(
                        nodes,
                        lnode,
                        ind + "  "@,
                        (fuel - 1) as nat,
                        tree_index,
                    ) {
                        Err(e) => Err(e),
                        Ok(ltext) => match spec_find(nodes, t.right_child) {
                            None => Err(
                                GenError::MissingNode { tree_index, node_id: t.right_child },
                            ),
                            Some(rnode) => match spec_node_java(
                                nodes,
                                rnode,
                                ind + "  "@,
                                (fuel - 1) as nat,
                                tree_index,
                            ) {
                                Err(e) => Err(e),
                                Ok(rtext) => Ok(
                                    spec_test_head_java(t, ind) + ltext + ind + "} else {\n"@
                                        + rtext + ind + "}\n"@,
                                ),
                            },
                        },
                    },
                }
            }
        },
        NodeV::Categorical(c) => {
            if fuel == 0 {
                Err(GenError::DepthLimit { tree_index, node_id: c.node_id })
            } else {
                match spec_find(nodes, c.left_child) {
                    None => Err(GenError::MissingNode { tree_index, node_id: c.left_child }),
                    Some(lnode) => match spec_node_java(
                        nodes,
                        lnode,
                        ind + "  "@,
                        (fuel - 1) as nat,
                        tree_index,
                    ) {
                        Err(e) => Err(e),
                        Ok(ltext) => match spec_find(nodes, c.right_child) {
                            None => Err(
                                GenError::MissingNode { tree_index, node_id: c.right_child },
                            ),
                            Some(rnode) => match spec_node_java(
                                nodes,
                                rnode,
                                ind + "  "@,
                                (fuel - 1) as nat,
                                tree_index,
                            ) {
                                Err(e) => Err(e),
                                Ok(rtext) => Ok(
                                    spec_cat_head_java(c, ind) + ltext + ind + "} else {\n"@
                                        + rtext + ind + "}\n"@,
                                ),
                            },
                        },
                    },
                }
            }
        },
    }
}

/// Appends the category list of `cats` from position `i` on, comma-separated.
fn push_cats(cats: &Vec<u32>, i: usize, out: &mut String)
    requires
        i <= cats.len(),
    ensures
        final(out)@ == old(out)@ + spec_cats(cats@.skip(i as int)),
    decreases cats.len() - i,
{
    proof {
        assert(cats@.skip(i as int).len() == cats@.len() - i);
    }
    if i < cats.len() {
        proof {
            assert(cats@.skip(i as int)[0] == cats@[i as int]);
        }
        let d = u64_dec(cats[i] as u64);
        out.append(d.as_str());
        if i + 1 < cats.len() {
            out.append(",");
            push_cats(cats, i + 1, out);
            proof {
                assert(cats@.skip(i as int).skip(1) =~= cats@.skip(i as int + 1));
            }
        }
    }
}

/// Appends the leaf accumulation statement for `l` to `out`.
fn push_leaf_java(l: &Leaf, ind: &str, out: &mut String)
    ensures
        final(out)@ == old(out)@ + spec_leaf_java(l@, ind@),
{
    let ghost base = out@;
    out.append(ind);
    if l.leaf_value.negative {
        out.append("result -= ");
        out.append(l.leaf_value.abs_text.as_str());
        proof {
            lemma_concat_assoc(base, ind@, "result -= "@);
            lemma_concat_assoc(base, ind@ + "result -= "@, l.leaf_value@.abs_text);
            lemma_concat_assoc(ind@, "result -= "@, l.leaf_value@.abs_text);
        }
    } else {
        out.append("result += ");
        out.append(l.leaf_value.text.as_str());
        proof {
            lemma_concat_assoc(base, ind@, "result += "@);
            lemma_concat_assoc(base, ind@ + "result += "@, l.leaf_value@.text);
            lemma_concat_assoc(ind@, "result += "@, l.leaf_value@.text);
        }
    }
    let ghost body = if l.leaf_value@.negative {
        "result -= "@ + l.leaf_value@.abs_text
    } else {
        "result += "@ + l.leaf_value@.text
    };
    proof {
        assert(out@ == base + (ind@ + body));
    }
    out.append(";\n");
    proof {
        lemma_concat_assoc(base, ind@ + body, ";\n"@);
    }
}

/// Appends the opening of a numeric test for `t` to `out`.
fn push_test_head_java(t: &TestNode, ind: &str, out: &mut String)
    ensures
        final(out)@ == old(out)@ + spec_test_head_java(t@, ind@),
{
    let ghost base = out@;
    out.append(ind);
    out.append("if (arr[");
    proof {
        lemma_concat_assoc(base, ind@, "if (arr["@);
    }
    let ghost t1 = ind@ + "if (arr["@;
    let f = u64_dec(t.split_feature_id as u64);
    out.append(f.as_str());
    proof {
        lemma_concat_assoc(base, t1, dec_str(t.split_feature_id as nat));
    }
    let ghost t2 = t1 + dec_str(t.split_feature_id as nat);
    out.append("] ");
    proof {
        lemma_concat_assoc(base, t2, "] "@);
    }
    let ghost t3 = t2 + "] "@;
    out.append(t.comparison_op.as_str());
    proof {
        lemma_concat_assoc(base, t3, t.comparison_op@);
    }
    let ghost t4 = t3 + t.comparison_op@;
    out.append(" ");
    proof {
        lemma_concat_assoc(base, t4, " "@);
    }
    let ghost t5 = t4 + " "@;
    out.append(t.threshold.text.as_str());
    proof {
        lemma_concat_assoc(base, t5, t.threshold@.text);
    }
    let ghost t6 = t5 + t.threshold@.text;
    out.append(") {\n");
    proof {
        lemma_concat_assoc(base, t6, ") {\n"@);
    }
}

/// Appends the opening of a categorical test for `c` to `out`.
fn push_cat_head_java(c: &CategoricalTestNode, ind: &str, out: &mut String)
    ensures
        final(out)@ == old(out)@ + spec_cat_head_java(c@, ind@),
{
    let ghost base = out@;
    out.append(ind);
    out.append("tmp = (int)arr[");
    proof {
        lemma_concat_assoc(base, ind@, "tmp = (int)arr["@);
    }
    let ghost t1 = ind@ + "tmp = (int)arr["@;
    let f = u64_dec(c.split_feature_id as u64);
    out.append(f.as_str());
    proof {
        lemma_concat_assoc(base, t1, dec_str(c.split_feature_id as nat));
    }
    let ghost t2 = t1 + dec_str(c.split_feature_id as nat);
    out.append("];\n");
    proof {
        lemma_concat_assoc(base, t2, "];\n"@);
    }
    let ghost t3 = t2 + "];\n"@;
    out.append(ind);
    proof {
        lemma_concat_assoc(base, t3, ind@);
    }
    let ghost t4 = t3 + ind@;
    out.append("if (!List.of(");
    proof {
        lemma_concat_assoc(base, t4, "if (!List.of("@);
    }
    let ghost t5 = t4 + "if (!List.of("@;
    push_cats(&c.category_list, 0, out);
    proof {
        assert(c.category_list@.skip(0) =~= c.category_list@);
        lemma_concat_assoc(base, t5, spec_cats(c.category_list@));
    }
    let ghost t6 = t5 + spec_cats(c.category_list@);
    out.append(").contains(tmp)) {\n");
    proof {
        lemma_concat_assoc(base, t6, ").contains(tmp)) {\n"@);
    }
}

/// Appends the code for `node` to `out`, or reports the structural fault
/// that stopped the walk (a child identifier absent from `nodes`, or a walk
/// longer than any cycle-free tree allows).
pub fn emit_node(
    nodes: &Vec<Node>,
    node: &Node,
    ind: &str,
    fuel: usize,
    tree_index: usize,
    out: &mut String,
) -> (r: Result<(), GenError>)
    ensures
        match spec_node_java(
            nodes@.map_values(|n: Node| n@),
            node@,
            ind@,
            fuel as nat,
            tree_index,
        ) {
            Ok(t) => r is Ok && final(out)@ == old(out)@ + t,
            Err(e) => r == Err::<(), GenError>(e),
        },
    decreases fuel,
{
    let ghost seq = nodes@.map_values(|n: Node| n@);
    match node {
        Node::Leaf(l) => {
            push_leaf_java(l, ind, out);
            Ok(())
        },
        Node::TestNode(t) => {
            if fuel == 0 {
                return Err(GenError::DepthLimit { tree_index, node_id: t.node_id });
            }
            let mut child_ind = ind.to_owned();
            child_ind.append("  ");
            let ghost base = out@;
            push_test_head_java(t, ind, out);
            let ghost hh = spec_test_head_java(t@, ind@);
            let lnode = match find_node(nodes, &t.left_child) {
                Some(n) => n,
                None => {
                    return Err(GenError::MissingNode { tree_index, node_id: t.left_child });
                },
            };
            match emit_node(nodes, lnode, child_ind.as_str(), fuel - 1, tree_index, out) {
                Ok(_) => {},
                Err(e) => {
                    return Err(e);
                },
            }
            let ghost lres = spec_node_java(seq, lnode@, ind@ + "  "@, (fuel - 1) as nat, tree_index);
            proof {
                lemma_concat_assoc(base, hh, lres->Ok_0);
            }
            let ghost p1 = hh + lres->Ok_0;
            out.append(ind);
            proof {
                lemma_concat_assoc(base, p1, ind@);
            }
            let ghost p2 = p1 + ind@;
            out.append("} else {\n");
            proof {
                lemma_concat_assoc(base, p2, "} else {\n"@);
            }
            let ghost p3 = p2 + "} else {\n"@;
            let rnode = match find_node(nodes, &t.right_child) {
                Some(n) => n,
                None => {
                    return Err(GenError::MissingNode { tree_index, node_id: t.right_child });
                },
            };
            match emit_node(nodes, rnode, child_ind.as_str(), fuel - 1, tree_index, out) {
                Ok(_) => {},
                Err(e) => {
                    return Err(e);
                },
            }
            let ghost rres = spec_node_java(seq, rnode@, ind@ + "  "@, (fuel - 1) as nat, tree_index);
            proof {
                lemma_concat_assoc(base, p3, rres->Ok_0);
            }
            let ghost p4 = p3 + rres->Ok_0;
            out.append(ind);
            proof {
                lemma_concat_assoc(base, p4, ind@);
            }
            let ghost p5 = p4 + ind@;
            out.append("}\n");
            proof {
                lemma_concat_assoc(base, p5, "}\n"@);
            }
            Ok(())
        },
        Node::Categorical(c) => {
            if fuel == 0 {
                return Err(GenError::DepthLimit { tree_index, node_id: c.node_id });
            }
            let mut child_ind = ind.to_owned();
            child_ind.append("  ");
            let ghost base = out@;
            push_cat_head_java(c, ind, out);
            let ghost hh = spec_cat_head_java(c@, ind@);
            let lnode = match find_node(nodes, &c.left_child) {
                Some(n) => n,
                None => {
                    return Err(GenError::MissingNode { tree_index, node_id: c.left_child });
                },
            };
            match emit_node(nodes, lnode, child_ind.as_str(), fuel - 1, tree_index, out) {
                Ok(_) => {},
                Err(e) => {
                    return Err(e);
                },
            }
            let ghost lres = spec_node_java(seq, lnode@, ind@ + "  "@, (fuel - 1) as nat, tree_index);
            proof {
                lemma_concat_assoc(base, hh, lres->Ok_0);
            }
            let ghost p1 = hh + lres->Ok_0;
            out.append(ind);
            proof {
                lemma_concat_assoc(base, p1, ind@);
            }
            let ghost p2 = p1 + ind@;
            out.append("} else {\n");
            proof {
                lemma_concat_assoc(base, p2, "} else {\n"@);
            }
            let ghost p3 = p2 + "} else {\n"@;
            let rnode = match find_node(nodes, &c.right_child) {
                Some(n) => n,
                None => {
                    return Err(GenError::MissingNode { tree_index, node_id: c.right_child });
                },
            };
            match emit_node(nodes, rnode, child_ind.as_str(), fuel - 1, tree_index, out) {
                Ok(_) => {},
                Err(e) => {
                    return Err(e);
                },
            }
            let ghost rres = spec_node_java(seq, rnode@, ind@ + "  "@, (fuel - 1) as nat, tree_index);
            proof {
                lemma_concat_assoc(base, p3, rres->Ok_0);
            }
            let ghost p4 = p3 + rres->Ok_0;
            out.append(ind);
            proof {
                lemma_concat_assoc(base, p4, ind@);
            }
            let ghost p5 = p4 + ind@;
            out.append("}\n");
            proof {
                lemma_concat_assoc(base, p5, "}\n"@);
            }
            Ok(())
        },
    }
}

/// The artifact for one tree: a final class `Tree<tu_id>` whose static
/// `predict` accumulates the tree's contribution, with a temporary integer
/// slot exactly when the tree holds a categorical split.
pub open spec fn spec_tree_java(tree: TreeV, tu_id: usize, package: Seq<char>) -> Result<
    ArtifactV,
    GenError,
> {
    match spec_find(tree.nodes, 0) {
        None => Err(GenError::MissingNode { tree_index: tu_id, node_id: 0 }),
        Some(root) => match spec_node_java(tree.nodes, root, indent(2), tree.nodes.len(), tu_id) {
            Err(e) => Err(e),
            Ok(body) => Ok(
                ArtifactV {
                    name: "Tree"@ + dec_str(tu_id as nat) + ".java"@,
                    contents: "package "@ + package + ";\n\nimport java.util.List;\n\nfinal class Tree"@
                        + dec_str(tu_id as nat) + "{\n\n  public static double predict(double[] arr){\n"@
                        + (if tree.has_categorical_split {
                        "    int tmp;\n"@
                    } else {
                        Seq::<char>::empty()
                    }) + "    double result = 0.0;\n"@ + body + "    return result;\n  }\n}"@,
                },
            ),
        },
    }
}

/// Generates the source unit for one tree, or reports the structural fault.
pub fn emit_tree(tree: &Tree, tu_id: usize, package: &str) -> (r: Result<Artifact, GenError>)
    ensures
        match spec_tree_java(tree@, tu_id, package@) {
            Ok(a) => r is Ok && r->Ok_0@ == a,
            Err(e) => r == Err::<Artifact, GenError>(e),
        },
{
    let id_text = u64_dec(tu_id as u64);
    let mut name = "Tree".to_owned();
    name.append(id_text.as_str());
    name.append(".java");

    let root = match tree.first_node() {
        Some(n) => n,
        None => {
            return Err(GenError::MissingNode { tree_index: tu_id, node_id: 0 });
        },
    };
    let mut contents = "package ".to_owned();
    contents.append(package);
    contents.append(";\n\nimport java.util.List;\n\nfinal class Tree");
    contents.append(id_text.as_str());
    contents.append("{\n\n  public static double predict(double[] arr){\n");
    if tree.has_categorical_split {
        contents.append("    int tmp;\n");
    }
    contents.append("    double result = 0.0;\n");
    let ind = make_indent(2);
    match emit_node(&tree.nodes, root, ind.as_str(), tree.nodes.len(), tu_id, &mut contents) {
        Ok(_) => {},
        Err(e) => {
            return Err(e);
        },
    }
    contents.append("    return result;\n  }\n}");
    let r = Artifact { name, contents };
    proof {
        let a = spec_tree_java(tree@, tu_id, package@)->Ok_0;
        assert(r@.name =~= a.name);
        assert(r@.contents =~= a.contents);
    }
    Ok(r)
}

/// The per-tree summation statements of the ensemble routine, in input
/// order, for the first `k` trees.
pub open spec fn spec_ensemble_calls(k: nat) -> Seq<char>
    decreases k,
{
    if k == 0 {
        Seq::empty()
    } else {
        spec_ensemble_calls((k - 1) as nat) + "     result += Tree"@ + dec_str((k - 1) as nat)
            + ".predict(arr);\n"@
    }
}

/// The ensemble artifact: a `TreeEnsemble` class whose static `predict` sums
/// every tree's contribution in input order, divides by the tree count
/// exactly when the model averages, and applies a nonzero base score as a
/// signed addition split into add/subtract of the absolute value.
pub open spec fn spec_ensemble_java(
    package: Seq<char>,
    num_features: u32,
    num_trees: usize,
    average_tree_output: bool,
    base_score: ScalarV,
) -> ArtifactV {
    ArtifactV {
        name: "TreeEnsemble.java"@,
        contents: "package "@ + package
            + ";\n\npublic final class TreeEnsemble {\n\n  private TreeEnsemble(){ }\n  private static final int NUM_FEATURES = "@
            + dec_str(num_features as nat)
            + ";\n\n  public static double predict(double[] arr){\n     assert arr.length == NUM_FEATURES;\n     double result = 0.0;\n"@
            + spec_ensemble_calls(num_trees as nat) + (if average_tree_output {
            "     result /= "@ + dec_str(num_trees as nat) + ".0;\n"@
        } else {
            Seq::<char>::empty()
        }) + (if base_score.nonzero {
            if base_score.positive {
                "     result += "@ + base_score.text + ";\n"@
            } else {
                "     result -= "@ + base_score.abs_text + ";\n"@
            }
        } else {
            Seq::<char>::empty()
        }) + "     return result;\n  }\n\n}"@,
    }
}

/// Generates the ensemble aggregation unit. It depends only on scalar
/// metadata and cannot fail.
pub fn emit_ensemble(
    package: &str,
    num_features: u32,
    num_trees: usize,
    average_tree_output: bool,
    base_score: &crate::ir::Scalar,
) -> (r: Artifact)
    ensures
        r@ == spec_ensemble_java(
            package@,
            num_features,
            num_trees,
            average_tree_output,
            base_score@,
        ),
{
    let mut contents = "package ".to_owned();
    contents.append(package);
    contents.append(
        ";\n\npublic final class TreeEnsemble {\n\n  private TreeEnsemble(){ }\n  private static final int NUM_FEATURES = ",
    );
    let nf = u64_dec(num_features as u64);
    contents.append(nf.as_str());
    contents.append(
        ";\n\n  public static double predict(double[] arr){\n     assert arr.length == NUM_FEATURES;\n     double result = 0.0;\n",
    );
    let ghost before_calls = contents@;
    let mut tu_id: usize = 0;
    while tu_id < num_trees
        invariant
            tu_id <= num_trees,
            contents@ == before_calls + spec_ensemble_calls(tu_id as nat),
        decreases num_trees - tu_id,
    {
        contents.append("     result += Tree");
        let d = u64_dec(tu_id as u64);
        contents.append(d.as_str());
        contents.append(".predict(arr);\n");
        proof {
            assert(contents@ =~= before_calls + spec_ensemble_calls((tu_id + 1) as nat));
        }
        tu_id = tu_id + 1;
    }
    if average_tree_output {
        contents.append("     result /= ");
        let k = u64_dec(num_trees as u64);
        contents.append(k.as_str());
        contents.append(".0;\n");
    }
    if base_score.nonzero {
        if base_score.positive {
            contents.append("     result += ");
            contents.append(base_score.text.as_str());
            contents.append(";\n");
        } else {
            contents.append("     result -= ");
            contents.append(base_score.abs_text.as_str());
            contents.append(";\n");
        }
    }
    contents.append("     return result;\n  }\n\n}");
    let r = Artifact { name: "TreeEnsemble.java".to_owned(), contents };
    proof {
        let a = spec_ensemble_java(
            package@,
            num_features,
            num_trees,
            average_tree_output,
            base_score@,
        );
        assert(r@.name =~= a.name);
        assert(r@.contents =~= a.contents);
    }
    r
}

/// The package name with each `.` turned into `/`: the directory, relative
/// to the destination, that every Java artifact lives under.
pub open spec fn spec_java_dir(package: Seq<char>) -> Seq<char> {
    package.map_values(|c: char| if c == '.' { '/' } else { c })
}

/// Maps the package name to its directory path.
pub fn java_dir_of(package: &str) -> (r: String)
    ensures
        r@ == spec_java_dir(package@),
{
    let n = package.unicode_len();
    let mut out = String::new();
    proof {
        reveal_strlit("/");
        assert("/"@ =~= seq!['/']);
        assert(out@ =~= spec_java_dir(package@.take(0)));
    }
    let mut i: usize = 0;
    while i < n
        invariant
            i <= n,
            n == package@.len(),
            out@ == spec_java_dir(package@.take(i as int)),
        decreases n - i,
    {
        let c = package.get_char(i);
        if c == '.' {
            out.append("/");
        } else {
            let piece = package.substring_char(i, i + 1);
            proof {
                assert(piece@ =~= seq![package@[i as int]]);
            }
            out.append(piece);
        }
        proof {
            reveal_strlit("/");
            assert("/"@ =~= seq!['/']);
            assert(out@ =~= spec_java_dir(package@.take(i as int + 1)));
        }
        i = i + 1;
    }
    proof {
        assert(package@.take(n as int) =~= package@);
    }
    out
}

/// An artifact path under `dir`: the file name alone when `dir` is empty.
pub open spec fn spec_artifact_name(dir: Seq<char>, file: Seq<char>) -> Seq<char> {
    if dir.len() == 0 {
        file
    } else {
        dir + "/"@ + file
    }
}

/// Joins `dir` and `file` into an artifact path.
fn artifact_name(dir: &str, file: String) -> (r: String)
    ensures
        r@ == spec_artifact_name(dir@, file@),
{
    if dir.unicode_len() == 0 {
        file
    } else {
        let mut r = dir.to_owned();
        r.append("/");
        r.append(file.as_str());
        r
    }
}

/// The per-tree artifacts from index `i` on, each renamed under `dir`, or
/// the fault of the first tree that fails.
pub open spec fn spec_java_trees_from(
    trees: Seq<TreeV>,
    dir: Seq<char>,
    package: Seq<char>,
    i: nat,
) -> Result<Seq<ArtifactV>, GenError>
    decreases trees.len() - i when i <= trees.len()
{
    if i >= trees.len() {
        Ok(Seq::empty())
    } else {
        match spec_tree_java(trees[i as int], i as usize, package) {
            Err(e) => Err(e),
            Ok(a) => match spec_java_trees_from(trees, dir, package, i + 1) {
                Err(e) => Err(e),
                Ok(rest) => Ok(
                    seq![ArtifactV { name: spec_artifact_name(dir, a.name), contents: a.contents }]
                        + rest,
                ),
            },
        }
    }
}

/// What generating the Java backend yields: the ensemble artifact first,
/// then one artifact per tree in input order, all under the package
/// directory; or the structural fault of the first tree that fails, in which
/// case no artifact list is returned and the run as a whole fails.
pub open spec fn spec_emit_java(m: ModelIRV, package: Seq<char>) -> Result<Seq<ArtifactV>, GenError> {
    let dir = spec_java_dir(package);
    match spec_java_trees_from(m.trees, dir, package, 0) {
        Err(e) => Err(e),
        Ok(tree_artifacts) => {
            let ens = spec_ensemble_java(
                package,
                m.num_features,
                m.trees.len() as usize,
                m.average_tree_output,
                m.base_score,
            );
            Ok(
                seq![ArtifactV { name: spec_artifact_name(dir, ens.name), contents: ens.contents }]
                    + tree_artifacts,
            )
        },
    }
}

/// The view of a generation result.
pub open spec fn artifacts_result_view(r: Result<Vec<Artifact>, GenError>) -> Result<
    Seq<ArtifactV>,
    GenError,
> {
    match r {
        Ok(v) => Ok(v@.map_values(|a: Artifact| a@)),
        Err(e) => Err(e),
    }
}

/// Generates every Java artifact for the model: the ensemble unit and one
/// unit per tree. The first structural fault aborts the whole run.
pub fn emit_java(model: &ModelIR, package: &str) -> (r: Result<Vec<Artifact>, GenError>)
    ensures
        artifacts_result_view(r) == spec_emit_java(model@, package@),
{
    let dir = java_dir_of(package);
    let ens = emit_ensemble(
        package,
        model.num_features,
        model.trees.len(),
        model.average_tree_output,
        &model.base_score,
    );
    let mut artifacts: Vec<Artifact> = Vec::new();
    let ens_named = Artifact {
        name: artifact_name(dir.as_str(), ens.name),
        contents: ens.contents,
    };
    artifacts.push(ens_named);
    let ghost trees_v = model@.trees;
    let ghost ens_v = ArtifactV {
        name: spec_artifact_name(
            spec_java_dir(package@),
            spec_ensemble_java(
                package@,
                model@.num_features,
                model@.trees.len() as usize,
                model@.average_tree_output,
                model@.base_score,
            ).name,
        ),
        contents: spec_ensemble_java(
            package@,
            model@.num_features,
            model@.trees.len() as usize,
            model@.average_tree_output,
            model@.base_score,
        ).contents,
    };
    proof {
        assert(artifacts@.map_values(|a: Artifact| a@) =~= seq![ens_v]);
    }
    let mut i: usize = 0;
    while i < model.trees.len()
        invariant
            i <= model.trees.len(),
            trees_v == model@.trees,
            trees_v.len() == model.trees.len(),
            dir@ == spec_java_dir(package@),
            ens_v == (ArtifactV {
                name: spec_artifact_name(
                    spec_java_dir(package@),
                    spec_ensemble_java(
                        package@,
                        model@.num_features,
                        model@.trees.len() as usize,
                        model@.average_tree_output,
                        model@.base_score,
                    ).name,
                ),
                contents: spec_ensemble_java(
                    package@,
                    model@.num_features,
                    model@.trees.len() as usize,
                    model@.average_tree_output,
                    model@.base_score,
                ).contents,
            }),
            artifacts@.map_values(|a: Artifact| a@).len() == i + 1,
            spec_emit_java(model@, package@) == match spec_java_trees_from(
                trees_v,
                spec_java_dir(package@),
                package@,
                i as nat,
            ) {
                Ok(rest) => Ok::<Seq<ArtifactV>, GenError>(
                    artifacts@.map_values(|a: Artifact| a@) + rest,
                ),
                Err(e) => Err(e),
            },
        decreases model.trees.len() - i,
    {
        proof {
            assert(trees_v[i as int] == model.trees@.map_values(|t: Tree| t@)[i as int]);
        }
        let a = match emit_tree(&model.trees[i], i, package) {
            Ok(a) => a,
            Err(e) => {
                return Err(e);
            },
        };
        let named = Artifact { name: artifact_name(dir.as_str(), a.name), contents: a.contents };
        proof {
            let ghost old_views = artifacts@.map_values(|a: Artifact| a@);
            match spec_java_trees_from(trees_v, spec_java_dir(package@), package@, i as nat + 1) {
                Ok(rest) => {
                    assert(old_views + (seq![named@] + rest) =~= old_views.push(named@) + rest);
                },
                Err(_) => {},
            }
        }
        let ghost old_views = artifacts@.map_values(|a: Artifact| a@);
        artifacts.push(named);
        proof {
            assert(artifacts@.map_values(|a: Artifact| a@) =~= old_views.push(named@));
        }
        i = i + 1;
    }
    proof {
        assert(artifacts@.map_values(|a: Artifact| a@) + Seq::<ArtifactV>::empty()
            =~= artifacts@.map_values(|a: Artifact| a@));
    }
    Ok(artifacts)
}

} // verus!
