//! Cross-cutting guarantees of the pipeline, stated and proved once over
//! the specification functions that the executable contracts are written
//! against.

use vstd::prelude::*;
use crate::artifact::ArtifactV;
use crate::backend_c;
use crate::backend_java;
use crate::cli::Backend;
use crate::dispatch::spec_emit;
use crate::errors::{DecodeErrorV, GenError};
use crate::ir::{CategoricalTestNodeV, ModelIRV, NodeV, TestNodeV, TreeV, spec_find};
use crate::schema::{ModelJSONV, spec_decode};

verus! {

/// A model whose `num_target` is not `1` is rejected by the decoder, once
/// the leaf output type has passed, with the error naming that value; no
/// model is built, so generation never starts and no artifact exists.
pub proof fn lemma_num_target_rejected(m: ModelJSONV)
    requires
        m.leaf_output_type == "float64"@ || m.leaf_output_type == "float32"@,
        m.num_target != 1,
    ensures
        spec_decode(m) == Err::<ModelIRV, DecodeErrorV>(DecodeErrorV::NumTarget(m.num_target)),
{
}

/// Generation is deterministic: it is a function of the validated model,
/// the backend and the package name alone, so two runs over equal inputs
/// yield equal artifact lists, byte for byte. Nothing time-, process- or
/// ordering-dependent enters any artifact.
pub proof fn lemma_generation_deterministic(
    m1: ModelIRV,
    m2: ModelIRV,
    backend: Backend,
    package1: Seq<char>,
    package2: Seq<char>,
)
    requires
        m1 == m2,
        package1 == package2,
    ensures
        spec_emit(m1, backend, package1) == spec_emit(m2, backend, package2),
{
}

/// Membership in the category list routes to the right subtree, in the Java
/// backend: the emitted guard is the negated membership test, so the left
/// subtree's code stands in the then-branch and the right subtree's code in
/// the else-branch.
pub proof fn lemma_categorical_selects_right_java(
    nodes: Seq<NodeV>,
    c: CategoricalTestNodeV,
    ind: Seq<char>,
    fuel: nat,
    tree_index: usize,
    lnode: NodeV,
    rnode: NodeV,
    ltext: Seq<char>,
    rtext: Seq<char>,
)
    requires
        fuel > 0,
        spec_find(nodes, c.left_child) == Some(lnode),
        spec_find(nodes, c.right_child) == Some(rnode),
        backend_java::spec_node_java(nodes, lnode, ind + "  "@, (fuel - 1) as nat, tree_index)
            == Ok::<Seq<char>, GenError>(ltext),
        backend_java::spec_node_java(nodes, rnode, ind + "  "@, (fuel - 1) as nat, tree_index)
            == Ok::<Seq<char>, GenError>(rtext),
    ensures
        backend_java::spec_node_java(nodes, NodeV::Categorical(c), ind, fuel, tree_index)
            == Ok::<Seq<char>, GenError>(
            backend_java::spec_cat_head_java(c, ind) + ltext + ind + "} else {\n"@ + rtext + ind
                + "}\n"@,
        ),
{
}

/// Membership in the category list routes to the right subtree, in the C
/// backend, in the same way.
pub proof fn lemma_categorical_selects_right_c(
    nodes: Seq<NodeV>,
    c: CategoricalTestNodeV,
    ind: Seq<char>,
    fuel: nat,
    tree_index: usize,
    lnode: NodeV,
    rnode: NodeV,
    ltext: Seq<char>,
    rtext: Seq<char>,
)
    requires
        fuel > 0,
        spec_find(nodes, c.left_child) == Some(lnode),
        spec_find(nodes, c.right_child) == Some(rnode),
        backend_c::spec_node_c(nodes, lnode, ind + "  "@, (fuel - 1) as nat, tree_index)
            == Ok::<Seq<char>, GenError>(ltext),
        backend_c::spec_node_c(nodes, rnode, ind + "  "@, (fuel - 1) as nat, tree_index)
            == Ok::<Seq<char>, GenError>(rtext),
    ensures
        backend_c::spec_node_c(nodes, NodeV::Categorical(c), ind, fuel, tree_index)
            == Ok::<Seq<char>, GenError>(
            backend_c::spec_cat_head_c(c, ind) + ltext + ind + "} else {\n"@ + rtext + ind
                + "}\n"@,
        ),
{
}

/// A tree whose root is a numeric test referencing a `left_child` absent
/// from the tree's node index fails Java generation with a structural error
/// naming that identifier.
pub proof fn lemma_missing_child_fails_tree_java(
    t: TreeV,
    tu_id: usize,
    package: Seq<char>,
    tn: TestNodeV,
)
    requires
        spec_find(t.nodes, 0) == Some(NodeV::TestNode(tn)),
        spec_find(t.nodes, tn.left_child) is None,
    ensures
        backend_java::spec_tree_java(t, tu_id, package) == Err::<ArtifactV, GenError>(
            GenError::MissingNode { tree_index: tu_id, node_id: tn.left_child },
        ),
{
    assert(t.nodes.len() > 0);
}

/// The same, for the C backend.
pub proof fn lemma_missing_child_fails_tree_c(t: TreeV, tu_id: usize, tn: TestNodeV)
    requires
        spec_find(t.nodes, 0) == Some(NodeV::TestNode(tn)),
        spec_find(t.nodes, tn.left_child) is None,
    ensures
        backend_c::spec_tree_c(t, tu_id) == Err::<ArtifactV, GenError>(
            GenError::MissingNode { tree_index: tu_id, node_id: tn.left_child },
        ),
{
    assert(t.nodes.len() > 0);
}

/// Helper: once the first faulty tree is reached, the Java per-tree walk
/// reports its fault.
proof fn lemma_java_trees_from_err(
    trees: Seq<TreeV>,
    dir: Seq<char>,
    package: Seq<char>,
    k: nat,
    i: nat,
    e: GenError,
)
    requires
        k <= i < trees.len(),
        backend_java::spec_tree_java(trees[i as int], i as usize, package) == Err::<
            ArtifactV,
            GenError,
        >(e),
        forall|j: int|
            k <= j < i ==> #[trigger] backend_java::spec_tree_java(
                trees[j],
                j as usize,
                package,
            ) is Ok,
    ensures
        backend_java::spec_java_trees_from(trees, dir, package, k) == Err::<
            Seq<ArtifactV>,
            GenError,
        >(e),
    decreases i - k,
{
    if k < i {
        lemma_java_trees_from_err(trees, dir, package, k + 1, i, e);
    }
}

/// A structural fault in any tree aborts the whole Java run: when the trees
/// before it generate and tree `i` fails with `e`, the run as a whole
/// reports `e` and returns no artifact list.
pub proof fn lemma_tree_fault_aborts_java(m: ModelIRV, package: Seq<char>, i: usize, e: GenError)
    requires
        i < m.trees.len(),
        backend_java::spec_tree_java(m.trees[i as int], i, package) == Err::<ArtifactV, GenError>(
            e,
        ),
        forall|j: int|
            0 <= j < i ==> #[trigger] backend_java::spec_tree_java(
                m.trees[j],
                j as usize,
                package,
            ) is Ok,
    ensures
        backend_java::spec_emit_java(m, package) == Err::<Seq<ArtifactV>, GenError>(e),
{
    lemma_java_trees_from_err(
        m.trees,
        backend_java::spec_java_dir(package),
        package,
        0,
        i as nat,
        e,
    );
}

/// Helper: once the first faulty tree is reached, the C per-tree walk
/// reports its fault.
proof fn lemma_c_trees_from_err(trees: Seq<TreeV>, k: nat, i: nat, e: GenError)
    requires
        k <= i < trees.len(),
        backend_c::spec_tree_c(trees[i as int], i as usize) == Err::<ArtifactV, GenError>(e),
        forall|j: int|
            k <= j < i ==> #[trigger] backend_c::spec_tree_c(trees[j], j as usize) is Ok,
    ensures
        backend_c::spec_c_trees_from(trees, k) == Err::<Seq<ArtifactV>, GenError>(e),
    decreases i - k,
{
    if k < i {
        lemma_c_trees_from_err(trees, k + 1, i, e);
    }
}

/// A structural fault in any tree aborts the whole C run, in the same way.
pub proof fn lemma_tree_fault_aborts_c(m: ModelIRV, i: usize, e: GenError)
    requires
        i < m.trees.len(),
        backend_c::spec_tree_c(m.trees[i as int], i) == Err::<ArtifactV, GenError>(e),
        forall|j: int|
            0 <= j < i ==> #[trigger] backend_c::spec_tree_c(m.trees[j], j as usize) is Ok,
    ensures
        backend_c::spec_emit_c(m) == Err::<Seq<ArtifactV>, GenError>(e),
{
    lemma_c_trees_from_err(m.trees, 0, i as nat, e);
}

} // verus!
