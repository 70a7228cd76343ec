//! The two failure taxonomies of the pipeline: schema/validation faults found
//! while decoding, and structural faults found while generating code. Every
//! fault is fatal and names the offending value; there is no local recovery.

use vstd::prelude::*;
use crate::text::{dec_str, u64_dec};

verus! {

/// A schema or validation fault: the model asks for a configuration the
/// generator does not support, or a required field of an inferred node
/// variant is absent.
#[derive(Debug, Clone)]
pub enum DecodeError {
    /// A node carried `has_categorical_split == true`.
    CategoricalSplitFlag,
    /// A node carried `category_list_right_child == false`; only the
    /// "membership selects the right subtree" convention is supported.
    CategoryListDirection,
    /// A `node_type` value other than the supported test-node markers.
    NodeType(String),
    /// A field required by the node's inferred variant was absent.
    MissingField(String),
    /// A `leaf_output_type` other than `float32` or `float64`.
    LeafOutputType(String),
    /// A `num_target` other than `1`.
    NumTarget(u32),
    /// A `task_type` other than the supported regression marker.
    TaskType(String),
    /// A `base_scores` sequence whose length is not `1`.
    BaseScores(usize),
}

pub enum DecodeErrorV {
    CategoricalSplitFlag,
    CategoryListDirection,
    NodeType(Seq<char>),
    MissingField(Seq<char>),
    LeafOutputType(Seq<char>),
    NumTarget(u32),
    TaskType(Seq<char>),
    BaseScores(usize),
}

impl View for DecodeError {
    type V = DecodeErrorV;

    open spec fn view(&self) -> DecodeErrorV {
        match self {
            DecodeError::CategoricalSplitFlag => DecodeErrorV::CategoricalSplitFlag,
            DecodeError::CategoryListDirection => DecodeErrorV::CategoryListDirection,
            DecodeError::NodeType(t) => DecodeErrorV::NodeType(t@),
            DecodeError::MissingField(f) => DecodeErrorV::MissingField(f@),
            DecodeError::LeafOutputType(t) => DecodeErrorV::LeafOutputType(t@),
            DecodeError::NumTarget(n) => DecodeErrorV::NumTarget(*n),
            DecodeError::TaskType(t) => DecodeErrorV::TaskType(t@),
            DecodeError::BaseScores(n) => DecodeErrorV::BaseScores(*n),
        }
    }
}

/// The report text for each decode fault, naming the unsupported value.
pub open spec fn spec_decode_message(e: DecodeErrorV) -> Seq<char> {
    match e {
        DecodeErrorV::CategoricalSplitFlag => "Unsupported categorical split"@,
        DecodeErrorV::CategoryListDirection => "Unsupported category list right child"@,
        DecodeErrorV::NodeType(t) => "Not supported node type: "@ + t,
        DecodeErrorV::MissingField(f) => "Missing field: "@ + f,
        DecodeErrorV::LeafOutputType(t) => "Unsupported leaf output type: "@ + t,
        DecodeErrorV::NumTarget(n) => "Unsupported num target: "@ + dec_str(n as nat),
        DecodeErrorV::TaskType(t) => "Unsupported task type: "@ + t,
        DecodeErrorV::BaseScores(n) => "Unsupported json.base_scores.len() == "@ + dec_str(
            n as nat,
        ),
    }
}

impl DecodeError {
    /// Renders the fault for reporting.
    pub fn message(&self) -> (r: String)
        ensures
            r@ == spec_decode_message(self@),
    {
        match self {
            DecodeError::CategoricalSplitFlag => "Unsupported categorical split".to_owned(),
            DecodeError::CategoryListDirection => "Unsupported category list right child"
                .to_owned(),
            DecodeError::NodeType(t) => {
                let mut s = "Not supported node type: ".to_owned();
                s.append(t.as_str());
                s
            },
            DecodeError::MissingField(f) => {
                let mut s = "Missing field: ".to_owned();
                s.append(f.as_str());
                s
            },
            DecodeError::LeafOutputType(t) => {
                let mut s = "Unsupported leaf output type: ".to_owned();
                s.append(t.as_str());
                s
            },
            DecodeError::NumTarget(n) => {
                let mut s = "Unsupported num target: ".to_owned();
                let d = u64_dec(*n as u64);
                s.append(d.as_str());
                s
            },
            DecodeError::TaskType(t) => {
                let mut s = "Unsupported task type: ".to_owned();
                s.append(t.as_str());
                s
            },
            DecodeError::BaseScores(n) => {
                let mut s = "Unsupported json.base_scores.len() == ".to_owned();
                let d = u64_dec(*n as u64);
                s.append(d.as_str());
                s
            },
        }
    }
}

/// A structural fault of the intermediate representation, found while
/// generating code: a referenced node identifier does not resolve within its
/// tree, or a reference chain exceeds the tree's node count (which a finite
/// tree of distinct nodes can never do).
#[derive(Debug, Clone, Copy, PartialEq, Eq, Structural)]
pub enum GenError {
    /// `node_id` was referenced but is absent from the node index of the tree
    /// at `tree_index`.
    MissingNode { tree_index: usize, node_id: u32 },
    /// The walk from the root reached `node_id` in the tree at `tree_index`
    /// after visiting as many nodes as the tree holds, so a reference cycle
    /// must be present.
    DepthLimit { tree_index: usize, node_id: u32 },
}

/// The report text for each generation fault, naming the offending node
/// identifier and tree index.
pub open spec fn spec_gen_message(e: GenError) -> Seq<char> {
    match e {
        GenError::MissingNode { tree_index, node_id } => "Missing node "@ + dec_str(
            node_id as nat,
        ) + " in tree "@ + dec_str(tree_index as nat),
        GenError::DepthLimit { tree_index, node_id } => "Depth limit exceeded at node "@ + dec_str(
            node_id as nat,
        ) + " in tree "@ + dec_str(tree_index as nat),
    }
}

impl GenError {
    /// Renders the fault for reporting.
    pub fn message(&self) -> (r: String)
        ensures
            r@ == spec_gen_message(*self),
    {
        match self {
            GenError::MissingNode { tree_index, node_id } => {
                let mut s = "Missing node ".to_owned();
                let d = u64_dec(*node_id as u64);
                s.append(d.as_str());
                s.append(" in tree ");
                let t = u64_dec(*tree_index as u64);
                s.append(t.as_str());
                s
            },
            GenError::DepthLimit { tree_index, node_id } => {
                let mut s = "Depth limit exceeded at node ".to_owned();
                let d = u64_dec(*node_id as u64);
                s.append(d.as_str());
                s.append(" in tree ");
                let t = u64_dec(*tree_index as u64);
                s.append(t.as_str());
                s
            },
        }
    }
}

} // verus!
