//! The computation graph and its lowering to kernel source text.

use vstd::prelude::*;

verus! {

/// A node of the computation graph. A node owns its children, so a graph is
/// a finite tree; it is built bottom-up and never changed afterwards.
#[derive(Debug, PartialEq, Eq)]
pub enum ComputationGraphNode {
    /// One element of a 2-D source: source, row index, column index.
    Get2D(Box<ComputationGraphNode>, Box<ComputationGraphNode>, Box<ComputationGraphNode>),
    /// The sum of two values.
    Add(Box<ComputationGraphNode>, Box<ComputationGraphNode>),
    /// The product of two values.
    Mul(Box<ComputationGraphNode>, Box<ComputationGraphNode>),
    /// A numeric constant, held as the decimal text of its value.
    Value(String),
    /// A name that the backend resolves: a registered parameter or one of
    /// the two grid coordinates.
    Variable(String),
}

/// Something that can be lowered to a fragment of kernel source.
pub trait ToShader {
    /// The fragment, as a function of the value alone.
    spec fn shader_text(&self) -> Seq<char>;

    /// Lowers the value to its fragment.
    fn to_shader(&self) -> (fragment: String)
        ensures
            fragment@ == self.shader_text(),
    ;
}

/// The token that stands for the column of the cell being computed.
pub open spec fn grid_col_token() -> Seq<char> {
    "this.thread.x"@
}

/// The token that stands for the row of the cell being computed.
pub open spec fn grid_row_token() -> Seq<char> {
    "this.thread.y"@
}

impl ComputationGraphNode {
    /// The source fragment of a tree, by structural recursion: an operator
    /// between its operands with blanks around each, an element fetch as the
    /// source followed by the row and the column in brackets, a leaf as the
    /// text it holds.
    pub open spec fn rendered(&self) -> Seq<char>
        decreases self,
    {
        match self {
            ComputationGraphNode::Add(left, right) => " "@ + left.rendered() + " + "@
                + right.rendered() + " "@,
            ComputationGraphNode::Mul(left, right) => " "@ + left.rendered() + " * "@
                + right.rendered() + " "@,
            ComputationGraphNode::Get2D(source, row, col) => source.rendered() + "["@
                + row.rendered() + "]["@ + col.rendered() + "]"@,
            ComputationGraphNode::Value(text) => text@,
            ComputationGraphNode::Variable(name) => name@,
        }
    }

    /// Lowers the tree to its source fragment.
    pub fn render(&self) -> (fragment: String)
        ensures
            fragment@ == self.rendered(),
        decreases self,
    {
        match self {
            ComputationGraphNode::Add(left, right) => {
                let mut out = String::from_str(" ");
                out.append(left.render().as_str());
                out.append(" + ");
                out.append(right.render().as_str());
                out.append(" ");
                out
            },
            ComputationGraphNode::Mul(left, right) => {
                let mut out = String::from_str(" ");
                out.append(left.render().as_str());
                out.append(" * ");
                out.append(right.render().as_str());
                out.append(" ");
                out
            },
            ComputationGraphNode::Get2D(source, row, col) => {
                let mut out = source.render();
                out.append("[");
                out.append(row.render().as_str());
                out.append("][");
                out.append(col.render().as_str());
                out.append("]");
                out
            },
            ComputationGraphNode::Value(text) => text.clone(),
            ComputationGraphNode::Variable(name) => name.clone(),
        }
    }
}

impl ToShader for ComputationGraphNode {
    open spec fn shader_text(&self) -> Seq<char> {
        self.rendered()
    }

    fn to_shader(&self) -> (fragment: String) {
        self.render()
    }
}

/// The column of the cell being computed.
pub fn output_x() -> (node: ComputationGraphNode)
    ensures
        node.rendered() == grid_col_token(),
        node matches ComputationGraphNode::Variable(name) && name@ == grid_col_token(),
{
    ComputationGraphNode::Variable(String::from_str("this.thread.x"))
}

/// The row of the cell being computed.
pub fn output_y() -> (node: ComputationGraphNode)
    ensures
        node.rendered() == grid_row_token(),
        node matches ComputationGraphNode::Variable(name) && name@ == grid_row_token(),
{
    ComputationGraphNode::Variable(String::from_str("this.thread.y"))
}

/// The sum of `a` and `b`.
pub fn add(a: ComputationGraphNode, b: ComputationGraphNode) -> (node: ComputationGraphNode)
    ensures
        node == ComputationGraphNode::Add(Box::new(a), Box::new(b)),
{
    ComputationGraphNode::Add(Box::new(a), Box::new(b))
}

/// The product of `a` and `b`.
pub fn mul(a: ComputationGraphNode, b: ComputationGraphNode) -> (node: ComputationGraphNode)
    ensures
        node == ComputationGraphNode::Mul(Box::new(a), Box::new(b)),
{
    ComputationGraphNode::Mul(Box::new(a), Box::new(b))
}

/// The element of `source` at `row` and `col`.
pub fn get_2d(
    source: ComputationGraphNode,
    row: ComputationGraphNode,
    col: ComputationGraphNode,
) -> (node: ComputationGraphNode)
    ensures
        node == ComputationGraphNode::Get2D(Box::new(source), Box::new(row), Box::new(col)),
{
    ComputationGraphNode::Get2D(Box::new(source), Box::new(row), Box::new(col))
}

/// Lowering is a function of the tree: two fragments made from one tree are
/// the same text.
pub proof fn lemma_render_deterministic(
    node: ComputationGraphNode,
    first: String,
    second: String,
)
    requires
        first@ == node.shader_text(),
        second@ == node.shader_text(),
    ensures
        first@ == second@,
{
}

} // verus!
