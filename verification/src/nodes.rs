use vstd::prelude::*;

verus! {

/// The kinds of node that the node graph offers to add.
#[derive(Clone, Copy, Debug, PartialEq, Eq, Structural)]
pub enum AddibleNodes {
    Kasl,
    Automation,
}

/// The label shown for a node kind in the node menu.
pub open spec fn addible_node_name(node: AddibleNodes) -> Seq<char> {
    match node {
        AddibleNodes::Kasl => "KASL Node"@,
        AddibleNodes::Automation => "Automation Node"@,
    }
}

impl AddibleNodes {
    /// Returns the label of this node kind.
    pub fn name(&self) -> (name: &'static str)
        ensures
            name@ == addible_node_name(*self),
    {
        match self {
            AddibleNodes::Kasl => "KASL Node",
            AddibleNodes::Automation => "Automation Node",
        }
    }

    /// Returns every node kind, in menu order.
    pub fn all() -> (all: Vec<AddibleNodes>)
        ensures
            all@ == seq![AddibleNodes::Kasl, AddibleNodes::Automation],
    {
        vec![AddibleNodes::Kasl, AddibleNodes::Automation]
    }
}

/// The number of port rows a node shows: as many as its longer side, and
/// at least one.
pub fn port_row_count(input_len: usize, output_len: usize) -> (rows: usize)
    ensures
        rows >= 1,
        rows >= input_len,
        rows >= output_len,
        rows == input_len || rows == output_len || rows == 1,
{
    let longest = if input_len >= output_len {
        input_len
    } else {
        output_len
    };
    if longest >= 1 {
        longest
    } else {
        1
    }
}

} // verus!
