//! The rules by which nodes of a syntax tree are taken over.

use vstd::prelude::*;

use crate::types::ProcessingOptions;

verus! {

/// The number of collected nodes from which on a tree is not descended into
/// any further: a thousand for each level of the permitted depth.
pub open spec fn node_budget(options: ProcessingOptions) -> nat {
    options.max_depth as nat * 1000
}

/// Whether a node is taken over: it is if it is named, or unnamed nodes are
/// asked for, and its text is no longer than the permitted length.
pub fn keeps_node(options: &ProcessingOptions, is_named: bool, text_length: usize) -> (kept: bool)
    ensures
        kept == ((options.include_unnamed_nodes || is_named) && text_length
            <= options.max_node_length),
{
    (options.include_unnamed_nodes || is_named) && text_length <= options.max_node_length as usize
}

/// Whether the children of a node are visited: they are while fewer nodes
/// have been collected than the budget allows.
pub fn descends(options: &ProcessingOptions, collected: usize) -> (further: bool)
    ensures
        further == (collected < node_budget(*options)),
{
    (collected as u128) < (options.max_depth as u128) * 1000
}

} // verus!
