//! The input capability box-tree construction requires of a content node:
//! its computed style, whether it carries replaced content, and its
//! children, as one plain tree.

use vstd::prelude::*;

use std::sync::Arc;

use crate::replaced::ReplacedContent;
use crate::style_ext::ComputedStyle;

verus! {

/// One styled content node, as the style system hands it to layout.
pub struct StyledNode {
    pub style: Arc<ComputedStyle>,
    /// The replaced content the node carries, if any; a node with replaced
    /// content never has its children laid out.
    pub replaced: Option<ReplacedContent>,
    pub children: Vec<StyledNode>,
}

impl StyledNode {
    /// A leaf node with the given style and no replaced content.
    pub fn leaf(style: ComputedStyle) -> (r: StyledNode)
        ensures
            r.style == style,
            r.replaced is None,
            r.children@.len() == 0,
    {
        StyledNode { style: Arc::new(style), replaced: None, children: Vec::new() }
    }
}

} // verus!
