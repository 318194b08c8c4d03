//! The attributes of one `nom` attribute.

use vstd::prelude::*;
use crate::meta::attr::{attrs_view, MetaAttr, MetaAttrView};

verus! {

/// The validated items of one attribute, in the order in which they are
/// written.
#[derive(Debug, PartialEq, Eq)]
pub struct AttrList(pub Vec<MetaAttr>);

impl View for AttrList {
    type V = Seq<MetaAttrView>;

    open spec fn view(&self) -> Seq<MetaAttrView> {
        attrs_view(self.0@)
    }
}

} // verus!
