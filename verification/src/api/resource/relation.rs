//! Links between resources.

use vstd::prelude::*;

verus! {

/// A link with its relation name.
pub struct Relation {
    pub rel: String,
    pub href: String,
}

/// A link in the HAL format.
pub struct HalLink {
    pub href: String,
}

impl Relation {
    /// The relation name and target of the link.
    pub open spec fn spec_pair(self) -> (Seq<char>, Seq<char>) {
        (self.rel@, self.href@)
    }
}

/// The relation names and targets of a list of links.
pub open spec fn relation_pairs(links: Seq<Relation>) -> Seq<(Seq<char>, Seq<char>)> {
    links.map_values(|r: Relation| r.spec_pair())
}

/// The target of an optional HAL link.
pub open spec fn hal_href(link: Option<HalLink>) -> Option<Seq<char>> {
    match link {
        Some(l) => Some(l.href@),
        None => None,
    }
}

} // verus!
