//! The catalogue: the racks and subject types that a steward administers.

use std::sync::Arc;
use vstd::prelude::*;

verus! {

/// A place for one plugin on a rack.
#[derive(Debug)]
pub struct Shelf {
    pub name: String,
    /// The shape version that plugins target.
    pub shape: u32,
    /// Older shapes that are still admitted.
    pub shape_supports: Vec<u32>,
    pub description: String,
}

/// A concern of the device, with its shelves.
#[derive(Debug)]
pub struct Rack {
    pub name: String,
    pub charter: String,
    pub shelves: Vec<Shelf>,
}

/// A declared subject type.
#[derive(Debug)]
pub struct SubjectDeclaration {
    pub name: String,
}

/// The declarations of a device.
#[derive(Debug)]
pub struct Catalogue {
    pub racks: Vec<Rack>,
    pub subjects: Vec<SubjectDeclaration>,
}

impl Default for Catalogue {
    fn default() -> (r: Catalogue)
        ensures
            r.racks@.len() == 0,
            r.subjects@.len() == 0,
    {
        Catalogue { racks: Vec::new(), subjects: Vec::new() }
    }
}

/// The tier of the resilience chain that produced the loaded catalogue.
#[derive(Debug, Clone, Copy, PartialEq, Eq, Structural)]
pub enum CatalogueSource {
    /// The configured catalogue.
    Configured,
    /// The last known good copy.
    Lkg,
    /// The copy that is built in.
    Builtin,
}

impl CatalogueSource {
    /// The tier's name on the wire.
    pub open spec fn text(self) -> Seq<char> {
        match self {
            CatalogueSource::Configured => "configured"@,
            CatalogueSource::Lkg => "lkg"@,
            CatalogueSource::Builtin => "builtin"@,
        }
    }

    /// The tier's name on the wire.
    pub fn as_str(self) -> (r: &'static str)
        ensures
            r@ == self.text(),
    {
        match self {
            CatalogueSource::Configured => "configured",
            CatalogueSource::Lkg => "lkg",
            CatalogueSource::Builtin => "builtin",
        }
    }
}

/// How far the wall clock can be trusted.
#[derive(Debug, Clone, Copy, PartialEq, Eq, Structural)]
pub enum TimeTrust {
    Untrusted,
    Trusted,
    Stale,
    Adjusting,
}

impl TimeTrust {
    /// The state's name on the wire.
    pub open spec fn text(self) -> Seq<char> {
        match self {
            TimeTrust::Untrusted => "untrusted"@,
            TimeTrust::Trusted => "trusted"@,
            TimeTrust::Stale => "stale"@,
            TimeTrust::Adjusting => "adjusting"@,
        }
    }

    /// The state's name on the wire.
    pub fn as_str(self) -> (r: &'static str)
        ensures
            r@ == self.text(),
    {
        match self {
            TimeTrust::Untrusted => "untrusted",
            TimeTrust::Trusted => "trusted",
            TimeTrust::Stale => "stale",
            TimeTrust::Adjusting => "adjusting",
        }
    }
}

/// A slot for the catalogue in use, over `arc_swap::ArcSwap`: readers take a
/// snapshot without a lock while another catalogue is published.
#[verifier::external_body]
pub struct CatalogueCell {
    inner: arc_swap::ArcSwap<Catalogue>,
}

/// The catalogues that a slot holds in the course of its life.
pub uninterp spec fn catalogues_of(cell: CatalogueCell) -> Set<Catalogue>;

/// One catalogue makes way for another: the slot holds both in the course of its
/// life.
pub open spec fn makes_way(cell: CatalogueCell, replaced: Catalogue, next: Catalogue) -> bool {
    &&& catalogues_of(cell).contains(replaced)
    &&& catalogues_of(cell).contains(next)
}

/// Calls `arc_swap::ArcSwap::new`: a slot that holds the catalogue first.
#[verifier::external_body]
pub(crate) fn catalogue_cell(catalogue: Arc<Catalogue>) -> (r: CatalogueCell)
    ensures
        catalogues_of(r).contains(*catalogue),
{
    CatalogueCell { inner: arc_swap::ArcSwap::new(catalogue) }
}

/// Calls `arc_swap::ArcSwap::load_full`: a handle on the catalogue that the slot
/// holds at that moment. Which one that is, is left unsaid: others may publish
/// meanwhile.
#[verifier::external_body]
pub(crate) fn load_catalogue(cell: &CatalogueCell) -> (r: Arc<Catalogue>)
    ensures
        catalogues_of(*cell).contains(*r),
{
    cell.inner.load_full()
}

/// Calls `arc_swap::ArcSwap::swap`: puts the catalogue into the slot and gives
/// the one that it replaced. That the slot holds the new one from then on is left
/// unsaid: others may publish meanwhile.
#[verifier::external_body]
pub(crate) fn swap_catalogue(cell: &CatalogueCell, catalogue: Arc<Catalogue>) -> (r: Arc<
    Catalogue,
>)
    ensures
        makes_way(*cell, *r, *catalogue),
{
    cell.inner.swap(catalogue)
}

}
