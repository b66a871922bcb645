//! What is admitted: the inventory of plugins and the census of a rack.

use crate::catalogue::{Catalogue, Rack, Shelf};
use crate::errors::{is_error, refusal, ErrorClass};
use crate::responses::{ClientResponse, PluginInventoryEntry, RackShelfEntry, RackShelfOccupant};
use crate::text::{concat2, concat3, same_text};
use vstd::prelude::*;
use vstd::string::*;

verus! {

/// An admitted plugin as the router knows it. The kind is missing while the
/// plugin is in transition or busy.
#[derive(Debug)]
pub struct AdmittedPlugin {
    pub name: String,
    /// The shelf, with its rack.
    pub shelf: String,
    pub kind: Option<String>,
}

impl AdmittedPlugin {
    /// The plugin's kind as it is shown.
    pub open spec fn shown_kind(self) -> Seq<char> {
        match self.kind {
            Some(kind) => kind@,
            None => "unknown"@,
        }
    }

    fn kind_text(&self) -> (r: String)
        ensures
            r@ == self.shown_kind(),
    {
        match &self.kind {
            Some(kind) => kind.clone(),
            None => "unknown".to_owned(),
        }
    }
}

/// The entry of an admitted plugin.
pub open spec fn lists(entry: PluginInventoryEntry, plugin: AdmittedPlugin) -> bool {
    &&& entry.name == plugin.name
    &&& entry.shelf == plugin.shelf
    &&& entry.interaction_kind@ == plugin.shown_kind()
}

/// The answer to `list_plugins`: every admitted plugin, in admission order.
pub fn handle_list_plugins(admitted: &Vec<AdmittedPlugin>, current_seq: u64) -> (r: ClientResponse)
    ensures
        r matches ClientResponse::Plugins { plugins_inventory, current_seq: seq, plugins }
            && plugins_inventory && seq == current_seq && plugins@.len() == admitted@.len()
            && forall|i: int|
            0 <= i < admitted@.len() ==> lists(#[trigger] plugins@[i], admitted@[i]),
{
    let mut plugins: Vec<PluginInventoryEntry> = Vec::new();
    let mut i: usize = 0;
    while i < admitted.len()
        invariant
            i <= admitted.len(),
            plugins@.len() == i,
            forall|j: int| 0 <= j < i ==> lists(#[trigger] plugins@[j], admitted@[j]),
        decreases admitted.len() - i,
    {
        let plugin = &admitted[i];
        plugins.push(
            PluginInventoryEntry {
                name: plugin.name.clone(),
                shelf: plugin.shelf.clone(),
                interaction_kind: plugin.kind_text(),
            },
        );
        i += 1;
    }
    ClientResponse::Plugins { plugins_inventory: true, current_seq, plugins }
}

/// The first rack of this name.
pub open spec fn rack_at(catalogue: Catalogue, name: Seq<char>, i: int) -> bool {
    &&& 0 <= i < catalogue.racks@.len()
    &&& catalogue.racks@[i].name@ == name
    &&& forall|j: int| 0 <= j < i ==> (#[trigger] catalogue.racks@[j]).name@ != name
}

/// The plugin that was last admitted on a shelf.
pub open spec fn occupant_of(admitted: Seq<AdmittedPlugin>, shelf: Seq<char>) -> Option<
    AdmittedPlugin,
>
    decreases admitted.len(),
{
    if admitted.len() == 0 {
        None
    } else if admitted.last().shelf@ == shelf {
        Some(admitted.last())
    } else {
        occupant_of(admitted.drop_last(), shelf)
    }
}

/// The entry of a shelf.
pub open spec fn surveys(
    entry: RackShelfEntry,
    rack: Rack,
    shelf: Shelf,
    admitted: Seq<AdmittedPlugin>,
) -> bool {
    &&& entry.name == shelf.name
    &&& entry.fully_qualified@ == rack.name@ + "."@ + shelf.name@
    &&& entry.shape == shelf.shape
    &&& entry.shape_supports@ == shelf.shape_supports@
    &&& entry.description == shelf.description
    &&& match (entry.occupant, occupant_of(admitted, rack.name@ + "."@ + shelf.name@)) {
        (Some(o), Some(p)) => o.plugin == p.name && o.interaction_kind@ == p.shown_kind(),
        (None, None) => true,
        _ => false,
    }
}

fn occupant(admitted: &Vec<AdmittedPlugin>, shelf: &str) -> (r: Option<RackShelfOccupant>)
    ensures
        match (r, occupant_of(admitted@, shelf@)) {
            (Some(o), Some(p)) => o.plugin == p.name && o.interaction_kind@ == p.shown_kind(),
            (None, None) => true,
            _ => false,
        },
{
    let mut i: usize = admitted.len();
    assert(admitted@.take(i as int) =~= admitted@);
    while i > 0
        invariant
            i <= admitted.len(),
            occupant_of(admitted@, shelf@) == occupant_of(admitted@.take(i as int), shelf@),
        decreases i,
    {
        let plugin = &admitted[i - 1];
        proof {
            assert(admitted@.take(i as int).last() == plugin);
            assert(admitted@.take(i as int).drop_last() =~= admitted@.take(i - 1));
        }
        if same_text(plugin.shelf.as_str(), shelf) {
            return Some(
                RackShelfOccupant {
                    plugin: plugin.name.clone(),
                    interaction_kind: plugin.kind_text(),
                },
            );
        }
        i -= 1;
    }
    None
}

fn shape_copy(v: &Vec<u32>) -> (r: Vec<u32>)
    ensures
        r@ == v@,
{
    let mut out: Vec<u32> = Vec::new();
    let mut i: usize = 0;
    while i < v.len()
        invariant
            i <= v.len(),
            out@ == v@.take(i as int),
        decreases v.len() - i,
    {
        out.push(v[i]);
        assert(v@.take(i + 1) =~= v@.take(i as int).push(v@[i as int]));
        i += 1;
    }
    assert(v@.take(v@.len() as int) =~= v@);
    out
}

/// The answer to `project_rack`: every shelf that the rack declares, in
/// catalogue order, with its occupant. A rack is known if the catalogue declares
/// it, whether or not anything is admitted.
pub fn handle_project_rack(
    catalogue: &Catalogue,
    admitted: &Vec<AdmittedPlugin>,
    rack_name: String,
    current_seq: u64,
) -> (r: ClientResponse)
    ensures
        match r {
            ClientResponse::RackProjection {
                rack_projection,
                rack,
                charter,
                current_seq: seq,
                shelves,
            } => {
                &&& rack_projection
                &&& seq == current_seq
                &&& exists|i: int| #[trigger]
                    rack_at(*catalogue, rack_name@, i) && {
                        let found = catalogue.racks@[i];
                        &&& rack == found.name
                        &&& charter == found.charter
                        &&& shelves@.len() == found.shelves@.len()
                        &&& forall|j: int|
                            0 <= j < shelves@.len() ==> surveys(
                                #[trigger] shelves@[j],
                                found,
                                found.shelves@[j],
                                admitted@,
                            )
                    }
            },
            ClientResponse::Error { error } => {
                &&& forall|i: int| !#[trigger] rack_at(*catalogue, rack_name@, i)
                &&& is_error(
                    error,
                    ErrorClass::NotFound,
                    "unknown rack: "@ + rack_name@,
                    "unknown_rack"@,
                )
            },
            _ => false,
        },
{
    let mut i: usize = 0;
    while i < catalogue.racks.len() && !same_text(
        catalogue.racks[i].name.as_str(),
        rack_name.as_str(),
    )
        invariant
            i <= catalogue.racks.len(),
            forall|j: int|
                0 <= j < i ==> (#[trigger] catalogue.racks@[j]).name@ != rack_name@,
        decreases catalogue.racks.len() - i,
    {
        i += 1;
    }
    if i == catalogue.racks.len() {
        let message = concat2("unknown rack: ", rack_name.as_str());
        return ClientResponse::Error {
            error: refusal(ErrorClass::NotFound, message.as_str(), "unknown_rack"),
        };
    }
    let rack = &catalogue.racks[i];
    let mut shelves: Vec<RackShelfEntry> = Vec::new();
    let mut k: usize = 0;
    while k < rack.shelves.len()
        invariant
            k <= rack.shelves.len(),
            shelves@.len() == k,
            forall|j: int|
                0 <= j < k ==> surveys(
                    #[trigger] shelves@[j],
                    *rack,
                    rack.shelves@[j],
                    admitted@,
                ),
        decreases rack.shelves.len() - k,
    {
        let shelf = &rack.shelves[k];
        let fully_qualified = concat3(rack.name.as_str(), ".", shelf.name.as_str());
        let held = occupant(admitted, fully_qualified.as_str());
        shelves.push(
            RackShelfEntry {
                name: shelf.name.clone(),
                fully_qualified,
                shape: shelf.shape,
                shape_supports: shape_copy(&shelf.shape_supports),
                description: shelf.description.clone(),
                occupant: held,
            },
        );
        k += 1;
    }
    assert(rack_at(*catalogue, rack_name@, i as int));
    ClientResponse::RackProjection {
        rack_projection: true,
        rack: rack.name.clone(),
        charter: rack.charter.clone(),
        current_seq,
        shelves,
    }
}

}
