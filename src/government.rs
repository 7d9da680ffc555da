use vstd::prelude::*;
use std::collections::HashMap;
use crate::division::{joined, Division, TerritoryError};
use crate::geometry::shapes;

verus! {

broadcast use vstd::std_specs::hash::group_hash_axioms;

/// A sovereign power holding a forest of territories, keyed by division id.
///
/// The government owns every division of its territories' subtrees but holds
/// only the roots.
pub struct Government {
    /// Identifies the government as the `owner` of divisions.
    pub id: u64,
    pub name: String,
    pub territories: HashMap<u64, Division>,
}

/// `after` holds the territories of `before` with `id` removed and nothing
/// else changed.
pub open spec fn ceded(before: Government, after: Government, id: u64) -> bool {
    &&& before.territories@.contains_key(id)
    &&& after.territories@ == before.territories@.remove(id)
    &&& after.id == before.id
    &&& after.name == before.name
}

/// `after` holds the territories of `before` with `moved` under `id` and
/// nothing else changed.
pub open spec fn received(before: Government, after: Government, id: u64, moved: Division) -> bool {
    &&& after.territories@ == before.territories@.insert(id, moved)
    &&& after.id == before.id
    &&& after.name == before.name
}

/// `after` holds exactly what `before` held.
pub open spec fn same_holdings(before: Government, after: Government) -> bool {
    &&& after.territories@ == before.territories@
    &&& after.id == before.id
    &&& after.name == before.name
}

/// The territory `d` as it stands after being integrated by government `gov`:
/// unchanged but for its owner.
pub open spec fn integrated_form(d: Division, gov: u64) -> Division {
    Division { owner: Some(gov), ..d }
}

/// `n` is the single-area division that annexing `d` under `id` by government
/// `gov` makes: the whole surface of `d`'s subtree, no subdivisions, no parent.
pub open spec fn annexed_form(d: Division, id: u64, gov: u64, n: Division) -> bool {
    &&& n.id == id
    &&& n.name@ == d.name@ + " Territory"@
    &&& n.parent is None
    &&& n.owner == Some(gov)
    &&& shapes(n.area@) == joined(d)
    &&& n.subdivisions@.len() == 0
    &&& n.required_positions@.len() == 0
}

impl Government {
    /// Every territory is stored under its own id.
    pub open spec fn wf(&self) -> bool {
        forall|k: u64| #[trigger] self.territories@.contains_key(k) ==> self.territories@[k].id == k
    }

    pub fn new(id: u64) -> (r: Government)
        ensures
            r.id == id,
            r.name@.len() == 0,
            r.territories@.len() == 0,
            r.wf(),
    {
        Government { id, name: String::new(), territories: HashMap::new() }
    }

    /// Holds `division` as a territory under its id, replacing any territory
    /// already stored there.
    pub fn add_territory(&mut self, division: Division)
        ensures
            received(*old(self), *final(self), division.id, division),
            old(self).wf() ==> final(self).wf(),
    {
        let id = division.id;
        self.territories.insert(id, division);
    }

    /// Drops the territory stored under `division_id`, if any; the result says
    /// that no territory is stored there afterwards.
    pub fn remove_territory(&mut self, division_id: u64) -> (r: bool)
        ensures
            final(self).territories@ == old(self).territories@.remove(division_id),
            final(self).id == old(self).id,
            final(self).name == old(self).name,
            r == !final(self).territories@.contains_key(division_id),
            r,
            old(self).wf() ==> final(self).wf(),
    {
        self.territories.remove(&division_id);
        self.territories.get(&division_id).is_none()
    }

    /// Moves the territory `division_id` of `from` into this government,
    /// keeping its whole subdivision tree; only the moved root changes owner.
    /// Fails with `NotFound`, changing nothing, when `from` does not hold it.
    pub fn integrate_territory(&mut self, division_id: u64, from: &mut Government) -> (r: Result<(), TerritoryError>)
        ensures
            r is Ok <==> old(from).territories@.contains_key(division_id),
            match r {
                Ok(_) => {
                    &&& ceded(*old(from), *final(from), division_id)
                    &&& received(*old(self), *final(self), division_id,
                        integrated_form(old(from).territories@[division_id], old(self).id))
                },
                Err(e) => e == TerritoryError::NotFound && *final(self) == *old(self) && same_holdings(*old(from), *final(from)),
            },
            old(self).wf() && old(from).wf() ==> final(self).wf() && final(from).wf(),
    {
        match from.territories.remove(&division_id) {
            Some(division) => {
                let mut division = division;
                division.owner = Some(self.id);
                self.territories.insert(division_id, division);
                Ok(())
            },
            None => {
                assert(from.territories@ =~= old(from).territories@);
                Err(TerritoryError::NotFound)
            },
        }
    }

    /// Takes the territory `division_id` from `from` and collapses its subtree
    /// into one new division of this government: same id, the name with
    /// " Territory" appended, the whole surface of the subtree as its area,
    /// no subdivisions. Fails with `NotFound`, changing nothing, when `from`
    /// does not hold it.
    pub fn annex_territory(&mut self, division_id: u64, from: &mut Government) -> (r: Result<(), TerritoryError>)
        ensures
            r is Ok <==> old(from).territories@.contains_key(division_id),
            match r {
                Ok(_) => {
                    &&& ceded(*old(from), *final(from), division_id)
                    &&& received(*old(self), *final(self), division_id, final(self).territories@[division_id])
                    &&& annexed_form(old(from).territories@[division_id], division_id, old(self).id,
                        final(self).territories@[division_id])
                },
                Err(e) => e == TerritoryError::NotFound && *final(self) == *old(self) && same_holdings(*old(from), *final(from)),
            },
            old(self).wf() && old(from).wf() ==> final(self).wf() && final(from).wf(),
    {
        match from.territories.remove(&division_id) {
            Some(division) => {
                let area = division.join_all();
                let name = division.name.concat(" Territory");
                let collapsed = Division::new(division_id, name, None, Some(self.id), area);
                self.territories.insert(division_id, collapsed);
                Ok(())
            },
            None => {
                assert(from.territories@ =~= old(from).territories@);
                Err(TerritoryError::NotFound)
            },
        }
    }
}

/// Integration moves a territory exclusively: afterwards the source no longer
/// holds it, the receiver does, and the moved division keeps its id, name,
/// area and its whole subdivision tree.
pub proof fn lemma_integration_is_exclusive(
    from_before: Government,
    from_after: Government,
    to_before: Government,
    to_after: Government,
    id: u64,
)
    requires
        ceded(from_before, from_after, id),
        received(to_before, to_after, id, integrated_form(from_before.territories@[id], to_before.id)),
    ensures
        !from_after.territories@.contains_key(id),
        to_after.territories@.contains_key(id),
        to_after.territories@[id].subdivisions == from_before.territories@[id].subdivisions,
        to_after.territories@[id].area == from_before.territories@[id].area,
        to_after.territories@[id].id == from_before.territories@[id].id,
        to_after.territories@[id].name == from_before.territories@[id].name,
        to_after.territories@[id].owner == Some(to_before.id),
{
}

/// Annexation collapses a territory: afterwards the source no longer holds it,
/// and the receiver holds under its id a division with no subdivisions whose
/// area is the whole surface the subtree had before.
pub proof fn lemma_annexation_collapses(
    from_before: Government,
    from_after: Government,
    to_before: Government,
    to_after: Government,
    id: u64,
    collapsed: Division,
)
    requires
        ceded(from_before, from_after, id),
        received(to_before, to_after, id, collapsed),
        annexed_form(from_before.territories@[id], id, to_before.id, collapsed),
    ensures
        !from_after.territories@.contains_key(id),
        to_after.territories@.contains_key(id),
        to_after.territories@[id].subdivisions@.len() == 0,
        shapes(to_after.territories@[id].area@) == joined(from_before.territories@[id]),
{
}

} // verus!
