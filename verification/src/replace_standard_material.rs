//! The one-shot material rewrite: every entity that still carries a
//! placeholder (standard) material marker and sits below an ancestor holding
//! a replacement marker adopts the ancestor's shader-material handle and
//! loses the placeholder marker.
//!
//! Entities form an arena: each entity's parent, if any, was spawned before
//! it, so every chain of parent links leads to a root.

use vstd::prelude::*;

verus! {

/// An arena-indexed handle to a registered shader material. Copying the
/// handle shares the material; no material data is duplicated.
#[derive(Clone, Copy, Debug, PartialEq, Eq, Structural)]
pub struct MaterialHandle(pub u64);

/// A marker held by a container entity, naming the shader-material handle
/// its descendants should adopt in place of a placeholder material.
#[derive(Clone, Copy, Debug, PartialEq, Eq, Structural)]
pub struct ReplacementMaterial(pub MaterialHandle);

/// The per-entity scene state this rewrite reads and writes: parent links,
/// replacement markers, placeholder markers and adopted material handles.
pub struct SceneWorld {
    parent: Vec<Option<usize>>,
    replacement: Vec<Option<ReplacementMaterial>>,
    standard_material: Vec<bool>,
    custom_material: Vec<Option<MaterialHandle>>,
}

/// Every parent link points at an earlier entity, so ancestor chains are
/// finite.
pub open spec fn wf_links(parent: Seq<Option<usize>>) -> bool {
    forall|e: int|
        0 <= e < parent.len() && (#[trigger] parent[e]) is Some ==> parent[e]->Some_0 < e
}

/// The handle the ancestor walk finds for entity `e`: walk strictly upward
/// through parent links and take the first replacement marker; none of the
/// ancestors carrying one means no handle.
pub open spec fn found_over(
    parent: Seq<Option<usize>>,
    replacement: Seq<Option<ReplacementMaterial>>,
    e: int,
) -> Option<MaterialHandle>
    decreases e,
    when wf_links(parent) && 0 <= e < parent.len() && replacement.len() == parent.len()
{
    match parent[e] {
        None => None,
        Some(p) => match replacement[p as int] {
            Some(marker) => Some(marker.0),
            None => found_over(parent, replacement, p as int),
        },
    }
}

impl SceneWorld {
    /// How many entities have been spawned.
    pub closed spec fn entity_count(self) -> int {
        self.parent@.len() as int
    }

    /// The parent link of each entity.
    pub closed spec fn parent_links(self) -> Seq<Option<usize>> {
        self.parent@
    }

    /// The replacement marker of each entity.
    pub closed spec fn replacements(self) -> Seq<Option<ReplacementMaterial>> {
        self.replacement@
    }

    /// Whether each entity still carries the placeholder material marker.
    pub closed spec fn standard_flags(self) -> Seq<bool> {
        self.standard_material@
    }

    /// The shader-material handle each entity has adopted, if any.
    pub closed spec fn custom_materials(self) -> Seq<Option<MaterialHandle>> {
        self.custom_material@
    }

    /// Well-formedness: the component columns cover the same entities and
    /// parent links only point backwards.
    pub open spec fn wf(self) -> bool {
        &&& self.replacements().len() == self.entity_count()
        &&& self.standard_flags().len() == self.entity_count()
        &&& self.custom_materials().len() == self.entity_count()
        &&& wf_links(self.parent_links())
    }

    /// The handle the ancestor walk finds for entity `e`.
    pub open spec fn found_replacement(self, e: int) -> Option<MaterialHandle> {
        found_over(self.parent_links(), self.replacements(), e)
    }

    /// An empty scene.
    pub fn new() -> (r: SceneWorld)
        ensures
            r.wf(),
            r.entity_count() == 0,
    {
        SceneWorld {
            parent: Vec::new(),
            replacement: Vec::new(),
            standard_material: Vec::new(),
            custom_material: Vec::new(),
        }
    }

    /// How many entities have been spawned, as a machine integer.
    pub fn len(&self) -> (r: usize)
        ensures
            r as int == self.entity_count(),
    {
        self.parent.len()
    }

    /// Spawns a bare entity and returns its index.
    pub fn spawn(&mut self) -> (e: usize)
        requires
            old(self).wf(),
        ensures
            final(self).wf(),
            e == old(self).entity_count(),
            final(self).entity_count() == old(self).entity_count() + 1,
            final(self).parent_links() == old(self).parent_links().push(None),
            final(self).replacements() == old(self).replacements().push(
                None::<ReplacementMaterial>,
            ),
            final(self).standard_flags() == old(self).standard_flags().push(false),
            final(self).custom_materials() == old(self).custom_materials().push(
                None::<MaterialHandle>,
            ),
    {
        let e = self.parent.len();
        self.parent.push(None);
        self.replacement.push(None);
        self.standard_material.push(false);
        self.custom_material.push(None);
        e
    }

    /// Makes `parent` the parent of `child`. The parent must have been
    /// spawned before the child, which keeps ancestor chains finite.
    pub fn set_parent(&mut self, child: usize, parent: usize)
        requires
            old(self).wf(),
            parent < child < old(self).entity_count(),
        ensures
            final(self).wf(),
            final(self).entity_count() == old(self).entity_count(),
            final(self).parent_links() == old(self).parent_links().update(
                child as int,
                Some(parent),
            ),
            final(self).replacements() == old(self).replacements(),
            final(self).standard_flags() == old(self).standard_flags(),
            final(self).custom_materials() == old(self).custom_materials(),
    {
        self.parent[child] = Some(parent);
    }

    /// Attaches a replacement marker to an entity.
    pub fn insert_replacement(&mut self, e: usize, marker: ReplacementMaterial)
        requires
            old(self).wf(),
            e < old(self).entity_count(),
        ensures
            final(self).wf(),
            final(self).entity_count() == old(self).entity_count(),
            final(self).parent_links() == old(self).parent_links(),
            final(self).replacements() == old(self).replacements().update(e as int, Some(marker)),
            final(self).standard_flags() == old(self).standard_flags(),
            final(self).custom_materials() == old(self).custom_materials(),
    {
        self.replacement[e] = Some(marker);
    }

    /// Attaches the placeholder (standard) material marker to an entity.
    pub fn insert_standard_material(&mut self, e: usize)
        requires
            old(self).wf(),
            e < old(self).entity_count(),
        ensures
            final(self).wf(),
            final(self).entity_count() == old(self).entity_count(),
            final(self).parent_links() == old(self).parent_links(),
            final(self).replacements() == old(self).replacements(),
            final(self).standard_flags() == old(self).standard_flags().update(e as int, true),
            final(self).custom_materials() == old(self).custom_materials(),
    {
        self.standard_material[e] = true;
    }

    /// Whether an entity still carries the placeholder material marker.
    pub fn has_standard_material(&self, e: usize) -> (r: bool)
        requires
            self.wf(),
            e < self.entity_count(),
        ensures
            r == self.standard_flags()[e as int],
    {
        self.standard_material[e]
    }

    /// The shader-material handle an entity has adopted, if any.
    pub fn custom_material(&self, e: usize) -> (r: Option<MaterialHandle>)
        requires
            self.wf(),
            e < self.entity_count(),
        ensures
            r == self.custom_materials()[e as int],
    {
        self.custom_material[e]
    }
}

/// The ancestor walk: strictly upward from `entity`, stopping at the first
/// replacement marker.
fn find_replacement(world: &SceneWorld, entity: usize) -> (r: Option<MaterialHandle>)
    requires
        world.wf(),
        entity < world.entity_count(),
    ensures
        r == world.found_replacement(entity as int),
{
    let mut current: usize = entity;
    loop
        invariant
            world.wf(),
            current < world.entity_count(),
            world.found_replacement(entity as int) == world.found_replacement(current as int),
        decreases current,
    {
        match world.parent[current] {
            None => {
                return None;
            },
            Some(p) => {
                match world.replacement[p] {
                    Some(marker) => {
                        return Some(marker.0);
                    },
                    None => {
                        current = p;
                    },
                }
            },
        }
    }
}

/// How one rewrite pass treats entity `e`: a placeholder under a qualifying
/// ancestor adopts the found handle and loses the placeholder marker; every
/// other entity keeps both columns unchanged.
pub open spec fn replaced_entity(pre: SceneWorld, post: SceneWorld, e: int) -> bool {
    if pre.standard_flags()[e] && pre.found_replacement(e) is Some {
        &&& post.custom_materials()[e] == Some(pre.found_replacement(e)->Some_0)
        &&& !post.standard_flags()[e]
    } else {
        &&& post.custom_materials()[e] == pre.custom_materials()[e]
        &&& post.standard_flags()[e] == pre.standard_flags()[e]
    }
}

/// What one whole rewrite pass does to the scene.
pub open spec fn replace_spec(pre: SceneWorld, post: SceneWorld) -> bool {
    &&& post.entity_count() == pre.entity_count()
    &&& post.parent_links() == pre.parent_links()
    &&& post.replacements() == pre.replacements()
    &&& forall|e: int| 0 <= e < pre.entity_count() ==> #[trigger] replaced_entity(pre, post, e)
}

/// One rewrite pass over the whole scene.
pub fn replace_standard_material(world: &mut SceneWorld)
    requires
        old(world).wf(),
    ensures
        final(world).wf(),
        replace_spec(*old(world), *final(world)),
{
    let ghost pre: SceneWorld = *world;
    let entity_count = world.parent.len();
    let mut e: usize = 0;
    while e < entity_count
        invariant
            0 <= e <= entity_count,
            pre.wf(),
            world.wf(),
            entity_count == world.entity_count(),
            world.entity_count() == pre.entity_count(),
            world.parent_links() == pre.parent_links(),
            world.replacements() == pre.replacements(),
            world.custom_materials().len() == pre.entity_count(),
            world.standard_flags().len() == pre.entity_count(),
            forall|j: int| 0 <= j < e ==> #[trigger] replaced_entity(pre, *world, j),
            forall|j: int|
                e <= j < pre.entity_count() ==> #[trigger] world.custom_materials()[j]
                    == pre.custom_materials()[j] && world.standard_flags()[j]
                    == pre.standard_flags()[j],
        decreases entity_count - e,
    {
        let ghost before: SceneWorld = *world;
        if world.standard_material[e] {
            let found = find_replacement(world, e);
            match found {
                Some(handle) => {
                    self_replace(world, e, handle);
                },
                None => {},
            }
        }
        proof {
            assert(before.custom_materials()[e as int] == pre.custom_materials()[e as int]);
            assert(before.standard_flags()[e as int] == pre.standard_flags()[e as int]);
            assert(world.found_replacement(e as int) == pre.found_replacement(e as int));
            assert(replaced_entity(pre, *world, e as int));
            assert forall|j: int|
                e + 1 <= j < pre.entity_count() implies #[trigger] world.custom_materials()[j]
                == pre.custom_materials()[j] && world.standard_flags()[j]
                == pre.standard_flags()[j] by {
                assert(before.custom_materials()[j] == pre.custom_materials()[j]);
                assert(world.custom_materials()[j] == before.custom_materials()[j]);
                assert(world.standard_flags()[j] == before.standard_flags()[j]);
            }
            assert forall|j: int| 0 <= j < e implies #[trigger] replaced_entity(
                pre,
                *world,
                j,
            ) by {
                assert(replaced_entity(pre, before, j));
                assert(world.custom_materials()[j] == before.custom_materials()[j]);
                assert(world.standard_flags()[j] == before.standard_flags()[j]);
            }
        }
        e = e + 1;
    }
}

/// Adopt the found handle on entity `e` and drop its placeholder marker.
fn self_replace(world: &mut SceneWorld, e: usize, handle: MaterialHandle)
    requires
        old(world).wf(),
        e < old(world).entity_count(),
    ensures
        final(world).wf(),
        final(world).entity_count() == old(world).entity_count(),
        final(world).parent_links() == old(world).parent_links(),
        final(world).replacements() == old(world).replacements(),
        final(world).custom_materials() == old(world).custom_materials().update(
            e as int,
            Some(handle),
        ),
        final(world).standard_flags() == old(world).standard_flags().update(e as int, false),
{
    world.custom_material[e] = Some(handle);
    world.standard_material[e] = false;
}

/// The rewrite is idempotent: a second pass finds every placeholder already
/// consumed or uncovered, and changes nothing a first pass has settled.
pub proof fn lemma_replace_idempotent(first: SceneWorld, second: SceneWorld, third: SceneWorld)
    requires
        first.wf(),
        second.wf(),
        third.wf(),
        replace_spec(first, second),
        replace_spec(second, third),
    ensures
        third.standard_flags() =~= second.standard_flags(),
        third.custom_materials() =~= second.custom_materials(),
{
    assert forall|e: int| 0 <= e < second.entity_count() implies third.standard_flags()[e]
        == second.standard_flags()[e] && third.custom_materials()[e]
        == second.custom_materials()[e] by {
        assert(replaced_entity(first, second, e));
        assert(replaced_entity(second, third, e));
        if second.standard_flags()[e] {
            assert(!(first.standard_flags()[e] && first.found_replacement(e) is Some));
            assert(second.found_replacement(e) == first.found_replacement(e));
        }
    }
}

} // verus!
