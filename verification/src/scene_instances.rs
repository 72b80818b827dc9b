//! Spawned scene instances: which picked files become editor objects, how
//! instances are named, and how saved parent indices become hierarchy links.

use vstd::prelude::*;

use crate::commands::EntityId;
use crate::paths::spec_decimal_digits;
use crate::paths::spec_strip_assets_prefix;
use crate::paths::decimal_string;
use crate::paths::strip_assets_prefix;

verus! {

/// A reference to the source file an editor object was loaded from, kept so
/// the scene can be saved and reloaded.
pub struct GltfRef {
    /// The path of the original file, relative to the assets directory.
    pub asset_path: String,
    /// The scene or node within the file, when one is addressed.
    pub label: Option<String>,
}

/// A scene instance that exists in the world.
pub struct InstantiatedGltfInstance {
    pub path: String,
    pub entity: EntityId,
    /// The index of the parent instance in the save order, if any.
    pub parent: Option<usize>,
}

/// All instances spawned so far, in save order.
pub struct EditorGltfInstances(pub Vec<InstantiatedGltfInstance>);

/// What to spawn for one picked file: its running number, its display name,
/// and its path relative to the assets directory.
pub struct GltfSpawnPlan {
    pub index: usize,
    pub name: String,
    pub relative_path: Vec<String>,
}

/// The display name scheme for the instance at save position `index`.
pub open spec fn spec_instance_name(index: nat) -> Seq<char> {
    "test glb "@ + spec_decimal_digits(index)
}

/// Decides, for each picked file given as path components, whether it can be
/// spawned: files outside the assets directory are refused, the rest get a
/// numbered name and their asset-relative path.
pub fn plan_gltf_spawns(paths: &Vec<Vec<String>>) -> (plans: Vec<Option<GltfSpawnPlan>>)
    ensures
        plans@.len() == paths@.len(),
        forall|i: int|
            0 <= i < paths@.len() ==> match #[trigger] plans@[i] {
                Some(plan) => {
                    &&& spec_strip_assets_prefix(paths@[i]@) == Some(plan.relative_path@)
                    &&& plan.name@ == spec_instance_name(i as nat)
                    &&& plan.index == i
                },
                None => spec_strip_assets_prefix(paths@[i]@) is None,
            },
{
    let mut plans: Vec<Option<GltfSpawnPlan>> = Vec::new();
    let mut i: usize = 0;
    while i < paths.len()
        invariant
            i <= paths@.len(),
            plans@.len() == i,
            forall|k: int|
                0 <= k < i ==> match #[trigger] plans@[k] {
                    Some(plan) => {
                        &&& spec_strip_assets_prefix(paths@[k]@) == Some(plan.relative_path@)
                        &&& plan.name@ == spec_instance_name(k as nat)
                        &&& plan.index == k
                    },
                    None => spec_strip_assets_prefix(paths@[k]@) is None,
                },
        decreases paths@.len() - i,
    {
        match strip_assets_prefix(&paths[i]) {
            Some(relative_path) => {
                let mut name: String = "test glb ".to_owned();
                let number = decimal_string(i);
                name.append(number.as_str());
                plans.push(Some(GltfSpawnPlan { index: i, name, relative_path }));
            },
            None => {
                plans.push(None);
            },
        }
        i = i + 1;
    }
    plans
}

/// The parent-child entity links that the saved parent indices call for,
/// taking instances from position `i` on; an index outside the save order
/// yields no link.
pub open spec fn spec_gltf_links(instances: Seq<InstantiatedGltfInstance>, i: int) -> Seq<
    (EntityId, EntityId),
>
    decreases instances.len() - i,
{
    if i < 0 || i >= instances.len() {
        Seq::empty()
    } else {
        let rest = spec_gltf_links(instances, i + 1);
        match instances[i].parent {
            Some(p) => if (p as int) < instances.len() {
                seq![(instances[p as int].entity, instances[i].entity)] + rest
            } else {
                rest
            },
            None => rest,
        }
    }
}

/// The save positions whose parent index points outside the save order,
/// from position `i` on.
pub open spec fn spec_invalid_parent_indices(
    instances: Seq<InstantiatedGltfInstance>,
    i: int,
) -> Seq<usize>
    decreases instances.len() - i,
{
    if i < 0 || i >= instances.len() {
        Seq::empty()
    } else {
        let rest = spec_invalid_parent_indices(instances, i + 1);
        match instances[i].parent {
            Some(p) => if (p as int) < instances.len() {
                rest
            } else {
                seq![i as usize] + rest
            },
            None => rest,
        }
    }
}

/// Resolves the saved parent indices into entity links to hand the engine:
/// each valid index becomes a (parent entity, child entity) pair, and the
/// positions with an out-of-range index are reported.
pub fn apply_gltf_hierarchy(instances: &EditorGltfInstances) -> (r: (
    Vec<(EntityId, EntityId)>,
    Vec<usize>,
))
    ensures
        r.0@ == spec_gltf_links(instances.0@, 0),
        r.1@ == spec_invalid_parent_indices(instances.0@, 0),
{
    let ghost all = instances.0@;
    let n = instances.0.len();
    let mut links: Vec<(EntityId, EntityId)> = Vec::new();
    let mut invalid: Vec<usize> = Vec::new();
    let mut i: usize = 0;
    proof {
        assert(Seq::<(EntityId, EntityId)>::empty() + spec_gltf_links(all, 0) =~= spec_gltf_links(
            all,
            0,
        ));
        assert(Seq::<usize>::empty() + spec_invalid_parent_indices(all, 0)
            =~= spec_invalid_parent_indices(all, 0));
    }
    while i < n
        invariant
            i <= n,
            n == all.len(),
            all == instances.0@,
            spec_gltf_links(all, 0) == links@ + spec_gltf_links(all, i as int),
            spec_invalid_parent_indices(all, 0) == invalid@ + spec_invalid_parent_indices(
                all,
                i as int,
            ),
        decreases n - i,
    {
        let inst = &instances.0[i];
        match inst.parent {
            Some(p) => {
                if p < n {
                    let pair = (instances.0[p].entity, inst.entity);
                    proof {
                        assert(links@.push(pair) + spec_gltf_links(all, i as int + 1) =~= links@
                            + (seq![pair] + spec_gltf_links(all, i as int + 1)));
                    }
                    links.push(pair);
                } else {
                    proof {
                        assert(invalid@.push(i) + spec_invalid_parent_indices(all, i as int + 1)
                            =~= invalid@ + (seq![i] + spec_invalid_parent_indices(
                            all,
                            i as int + 1,
                        )));
                    }
                    invalid.push(i);
                }
            },
            None => {},
        }
        i = i + 1;
    }
    (links, invalid)
}

} // verus!
