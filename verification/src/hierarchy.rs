//! The editor-owned object hierarchy: which editor object is parented to
//! which. Re-parenting by drag and drop must never create a cycle, so the
//! membership test walks the ancestor chain, and re-parenting is proved to
//! keep the forest acyclic.

use vstd::prelude::*;

use crate::commands::EntityId;

verus! {

/// Every stored parent slot points inside the forest.
pub open spec fn parents_in_range(parents: Seq<Option<usize>>) -> bool {
    forall|i: int|
        0 <= i < parents.len() ==> match #[trigger] parents[i] {
            Some(p) => p < parents.len(),
            None => true,
        }
}

/// Node `i` reaches a root (a node with no parent) in at most `fuel` steps
/// along parent links.
pub open spec fn reaches_root(parents: Seq<Option<usize>>, i: int, fuel: nat) -> bool
    decreases fuel,
{
    0 <= i < parents.len() && match parents[i] {
        None => true,
        Some(p) => fuel > 0 && reaches_root(parents, p as int, (fuel - 1) as nat),
    }
}

/// Node `i` reaches a root in some finite number of steps.
pub open spec fn can_reach_root(parents: Seq<Option<usize>>, i: int) -> bool {
    exists|fuel: nat| reaches_root(parents, i, fuel)
}

/// The forest has no cycle: every node's ancestor chain ends at a root.
pub open spec fn acyclic(parents: Seq<Option<usize>>) -> bool {
    forall|i: int| 0 <= i < parents.len() ==> #[trigger] can_reach_root(parents, i)
}

/// `anc` appears strictly above `node`, within `fuel` parent steps.
pub open spec fn ancestor_within(
    parents: Seq<Option<usize>>,
    node: int,
    anc: int,
    fuel: nat,
) -> bool
    decreases fuel,
{
    0 <= node < parents.len() && match parents[node] {
        None => false,
        Some(p) => fuel > 0 && (p as int == anc || ancestor_within(
            parents,
            p as int,
            anc,
            (fuel - 1) as nat,
        )),
    }
}

/// `anc` is a proper ancestor of `node`; equivalently, `node` is a proper
/// descendant of `anc`.
pub open spec fn is_proper_ancestor(parents: Seq<Option<usize>>, anc: int, node: int) -> bool {
    exists|fuel: nat| ancestor_within(parents, node, anc, fuel)
}

/// The parent links of the editor objects, indexed by object slot.
pub struct EditorHierarchy {
    pub parents: Vec<Option<usize>>,
}

impl EditorHierarchy {
    /// Slots are valid and no ancestor chain loops back on itself.
    pub open spec fn wf(self) -> bool {
        parents_in_range(self.parents@) && acyclic(self.parents@)
    }

    /// A forest of `n` unparented objects.
    pub fn new(n: usize) -> (r: Self)
        ensures
            r.parents@.len() == n,
            forall|i: int| 0 <= i < n ==> r.parents@[i] is None,
            r.wf(),
    {
        let mut parents: Vec<Option<usize>> = Vec::new();
        let mut k: usize = 0;
        while k < n
            invariant
                k <= n,
                parents@.len() == k,
                forall|i: int| 0 <= i < k ==> parents@[i] is None,
            decreases n - k,
        {
            parents.push(None);
            k = k + 1;
        }
        proof {
            assert forall|i: int| 0 <= i < parents@.len() implies can_reach_root(
                parents@,
                i,
            ) by {
                assert(reaches_root(parents@, i, 0nat));
            }
        }
        EditorHierarchy { parents }
    }

    pub fn len(&self) -> (r: usize)
        ensures
            r == self.parents@.len(),
    {
        self.parents.len()
    }

    pub fn parent_of(&self, node: usize) -> (r: Option<usize>)
        requires
            node < self.parents@.len(),
        ensures
            r == self.parents@[node as int],
    {
        self.parents[node]
    }

    /// Walks the ancestor chain of `potential_parent`; true exactly when
    /// `child` already stands somewhere above it, so that parenting `child`'s
    /// subtree under `potential_parent` would close a loop.
    pub fn would_create_cycle(&self, child: usize, potential_parent: usize) -> (r: bool)
        requires
            self.wf(),
            child < self.parents@.len(),
            potential_parent < self.parents@.len(),
        ensures
            r == is_proper_ancestor(self.parents@, child as int, potential_parent as int),
    {
        let ghost parents = self.parents@;
        let mut current: usize = potential_parent;
        let ghost mut fuel: nat = choose|f: nat| reaches_root(parents, current as int, f);
        proof {
            assert(can_reach_root(parents, current as int));
        }
        loop
            invariant
                self.wf(),
                child < parents.len(),
                current < parents.len(),
                parents == self.parents@,
                reaches_root(parents, current as int, fuel),
                is_proper_ancestor(parents, child as int, potential_parent as int)
                    == is_proper_ancestor(parents, child as int, current as int),
            decreases fuel,
        {
            match self.parents[current] {
                Some(p) => {
                    if p == child {
                        proof {
                            assert(ancestor_within(parents, current as int, child as int, 1nat));
                        }
                        return true;
                    }
                    proof {
                        lemma_step_keeps_proper_ancestor(parents, current as int, p,
                            child as int);
                        fuel = (fuel - 1) as nat;
                    }
                    current = p;
                },
                None => {
                    proof {
                        assert forall|f: nat|
                            !ancestor_within(parents, current as int, child as int, f) by {}
                    }
                    return false;
                },
            }
        }
    }

    /// The drag-and-drop rule: re-parent `child` under `new_parent` only when
    /// the two differ and no cycle would arise. Returns whether the link was
    /// made; the forest stays acyclic either way.
    pub fn reparent(&mut self, child: usize, new_parent: usize) -> (r: bool)
        requires
            old(self).wf(),
            child < old(self).parents@.len(),
            new_parent < old(self).parents@.len(),
        ensures
            r == (child != new_parent && !is_proper_ancestor(
                old(self).parents@,
                child as int,
                new_parent as int,
            )),
            r ==> final(self).parents@ == old(self).parents@.update(
                child as int,
                Some(new_parent),
            ),
            !r ==> final(self).parents@ == old(self).parents@,
            final(self).wf(),
    {
        if child == new_parent {
            return false;
        }
        if self.would_create_cycle(child, new_parent) {
            return false;
        }
        proof {
            lemma_reparent_preserves_acyclicity(self.parents@, child as int, new_parent);
        }
        self.parents.set(child, Some(new_parent));
        true
    }

    /// The drop-on-background rule: the dragged object becomes a root.
    pub fn make_root(&mut self, child: usize)
        requires
            old(self).wf(),
            child < old(self).parents@.len(),
        ensures
            final(self).parents@ == old(self).parents@.update(child as int, None),
            final(self).wf(),
    {
        proof {
            lemma_unparent_preserves_acyclicity(self.parents@, child as int);
        }
        self.parents.set(child, None);
    }
}

/// The position of the first object whose name equals the query, looking
/// from position `i` on.
pub open spec fn spec_first_name_match(names: Seq<String>, query: Seq<char>, i: int) -> Option<
    int,
>
    decreases names.len() - i,
{
    if i < 0 || i >= names.len() {
        None
    } else if names[i]@ == query {
        Some(i)
    } else {
        spec_first_name_match(names, query, i + 1)
    }
}

/// The parent-picker rule: the typed name selects the first object that
/// bears it, and an object cannot become its own parent. `names` and
/// `entities` list the hierarchy panel's objects in display order.
pub fn select_parent_by_name(
    names: &Vec<String>,
    entities: &Vec<EntityId>,
    query: &String,
    selected: EntityId,
) -> (r: Option<EntityId>)
    requires
        names@.len() == entities@.len(),
    ensures
        r == match spec_first_name_match(names@, query@, 0) {
            Some(i) => if entities@[i] != selected {
                Some(entities@[i])
            } else {
                None::<EntityId>
            },
            None => None::<EntityId>,
        },
{
    let n = names.len();
    let mut i: usize = 0;
    while i < n
        invariant
            i <= n,
            n == names@.len(),
            n == entities@.len(),
            spec_first_name_match(names@, query@, 0) == spec_first_name_match(
                names@,
                query@,
                i as int,
            ),
        decreases n - i,
    {
        if names[i].eq(query) {
            let entity = entities[i];
            if entity != selected {
                return Some(entity);
            } else {
                return None;
            }
        }
        i = i + 1;
    }
    None
}

/// Stepping one parent up keeps "is a proper descendant of `child`" stable,
/// as long as the parent stepped to is not `child` itself.
proof fn lemma_step_keeps_proper_ancestor(
    parents: Seq<Option<usize>>,
    current: int,
    p: usize,
    child: int,
)
    requires
        0 <= current < parents.len(),
        parents[current] == Some(p),
        p < parents.len(),
        p as int != child,
    ensures
        is_proper_ancestor(parents, child, current) == is_proper_ancestor(parents, child, p as int),
{
    if is_proper_ancestor(parents, child, current) {
        let f = choose|f: nat| ancestor_within(parents, current, child, f);
        assert(ancestor_within(parents, p as int, child, (f - 1) as nat));
    }
    if is_proper_ancestor(parents, child, p as int) {
        let f = choose|f: nat| ancestor_within(parents, p as int, child, f);
        assert(ancestor_within(parents, current, child, f + 1));
    }
}

/// More fuel never hurts.
proof fn lemma_reaches_root_mono(parents: Seq<Option<usize>>, i: int, f1: nat, f2: nat)
    requires
        reaches_root(parents, i, f1),
        f1 <= f2,
    ensures
        reaches_root(parents, i, f2),
    decreases f1,
{
    match parents[i] {
        None => {},
        Some(p) => {
            lemma_reaches_root_mono(parents, p as int, (f1 - 1) as nat, (f2 - 1) as nat);
        },
    }
}

/// A chain that never passes through `child` is untouched by re-pointing
/// `child`'s parent slot.
proof fn lemma_reach_avoiding_child(
    parents: Seq<Option<usize>>,
    updated: Seq<Option<usize>>,
    child: int,
    i: int,
    f: nat,
)
    requires
        updated.len() == parents.len(),
        0 <= child < parents.len(),
        forall|j: int| 0 <= j < parents.len() && j != child ==> updated[j] == parents[j],
        reaches_root(parents, i, f),
        !ancestor_within(parents, i, child, f),
        i != child,
    ensures
        reaches_root(updated, i, f),
    decreases f,
{
    match parents[i] {
        None => {},
        Some(p) => {
            assert(p != child);
            lemma_reach_avoiding_child(parents, updated, child, p as int, (f - 1) as nat);
        },
    }
}

/// After re-parenting, any old chain still reaches a root: unchanged until it
/// meets `child`, then it continues through `new_parent`'s (unchanged) chain.
proof fn lemma_reach_after_update(
    parents: Seq<Option<usize>>,
    updated: Seq<Option<usize>>,
    child: int,
    new_parent: usize,
    fnp: nat,
    i: int,
    f: nat,
)
    requires
        updated == parents.update(child, Some(new_parent)),
        0 <= child < parents.len(),
        new_parent < parents.len(),
        reaches_root(updated, new_parent as int, fnp),
        reaches_root(parents, i, f),
    ensures
        reaches_root(updated, i, f + 1 + fnp),
    decreases f,
{
    if i == child {
        lemma_reaches_root_mono(updated, new_parent as int, fnp, f + fnp);
    } else {
        match parents[i] {
            None => {},
            Some(p) => {
                lemma_reach_after_update(parents, updated, child, new_parent, fnp, p as int,
                    (f - 1) as nat);
                lemma_reaches_root_mono(updated, p as int, (f - 1 + 1 + fnp) as nat, f + fnp);
            },
        }
    }
}

/// The re-parenting law: when `child` is not already above `new_parent` and
/// the two differ, pointing `child` at `new_parent` keeps the forest acyclic.
pub proof fn lemma_reparent_preserves_acyclicity(
    parents: Seq<Option<usize>>,
    child: int,
    new_parent: usize,
)
    requires
        parents_in_range(parents),
        acyclic(parents),
        0 <= child < parents.len(),
        new_parent < parents.len(),
        child != new_parent as int,
        !is_proper_ancestor(parents, child, new_parent as int),
    ensures
        parents_in_range(parents.update(child, Some(new_parent))),
        acyclic(parents.update(child, Some(new_parent))),
{
    let updated = parents.update(child, Some(new_parent));
    assert(can_reach_root(parents, new_parent as int));
    let fnp = choose|f: nat| reaches_root(parents, new_parent as int, f);
    assert(!ancestor_within(parents, new_parent as int, child, fnp));
    lemma_reach_avoiding_child(parents, updated, child, new_parent as int, fnp);
    assert(reaches_root(updated, new_parent as int, fnp));
    assert forall|i: int| 0 <= i < updated.len() implies can_reach_root(updated, i) by {
        assert(can_reach_root(parents, i));
        let f = choose|f: nat| reaches_root(parents, i, f);
        lemma_reach_after_update(parents, updated, child, new_parent, fnp, i, f);
    }
}

/// Chains only get shorter when a node is cut loose, so acyclicity is kept.
proof fn lemma_unparent_reach(
    parents: Seq<Option<usize>>,
    updated: Seq<Option<usize>>,
    child: int,
    i: int,
    f: nat,
)
    requires
        updated == parents.update(child, None::<usize>),
        0 <= child < parents.len(),
        reaches_root(parents, i, f),
    ensures
        reaches_root(updated, i, f),
    decreases f,
{
    if i != child {
        match parents[i] {
            None => {},
            Some(p) => {
                lemma_unparent_reach(parents, updated, child, p as int, (f - 1) as nat);
            },
        }
    }
}

/// Making any object a root keeps the forest acyclic.
pub proof fn lemma_unparent_preserves_acyclicity(parents: Seq<Option<usize>>, child: int)
    requires
        parents_in_range(parents),
        acyclic(parents),
        0 <= child < parents.len(),
    ensures
        parents_in_range(parents.update(child, None::<usize>)),
        acyclic(parents.update(child, None::<usize>)),
{
    let updated = parents.update(child, None::<usize>);
    assert forall|i: int| 0 <= i < updated.len() implies can_reach_root(updated, i) by {
        assert(can_reach_root(parents, i));
        let f = choose|f: nat| reaches_root(parents, i, f);
        lemma_unparent_reach(parents, updated, child, i, f);
    }
}

} // verus!
