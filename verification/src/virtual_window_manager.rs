//! Virtual window tree.
//!
//! A [`VirtualWindowManager`] keeps a tree of virtual windows under one
//! sentinel root: each window has a requested size, and
//! [`VirtualWindowManager::uodate`] derives every window's actual size
//! from it, top down.  A window directly under the root gets its
//! requested size; the children of a window split their parent's actual
//! height top to bottom, each taking its requested height where it fits
//! and the last taking whatever is left.
//!
//! Identifiers are handed out by an increasing counter, so a child's
//! identifier is always strictly greater than its parent's: the recursion
//! over the tree terminates on that measure, and a node's size
//! computation can only write entries with greater identifiers than its
//! own.

use std::collections::HashMap;
use vstd::prelude::*;
use vstd::slice::slice_to_vec;

verus! {

broadcast use vstd::std_specs::hash::group_hash_axioms;

/// Identifier of one virtual window.  Fresh identifiers come from the
/// manager's counter, so identifiers of windows spawned later are
/// strictly greater.
#[derive(Debug, Clone, Copy, PartialEq, Eq, Hash)]
pub struct VirtualWindowId {
    pub internal: u64,
}

/// One virtual window: its requested size in pixels.
pub struct VirtualWindow {
    pub width: u32,
    pub height: u32,
}

impl VirtualWindow {
    /// A window requesting the given size.
    pub fn new(width: u32, height: u32) -> (r: Self)
        ensures
            r.width == width,
            r.height == height,
    {
        VirtualWindow { width, height }
    }
}

/// The well-formed shape of the manager's three tables: every key is
/// below the identifier counter, every node has a size entry, and every
/// child of a node exists in all three tables, carries a strictly greater
/// identifier than its parent, and stands in its parent's child list in
/// strictly increasing identifier order.
pub open spec fn tables_wf(
    hierarchy: Map<u64, Vec<VirtualWindowId>>,
    windows: Map<u64, VirtualWindow>,
    sizes: Map<u64, (u32, u32)>,
    bound: u64,
) -> bool {
    &&& forall|k: u64| #[trigger]
        hierarchy.contains_key(k) ==> k < bound && sizes.contains_key(k)
    &&& forall|k: u64| #[trigger] sizes.contains_key(k) ==> hierarchy.contains_key(k)
    &&& forall|k: u64| #[trigger] windows.contains_key(k) ==> hierarchy.contains_key(k)
    &&& forall|k: u64, i: int|
        hierarchy.contains_key(k) && 0 <= i < hierarchy[k]@.len() ==> {
            let c = (#[trigger] hierarchy[k]@[i]).internal;
            &&& c > k
            &&& c < bound
            &&& hierarchy.contains_key(c)
            &&& windows.contains_key(c)
            &&& sizes.contains_key(c)
        }
    &&& forall|k: u64, i1: int, i2: int|
        hierarchy.contains_key(k) && 0 <= i1 < i2 < hierarchy[k]@.len()
            ==> (#[trigger] hierarchy[k]@[i1]).internal < (#[trigger] hierarchy[k]@[i2]).internal
    &&& forall|k1: u64, i1: int, k2: u64, i2: int|
        hierarchy.contains_key(k1) && 0 <= i1 < hierarchy[k1]@.len() && hierarchy.contains_key(k2)
            && 0 <= i2 < hierarchy[k2]@.len() && (#[trigger] hierarchy[k1]@[i1]).internal == (
        #[trigger] hierarchy[k2]@[i2]).internal ==> k1 == k2 && i1 == i2
}

/// Whether `k` is the child of some node whose identifier is at least
/// `lo`: the frame of the size computation, which writes only such
/// entries.
pub open spec fn child_of_at_least(
    hierarchy: Map<u64, Vec<VirtualWindowId>>,
    k: u64,
    lo: u64,
) -> bool {
    exists|p: u64, i: int|
        hierarchy.contains_key(p) && p >= lo && 0 <= i < hierarchy[p]@.len() && (
        #[trigger] hierarchy[p]@[i]).internal == k
}

/// The height a child at position `j` of `children` takes: the remainder
/// where it is the last child, else its requested height where that fits
/// the remainder.
pub open spec fn assigned_height_step(
    children: Seq<VirtualWindowId>,
    windows: Map<u64, VirtualWindow>,
    rem: u32,
    j: int,
) -> u32 {
    if j == children.len() - 1 {
        rem
    } else if windows[children[j].internal].height < rem {
        windows[children[j].internal].height
    } else {
        rem
    }
}

/// The height left over after the first `i` of `children` have taken
/// theirs out of the parent's height `h0`.
pub open spec fn remaining_height(
    children: Seq<VirtualWindowId>,
    windows: Map<u64, VirtualWindow>,
    h0: u32,
    i: int,
) -> u32
    decreases i,
{
    if i <= 0 {
        h0
    } else {
        let rem = remaining_height(children, windows, h0, i - 1);
        (rem - assigned_height_step(children, windows, rem, i - 1)) as u32
    }
}

/// The height assigned to the child at position `j` of `children` when a
/// parent of height `h0` is split.
pub open spec fn assigned_child_height(
    children: Seq<VirtualWindowId>,
    windows: Map<u64, VirtualWindow>,
    h0: u32,
    j: int,
) -> u32 {
    assigned_height_step(children, windows, remaining_height(children, windows, h0, j), j)
}

/// Every child of a split parent has its derived size on record: its own
/// requested width, and its share of the parent's height.
pub open spec fn child_sizes_assigned(
    children: Seq<VirtualWindowId>,
    windows: Map<u64, VirtualWindow>,
    parent_height: u32,
    sizes: Map<u64, (u32, u32)>,
) -> bool {
    forall|j: int|
        0 <= j < children.len() ==> sizes[(#[trigger] children[j]).internal] == ((
        windows[children[j].internal].width,
        assigned_child_height(children, windows, parent_height, j),
    ))
}

/// A tree of virtual windows and the actual size derived for each.
pub struct VirtualWindowManager {
    root_window_id: VirtualWindowId,
    next_id: u64,
    virtual_window_table: HashMap<u64, VirtualWindow>,
    hierarchy_table: HashMap<u64, Vec<VirtualWindowId>>,
    actual_size_table: HashMap<u64, (u32, u32)>,
}

impl VirtualWindowManager {
    /// The sentinel root's identifier.
    pub closed spec fn root(self) -> VirtualWindowId {
        self.root_window_id
    }

    /// The identifier the next spawned window will get.
    pub closed spec fn next(self) -> u64 {
        self.next_id
    }

    /// The windows, keyed by identifier.
    pub closed spec fn windows(self) -> Map<u64, VirtualWindow> {
        self.virtual_window_table@
    }

    /// The child lists, keyed by parent identifier.
    pub closed spec fn hierarchy(self) -> Map<u64, Vec<VirtualWindowId>> {
        self.hierarchy_table@
    }

    /// The derived actual sizes, keyed by identifier.
    pub closed spec fn sizes(self) -> Map<u64, (u32, u32)> {
        self.actual_size_table@
    }

    /// The tables are well-formed and the sentinel root, with identifier
    /// zero, is present.
    pub open spec fn wf(self) -> bool {
        &&& self.root().internal == 0
        &&& self.next() >= 1
        &&& self.hierarchy().contains_key(0)
        &&& !self.windows().contains_key(0)
        &&& tables_wf(self.hierarchy(), self.windows(), self.sizes(), self.next())
    }

    /// A manager holding only the sentinel root.
    pub fn new() -> (r: Self)
        ensures
            r.wf(),
            r.next() == 1,
            r.hierarchy()[0]@.len() == 0,
            r.windows() == Map::<u64, VirtualWindow>::empty(),
            r.sizes().dom() =~= set![0u64],
    {
        let root_window_id = VirtualWindowId { internal: 0 };
        let mut hierarchy_table: HashMap<u64, Vec<VirtualWindowId>> = HashMap::new();
        hierarchy_table.insert(0, Vec::new());
        let mut actual_size_table: HashMap<u64, (u32, u32)> = HashMap::new();
        actual_size_table.insert(0, (0, 0));
        VirtualWindowManager {
            root_window_id,
            next_id: 1,
            virtual_window_table: HashMap::new(),
            hierarchy_table,
            actual_size_table,
        }
    }

    /// Derives every window's actual size from the requested sizes, top
    /// down: a window directly under the root gets its requested size,
    /// and each node's children split the node's actual height, the last
    /// child taking the remainder.  The set of tracked windows does not
    /// change.
    pub fn uodate(&mut self)
        requires
            old(self).wf(),
        ensures
            final(self).wf(),
            final(self).windows() == old(self).windows(),
            final(self).hierarchy() == old(self).hierarchy(),
            final(self).next() == old(self).next(),
            final(self).sizes().dom() == old(self).sizes().dom(),
            forall|i: int|
                0 <= i < old(self).hierarchy()[0]@.len() ==> {
                    let c = (#[trigger] old(self).hierarchy()[0]@[i]).internal;
                    final(self).sizes()[c] == (
                        old(self).windows()[c].width,
                        old(self).windows()[c].height,
                    )
                },
            forall|i: int|
                0 <= i < old(self).hierarchy()[0]@.len() ==> {
                    let c = (#[trigger] old(self).hierarchy()[0]@[i]).internal;
                    child_sizes_assigned(
                        old(self).hierarchy()[c]@,
                        old(self).windows(),
                        old(self).windows()[c].height,
                        final(self).sizes(),
                    )
                },
    {
        let root_key = self.root_window_id.internal;
        let parent_ids = slice_to_vec(self.hierarchy_table.get(&root_key).unwrap().as_slice());
        let count = parent_ids.len();

        // First pass: a window directly under the root gets its
        // requested size as its actual size.  Well-formedness guarantees
        // every child of the root has a window.
        let mut j: usize = 0;
        while j < count
            invariant
                self.wf(),
                count == parent_ids@.len(),
                parent_ids@ == self.hierarchy()[0]@,
                j <= count,
                self.windows() == old(self).windows(),
                self.hierarchy() == old(self).hierarchy(),
                self.next() == old(self).next(),
                self.sizes().dom() == old(self).sizes().dom(),
                forall|i: int|
                    0 <= i < j ==> {
                        let c = (#[trigger] parent_ids@[i]).internal;
                        self.sizes()[c] == (self.windows()[c].width, self.windows()[c].height)
                    },
            decreases count - j,
        {
            let parent_window_id = parent_ids[j];
            proof {
                assert(self.hierarchy()[0]@[j as int] == parent_window_id);
            }
            let window = self.virtual_window_table.get(&parent_window_id.internal).unwrap();
            let dims = (window.width, window.height);
            let ghost sizes_before = self.sizes();
            self.actual_size_table.insert(parent_window_id.internal, dims);
            proof {
                assert forall|i: int| 0 <= i < j + 1 implies {
                    let c = (#[trigger] parent_ids@[i]).internal;
                    self.sizes()[c] == (self.windows()[c].width, self.windows()[c].height)
                } by {
                    let c = parent_ids@[i].internal;
                    if i < j {
                        assert(self.hierarchy()[0]@[i].internal != self.hierarchy()[0]@[
                        j as int].internal);
                        assert(self.sizes()[c] == sizes_before[c]);
                    }
                }
            }
            j = j + 1;
        }

        // Second pass: push each subtree's sizes down from its root.  A
        // subtree's computation writes only children of nodes at or above
        // its root's identifier, and a child has exactly one parent, so
        // the sizes just assigned to the root's children survive.
        let ghost bound = self.next_id;
        let mut j: usize = 0;
        while j < count
            invariant
                self.wf(),
                bound == self.next_id,
                count == parent_ids@.len(),
                parent_ids@ == self.hierarchy()[0]@,
                j <= count,
                forall|i: int|
                    0 <= i < count ==> self.hierarchy().contains_key(
                        (#[trigger] parent_ids@[i]).internal,
                    ) && parent_ids@[i].internal < bound,
                self.windows() == old(self).windows(),
                self.hierarchy() == old(self).hierarchy(),
                self.next() == old(self).next(),
                self.sizes().dom() == old(self).sizes().dom(),
                forall|i: int|
                    0 <= i < count ==> {
                        let c = (#[trigger] parent_ids@[i]).internal;
                        self.sizes()[c] == (self.windows()[c].width, self.windows()[c].height)
                    },
                forall|i: int|
                    0 <= i < j ==> {
                        let c = (#[trigger] parent_ids@[i]).internal;
                        child_sizes_assigned(
                            self.hierarchy()[c]@,
                            self.windows(),
                            self.windows()[c].height,
                            self.sizes(),
                        )
                    },
            decreases count - j,
        {
            let parent_window_id = parent_ids[j];
            proof {
                assert(self.hierarchy()[0]@[j as int] == parent_window_id);
                assert(parent_window_id.internal > 0);
            }
            let ghost sizes_before = self.sizes();
            Self::update_recursive(
                &mut self.actual_size_table,
                parent_window_id,
                &self.virtual_window_table,
                &self.hierarchy_table,
                Ghost(bound),
            );
            proof {
                assert forall|i: int| 0 <= i < count implies {
                    let c = (#[trigger] parent_ids@[i]).internal;
                    self.sizes()[c] == (self.windows()[c].width, self.windows()[c].height)
                } by {
                    let c = parent_ids@[i].internal;
                    assert(self.hierarchy()[0]@[i].internal == c);
                    assert(sizes_before.contains_key(c));
                    if self.sizes()[c] != sizes_before[c] {
                        assert(child_of_at_least(self.hierarchy(), c, parent_window_id.internal));
                        let (p, pi) = choose|p: u64, pi: int|
                            self.hierarchy().contains_key(p) && p >= parent_window_id.internal && 0
                                <= pi < self.hierarchy()[p]@.len() && (#[trigger] self.hierarchy()[p]@[pi]).internal
                                == c;
                        assert(p == 0 && pi == i);
                        assert(false);
                    }
                }
                assert forall|i: int| 0 <= i < j + 1 implies {
                    let c = (#[trigger] parent_ids@[i]).internal;
                    child_sizes_assigned(
                        self.hierarchy()[c]@,
                        self.windows(),
                        self.windows()[c].height,
                        self.sizes(),
                    )
                } by {
                    let c = parent_ids@[i].internal;
                    assert(self.hierarchy()[0]@[i].internal == c);
                    if i < j {
                        // An earlier subtree's assignments survive: the
                        // later call writes only children of nodes at or
                        // above its own root, and a window has one parent.
                        assert forall|jj: int|
                            0 <= jj < self.hierarchy()[c]@.len() implies self.sizes()[(
                        #[trigger] self.hierarchy()[c]@[jj]).internal] == ((
                        self.windows()[self.hierarchy()[c]@[jj].internal].width,
                        assigned_child_height(
                            self.hierarchy()[c]@,
                            self.windows(),
                            self.windows()[c].height,
                            jj,
                        ),
                        )) by {
                            let x = self.hierarchy()[c]@[jj].internal;
                            assert(sizes_before.contains_key(x));
                            if self.sizes()[x] != sizes_before[x] {
                                assert(child_of_at_least(
                                    self.hierarchy(),
                                    x,
                                    parent_window_id.internal,
                                ));
                                let (p, pi) = choose|p: u64, pi: int|
                                    self.hierarchy().contains_key(p) && p
                                        >= parent_window_id.internal && 0 <= pi
                                        < self.hierarchy()[p]@.len() && (
                                    #[trigger] self.hierarchy()[p]@[pi]).internal == x;
                                assert(p == c && pi == jj);
                                assert(c < parent_window_id.internal);
                                assert(false);
                            }
                        }
                    } else {
                        assert(sizes_before[c].1 == self.windows()[c].height);
                    }
                }
            }
            j = j + 1;
        }
    }

    /// Splits `id`'s actual height among `id`'s children, top to bottom
    /// (each child takes its requested height where it fits, the last
    /// takes the remainder, and every child takes its requested width),
    /// then recurses into each child.  Only size entries of windows with
    /// identifiers greater than `id` change.
    fn update_recursive(
        actual_size_table: &mut HashMap<u64, (u32, u32)>,
        id: VirtualWindowId,
        virtual_window_table: &HashMap<u64, VirtualWindow>,
        hierarchy_table: &HashMap<u64, Vec<VirtualWindowId>>,
        Ghost(bound): Ghost<u64>,
    )
        requires
            tables_wf(hierarchy_table@, virtual_window_table@, old(actual_size_table)@, bound),
            hierarchy_table@.contains_key(id.internal),
            id.internal < bound,
        ensures
            final(actual_size_table)@.dom() == old(actual_size_table)@.dom(),
            tables_wf(hierarchy_table@, virtual_window_table@, final(actual_size_table)@, bound),
            forall|k: u64| #[trigger]
                old(actual_size_table)@.contains_key(k) && k <= id.internal ==> final(actual_size_table)@[k] == old(actual_size_table)@[k],
            forall|k: u64| #[trigger]
                old(actual_size_table)@.contains_key(k) && final(actual_size_table)@[k] != old(actual_size_table)@[k] ==> child_of_at_least(hierarchy_table@, k, id.internal),
            child_sizes_assigned(
                hierarchy_table@[id.internal]@,
                virtual_window_table@,
                old(actual_size_table)@[id.internal].1,
                final(actual_size_table)@,
            ),
        decreases bound - id.internal,
    {
        // Well-formedness puts every node of the hierarchy in the size
        // table, and every child in the window table.
        let children = hierarchy_table.get(&id.internal).unwrap();
        let parent_size = *actual_size_table.get(&id.internal).unwrap();
        let ghost parent_h = parent_size.1;
        let count = children.len();

        // Distribute the parent's actual height over the children.
        let mut h: u32 = parent_size.1;
        let mut i: usize = 0;
        while i < count
            invariant
                tables_wf(hierarchy_table@, virtual_window_table@, actual_size_table@, bound),
                hierarchy_table@.contains_key(id.internal),
                children@ == hierarchy_table@[id.internal]@,
                count == children@.len(),
                i <= count,
                parent_h == old(actual_size_table)@[id.internal].1,
                h == remaining_height(children@, virtual_window_table@, parent_h, i as int),
                actual_size_table@.dom() == old(actual_size_table)@.dom(),
                forall|k: u64| #[trigger]
                    old(actual_size_table)@.contains_key(k) && k <= id.internal ==> actual_size_table@[k]
                        == old(actual_size_table)@[k],
                forall|k: u64| #[trigger]
                    old(actual_size_table)@.contains_key(k) && actual_size_table@[k] != old(actual_size_table)@[k] ==> child_of_at_least(hierarchy_table@, k, id.internal),
                forall|j: int|
                    0 <= j < i ==> actual_size_table@[(#[trigger] children@[j]).internal] == ((
                    virtual_window_table@[children@[j].internal].width,
                    assigned_child_height(children@, virtual_window_table@, parent_h, j),
                )),
            decreases count - i,
        {
            let child_id = children[i];
            proof {
                assert(hierarchy_table@[id.internal]@[i as int] == child_id);
            }
            let child_window = virtual_window_table.get(&child_id.internal).unwrap();
            let is_last_item = i == count - 1;
            let new_actual_height = if is_last_item {
                h
            } else if child_window.height < h {
                child_window.height
            } else {
                h
            };
            let ghost table_before = actual_size_table@;
            actual_size_table.insert(child_id.internal, (child_window.width, new_actual_height));
            proof {
                assert(child_of_at_least(hierarchy_table@, child_id.internal, id.internal));
                assert(new_actual_height == assigned_child_height(
                    children@,
                    virtual_window_table@,
                    parent_h,
                    i as int,
                ));
                assert forall|k: u64| #[trigger]
                    old(actual_size_table)@.contains_key(k) && actual_size_table@[k] != old(actual_size_table)@[k] implies child_of_at_least(hierarchy_table@, k, id.internal) by {
                    if k != child_id.internal {
                        assert(actual_size_table@[k] == table_before[k]);
                    }
                }
                assert forall|j: int|
                    0 <= j < i + 1 implies actual_size_table@[(#[trigger] children@[j]).internal]
                    == ((
                virtual_window_table@[children@[j].internal].width,
                assigned_child_height(children@, virtual_window_table@, parent_h, j),
                )) by {
                    if j < i {
                        assert(children@[j].internal < children@[i as int].internal);
                        assert(actual_size_table@[children@[j].internal]
                            == table_before[children@[j].internal]);
                    }
                }
                assert(remaining_height(children@, virtual_window_table@, parent_h, i as int + 1)
                    == (h - new_actual_height) as u32);
            }
            h = h - new_actual_height;
            i = i + 1;
        }

        // Recurse into each child's subtree.  A child's subtree writes
        // only children of nodes with identifiers at or above the child's,
        // and a window is the child of exactly one node, so the sizes just
        // assigned to this node's children survive the recursion.
        let mut i: usize = 0;
        while i < count
            invariant
                tables_wf(hierarchy_table@, virtual_window_table@, actual_size_table@, bound),
                hierarchy_table@.contains_key(id.internal),
                id.internal < bound,
                children@ == hierarchy_table@[id.internal]@,
                count == children@.len(),
                i <= count,
                parent_h == old(actual_size_table)@[id.internal].1,
                actual_size_table@.dom() == old(actual_size_table)@.dom(),
                forall|k: u64| #[trigger]
                    old(actual_size_table)@.contains_key(k) && k <= id.internal ==> actual_size_table@[k]
                        == old(actual_size_table)@[k],
                forall|k: u64| #[trigger]
                    old(actual_size_table)@.contains_key(k) && actual_size_table@[k] != old(actual_size_table)@[k] ==> child_of_at_least(hierarchy_table@, k, id.internal),
                child_sizes_assigned(children@, virtual_window_table@, parent_h, actual_size_table@),
            decreases count - i,
        {
            let child_id = children[i];
            let ghost before = actual_size_table@;
            Self::update_recursive(
                actual_size_table,
                child_id,
                virtual_window_table,
                hierarchy_table,
                Ghost(bound),
            );
            proof {
                assert(hierarchy_table@[id.internal]@[i as int] == child_id);
                assert forall|k: u64| #[trigger]
                    old(actual_size_table)@.contains_key(k) && k
                        <= id.internal implies actual_size_table@[k] == old(actual_size_table)@[k] by {
                    assert(before.contains_key(k) && before[k] == old(actual_size_table)@[k]);
                    assert(k <= id.internal < child_id.internal);
                }
                assert forall|k: u64| #[trigger]
                    old(actual_size_table)@.contains_key(k) && actual_size_table@[k] != old(actual_size_table)@[k] implies child_of_at_least(hierarchy_table@, k, id.internal) by {
                    if actual_size_table@[k] != before[k] {
                        assert(before.contains_key(k));
                        assert(child_of_at_least(hierarchy_table@, k, child_id.internal));
                        let (p, pi) = choose|p: u64, pi: int|
                            hierarchy_table@.contains_key(p) && p >= child_id.internal && 0 <= pi
                                < hierarchy_table@[p]@.len() && (#[trigger] hierarchy_table@[p]@[pi]).internal
                                == k;
                        assert(p >= id.internal);
                    } else {
                        assert(before[k] != old(actual_size_table)@[k]);
                    }
                }
                assert forall|j: int|
                    0 <= j < children@.len() implies actual_size_table@[(
                #[trigger] children@[j]).internal] == ((
                virtual_window_table@[children@[j].internal].width,
                assigned_child_height(children@, virtual_window_table@, parent_h, j),
                )) by {
                    let k = children@[j].internal;
                    assert(hierarchy_table@[id.internal]@[j] == children@[j]);
                    if actual_size_table@[k] != before[k] {
                        assert(before.contains_key(k));
                        assert(child_of_at_least(hierarchy_table@, k, child_id.internal));
                        let (p, pi) = choose|p: u64, pi: int|
                            hierarchy_table@.contains_key(p) && p >= child_id.internal && 0 <= pi
                                < hierarchy_table@[p]@.len() && (#[trigger] hierarchy_table@[p]@[pi]).internal
                                == k;
                        assert(p == id.internal && pi == j);
                        assert(false);
                    }
                }
            }
            i = i + 1;
        }
    }

    /// Whether the identifier space has room for another window; callers
    /// of [`VirtualWindowManager::spawn_virtual_window`] check this first.
    pub fn can_spawn(&self) -> (r: bool)
        ensures
            r == (self.next() < u64::MAX),
    {
        self.next_id < u64::MAX
    }

    /// Spawns a window of the requested size directly under the root.
    pub fn spawn_virtual_window(&mut self, width: u32, height: u32) -> (r: VirtualWindowId)
        requires
            old(self).wf(),
            old(self).next() < u64::MAX,
        ensures
            final(self).wf(),
            r.internal == old(self).next(),
            final(self).next() == old(self).next() + 1,
            final(self).windows() == old(self).windows().insert(
                r.internal,
                (VirtualWindow { width, height }),
            ),
            final(self).hierarchy().contains_key(r.internal),
            final(self).hierarchy()[r.internal]@.len() == 0,
            final(self).hierarchy()[0]@ == old(self).hierarchy()[0]@.push(r),
            forall|p: u64| #[trigger]
                final(self).hierarchy().contains_key(p) <==> old(self).hierarchy().contains_key(p)
                    || p == r.internal,
            forall|p: u64| #[trigger]
                old(self).hierarchy().contains_key(p) && p != 0 ==> final(self).hierarchy()[p]@
                    == old(self).hierarchy()[p]@,
            final(self).sizes() == old(self).sizes().insert(r.internal, ((0u32, 0u32))),
        {
        let root_id = self.root_window_id;
        let id = self.spawn_virtual_window_with_parent(width, height, root_id);
        id.unwrap()
    }

    /// Spawns a window of the requested size under `parent_id`.  Returns
    /// None exactly where the parent is unknown or the identifier space
    /// is exhausted; otherwise the fresh identifier, which is the
    /// identifier counter's current value.
    pub fn spawn_virtual_window_with_parent(
        &mut self,
        width: u32,
        height: u32,
        parent_id: VirtualWindowId,
    ) -> (r: Option<VirtualWindowId>)
        requires
            old(self).wf(),
        ensures
            final(self).wf(),
            r is Some <==> old(self).hierarchy().contains_key(parent_id.internal) && old(self).next() < u64::MAX,
            r is None ==> *final(self) == *old(self),
            r matches Some(id) ==> {
                &&& id.internal == old(self).next()
                &&& final(self).next() == old(self).next() + 1
                &&& final(self).windows() == old(self).windows().insert(
                    id.internal,
                    (VirtualWindow { width, height }),
                )
                &&& final(self).hierarchy().contains_key(id.internal)
                &&& final(self).hierarchy()[id.internal]@.len() == 0
                &&& final(self).hierarchy()[parent_id.internal]@ == old(self).hierarchy()[parent_id.internal]@.push(id)
                &&& forall|p: u64| #[trigger]
                    final(self).hierarchy().contains_key(p) <==> old(self).hierarchy().contains_key(p) || p == id.internal
                &&& forall|p: u64| #[trigger]
                    old(self).hierarchy().contains_key(p) && p != parent_id.internal ==> final(self).hierarchy()[p]@ == old(self).hierarchy()[p]@
                &&& final(self).sizes() == old(self).sizes().insert(id.internal, ((0u32, 0u32)))
            },
    {
        let children = match self.hierarchy_table.get(&parent_id.internal) {
            Some(children) => slice_to_vec(children.as_slice()),
            None => {
                return None;
            },
        };
        if self.next_id == u64::MAX {
            return None;
        }

        let id = VirtualWindowId { internal: self.next_id };
        self.next_id = self.next_id + 1;

        let virtual_window = VirtualWindow::new(width, height);
        self.virtual_window_table.insert(id.internal, virtual_window);

        let mut new_children = children;
        new_children.push(id);
        self.hierarchy_table.insert(parent_id.internal, new_children);
        self.hierarchy_table.insert(id.internal, Vec::new());
        self.actual_size_table.insert(id.internal, (0, 0));

        proof {
            let h = self.hierarchy();
            let old_h = old(self).hierarchy();
            assert forall|k: u64, i: int|
                h.contains_key(k) && 0 <= i < h[k]@.len() implies {
                    let c = (#[trigger] h[k]@[i]).internal;
                    &&& c > k
                    &&& c < self.next()
                    &&& h.contains_key(c)
                    &&& self.windows().contains_key(c)
                    &&& self.sizes().contains_key(c)
                } by {
                if k == id.internal {
                } else if k == parent_id.internal {
                    if i < old_h[k]@.len() {
                        assert(h[k]@[i] == old_h[k]@[i]);
                    } else {
                        assert(h[k]@[i] == id);
                    }
                } else {
                    assert(old_h.contains_key(k) && h[k]@ == old_h[k]@);
                }
            }
            assert forall|k: u64, i1: int, i2: int|
                h.contains_key(k) && 0 <= i1 < i2 < h[k]@.len() implies (
            #[trigger] h[k]@[i1]).internal < (#[trigger] h[k]@[i2]).internal by {
                if k == parent_id.internal {
                    if i2 == h[k]@.len() - 1 && i2 >= old_h[k]@.len() {
                        assert(h[k]@[i2] == id);
                        assert(h[k]@[i1] == old_h[k]@[i1]);
                        assert(old_h[k]@[i1].internal < old(self).next());
                    } else {
                        assert(h[k]@[i1] == old_h[k]@[i1] && h[k]@[i2] == old_h[k]@[i2]);
                    }
                } else if k != id.internal {
                    assert(old_h.contains_key(k) && h[k]@ == old_h[k]@);
                }
            }
        }
        Some(id)
    }

    /// Sets the requested size of every window directly under the root.
    pub fn resize(&mut self, width: u32, height: u32)
        requires
            old(self).wf(),
        ensures
            final(self).wf(),
            final(self).hierarchy() == old(self).hierarchy(),
            final(self).sizes() == old(self).sizes(),
            final(self).next() == old(self).next(),
            final(self).windows().dom() == old(self).windows().dom(),
            forall|i: int|
                0 <= i < old(self).hierarchy()[0]@.len() ==> {
                    let c = (#[trigger] old(self).hierarchy()[0]@[i]).internal;
                    final(self).windows()[c].width == width && final(self).windows()[c].height
                        == height
                },
            forall|k: u64| #[trigger]
                old(self).windows().contains_key(k) && (forall|i: int|
                    0 <= i < old(self).hierarchy()[0]@.len() ==> (#[trigger] old(self).hierarchy()[0]@[i]).internal != k) ==> final(self).windows()[k] == old(self).windows()[k],
    {
        let root_windows = match self.hierarchy_table.get(&self.root_window_id.internal) {
            Some(ids) => slice_to_vec(ids.as_slice()),
            None => {
                return ;
            },
        };
        let count = root_windows.len();
        let mut i: usize = 0;
        while i < count
            invariant
                self.wf(),
                count == root_windows@.len(),
                root_windows@ == old(self).hierarchy()[0]@,
                i <= count,
                self.hierarchy() == old(self).hierarchy(),
                self.sizes() == old(self).sizes(),
                self.next() == old(self).next(),
                self.windows().dom() == old(self).windows().dom(),
                forall|j: int|
                    0 <= j < i ==> {
                        let c = (#[trigger] root_windows@[j]).internal;
                        self.windows()[c].width == width && self.windows()[c].height == height
                    },
                forall|k: u64| #[trigger]
                    old(self).windows().contains_key(k) && (forall|j: int|
                        0 <= j < i ==> (#[trigger] root_windows@[j]).internal != k) ==> self.windows()[k]
                        == old(self).windows()[k],
            decreases count - i,
        {
            let id = root_windows[i];
            let present = self.virtual_window_table.contains_key(&id.internal);
            if present {
                self.virtual_window_table.insert(id.internal, VirtualWindow::new(width, height));
            }
            proof {
                assert(self.windows().contains_key(id.internal));
            }
            i = i + 1;
        }
    }

    /// The window with the given identifier, where one exists.
    pub fn try_get_window(&self, id: VirtualWindowId) -> (r: Option<&VirtualWindow>)
        ensures
            match r {
                Some(w) => self.windows().contains_key(id.internal) && *w == self.windows()[id.internal],
                None => !self.windows().contains_key(id.internal),
            },
    {
        self.virtual_window_table.get(&id.internal)
    }

    /// The derived actual size of the window with the given identifier,
    /// where one exists.
    pub fn try_get_actual_size(&self, id: VirtualWindowId) -> (r: Option<(u32, u32)>)
        ensures
            match r {
                Some(size) => self.sizes().contains_key(id.internal) && size == self.sizes()[id.internal],
                None => !self.sizes().contains_key(id.internal),
            },
    {
        match self.actual_size_table.get(&id.internal) {
            Some(size) => Some(*size),
            None => None,
        }
    }
}

} // verus!

