use vstd::prelude::*;
use crate::bounds_stack::{
    BoundsStack, stack_items, stack_last, stack_len, stack_new, stack_pop, stack_push,
};
use crate::geometry::BoundsBits;

verus! {

/// One named group and the stack of bounds its painting elements published.
struct GroupEntry {
    name: String,
    stack: BoundsStack,
}

/// The bounds that each named group is currently painted at. A grouped
/// element pushes its bounds on entering paint and pops them on leaving, so
/// the top of a group's stack is the innermost element of that group that is
/// being painted.
pub struct GroupBounds {
    entries: Vec<GroupEntry>,
}

/// The stack of the first entry named `name`, if any.
spec fn lookup(entries: Seq<GroupEntry>, name: Seq<char>) -> Option<Seq<BoundsBits>>
    decreases entries.len(),
{
    if entries.len() == 0 {
        None
    } else if entries[0].name@ == name {
        Some(stack_items(entries[0].stack))
    } else {
        lookup(entries.drop_first(), name)
    }
}

impl View for GroupBounds {
    type V = Map<Seq<char>, Seq<BoundsBits>>;

    /// Each group name that has ever been pushed, with its stack of bounds,
    /// first pushed first.
    closed spec fn view(&self) -> Map<Seq<char>, Seq<BoundsBits>> {
        Map::new(
            |k: Seq<char>| lookup(self.entries@, k) is Some,
            |k: Seq<char>| lookup(self.entries@, k).unwrap(),
        )
    }
}

/// The stack of `name` in `groups`, empty when the group is unknown.
pub open spec fn stack_in(groups: Map<Seq<char>, Seq<BoundsBits>>, name: Seq<char>) -> Seq<BoundsBits> {
    if groups.contains_key(name) {
        groups[name]
    } else {
        Seq::empty()
    }
}

/// The bounds that group `name` publishes: the top of its stack.
pub open spec fn top_of(groups: Map<Seq<char>, Seq<BoundsBits>>, name: Seq<char>) -> Option<BoundsBits> {
    if stack_in(groups, name).len() > 0 {
        Some(stack_in(groups, name).last())
    } else {
        None
    }
}

/// `groups` after `bounds` was pushed for `name`.
pub open spec fn pushed(
    groups: Map<Seq<char>, Seq<BoundsBits>>,
    name: Seq<char>,
    bounds: BoundsBits,
) -> Map<Seq<char>, Seq<BoundsBits>> {
    groups.insert(name, stack_in(groups, name).push(bounds))
}

/// `groups` after the top of `name`'s stack was popped (nothing is removed
/// from an empty stack).
pub open spec fn popped(groups: Map<Seq<char>, Seq<BoundsBits>>, name: Seq<char>) -> Map<
    Seq<char>,
    Seq<BoundsBits>,
> {
    let s = stack_in(groups, name);
    groups.insert(name, if s.len() > 0 { s.drop_last() } else { s })
}

proof fn lemma_lookup_first(entries: Seq<GroupEntry>, name: Seq<char>, i: int)
    requires
        0 <= i < entries.len(),
        entries[i].name@ == name,
        forall|j: int| 0 <= j < i ==> entries[j].name@ != name,
    ensures
        lookup(entries, name) == Some(stack_items(entries[i].stack)),
    decreases i,
{
    if i > 0 {
        lemma_lookup_first(entries.drop_first(), name, i - 1);
    }
}

proof fn lemma_lookup_absent(entries: Seq<GroupEntry>, name: Seq<char>)
    requires
        forall|j: int| 0 <= j < entries.len() ==> entries[j].name@ != name,
    ensures
        lookup(entries, name) is None,
    decreases entries.len(),
{
    if entries.len() > 0 {
        lemma_lookup_absent(entries.drop_first(), name);
    }
}

proof fn lemma_lookup_update(entries: Seq<GroupEntry>, i: int, e: GroupEntry, name: Seq<char>)
    requires
        0 <= i < entries.len(),
        entries[i].name@ == e.name@,
        forall|j: int| 0 <= j < i ==> entries[j].name@ != e.name@,
    ensures
        lookup(entries.update(i, e), name) == if name == e.name@ {
            Some(stack_items(e.stack))
        } else {
            lookup(entries, name)
        },
    decreases i,
{
    let u = entries.update(i, e);
    if i > 0 {
        assert(u[0] == entries[0]);
        assert(u.drop_first() =~= entries.drop_first().update(i - 1, e));
        lemma_lookup_update(entries.drop_first(), i - 1, e, name);
    } else {
        assert(u[0] == e);
        assert(u.drop_first() =~= entries.drop_first());
    }
}

proof fn lemma_lookup_push(entries: Seq<GroupEntry>, e: GroupEntry, name: Seq<char>)
    requires
        lookup(entries, e.name@) is None,
    ensures
        lookup(entries.push(e), name) == if name == e.name@ {
            Some(stack_items(e.stack))
        } else {
            lookup(entries, name)
        },
    decreases entries.len(),
{
    let p = entries.push(e);
    if entries.len() > 0 {
        assert(p[0] == entries[0]);
        assert(entries[0].name@ != e.name@);
        assert(lookup(entries.drop_first(), e.name@) is None);
        assert(p.drop_first() =~= entries.drop_first().push(e));
        lemma_lookup_push(entries.drop_first(), e, name);
        if entries[0].name@ != name {
            assert(lookup(p, name) == lookup(p.drop_first(), name));
            assert(lookup(entries, name) == lookup(entries.drop_first(), name));
        }
    } else {
        assert(p[0] == e);
        assert(p.drop_first() =~= Seq::<GroupEntry>::empty());
    }
}

impl GroupBounds {
    /// A registry in which no group has published bounds.
    pub fn new() -> (groups: Self)
        ensures
            groups@ == Map::<Seq<char>, Seq<BoundsBits>>::empty(),
    {
        let groups = GroupBounds { entries: Vec::new() };
        assert(groups@ =~= Map::<Seq<char>, Seq<BoundsBits>>::empty());
        groups
    }

    /// The index of the entry named `name`: the first one.
    fn find(&self, name: &String) -> (found: Option<usize>)
        ensures
            match found {
                Some(i) => i < self.entries@.len() && self.entries@[i as int].name@ == name@
                    && forall|j: int| 0 <= j < i ==> self.entries@[j].name@ != name@,
                None => forall|j: int|
                    0 <= j < self.entries@.len() ==> self.entries@[j].name@ != name@,
            },
    {
        let mut i: usize = 0;
        while i < self.entries.len()
            invariant
                i <= self.entries@.len(),
                forall|j: int| 0 <= j < i ==> self.entries@[j].name@ != name@,
            decreases self.entries@.len() - i,
        {
            if self.entries[i].name == *name {
                return Some(i);
            }
            i = i + 1;
        }
        None
    }

    /// Publishes `bounds` as the innermost bounds of group `name`, creating
    /// the group when it is new.
    pub fn push(&mut self, name: &String, bounds: BoundsBits)
        requires
            stack_in(old(self)@, name@).len() < isize::MAX / 64,
        ensures
            final(self)@ == pushed(old(self)@, name@, bounds),
    {
        let ghost before = self.entries@;
        match self.find(name) {
            Some(i) => {
                proof {
                    lemma_lookup_first(before, name@, i as int);
                }
                let mut entry = self.entries.remove(i);
                stack_push(&mut entry.stack, bounds);
                self.entries.insert(i, entry);
                proof {
                    assert(self.entries@ =~= before.update(i as int, entry));
                    assert forall|k: Seq<char>|
                        lookup(self.entries@, k) == if k == name@ {
                            Some(stack_items(entry.stack))
                        } else {
                            lookup(before, k)
                        } by {
                        lemma_lookup_update(before, i as int, entry, k);
                    }
                    assert(self@ =~= pushed(old(self)@, name@, bounds));
                }
            },
            None => {
                proof {
                    lemma_lookup_absent(before, name@);
                }
                let mut stack = stack_new();
                stack_push(&mut stack, bounds);
                let entry = GroupEntry { name: name.clone(), stack };
                self.entries.push(entry);
                proof {
                    assert forall|k: Seq<char>|
                        lookup(self.entries@, k) == if k == name@ {
                            Some(stack_items(entry.stack))
                        } else {
                            lookup(before, k)
                        } by {
                        lemma_lookup_push(before, entry, k);
                    }
                    assert(stack_items(entry.stack) =~= Seq::<BoundsBits>::empty().push(bounds));
                    assert(self@ =~= pushed(old(self)@, name@, bounds));
                }
            },
        }
    }

    /// Withdraws the innermost bounds of group `name` and returns them
    /// (`None` when its stack is empty). The group must be known: a grouped
    /// element only pops what it pushed.
    pub fn pop(&mut self, name: &String) -> (popped_bounds: Option<BoundsBits>)
        requires
            old(self)@.contains_key(name@),
        ensures
            final(self)@ == popped(old(self)@, name@),
            popped_bounds == top_of(old(self)@, name@),
    {
        let ghost before = self.entries@;
        match self.find(name) {
            Some(i) => {
                proof {
                    lemma_lookup_first(before, name@, i as int);
                }
                let mut entry = self.entries.remove(i);
                let top = stack_pop(&mut entry.stack);
                self.entries.insert(i, entry);
                proof {
                    assert(self.entries@ =~= before.update(i as int, entry));
                    assert forall|k: Seq<char>|
                        lookup(self.entries@, k) == if k == name@ {
                            Some(stack_items(entry.stack))
                        } else {
                            lookup(before, k)
                        } by {
                        lemma_lookup_update(before, i as int, entry, k);
                    }
                    let s = stack_in(old(self)@, name@);
                    assert(stack_items(entry.stack) =~= if s.len() > 0 {
                        s.drop_last()
                    } else {
                        s
                    });
                    assert(self@ =~= popped(old(self)@, name@));
                }
                top
            },
            None => {
                proof {
                    lemma_lookup_absent(before, name@);
                }
                None
            },
        }
    }

    /// Whether group `name` has ever had bounds pushed.
    pub fn contains_group(&self, name: &String) -> (known: bool)
        ensures
            known == self@.contains_key(name@),
    {
        match self.find(name) {
            Some(i) => {
                proof {
                    lemma_lookup_first(self.entries@, name@, i as int);
                }
                true
            },
            None => {
                proof {
                    lemma_lookup_absent(self.entries@, name@);
                }
                false
            },
        }
    }

    /// The number of bounds group `name` has on its stack.
    pub fn depth(&self, name: &String) -> (depth: usize)
        ensures
            depth == stack_in(self@, name@).len(),
    {
        match self.find(name) {
            Some(i) => {
                proof {
                    lemma_lookup_first(self.entries@, name@, i as int);
                }
                stack_len(&self.entries[i].stack)
            },
            None => {
                proof {
                    lemma_lookup_absent(self.entries@, name@);
                }
                0
            },
        }
    }
}

impl Default for GroupBounds {
    fn default() -> (groups: Self)
        ensures
            groups@ == Map::<Seq<char>, Seq<BoundsBits>>::empty(),
    {
        GroupBounds::new()
    }
}

/// The bounds that group `name` is currently painted at: those of its
/// innermost element being painted, or `None` when no element of the group
/// is being painted.
pub fn group_bounds(name: &String, groups: &GroupBounds) -> (bounds: Option<BoundsBits>)
    ensures
        bounds == top_of(groups@, name@),
{
    match groups.find(name) {
        Some(i) => {
            proof {
                lemma_lookup_first(groups.entries@, name@, i as int);
            }
            stack_last(&groups.entries[i].stack)
        },
        None => {
            proof {
                lemma_lookup_absent(groups.entries@, name@);
            }
            None
        },
    }
}

/// Pushing bounds for a group makes them the bounds that the group
/// publishes, and leaves what every other group publishes unchanged.
pub proof fn lemma_push_publishes(
    groups: Map<Seq<char>, Seq<BoundsBits>>,
    name: Seq<char>,
    bounds: BoundsBits,
    other: Seq<char>,
)
    ensures
        top_of(pushed(groups, name, bounds), name) == Some(bounds),
        other != name ==> top_of(pushed(groups, name, bounds), other) == top_of(groups, other),
{
}

/// A push followed by a pop of the same group leaves every group publishing
/// what it published before; when the group was already known, the registry
/// is exactly as it was.
pub proof fn lemma_push_pop_restores(
    groups: Map<Seq<char>, Seq<BoundsBits>>,
    name: Seq<char>,
    bounds: BoundsBits,
    other: Seq<char>,
)
    ensures
        top_of(popped(pushed(groups, name, bounds), name), other) == top_of(groups, other),
        stack_in(popped(pushed(groups, name, bounds), name), other) == stack_in(groups, other),
        groups.contains_key(name) ==> popped(pushed(groups, name, bounds), name) == groups,
{
    let p = pushed(groups, name, bounds);
    assert(stack_in(groups, name).push(bounds).drop_last() =~= stack_in(groups, name));
    if groups.contains_key(name) {
        assert(popped(p, name) =~= groups);
    }
}

} // verus!
