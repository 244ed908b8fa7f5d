use vstd::prelude::*;
use smallvec::SmallVec;
use crate::geometry::BoundsBits;

verus! {

/// A stack of bounds kept in a `smallvec::SmallVec` with room for one item
/// inline.
#[verifier::external_body]
pub struct BoundsStack {
    items: SmallVec<[BoundsBits; 1]>,
}

/// What a stack of group bounds holds, first pushed first.
pub uninterp spec fn stack_items(stack: BoundsStack) -> Seq<BoundsBits>;

/// `SmallVec::new`: an empty vector.
#[verifier::external_body]
pub(crate) fn stack_new() -> (stack: BoundsStack)
    ensures
        stack_items(stack) == Seq::<BoundsBits>::empty(),
{
    BoundsStack { items: SmallVec::new() }
}

/// `SmallVec::push`: appends the item at the end. When the vector is full it
/// grows to the next power of two above its length, and panics ("capacity
/// overflow") when that capacity in bytes exceeds `isize::MAX`; the
/// precondition keeps the length far below that. A failed allocation aborts
/// the process, which no precondition can rule out.
#[verifier::external_body]
pub(crate) fn stack_push(stack: &mut BoundsStack, item: BoundsBits)
    requires
        stack_items(*old(stack)).len() < isize::MAX / 64,
    ensures
        stack_items(*final(stack)) == stack_items(*old(stack)).push(item),
{
    stack.items.push(item)
}

/// `SmallVec::pop`: removes and returns the last item, or returns `None`
/// and leaves the vector empty when it is empty.
#[verifier::external_body]
pub(crate) fn stack_pop(stack: &mut BoundsStack) -> (item: Option<BoundsBits>)
    ensures
        stack_items(*old(stack)).len() == 0 ==> item is None && stack_items(*final(stack)).len() == 0,
        stack_items(*old(stack)).len() > 0 ==> item == Some(stack_items(*old(stack)).last())
            && stack_items(*final(stack)) == stack_items(*old(stack)).drop_last(),
{
    stack.items.pop()
}

/// `last` of the slice that a `SmallVec` dereferences to: the last item,
/// copied, or `None` when the vector is empty.
#[verifier::external_body]
pub(crate) fn stack_last(stack: &BoundsStack) -> (item: Option<BoundsBits>)
    ensures
        stack_items(*stack).len() == 0 ==> item is None,
        stack_items(*stack).len() > 0 ==> item == Some(stack_items(*stack).last()),
{
    stack.items.last().copied()
}

/// `SmallVec::len`: the number of items.
#[verifier::external_body]
pub(crate) fn stack_len(stack: &BoundsStack) -> (len: usize)
    ensures
        len == stack_items(*stack).len(),
{
    stack.items.len()
}

} // verus!
