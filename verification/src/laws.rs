use vstd::prelude::*;

use crate::hooks::Noop;
use crate::item::Hand;
use crate::item::ItemView;
use crate::item::Location;
use crate::item::Target;
use crate::item::UpdateHook;
use crate::item::UseHook;
use crate::item::update_hook_is_noop;
use crate::item::use_hook_is_noop;

verus! {

/// The default hook is a no-op, in both of its roles: the hooks an
/// [`crate::builder::ItemBuilder`] starts with, and so the hooks of any item
/// built without explicit ones, admit exactly the unchanged item data.
pub proof fn lemma_noop_is_noop()
    ensures
        use_hook_is_noop(Noop),
        update_hook_is_noop(Noop),
{
}

/// Invoking a no-op use hook relates a pre-state only to itself, whatever the
/// target and hand: the item data cannot change.
pub proof fn lemma_noop_use_preserves_item<U: UseHook>(
    h: U,
    pre: ItemView,
    target: Target,
    hand: Hand,
    post: ItemView,
)
    requires
        use_hook_is_noop(h),
        h.rel(pre, target, hand, post),
    ensures
        post == pre,
{
}

/// Invoking a no-op update hook relates a pre-state only to itself, whatever
/// the location: the item data cannot change.
pub proof fn lemma_noop_update_preserves_item<P: UpdateHook>(
    h: P,
    pre: ItemView,
    location: Location,
    post: ItemView,
)
    requires
        update_hook_is_noop(h),
        h.rel(pre, location, post),
    ensures
        post == pre,
{
}

/// A step of `chain` is an invocation of the use hook `u` (on some target and
/// hand) or of the update hook `p` (in some location) that leads from one
/// state to the next.
pub open spec fn hook_step<U: UseHook, P: UpdateHook>(
    u: U,
    p: P,
    chain: Seq<ItemView>,
    i: int,
) -> bool {
    (exists|target: Target, hand: Hand| #[trigger] u.rel(chain[i], target, hand, chain[i + 1]))
        || (exists|location: Location| #[trigger] p.rel(chain[i], location, chain[i + 1]))
}

/// Idempotence of the default hooks: however many times a no-op use hook and
/// a no-op update hook are invoked, in any order and in any combination of
/// targets, hands and locations, the item data never moves from where it
/// started. `chain` is the succession of item states such a run walks
/// through.
pub proof fn lemma_noop_hooks_fix_item<U: UseHook, P: UpdateHook>(
    u: U,
    p: P,
    chain: Seq<ItemView>,
)
    requires
        use_hook_is_noop(u),
        update_hook_is_noop(p),
        forall|i: int| 0 <= i < chain.len() - 1 ==> #[trigger] hook_step(u, p, chain, i),
    ensures
        forall|i: int| 0 <= i < chain.len() ==> #[trigger] chain[i] == chain[0],
    decreases chain.len(),
{
    if chain.len() > 1 {
        let front = chain.drop_last();
        assert forall|i: int| 0 <= i < front.len() - 1 implies #[trigger] hook_step(
            u,
            p,
            front,
            i,
        ) by {
            assert(hook_step(u, p, chain, i));
            assert(front[i] == chain[i]);
            assert(front[i + 1] == chain[i + 1]);
        }
        lemma_noop_hooks_fix_item(u, p, front);
        let last: int = chain.len() - 2;
        assert(hook_step(u, p, chain, last));
        assert(chain[last + 1] == chain[last]);
        assert forall|i: int| 0 <= i < chain.len() implies #[trigger] chain[i] == chain[0] by {
            if i < chain.len() - 1 {
                assert(front[i] == chain[i]);
                assert(front[0] == chain[0]);
                assert(front[i] == front[0]);
            } else if i > 0 {
                assert(front[last] == chain[last]);
                assert(front[last] == front[0]);
                assert(front[0] == chain[0]);
            }
        }
    }
}

} // verus!
