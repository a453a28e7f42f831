use vstd::prelude::*;

verus! {

/// What a use-action was aimed at.
pub enum Target {
    Air,
    Block,
    Entity,
}

/// Which hand performed an action.
pub enum Hand {
    MainHand,
    OffHand,
}

/// Where an item currently resides; the `Hand` variant carries which hand holds it.
pub enum Location {
    Inventory,
    Hotbar,
    Hand(Hand),
}

/// Mathematical snapshot of an item's data: exactly the fields a hook may
/// observe and mutate. Hook relations and item contracts are stated over it.
pub ghost struct ItemView {
    pub namespace: Seq<char>,
    pub id: u32,
    pub description: Seq<char>,
}

/// Behavior attached to an item, run when a holder actively uses it.
///
/// Each hook carries its own relation `rel` between the item data before and
/// after a call; `call` is bound to that relation, so whoever holds an item
/// knows from the hook value alone what an invocation may do. A hook receives
/// exclusive mutable access to the item's data fields and communicates only by
/// mutating them; it never panics. `Send + Sync` keeps hooks safely shareable
/// and transferable across threads; serializing invocations on one item is the
/// holder's task and is forced by the exclusive access the hook demands.
pub trait UseHook: Send + Sync {
    /// The relation this hook establishes between the item data before (`pre`)
    /// and after (`post`) one invocation.
    spec fn rel(&self, pre: ItemView, target: Target, hand: Hand, post: ItemView) -> bool;

    fn call(
        &self,
        namespace: &mut String,
        id: &mut u32,
        description: &mut String,
        target: Target,
        hand: Hand,
    )
        ensures
            self.rel(
                (ItemView {
                    namespace: old(namespace)@,
                    id: *old(id),
                    description: old(description)@,
                }),
                target,
                hand,
                (ItemView {
                    namespace: final(namespace)@,
                    id: *final(id),
                    description: final(description)@,
                }),
            ),
    ;
}

/// Behavior attached to an item, run periodically (for example once per game
/// tick) while the item exists in a tracked location. How often it runs is the
/// external scheduler's affair. Same mutation contract as [`UseHook`].
pub trait UpdateHook: Send + Sync {
    /// The relation this hook establishes between the item data before (`pre`)
    /// and after (`post`) one invocation.
    spec fn rel(&self, pre: ItemView, location: Location, post: ItemView) -> bool;

    fn call(
        &self,
        namespace: &mut String,
        id: &mut u32,
        description: &mut String,
        location: Location,
    )
        ensures
            self.rel(
                (ItemView {
                    namespace: old(namespace)@,
                    id: *old(id),
                    description: old(description)@,
                }),
                location,
                (ItemView {
                    namespace: final(namespace)@,
                    id: *final(id),
                    description: final(description)@,
                }),
            ),
    ;
}

/// A boxed use hook behaves as the hook it holds, so hooks of different types
/// can stand in one item type as `Box<dyn UseHook>`.
impl UseHook for Box<dyn UseHook> {
    open spec fn rel(&self, pre: ItemView, target: Target, hand: Hand, post: ItemView) -> bool {
        (**self).rel(pre, target, hand, post)
    }

    fn call(
        &self,
        namespace: &mut String,
        id: &mut u32,
        description: &mut String,
        target: Target,
        hand: Hand,
    ) {
        (**self).call(namespace, id, description, target, hand)
    }
}

/// A boxed update hook behaves as the hook it holds.
impl UpdateHook for Box<dyn UpdateHook> {
    open spec fn rel(&self, pre: ItemView, location: Location, post: ItemView) -> bool {
        (**self).rel(pre, location, post)
    }

    fn call(
        &self,
        namespace: &mut String,
        id: &mut u32,
        description: &mut String,
        location: Location,
    ) {
        (**self).call(namespace, id, description, location)
    }
}

/// A use hook is a no-op when its relation admits exactly the unchanged item
/// data: invoking it can neither change anything nor rule out any state.
pub open spec fn use_hook_is_noop<U: UseHook>(h: U) -> bool {
    forall|pre: ItemView, target: Target, hand: Hand, post: ItemView|
        #[trigger] h.rel(pre, target, hand, post) <==> post == pre
}

/// An update hook is a no-op when its relation admits exactly the unchanged
/// item data.
pub open spec fn update_hook_is_noop<P: UpdateHook>(h: P) -> bool {
    forall|pre: ItemView, location: Location, post: ItemView|
        #[trigger] h.rel(pre, location, post) <==> post == pre
}

/// One concrete item definition: identity (`namespace`, `id`), descriptive
/// text, and the two behavior hooks. Constructed only through
/// [`crate::builder::ItemBuilder::build`]. The `namespace` and `id` form a
/// global identity key; their uniqueness and non-emptiness are an external
/// registry's affair, not checked at this layer.
pub struct Item<U: UseHook, P: UpdateHook> {
    pub namespace: String,
    pub id: u32,
    pub on_use: U,
    pub on_update: P,
    pub description: String,
}

impl<U: UseHook, P: UpdateHook> View for Item<U, P> {
    type V = ItemView;

    open spec fn view(&self) -> ItemView {
        ItemView { namespace: self.namespace@, id: self.id, description: self.description@ }
    }
}

impl<U: UseHook, P: UpdateHook> Item<U, P> {
    /// Invokes the stored use hook once, with exclusive mutable access to this
    /// item's data fields. The data before and after are related by exactly
    /// the stored hook's relation, and both hooks themselves are unchanged.
    pub fn on_use(&mut self, target: Target, hand: Hand)
        ensures
            old(self).on_use.rel(old(self)@, target, hand, final(self)@),
            final(self).on_use == old(self).on_use,
            final(self).on_update == old(self).on_update,
    {
        self.on_use.call(&mut self.namespace, &mut self.id, &mut self.description, target, hand);
    }

    /// Invokes the stored update hook once, with exclusive mutable access to
    /// this item's data fields. The data before and after are related by
    /// exactly the stored hook's relation, and both hooks are unchanged.
    pub fn on_update(&mut self, location: Location)
        ensures
            old(self).on_update.rel(old(self)@, location, final(self)@),
            final(self).on_use == old(self).on_use,
            final(self).on_update == old(self).on_update,
    {
        self.on_update.call(&mut self.namespace, &mut self.id, &mut self.description, location);
    }
}

} // verus!
