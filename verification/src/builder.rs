use vstd::prelude::*;

use crate::hooks::Noop;
use crate::item::Item;
use crate::item::UpdateHook;
use crate::item::UseHook;

verus! {

/// Staged, fluent construction of an [`Item`].
///
/// Created with `namespace` and `id`; hooks and description are optional and
/// supplied by chained calls, each consuming and returning the builder. Each
/// configuration call overwrites what an earlier call of the same method
/// stored, so only the last-set value reaches the built item. `build` consumes
/// the builder and cannot fail: no validation of `namespace` or `id` happens
/// at this layer. A hook slot never left [`Noop`] and a description never set
/// reach the built item as their defaults: a no-op hook, the empty text.
pub struct ItemBuilder<U: UseHook, P: UpdateHook> {
    namespace: String,
    id: u32,
    on_use: U,
    on_update: P,
    description: Option<String>,
}

impl ItemBuilder<Noop, Noop> {
    /// Starts a builder for the item `namespace:id`, with no-op hooks and no
    /// description staged. Always succeeds: no emptiness or uniqueness
    /// validation happens at this layer.
    pub fn new(namespace: String, id: u32) -> (r: ItemBuilder<Noop, Noop>)
        ensures
            r.spec_namespace() == namespace@,
            r.spec_id() == id,
            r.spec_on_use() == Noop,
            r.spec_on_update() == Noop,
            r.spec_description() is None,
    {
        ItemBuilder { namespace, id, on_use: Noop, on_update: Noop, description: None }
    }
}

impl<U: UseHook, P: UpdateHook> ItemBuilder<U, P> {
    /// The namespace this builder was created with.
    pub closed spec fn spec_namespace(&self) -> Seq<char> {
        self.namespace@
    }

    /// The id this builder was created with.
    pub closed spec fn spec_id(&self) -> u32 {
        self.id
    }

    /// The use hook staged so far.
    pub closed spec fn spec_on_use(&self) -> U {
        self.on_use
    }

    /// The update hook staged so far.
    pub closed spec fn spec_on_update(&self) -> P {
        self.on_update
    }

    /// The description staged so far, if one was set.
    pub closed spec fn spec_description(&self) -> Option<Seq<char>> {
        match self.description {
            Some(d) => Some(d@),
            None => None,
        }
    }

    /// Stages `hook` as the use hook, overwriting any hook staged earlier:
    /// after the call exactly `hook` is present, whatever was set before.
    /// Every other slot is left as it was.
    pub fn on_use<U2: UseHook>(self, hook: U2) -> (r: ItemBuilder<U2, P>)
        ensures
            r.spec_on_use() == hook,
            r.spec_namespace() == self.spec_namespace(),
            r.spec_id() == self.spec_id(),
            r.spec_on_update() == self.spec_on_update(),
            r.spec_description() == self.spec_description(),
    {
        ItemBuilder {
            namespace: self.namespace,
            id: self.id,
            on_use: hook,
            on_update: self.on_update,
            description: self.description,
        }
    }

    /// Stages `hook` as the update hook, overwriting any hook staged earlier.
    /// Same last-write-wins and chaining semantics as `on_use`, on an
    /// independent slot.
    pub fn on_update<P2: UpdateHook>(self, hook: P2) -> (r: ItemBuilder<U, P2>)
        ensures
            r.spec_on_update() == hook,
            r.spec_namespace() == self.spec_namespace(),
            r.spec_id() == self.spec_id(),
            r.spec_on_use() == self.spec_on_use(),
            r.spec_description() == self.spec_description(),
    {
        ItemBuilder {
            namespace: self.namespace,
            id: self.id,
            on_use: self.on_use,
            on_update: hook,
            description: self.description,
        }
    }

    /// Stages the description, overwriting any text staged earlier. Same
    /// last-write-wins and chaining semantics as the hook setters.
    pub fn description(self, text: String) -> (r: ItemBuilder<U, P>)
        ensures
            r.spec_description() == Some(text@),
            r.spec_namespace() == self.spec_namespace(),
            r.spec_id() == self.spec_id(),
            r.spec_on_use() == self.spec_on_use(),
            r.spec_on_update() == self.spec_on_update(),
    {
        ItemBuilder {
            namespace: self.namespace,
            id: self.id,
            on_use: self.on_use,
            on_update: self.on_update,
            description: Some(text),
        }
    }

    /// Consumes the builder and produces the one `Item` it staged. Cannot
    /// fail. The item carries the builder's identity unchanged, the last-set
    /// hooks, and the last-set description where one was supplied, else the
    /// empty text.
    pub fn build(self) -> (r: Item<U, P>)
        ensures
            r@.namespace == self.spec_namespace(),
            r@.id == self.spec_id(),
            r.on_use == self.spec_on_use(),
            r.on_update == self.spec_on_update(),
            self.spec_description() matches Some(d) ==> r@.description == d,
            self.spec_description() is None ==> r@.description == Seq::<char>::empty(),
    {
        let description: String = match self.description {
            Some(d) => d,
            None => String::new(),
        };
        Item {
            namespace: self.namespace,
            id: self.id,
            on_use: self.on_use,
            on_update: self.on_update,
            description,
        }
    }
}

} // verus!
