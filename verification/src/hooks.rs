use vstd::prelude::*;

use crate::item::Hand;
use crate::item::ItemView;
use crate::item::Location;
use crate::item::Target;
use crate::item::UpdateHook;
use crate::item::UseHook;

verus! {

/// The default hook, attached by `ItemBuilder::build` wherever no hook was
/// supplied: invoking it is always safe and has no observable effect.
pub struct Noop;

impl UseHook for Noop {
    open spec fn rel(&self, pre: ItemView, target: Target, hand: Hand, post: ItemView) -> bool {
        post == pre
    }

    fn call(
        &self,
        _namespace: &mut String,
        _id: &mut u32,
        _description: &mut String,
        _target: Target,
        _hand: Hand,
    ) {
    }
}

impl UpdateHook for Noop {
    open spec fn rel(&self, pre: ItemView, location: Location, post: ItemView) -> bool {
        post == pre
    }

    fn call(
        &self,
        _namespace: &mut String,
        _id: &mut u32,
        _description: &mut String,
        _location: Location,
    ) {
    }
}

/// A use hook that overwrites the item's description with a fixed text,
/// whatever the target and hand, and changes nothing else.
pub struct SetDescriptionOnUse {
    pub text: String,
}

impl UseHook for SetDescriptionOnUse {
    open spec fn rel(&self, pre: ItemView, target: Target, hand: Hand, post: ItemView) -> bool {
        post.namespace == pre.namespace && post.id == pre.id && post.description == self.text@
    }

    fn call(
        &self,
        _namespace: &mut String,
        _id: &mut u32,
        description: &mut String,
        _target: Target,
        _hand: Hand,
    ) {
        *description = self.text.clone();
    }
}

/// An update hook that overwrites the item's description with a fixed text,
/// whatever the location, and changes nothing else.
pub struct SetDescriptionOnUpdate {
    pub text: String,
}

impl UpdateHook for SetDescriptionOnUpdate {
    open spec fn rel(&self, pre: ItemView, location: Location, post: ItemView) -> bool {
        post.namespace == pre.namespace && post.id == pre.id && post.description == self.text@
    }

    fn call(
        &self,
        _namespace: &mut String,
        _id: &mut u32,
        description: &mut String,
        _location: Location,
    ) {
        *description = self.text.clone();
    }
}

} // verus!
