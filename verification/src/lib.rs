//! A polymorphic in-game item descriptor: an [`item::Item`] carries identity,
//! descriptive text, and two behavior hooks (run on use and on per-tick
//! update) that let content authors attach custom logic without subclassing.
//! The [`builder::ItemBuilder`] provides fluent, consuming construction with
//! no-op defaults for omitted hooks.

pub mod builder;
pub mod hooks;
pub mod item;
pub mod laws;

pub use builder::ItemBuilder;

pub use hooks::Noop;
pub use hooks::SetDescriptionOnUpdate;
pub use hooks::SetDescriptionOnUse;

pub use item::Hand;
pub use item::Item;
pub use item::ItemView;
pub use item::Location;
pub use item::Target;
pub use item::UpdateHook;
pub use item::UseHook;
