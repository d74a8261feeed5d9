use vstd::prelude::*;

verus! {

/// The narrow append capability an error is routed through: a destination
/// that absorbs items one at a time, in order, and never drops one.
pub trait ExtendOne<Item> {
    /// The items the destination has absorbed so far, oldest first.
    spec fn items(&self) -> Seq<Item>;

    /// Appends one item at the end of the destination.
    fn extend_one(&mut self, item: Item)
        ensures
            final(self).items() == old(self).items().push(item),
    ;
}

impl<Item> ExtendOne<Item> for Vec<Item> {
    open spec fn items(&self) -> Seq<Item> {
        self@
    }

    fn extend_one(&mut self, item: Item) {
        self.push(item);
    }
}

/// A total, infallible conversion into a destination's item type, applied
/// when an error is routed into a collection of a different item type.
/// Every value converts to exactly one item; nothing can fail or be lost.
pub trait IntoItem<Item>: Sized {
    /// The item this value converts to.
    spec fn spec_into_item(self) -> Item;

    /// Performs the conversion.
    fn into_item(self) -> (r: Item)
        ensures
            r == self.spec_into_item(),
    ;
}

/// Every type converts to itself, so routing an error into a collection of
/// the error's own item type needs no separate conversion.
impl<T> IntoItem<T> for T {
    open spec fn spec_into_item(self) -> T {
        self
    }

    fn into_item(self) -> T {
        self
    }
}

/// The severity a [`LevelledMessage`] is labelled with.
#[derive(Clone, Copy, Debug, PartialEq, Eq, Structural)]
pub enum Level {
    /// A warning: the computation still produced a usable value.
    Warn,
}

/// An error message labelled with a severity: the record a plain message
/// becomes when routed into a collection of labelled diagnostics.
#[derive(Debug, PartialEq, Eq)]
pub struct LevelledMessage {
    /// The error message, carried over verbatim.
    pub message: String,
    /// The severity attached by the conversion.
    pub level: Level,
}

/// Converting a plain message labels it as a warning and keeps its text.
impl IntoItem<LevelledMessage> for String {
    open spec fn spec_into_item(self) -> LevelledMessage {
        LevelledMessage { message: self, level: Level::Warn }
    }

    fn into_item(self) -> LevelledMessage {
        LevelledMessage { message: self, level: Level::Warn }
    }
}

} // verus!
