//! Splitting the error channel off a fallible outcome.
//!
//! A fallible outcome either holds exactly one of a success value and an
//! error (`Result`), or holds a success value unconditionally beside an
//! optional auxiliary error ([`Fine`]). The [`CatchExt`] extension trait
//! removes the error, if one is present, from such an outcome, routes it
//! to a caller-supplied destination — a one-shot handler, or a collection
//! that absorbs items one at a time — and returns the residue that the
//! outcome's shape leaves behind.

use vstd::prelude::*;

mod fine;
mod laws;
mod sink;

pub use fine::Fine;
pub use laws::lemma_extraction_deterministic;
pub use sink::ExtendOne;
pub use sink::IntoItem;
pub use sink::Level;
pub use sink::LevelledMessage;

verus! {

/// `Result` and [`Fine`] extensions for splitting off errors.
///
/// Each extraction operation consumes one outcome, routes the error it
/// carries (zero or one values, never more) to the destination, and
/// returns the [`CatchExt::OkOnly`] residue. The destination receives a
/// value if and only if an error was actually present.
pub trait CatchExt<E>: Sized {
    /// The resulting type after the error has been removed.
    type OkOnly;

    /// The error the outcome carries: `None` when it carries none.
    spec fn spec_error(self) -> Option<E>;

    /// The residue left once the error has been split off.
    spec fn spec_ok_only(self) -> Self::OkOnly;

    /// Calls `handler` with any error, leaving the success as-available.
    ///
    /// The handler is permitted to run only when an error is present, so a
    /// conforming implementation can never invoke it on an error-free
    /// outcome.
    fn catch<F: FnOnce(E)>(self, handler: F) -> (r: Self::OkOnly)
        requires
            self.spec_error() matches Some(e) ==> call_requires(handler, (e,)),
        ensures
            r == self.spec_ok_only(),
            self.spec_error() matches Some(e) ==> call_ensures(handler, (e,), ()),
    ;

    /// Appends any error to `collection` verbatim, leaving the success
    /// as-available.
    fn catch_item<C: ExtendOne<E>>(self, collection: &mut C) -> (r: Self::OkOnly)
        ensures
            r == self.spec_ok_only(),
            self.spec_error() is None ==> final(collection).items() == old(collection).items(),
            self.spec_error() matches Some(e) ==> final(collection).items()
                == old(collection).items().push(e),
    ;

    /// Appends any error to `collection`, first converting it through the
    /// total, infallible [`IntoItem`] mapping, leaving the success
    /// as-available.
    fn catch_into_item<C, Item>(self, collection: &mut C) -> (r: Self::OkOnly) where
        C: ExtendOne<Item>,
        E: IntoItem<Item>,

        ensures
            r == self.spec_ok_only(),
            self.spec_error() is None ==> final(collection).items() == old(collection).items(),
            self.spec_error() matches Some(e) ==> final(collection).items()
                == old(collection).items().push(e.spec_into_item()),
    ;
}

/// Strips any `E`, leaving an `Option<T>`: `Some` keeps the success value,
/// `None` marks that the error was routed away.
impl<T, E> CatchExt<E> for Result<T, E> {
    type OkOnly = Option<T>;

    open spec fn spec_error(self) -> Option<E> {
        match self {
            Ok(_) => None,
            Err(e) => Some(e),
        }
    }

    open spec fn spec_ok_only(self) -> Option<T> {
        match self {
            Ok(t) => Some(t),
            Err(_) => None,
        }
    }

    fn catch<F: FnOnce(E)>(self, handler: F) -> (r: Option<T>)
        ensures
            self matches Ok(t) ==> r == Some(t),
            self matches Err(e) ==> r is None && call_ensures(handler, (e,), ()),
    {
        match self {
            Ok(t) => Some(t),
            Err(e) => {
                handler(e);
                None
            },
        }
    }

    fn catch_item<C: ExtendOne<E>>(self, collection: &mut C) -> (r: Option<T>)
        ensures
            self matches Ok(t) ==> r == Some(t)
                && final(collection).items() == old(collection).items(),
            self matches Err(e) ==> r is None
                && final(collection).items() == old(collection).items().push(e),
    {
        match self {
            Ok(t) => Some(t),
            Err(e) => {
                collection.extend_one(e);
                None
            },
        }
    }

    fn catch_into_item<C, Item>(self, collection: &mut C) -> (r: Option<T>) where
        C: ExtendOne<Item>,
        E: IntoItem<Item>,

        ensures
            self matches Ok(t) ==> r == Some(t)
                && final(collection).items() == old(collection).items(),
            self matches Err(e) ==> r is None
                && final(collection).items() == old(collection).items().push(e.spec_into_item()),
    {
        match self {
            Ok(t) => Some(t),
            Err(e) => {
                collection.extend_one(e.into_item());
                None
            },
        }
    }
}

} // verus!
