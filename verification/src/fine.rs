use vstd::prelude::*;

use crate::CatchExt;
use crate::ExtendOne;
use crate::IntoItem;

verus! {

/// An outcome that always carries a success value, beside an auxiliary
/// channel that is either clean or tainted by at most one error.
///
/// This models computations that produce a best-effort result in every
/// case but may additionally report that something went wrong while
/// producing it: the success value is never suppressed by the presence of
/// an error, and both can be reported independently in one extraction.
pub struct Fine<T, E> {
    /// The success payload, present regardless of the auxiliary channel.
    pub value: T,
    /// The auxiliary channel: `None` when clean, `Some` when tainted.
    pub error: Option<E>,
}

/// Strips any `E`, leaving a `T`: the success value is returned
/// unconditionally, after any auxiliary error has been routed away.
impl<T, E> CatchExt<E> for Fine<T, E> {
    type OkOnly = T;

    open spec fn spec_error(self) -> Option<E> {
        self.error
    }

    open spec fn spec_ok_only(self) -> T {
        self.value
    }

    fn catch<F: FnOnce(E)>(self, handler: F) -> (r: T)
        ensures
            r == self.value,
            self.error matches Some(e) ==> call_ensures(handler, (e,), ()),
    {
        let Fine { value, error } = self;
        if let Some(e) = error {
            handler(e);
        }
        value
    }

    fn catch_item<C: ExtendOne<E>>(self, collection: &mut C) -> (r: T)
        ensures
            r == self.value,
            self.error is None ==> final(collection).items() == old(collection).items(),
            self.error matches Some(e) ==> final(collection).items()
                == old(collection).items().push(e),
    {
        let Fine { value, error } = self;
        if let Some(e) = error {
            collection.extend_one(e);
        }
        value
    }

    fn catch_into_item<C, Item>(self, collection: &mut C) -> (r: T) where
        C: ExtendOne<Item>,
        E: IntoItem<Item>,

        ensures
            r == self.value,
            self.error is None ==> final(collection).items() == old(collection).items(),
            self.error matches Some(e) ==> final(collection).items()
                == old(collection).items().push(e.spec_into_item()),
    {
        let Fine { value, error } = self;
        if let Some(e) = error {
            collection.extend_one(e.into_item());
        }
        value
    }
}

} // verus!
