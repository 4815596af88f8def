//! Additional mutation methods for `Option`.

use vstd::prelude::*;

verus! {

/// Additional mutation methods for `Option`.
pub trait OptionMutExt<T>: Sized {
    /// The option value the receiver stands for.
    spec fn as_option(&self) -> Option<T>;

    /// Replace the existing `Some` value with a new one.
    ///
    /// Returns the previous value if it was present, or `None` if no
    /// replacement was made.
    fn replace_sp(&mut self, val: T) -> (r: Option<T>)
        ensures
            final(self).as_option() == Some(val),
            r == old(self).as_option(),
    ;

    /// Replace the existing `Some` value with the result of given closure.
    ///
    /// Returns the previous value if it was present, or `None` if no
    /// replacement was made.
    fn replace_with_sp<F: FnOnce() -> T>(&mut self, f: F) -> (r: Option<T>)
        requires
            call_requires(f, ()),
        ensures
            r == old(self).as_option(),
            exists|v: T|
                final(self).as_option() == Some(v) && call_ensures(f, (), v),
    ;
}

impl<T> OptionMutExt<T> for Option<T> {
    open spec fn as_option(&self) -> Option<T> {
        *self
    }

    fn replace_sp(&mut self, val: T) -> (r: Option<T>) {
        let mut slot = Some(val);
        core::mem::swap(self, &mut slot);
        slot
    }

    fn replace_with_sp<F: FnOnce() -> T>(&mut self, f: F) -> (r: Option<T>) {
        let val = f();
        let mut slot = Some(val);
        core::mem::swap(self, &mut slot);
        slot
    }
}

} // verus!
