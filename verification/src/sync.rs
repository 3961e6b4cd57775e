//! A cell holding a value produced on first use.

use vstd::prelude::*;

verus! {

/// The phases of lazy initialization.
enum State<T, F> {
    /// The initializer has not run yet.
    Uninit(F),
    /// The value is ready.
    Init(T),
    /// The initializer panicked.
    Poisoned,
}

/// A value of type `T`, produced on first use by an initializer of type
/// `F`.
pub struct LazyCell<T, F> {
    state: State<T, F>,
}

impl<T, F> LazyCell<T, F> {
    /// Whether the value is ready.
    pub closed spec fn spec_is_init(&self) -> bool {
        self.state is Init
    }

    /// A cell that will run `init` on first use.
    pub fn new(init: F) -> (r: LazyCell<T, F>)
        ensures
            !r.spec_is_init(),
    {
        LazyCell { state: State::Uninit(init) }
    }
}

} // verus!
