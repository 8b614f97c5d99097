//! The shared converter cell.
//!
//! The analog-to-digital converter is a singleton hardware resource.  This
//! cell is the one holder of it: it starts uninitialized, is made ready
//! exactly once by [`ConverterCell::install`], and never goes back.  After
//! that, [`ConverterCell::with_exclusive`] is the only sanctioned access
//! path: the caller's body runs with sole possession of the converter, and a
//! cell that was never made ready skips the body and hands back nothing.
//! The firmware that owns the cell wraps every call in its platform's
//! critical section, so the exclusivity promised here also holds against any
//! interrupt context added later.

use vstd::prelude::*;

verus! {

/// Lifecycle-scoped holder of the single converter.
pub struct ConverterCell<T> {
    converter: Option<T>,
}

impl<T> ConverterCell<T> {
    /// Whether the converter has been installed.
    pub closed spec fn is_ready(self) -> bool {
        self.converter is Some
    }

    /// The installed converter.
    pub closed spec fn converter(self) -> T
        recommends
            self.is_ready(),
    {
        self.converter->0
    }

    /// A cell in its uninitialized phase: it holds no converter yet.
    pub fn new() -> (cell: Self)
        ensures
            !cell.is_ready(),
    {
        ConverterCell { converter: None }
    }

    /// The one-time transition from uninitialized to ready.  The cell keeps
    /// the converter for the rest of the process; there is no way back.
    pub fn install(&mut self, converter: T)
        requires
            !old(self).is_ready(),
        ensures
            final(self).is_ready(),
            final(self).converter() == converter,
    {
        self.converter = Some(converter);
    }

    /// Whether the cell has left its uninitialized phase.
    pub fn is_installed(&self) -> (ready: bool)
        ensures
            ready == self.is_ready(),
    {
        self.converter.is_some()
    }

    /// Momentary exclusive use of the converter.  A ready cell hands the
    /// converter to `body`, takes it back, and returns the body's result; a
    /// cell that is not ready runs nothing, changes nothing, and returns
    /// `None`.  Readiness is unchanged either way.
    pub fn with_exclusive<R, F: FnOnce(T) -> (T, R)>(&mut self, body: F) -> (result: Option<R>)
        requires
            old(self).is_ready() ==> call_requires(body, (old(self).converter(),)),
        ensures
            final(self).is_ready() == old(self).is_ready(),
            !old(self).is_ready() ==> result is None && *final(self) == *old(self),
            old(self).is_ready() ==> result is Some && call_ensures(
                body,
                (old(self).converter(),),
                (final(self).converter(), result->0),
            ),
    {
        match self.converter.take() {
            Some(converter) => {
                let (converter, out) = body(converter);
                self.converter = Some(converter);
                Some(out)
            }
            None => None,
        }
    }
}

} // verus!
