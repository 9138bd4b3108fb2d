use crate::terminal::Size;
use vstd::prelude::*;

verus! {

/// A part of the screen that knows its size and whether it must be drawn
/// again.
pub trait UIComponent: Sized {
    /// The component's own consistency condition.
    spec fn well_formed(&self) -> bool;

    /// Whether the component must be drawn again.
    spec fn redraw_pending(&self) -> bool;

    /// The size the component is drawn at.
    spec fn size_of(&self) -> Size;

    fn mark_redraw(&mut self, value: bool)
        requires
            old(self).well_formed(),
        ensures
            final(self).well_formed(),
            final(self).redraw_pending() == value,
            final(self).size_of() == old(self).size_of(),
    ;

    fn needs_redraw(&self) -> (r: bool)
        ensures
            r == self.redraw_pending(),
    ;

    fn set_size(&mut self, size: Size)
        requires
            old(self).well_formed(),
        ensures
            final(self).well_formed(),
            final(self).size_of() == size,
    ;

    /// Takes the new size and asks to be drawn again.
    fn resize(&mut self, size: Size)
        requires
            old(self).well_formed(),
        ensures
            final(self).well_formed(),
            final(self).size_of() == size,
            final(self).redraw_pending(),
    {
        self.set_size(size);
        self.mark_redraw(true);
    }
}

} // verus!
