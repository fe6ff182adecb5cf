use vstd::prelude::*;

verus! {

/// The dimensions of the viewport, in character cells.
#[derive(Clone, Copy, Debug, Default, PartialEq, Eq, Structural)]
pub struct Size {
    pub width: u16,
    pub height: u16,
}

/// What the editor knows of the terminal it draws on: the size of its viewport.
#[derive(Debug)]
pub struct Terminal {
    size: Size,
}

impl View for Terminal {
    type V = Size;

    closed spec fn view(&self) -> Size {
        self.size
    }
}

impl Terminal {
    /// A terminal whose viewport has the given size.
    pub fn new(size: Size) -> (r: Terminal)
        ensures
            r@ == size,
    {
        Terminal { size }
    }

    /// The size of the viewport.
    pub fn size(&self) -> (r: &Size)
        ensures
            *r == self@,
    {
        &self.size
    }
}

} // verus!
