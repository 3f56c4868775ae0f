//! An endless cursor over a palette of colours.
//!
//! Compositions colour consecutive sections from a fixed palette; the
//! cursor hands the colours out in order and wraps around at the end.
//! Each call advances before it reads, so the palette's first entry comes
//! up only after a full turn.

use vstd::prelude::*;
use vstd::slice::slice_index_get;

verus! {

/// A cycling cursor over a borrowed palette.
#[derive(Clone)]
pub struct ColourIter<'a, C> {
    current: usize,
    colours: &'a [C],
}

impl<'a, C> ColourIter<'a, C> {
    /// The palette the cursor walks.
    pub closed spec fn spec_colours(&self) -> Seq<C> {
        self.colours@
    }

    /// The index of the colour handed out last.
    pub closed spec fn spec_current(&self) -> int {
        self.current as int
    }

    /// The cursor addresses its palette whenever the palette is
    /// non-empty.
    pub closed spec fn wf(&self) -> bool {
        self.spec_colours().len() > 0 ==> self.spec_current() < self.spec_colours().len()
    }

    /// A cursor at the start of `colours`.
    pub fn new(colours: &'a [C]) -> (r: Self)
        ensures
            r.wf(),
            r.spec_colours() == colours@,
            r.spec_current() == 0,
    {
        ColourIter { current: 0, colours }
    }

    /// Advances to the next colour, wrapping past the end, and returns
    /// it.
    pub fn next(&mut self) -> (r: Option<&'a C>)
        requires
            old(self).wf(),
            old(self).spec_colours().len() > 0,
        ensures
            final (self).wf(),
            final (self).spec_colours() == old(self).spec_colours(),
            final (self).spec_current() == if old(self).spec_current() + 1 >= old(
                self,
            ).spec_colours().len() {
                0int
            } else {
                old(self).spec_current() + 1
            },
            r matches Some(c) && *c == old(self).spec_colours()[final (self).spec_current()],
    {
        let n: usize = self.colours.len();
        let mut next_index: usize = self.current + 1;
        if next_index >= n {
            next_index = 0;
        }
        self.current = next_index;
        Some(slice_index_get(self.colours, next_index))
    }
}

} // verus!
