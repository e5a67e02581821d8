//! A frozen copy of one process's screen, for looking back through it.

use vstd::prelude::*;
use vstd::slice::slice_subrange;
use crate::scroll::ScrollDirection;

verus! {

/// The lines that a terminal keeps, oldest first: those that have scrolled
/// off, then the `physical_rows` lines of the visible screen.
#[derive(Debug, PartialEq, Eq)]
pub struct Screen<L> {
    pub lines: Vec<L>,
    pub physical_rows: usize,
}

/// The smaller of two numbers.
pub open spec fn at_most(a: nat, b: nat) -> nat {
    if a <= b {
        a
    } else {
        b
    }
}

impl<L> Screen<L> {
    /// The index of the first line of the visible screen.
    pub open spec fn spec_base(&self) -> nat {
        if self.physical_rows <= self.lines@.len() {
            (self.lines@.len() - self.physical_rows) as nat
        } else {
            0
        }
    }

    /// The lines from index `line_index` on, one screenful of them, as far
    /// as there are lines.
    pub open spec fn spec_window(&self, line_index: nat) -> Seq<L> {
        self.lines@.subrange(
            at_most(line_index, self.lines@.len()) as int,
            at_most(line_index + self.physical_rows as nat, self.lines@.len()) as int,
        )
    }

    /// The index of the first line of the visible screen.
    pub fn base(&self) -> (base: usize)
        ensures
            base == self.spec_base(),
        no_unwind
    {
        if self.physical_rows <= self.lines.len() {
            self.lines.len() - self.physical_rows
        } else {
            0
        }
    }
}

/// A screen and the index of the line that is shown first.
#[derive(Debug)]
pub struct ProcessSnapshot<L> {
    line_index: usize,
    screen: Option<Screen<L>>,
}

impl<L> ProcessSnapshot<L> {
    #[verifier::type_invariant]
    spec fn line_index_in_range(&self) -> bool {
        self.line_index <= self.spec_base()
    }

    /// The index of the line that is shown first.
    pub closed spec fn spec_line_index(&self) -> nat {
        self.line_index as nat
    }

    /// The screen that was captured, if there was one.
    pub closed spec fn spec_screen(&self) -> Option<Screen<L>> {
        self.screen
    }

    /// The greatest index that the first line can have: that of the first
    /// line of the visible screen as it was captured.
    pub open spec fn spec_base(&self) -> nat {
        match self.spec_screen() {
            Some(screen) => screen.spec_base(),
            None => 0,
        }
    }

    /// How far a page scrolls: half the rows of the screen.
    pub open spec fn spec_page(&self) -> nat {
        match self.spec_screen() {
            Some(screen) => (screen.physical_rows / 2) as nat,
            None => 0,
        }
    }

    /// Where a scroll leads from `line_index`: up by a line or a page and
    /// not below zero, or down by a line or a page and not beyond the base.
    pub open spec fn spec_scrolled(&self, direction: ScrollDirection) -> nat {
        let line_index = self.spec_line_index();
        if self.spec_screen() is None {
            line_index
        } else {
            match direction {
                ScrollDirection::PageUp => if line_index >= self.spec_page() {
                    (line_index - self.spec_page()) as nat
                } else {
                    0
                },
                ScrollDirection::LineUp => if line_index >= 1 {
                    (line_index - 1) as nat
                } else {
                    0
                },
                ScrollDirection::PageDown => at_most(
                    line_index + self.spec_page(),
                    self.spec_base(),
                ),
                ScrollDirection::LineDown => at_most(line_index + 1, self.spec_base()),
            }
        }
    }

    /// The lines that the snapshot shows.
    pub open spec fn spec_lines(&self) -> Seq<L> {
        match self.spec_screen() {
            Some(screen) => screen.spec_window(self.spec_line_index()),
            None => Seq::empty(),
        }
    }

    /// A snapshot of nothing.
    pub fn empty() -> (snapshot: Self)
        ensures
            snapshot.spec_line_index() == 0,
            snapshot.spec_screen() is None,
    {
        Self { line_index: 0, screen: None }
    }

    /// A snapshot of `screen` that shows the lines from `line_index` on.
    pub fn new(line_index: usize, screen: Screen<L>) -> (snapshot: Self)
        requires
            line_index <= screen.spec_base(),
        ensures
            snapshot.spec_line_index() == line_index,
            snapshot.spec_screen() == Some(screen),
    {
        Self { line_index, screen: Some(screen) }
    }

    /// The index of the line that is shown first. It never exceeds the
    /// base.
    pub fn line_index(&self) -> (line_index: usize)
        ensures
            line_index == self.spec_line_index(),
            line_index <= self.spec_base(),
    {
        proof {
            use_type_invariant(self);
        }
        self.line_index
    }

    /// The lines that the snapshot shows: one screenful from the line index
    /// on.
    pub fn lines(&self) -> (lines: &[L])
        ensures
            lines@ == self.spec_lines(),
    {
        match &self.screen {
            Some(screen) => {
                let len = screen.lines.len();
                let start = if self.line_index <= len {
                    self.line_index
                } else {
                    len
                };
                let end = if screen.physical_rows <= len - start {
                    start + screen.physical_rows
                } else {
                    len
                };
                slice_subrange(screen.lines.as_slice(), start, end)
            },
            None => {
                let nothing: &[L] = &[];
                assert(nothing@ =~= Seq::<L>::empty());
                nothing
            },
        }
    }

    /// Move the first line by a line or by a page.
    pub fn scroll(&mut self, direction: ScrollDirection)
        ensures
            final(self).spec_screen() == old(self).spec_screen(),
            final(self).spec_line_index() == old(self).spec_scrolled(direction),
            final(self).spec_line_index() <= final(self).spec_base(),
        no_unwind
    {
        proof {
            use_type_invariant(&*self);
        }
        let page_scroll_distance = match &self.screen {
            Some(screen) => screen.physical_rows / 2,
            None => {
                return ;
            },
        };
        match direction {
            ScrollDirection::PageUp => {
                self.scroll_up(page_scroll_distance);
            },
            ScrollDirection::PageDown => {
                self.scroll_down(page_scroll_distance);
            },
            ScrollDirection::LineUp => {
                self.scroll_up(1);
            },
            ScrollDirection::LineDown => {
                self.scroll_down(1);
            },
        }
    }

    fn scroll_up(&mut self, lines: usize)
        ensures
            final(self).spec_screen() == old(self).spec_screen(),
            final(self).spec_line_index() == (if old(self).spec_line_index() >= lines {
                old(self).spec_line_index() - lines
            } else {
                0
            }),
        no_unwind
    {
        proof {
            use_type_invariant(&*self);
        }
        self.line_index = if self.line_index >= lines {
            self.line_index - lines
        } else {
            0
        };
    }

    fn scroll_down(&mut self, lines: usize)
        ensures
            final(self).spec_screen() == old(self).spec_screen(),
            old(self).spec_screen() is Some ==> final(self).spec_line_index() == at_most(
                old(self).spec_line_index() + lines as nat,
                old(self).spec_base(),
            ),
            old(self).spec_screen() is None ==> final(self).spec_line_index() == old(
                self,
            ).spec_line_index(),
        no_unwind
    {
        proof {
            use_type_invariant(&*self);
        }
        let base = match &self.screen {
            Some(screen) => screen.base(),
            None => {
                return ;
            },
        };
        self.line_index = if lines <= base - self.line_index {
            self.line_index + lines
        } else {
            base
        };
    }
}

} // verus!
