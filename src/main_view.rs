use vstd::prelude::*;

verus! {

/// The selection cursor of the main listing: an index into the listing as
/// it is currently ordered, or none.
#[derive(Debug, Clone, Copy, PartialEq, Eq, Structural)]
pub struct MainView {
    pub selected: Option<usize>,
}

/// The cursor after moving down a listing of `len` items, wrapping past the
/// end; no move on an empty listing.
pub open spec fn next_selection(sel: Option<usize>, len: usize) -> Option<usize> {
    if len == 0 {
        sel
    } else {
        match sel {
            Some(i) => Some(((i + 1) % (len as int)) as usize),
            None => Some(0),
        }
    }
}

/// The cursor after moving up a listing of `len` items, wrapping past the
/// start; no move on an empty listing.
pub open spec fn previous_selection(sel: Option<usize>, len: usize) -> Option<usize> {
    if len == 0 {
        sel
    } else {
        match sel {
            Some(i) => Some(if i == 0 { (len - 1) as usize } else { (i - 1) as usize }),
            None => Some(0),
        }
    }
}

impl MainView {
    pub fn new() -> (r: MainView)
        ensures
            r.selected == Some(0usize),
    {
        MainView { selected: Some(0) }
    }

    pub fn next(&mut self, len: usize)
        ensures
            final(self).selected == next_selection(old(self).selected, len),
    {
        if len == 0 {
            return;
        }
        let i = match self.selected {
            Some(i) => {
                proof {
                    let (a, n) = (i as int, len as int);
                    vstd::arithmetic::div_mod::lemma_add_mod_noop(a, 1, n);
                    vstd::arithmetic::div_mod::lemma_add_mod_noop(a % n, 1, n);
                    vstd::arithmetic::div_mod::lemma_mod_twice(a, n);
                    assert((a % n + 1) % n == (a + 1) % n);
                }
                (i % len + 1) % len
            },
            None => 0,
        };
        self.selected = Some(i);
    }

    pub fn previous(&mut self, len: usize)
        ensures
            final(self).selected == previous_selection(old(self).selected, len),
    {
        if len == 0 {
            return;
        }
        let i = match self.selected {
            Some(i) => {
                if i == 0 {
                    len - 1
                } else {
                    i - 1
                }
            },
            None => 0,
        };
        self.selected = Some(i);
    }

    pub fn select(&mut self, index: Option<usize>)
        ensures
            final(self).selected == index,
    {
        self.selected = index;
    }

    pub fn selected_index(&self) -> (r: Option<usize>)
        ensures
            r == self.selected,
    {
        self.selected
    }
}

} // verus!
