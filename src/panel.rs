use vstd::prelude::*;

verus! {

/// Focus movement between the panels of a screen.
pub trait Panel: Sized {
    spec fn spec_left(&self) -> Self;

    spec fn spec_right(&self) -> Self;

    fn left(&self) -> (r: Self)
        ensures
            r == self.spec_left(),
    ;

    fn right(&self) -> (r: Self)
        ensures
            r == self.spec_right(),
    ;
}

/// The panels of the home screen.
#[derive(Clone, Copy, PartialEq, Eq, Structural, Debug)]
pub enum Home {
    Favourites,
    Search,
}

impl Panel for Home {
    open spec fn spec_left(&self) -> Self {
        Home::Favourites
    }

    open spec fn spec_right(&self) -> Self {
        Home::Search
    }

    fn left(&self) -> (r: Self) {
        Home::Favourites
    }

    fn right(&self) -> (r: Self) {
        Home::Search
    }
}

impl Default for Home {
    fn default() -> (r: Self)
        ensures
            r == Home::Favourites,
    {
        Home::Favourites
    }
}

/// The panels of the lists screen.
#[derive(Clone, Copy, PartialEq, Eq, Structural, Debug)]
pub enum Lists {
    Lists,
    ListContent,
}

impl Panel for Lists {
    open spec fn spec_left(&self) -> Self {
        Lists::Lists
    }

    open spec fn spec_right(&self) -> Self {
        Lists::ListContent
    }

    fn left(&self) -> (r: Self) {
        Lists::Lists
    }

    fn right(&self) -> (r: Self) {
        Lists::ListContent
    }
}

impl Default for Lists {
    fn default() -> (r: Self)
        ensures
            r == Lists::Lists,
    {
        Lists::Lists
    }
}

} // verus!
