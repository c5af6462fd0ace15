//! The arguments of a generator, once they are parsed.

use vstd::prelude::*;

verus! {

/// What an `Arguments` holds.
pub struct ArgumentsView {
    pub destination: Seq<char>,
    pub debug: bool,
    pub notes: bool,
    pub quiet: bool,
}

/// The arguments of a generator.
#[derive(Debug)]
pub struct Arguments {
    pub destination: String,
    pub debug: bool,
    pub notes: bool,
    pub quiet: bool,
}

impl View for Arguments {
    type V = ArgumentsView;

    open spec fn view(&self) -> ArgumentsView {
        ArgumentsView {
            destination: self.destination@,
            debug: self.debug,
            notes: self.notes,
            quiet: self.quiet,
        }
    }
}

impl ArgumentsView {
    /// What a new `Arguments` holds.
    pub open spec fn blank() -> ArgumentsView {
        ArgumentsView {
            destination: Seq::empty(),
            debug: false,
            notes: false,
            quiet: false,
        }
    }
}

impl Default for Arguments {
    fn default() -> (r: Self)
        ensures
            r@ == ArgumentsView::blank(),
    {
        Arguments { destination: String::new(), debug: false, notes: false, quiet: false }
    }
}

impl Clone for Arguments {
    fn clone(&self) -> (r: Self)
        ensures
            r@ == self@,
    {
        Arguments {
            destination: self.destination.clone(),
            debug: self.debug,
            notes: self.notes,
            quiet: self.quiet,
        }
    }
}

impl Arguments {
    /// Makes the destination end in a slash, by adding one.
    pub fn sanitize_destination(&mut self)
        ensures
            final(self)@ == (ArgumentsView {
                destination: old(self).destination@ + "/"@,
                ..old(self)@
            }),
    {
        self.destination.append("/");
    }
}

} // verus!
