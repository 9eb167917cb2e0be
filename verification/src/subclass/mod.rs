//! USB Mass Storage subclasses

use vstd::prelude::*;

pub mod answers;
pub mod conduct;
pub mod encoding;
pub mod laws;
pub mod poll;
pub mod scsi;
pub mod scsi_uas;

verus! {

/// The subclass' command and a LUN it is addressed to
pub struct Command<'a, Kind, Class> {
    class: &'a mut Class,
    pub kind: Kind,
    pub lun: u8,
}

impl<'a, Kind, Class> Command<'a, Kind, Class> {
    /// The borrowed class: its state now and when the borrow ends
    pub closed spec fn borrowed(self) -> &'a mut Class {
        self.class
    }

    /// A command that is let go leaves the class as it is.
    pub proof fn let_go(self)
        requires
            has_resolved(self),
        ensures
            *final(self.borrowed()) == *self.borrowed(),
    {
    }

    /// Leaves the command as it is, for the next time that the user is asked
    pub fn leave(self)
        ensures
            *final(self.borrowed()) == *self.borrowed(),
    {
    }

    pub closed spec fn spec_kind(self) -> Kind {
        self.kind
    }

    pub closed spec fn spec_lun(self) -> u8 {
        self.lun
    }

    /// What the command asks for
    pub fn kind(&self) -> (kind: &Kind)
        ensures
            *kind == self.spec_kind(),
    {
        &self.kind
    }

    /// The LUN that the command is addressed to
    pub fn lun(&self) -> (lun: u8)
        ensures
            lun == self.spec_lun(),
    {
        self.lun
    }
}

} // verus!
