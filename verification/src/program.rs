//! The program resource and its link lifecycle.
//!
//! Issuing the driver's link call always completes, but whether it
//! succeeded is observable only through a separate status requery, so
//! linking here resolves the outcome from the status value the driver
//! reported back. On the negative outcome the name is preserved and
//! returned, and the caller fetches the diagnostic log separately; a
//! failed program is not retried in place.

use vstd::prelude::*;
use crate::enums;
use crate::name::ProgramName;
use crate::name::ReceivedInvalidProgramName;

verus! {

/// The name of a program whose link status has been confirmed positive.
#[derive(Clone, Copy, PartialEq, Eq, Structural, Hash, Debug)]
pub struct LinkedProgramName(ProgramName);

impl LinkedProgramName {
    /// The underlying program name.
    pub closed spec fn name_spec(self) -> ProgramName {
        self.0
    }

    /// Forgets that the program is linked, handing back the plain name.
    pub fn into_program_name(self) -> (r: ProgramName)
        ensures
            r == self.name_spec(),
    {
        self.0
    }

    /// The raw identifier of the underlying name, unchanged.
    pub fn to_u32(&self) -> (r: u32)
        ensures
            r == self.name_spec().raw_spec(),
            r != 0,
    {
        self.0.to_u32()
    }
}

impl ProgramName {
    /// Resolves a link operation from the status the driver reported on
    /// the mandatory requery: the name is promoted to a
    /// [`LinkedProgramName`] exactly when the driver confirmed the link,
    /// and handed back unchanged otherwise.
    pub fn link(self, status: enums::ProgramLinkStatus) -> (r: Result<
        LinkedProgramName,
        ProgramName,
    >)
        ensures
            r is Ok <==> status == enums::ProgramLinkStatus::Linked,
            r matches Ok(l) ==> l.name_spec() == self,
            r matches Err(n) ==> n == self,
    {
        match status {
            enums::ProgramLinkStatus::Linked => Ok(LinkedProgramName(self)),
            enums::ProgramLinkStatus::Unlinked => Err(self),
        }
    }
}

/// A program object together with what is known of its link status.
/// Not copyable: the name denotes exclusive reference to one driver
/// object.
#[derive(Debug)]
pub enum Program {
    Unlinked(ProgramName),
    Linked(LinkedProgramName),
}

/// The driver confirmed that the link operation failed; the diagnostic
/// log can be fetched separately.
#[derive(Clone, Copy, PartialEq, Eq, Structural, Debug)]
pub struct LinkFailed;

impl Program {
    /// The driver name this program wraps, whatever its state.
    pub open spec fn name_of(self) -> ProgramName {
        match self {
            Program::Unlinked(name) => name,
            Program::Linked(linked) => linked.name_spec(),
        }
    }

    /// The driver name this program wraps, whatever its state.
    pub fn name(&self) -> (r: ProgramName)
        ensures
            r == self.name_of(),
    {
        match self {
            Program::Unlinked(name) => *name,
            Program::Linked(linked) => linked.0,
        }
    }

    /// Resolves a link operation from the status the driver reported on
    /// the mandatory requery, moving this program to the confirmed
    /// state. The name is preserved in either outcome.
    pub fn link(&mut self, status: enums::ProgramLinkStatus) -> (r: Result<(), LinkFailed>)
        ensures
            final(self).name_of() == old(self).name_of(),
            r is Ok <==> status == enums::ProgramLinkStatus::Linked,
            status == enums::ProgramLinkStatus::Linked ==> *final(self) is Linked,
            status == enums::ProgramLinkStatus::Unlinked ==> *final(self) is Unlinked,
    {
        let name: ProgramName = match self {
            Program::Unlinked(name) => *name,
            Program::Linked(linked) => linked.0,
        };
        match status {
            enums::ProgramLinkStatus::Linked => {
                *self = Program::Linked(LinkedProgramName(name));
                Ok(())
            },
            enums::ProgramLinkStatus::Unlinked => {
                *self = Program::Unlinked(name);
                Err(LinkFailed)
            },
        }
    }

    /// Consumes the program for deletion, handing back the name to
    /// forward to the driver's deallocation call. Permitted from any
    /// state; after it, further use of the resource is impossible.
    pub fn delete(self) -> (r: ProgramName)
        ensures
            r == self.name_of(),
    {
        match self {
            Program::Unlinked(name) => name,
            Program::Linked(linked) => linked.0,
        }
    }
}

/// Wraps the raw identifier a driver program-allocation call reported.
/// The driver never reports 0 for a successful allocation, so receiving
/// 0 is an allocation failure, never silently coerced into a usable
/// handle. A fresh program starts in the [`Program::Unlinked`] state.
pub fn create_program(name: u32) -> (r: Result<Program, ReceivedInvalidProgramName>)
    ensures
        r is Ok <==> name != 0,
        r matches Ok(p) ==> p is Unlinked && p.name_of().raw_spec() == name,
{
    match ProgramName::new(name) {
        Ok(n) => Ok(Program::Unlinked(n)),
        Err(e) => Err(e),
    }
}

} // verus!
