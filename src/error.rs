use vstd::prelude::*;

verus! {

/// Every failure of a run; each one ends the process that meets it.
#[derive(Clone, Copy, Debug, PartialEq, Eq, Structural)]
pub enum PagingError {
    /// The page count given on the command line is missing, zero or not a number.
    Argument,
    /// The region of the requested size cannot be mapped.
    Allocation,
    /// The region could not be registered for fault monitoring.
    Registration,
    /// The channel path is already bound.
    Bind,
    /// No listener is present on the channel path.
    Connect,
    /// A transfer carried this many descriptors instead of exactly one.
    DescriptorCount(usize),
    /// Waiting for readiness failed.
    Wait,
    /// Readiness was reported, yet no event or notice could be read.
    SpuriousWake,
    /// Reading an event or a notice from a ready source failed.
    EventRead,
    /// The handle delivered an event other than a page fault.
    UnexpectedEvent,
    /// Installing a page failed outright.
    Install,
    /// Installing a page copied this many bytes instead of a whole page.
    PartialInstall(usize),
    /// The engine was handed an event that does not fit its current state.
    OutOfOrder,
}

impl PagingError {
    /// The name of the failure, as written in diagnostics.
    pub fn name(&self) -> (r: &'static str) {
        match self {
            PagingError::Argument => "ArgumentError",
            PagingError::Allocation => "AllocationError",
            PagingError::Registration => "RegistrationError",
            PagingError::Bind => "BindError",
            PagingError::Connect => "ConnectError",
            PagingError::DescriptorCount(_) => "DescriptorCountError",
            PagingError::Wait => "WaitError",
            PagingError::SpuriousWake => "SpuriousWakeError",
            PagingError::EventRead => "EventReadError",
            PagingError::UnexpectedEvent => "UnexpectedEventError",
            PagingError::Install => "InstallError",
            PagingError::PartialInstall(_) => "PartialInstallError",
            PagingError::OutOfOrder => "OutOfOrderError",
        }
    }
}

} // verus!
