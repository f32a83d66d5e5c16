use vstd::prelude::*;

use crate::error::PagingError;
use crate::fill::{new_page, prepare_page, symbol_of, uniform};
use crate::page::{page_align_down, page_start};

verus! {

/// Where the resolver stands between two events.
#[derive(Clone, Copy, Debug, PartialEq, Eq, Structural)]
pub enum Phase {
    /// Waiting until the handle, or the lifecycle source, has data.
    Idle,
    /// The handle has a fault event to read.
    FaultReady,
    /// A page is being installed at the faulting location.
    Resolving,
    /// The lifecycle source has a notice to read.
    TerminationReady,
    /// The monitored process has exited; nothing more is done.
    Stopped,
    /// A fatal error ended the loop.
    Failed(PagingError),
}

/// What the handle delivered: a page fault at an address, or something else.
#[derive(Clone, Copy, Debug, PartialEq, Eq, Structural)]
pub enum FaultEvent {
    Pagefault { addr: usize },
    Other,
}

/// A lifecycle notice: the signal number and the process it came from.
#[derive(Clone, Copy, Debug, PartialEq, Eq, Structural)]
pub struct Notice {
    pub signo: u32,
    pub pid: u32,
}

/// What the resolver learns from the outside after each action.
#[derive(Clone, Copy, Debug, PartialEq, Eq, Structural)]
pub enum Input {
    /// The wait returned; which sources have data.
    Ready { fault: bool, lifecycle: bool },
    /// The wait itself failed.
    WaitFailed,
    /// The result of reading the handle: `None` when no event was there.
    FaultRead(Option<FaultEvent>),
    /// The result of reading the lifecycle source: `None` when no notice was there.
    NoticeRead(Option<Notice>),
    /// Reading the handle or the lifecycle source failed.
    ReadFailed,
    /// The install copied this many bytes.
    Installed(usize),
    /// The install failed outright.
    InstallFailed,
}

/// What the resolver asks the outside to do next.
#[derive(Clone, Copy, Debug, PartialEq, Eq, Structural)]
pub enum Action {
    /// Block, without a timeout, until the handle (or the lifecycle source, when
    /// one is watched) has data.
    Wait,
    /// Read one fault event from the handle.
    ReadFault,
    /// Copy the content page to the page-aligned address `dst`, waking the thread
    /// that faulted there.
    Install { dst: usize },
    /// Read one notice from the lifecycle source.
    ReadNotice,
    /// The monitored process has exited: leave the loop.
    Stop,
    /// Report the error and end the process.
    Fail(PagingError),
}

/// The process whose exit ends the loop, and the signal that reports it.
#[derive(Clone, Copy, Debug, PartialEq, Eq, Structural)]
pub struct Lifecycle {
    pub signo: u32,
    pub pid: u32,
}

/// The state that decides the next action.
#[derive(Clone, Copy, Debug, PartialEq, Eq, Structural)]
pub struct State {
    pub phase: Phase,
    /// How many faults have been resolved or are being resolved.
    pub faults: u64,
    /// A lifecycle notice was reported ready together with a fault, and is read
    /// once that fault is resolved.
    pub notice_pending: bool,
}

/// A notice ends the loop when it is the watched signal from the watched process.
pub open spec fn confirms(lc: Option<Lifecycle>, n: Notice) -> bool {
    match lc {
        Some(l) => n.signo == l.signo && n.pid == l.pid,
        None => false,
    }
}

/// The state after `s` once it has failed with `e`.
pub open spec fn failed(s: State, e: PagingError) -> State {
    State { phase: Phase::Failed(e), ..s }
}

/// The transition relation of the resolver: from a state and an input, the next
/// state and the action to perform. An input that does not fit the phase fails.
pub open spec fn transition(s: State, page_size: nat, lc: Option<Lifecycle>, i: Input) -> (
    State,
    Action,
) {
    match s.phase {
        Phase::Idle => match i {
            Input::Ready { fault, lifecycle } => {
                let watched = lifecycle && lc.is_some();
                if fault {
                    (State { phase: Phase::FaultReady, notice_pending: watched, ..s }, Action::ReadFault)
                } else if watched {
                    (State { phase: Phase::TerminationReady, ..s }, Action::ReadNotice)
                } else {
                    (s, Action::Wait)
                }
            },
            Input::WaitFailed => (failed(s, PagingError::Wait), Action::Fail(PagingError::Wait)),
            _ => (failed(s, PagingError::OutOfOrder), Action::Fail(PagingError::OutOfOrder)),
        },
        Phase::FaultReady => match i {
            Input::FaultRead(Some(FaultEvent::Pagefault { addr })) => (
                State {
                    phase: Phase::Resolving,
                    faults: if s.faults < u64::MAX {
                        (s.faults + 1) as u64
                    } else {
                        0
                    },
                    ..s
                },
                Action::Install { dst: page_start(addr as int, page_size as int) as usize },
            ),
            Input::FaultRead(Some(FaultEvent::Other)) => (
                failed(s, PagingError::UnexpectedEvent),
                Action::Fail(PagingError::UnexpectedEvent),
            ),
            Input::FaultRead(None) => (
                failed(s, PagingError::SpuriousWake),
                Action::Fail(PagingError::SpuriousWake),
            ),
            Input::ReadFailed => (
                failed(s, PagingError::EventRead),
                Action::Fail(PagingError::EventRead),
            ),
            _ => (failed(s, PagingError::OutOfOrder), Action::Fail(PagingError::OutOfOrder)),
        },
        Phase::Resolving => match i {
            Input::Installed(n) => if n == page_size {
                if s.notice_pending {
                    (
                        State { phase: Phase::TerminationReady, notice_pending: false, ..s },
                        Action::ReadNotice,
                    )
                } else {
                    (State { phase: Phase::Idle, ..s }, Action::Wait)
                }
            } else {
                (failed(s, PagingError::PartialInstall(n)), Action::Fail(PagingError::PartialInstall(n)))
            },
            Input::InstallFailed => (failed(s, PagingError::Install), Action::Fail(PagingError::Install)),
            _ => (failed(s, PagingError::OutOfOrder), Action::Fail(PagingError::OutOfOrder)),
        },
        Phase::TerminationReady => match i {
            Input::NoticeRead(Some(n)) => if confirms(lc, n) {
                (State { phase: Phase::Stopped, ..s }, Action::Stop)
            } else {
                (State { phase: Phase::Idle, ..s }, Action::Wait)
            },
            Input::NoticeRead(None) => (
                failed(s, PagingError::SpuriousWake),
                Action::Fail(PagingError::SpuriousWake),
            ),
            Input::ReadFailed => (
                failed(s, PagingError::EventRead),
                Action::Fail(PagingError::EventRead),
            ),
            _ => (failed(s, PagingError::OutOfOrder), Action::Fail(PagingError::OutOfOrder)),
        },
        Phase::Stopped => (s, Action::Stop),
        Phase::Failed(e) => (s, Action::Fail(e)),
    }
}

/// The fault-resolution engine: its state, the page size, the lifecycle source
/// it watches (if any), and the content page it installs.
pub struct Engine {
    pub state: State,
    pub page_size: usize,
    pub lifecycle: Option<Lifecycle>,
    pub page: Vec<u8>,
}

impl Engine {
    /// The engine is well formed when its page is exactly one page long.
    pub open spec fn wf(&self) -> bool {
        &&& self.page_size > 0
        &&& self.page@.len() == self.page_size
    }

    /// A new engine, idle, with no fault seen yet and a zeroed content page.
    pub fn new(page_size: usize, lifecycle: Option<Lifecycle>) -> (r: Engine)
        requires
            page_size > 0,
        ensures
            r.wf(),
            r.state == (State { phase: Phase::Idle, faults: 0, notice_pending: false }),
            r.page_size == page_size,
            r.lifecycle == lifecycle,
    {
        Engine {
            state: State { phase: Phase::Idle, faults: 0, notice_pending: false },
            page_size,
            lifecycle,
            page: new_page(page_size),
        }
    }

    /// The content page, to be copied by an `Install` action.
    pub fn page(&self) -> (r: &Vec<u8>)
        ensures
            r@ == self.page@,
    {
        &self.page
    }

    /// Whether the loop has ended, cleanly or not.
    pub fn is_done(&self) -> (r: bool)
        ensures
            r == (self.state.phase == Phase::Stopped || self.state.phase is Failed),
    {
        match self.state.phase {
            Phase::Stopped | Phase::Failed(_) => true,
            _ => false,
        }
    }

    /// Takes one input and returns the next action, following `transition`.
    /// When the action installs a page, the content page has been regenerated
    /// for that fault first; otherwise it is left as it was.
    pub fn step(&mut self, input: Input) -> (r: Action)
        requires
            old(self).wf(),
        ensures
            final(self).wf(),
            (final(self).state, r) == transition(
                old(self).state,
                old(self).page_size as nat,
                old(self).lifecycle,
                input,
            ),
            final(self).page_size == old(self).page_size,
            final(self).lifecycle == old(self).lifecycle,
            r is Install ==> final(self).page@ == uniform(
                old(self).page_size as nat,
                symbol_of(old(self).state.faults as nat),
            ),
            !(r is Install) ==> final(self).page@ == old(self).page@,
    {
        let s = self.state;
        let (next, action) = match s.phase {
            Phase::Idle => match input {
                Input::Ready { fault, lifecycle } => {
                    let watched = lifecycle && self.lifecycle.is_some();
                    if fault {
                        (State { phase: Phase::FaultReady, notice_pending: watched, ..s }, Action::ReadFault)
                    } else if watched {
                        (State { phase: Phase::TerminationReady, ..s }, Action::ReadNotice)
                    } else {
                        (s, Action::Wait)
                    }
                },
                Input::WaitFailed => fail(s, PagingError::Wait),
                _ => fail(s, PagingError::OutOfOrder),
            },
            Phase::FaultReady => match input {
                Input::FaultRead(Some(FaultEvent::Pagefault { addr })) => {
                    let dst = page_align_down(addr, self.page_size);
                    prepare_page(&mut self.page, s.faults);
                    (
                        State { phase: Phase::Resolving, faults: s.faults.wrapping_add(1), ..s },
                        Action::Install { dst },
                    )
                },
                Input::FaultRead(Some(FaultEvent::Other)) => fail(s, PagingError::UnexpectedEvent),
                Input::FaultRead(None) => fail(s, PagingError::SpuriousWake),
                Input::ReadFailed => fail(s, PagingError::EventRead),
                _ => fail(s, PagingError::OutOfOrder),
            },
            Phase::Resolving => match input {
                Input::Installed(n) => {
                    if n != self.page_size {
                        fail(s, PagingError::PartialInstall(n))
                    } else if s.notice_pending {
                        (
                            State { phase: Phase::TerminationReady, notice_pending: false, ..s },
                            Action::ReadNotice,
                        )
                    } else {
                        (State { phase: Phase::Idle, ..s }, Action::Wait)
                    }
                },
                Input::InstallFailed => fail(s, PagingError::Install),
                _ => fail(s, PagingError::OutOfOrder),
            },
            Phase::TerminationReady => match input {
                Input::NoticeRead(Some(n)) => {
                    let confirmed = match self.lifecycle {
                        Some(l) => n.signo == l.signo && n.pid == l.pid,
                        None => false,
                    };
                    if confirmed {
                        (State { phase: Phase::Stopped, ..s }, Action::Stop)
                    } else {
                        (State { phase: Phase::Idle, ..s }, Action::Wait)
                    }
                },
                Input::NoticeRead(None) => fail(s, PagingError::SpuriousWake),
                Input::ReadFailed => fail(s, PagingError::EventRead),
                _ => fail(s, PagingError::OutOfOrder),
            },
            Phase::Stopped => (s, Action::Stop),
            Phase::Failed(e) => (s, Action::Fail(e)),
        };
        self.state = next;
        action
    }
}

/// The failed state after `s` and the action that reports `e`.
fn fail(s: State, e: PagingError) -> (r: (State, Action))
    ensures
        r == (failed(s, e), Action::Fail(e)),
{
    (State { phase: Phase::Failed(e), ..s }, Action::Fail(e))
}

/// The state after one complete resolution from `s`: the handle is reported
/// ready, a page fault at `addr` is read, and the whole page is installed.
pub open spec fn after_resolution(s: State, page_size: nat, lc: Option<Lifecycle>, addr: usize) -> State {
    let s1 = transition(s, page_size, lc, Input::Ready { fault: true, lifecycle: false }).0;
    let s2 = transition(s1, page_size, lc, Input::FaultRead(Some(FaultEvent::Pagefault { addr }))).0;
    transition(s2, page_size, lc, Input::Installed(page_size as usize)).0
}

/// The state after resolving the faults at `addrs`, one after another.
pub open spec fn after_resolutions(
    s: State,
    page_size: nat,
    lc: Option<Lifecycle>,
    addrs: Seq<usize>,
) -> State
    decreases addrs.len(),
{
    if addrs.len() == 0 {
        s
    } else {
        after_resolution(
            after_resolutions(s, page_size, lc, addrs.drop_last()),
            page_size,
            lc,
            addrs.last(),
        )
    }
}

/// One resolution from an idle state installs the page that holds the faulting
/// address, with the content for the fault's number, and returns to idle with
/// that number advanced by one.
pub proof fn lemma_resolution(s: State, page_size: nat, lc: Option<Lifecycle>, addr: usize)
    requires
        s.phase == Phase::Idle,
        !s.notice_pending,
        0 < page_size <= usize::MAX,
        s.faults < u64::MAX,
    ensures
        ({
            let s1 = transition(s, page_size, lc, Input::Ready { fault: true, lifecycle: false }).0;
            let (s2, a) = transition(
                s1,
                page_size,
                lc,
                Input::FaultRead(Some(FaultEvent::Pagefault { addr })),
            );
            &&& s1.phase == Phase::FaultReady
            &&& s1.faults == s.faults
            &&& a == Action::Install { dst: page_start(addr as int, page_size as int) as usize }
            &&& s2.faults == s.faults + 1
        }),
        after_resolution(s, page_size, lc, addr) == (State { faults: (s.faults + 1) as u64, ..s }),
{
}

/// Resolving `k` faults one after another from a fresh engine numbers them
/// `0, 1, ..., k - 1` in order: after them the engine is idle again and has
/// counted `k`. With `step`, which fills the page for fault number `i` with
/// `symbol_of(i)`, the page installed for the `i`-th of them holds `'A' + i % 20`.
pub proof fn lemma_resolutions_count(page_size: nat, lc: Option<Lifecycle>, addrs: Seq<usize>)
    requires
        0 < page_size <= usize::MAX,
        addrs.len() < u64::MAX,
    ensures
        after_resolutions(
            State { phase: Phase::Idle, faults: 0, notice_pending: false },
            page_size,
            lc,
            addrs,
        ) == (State { phase: Phase::Idle, faults: addrs.len() as u64, notice_pending: false }),
    decreases addrs.len(),
{
    if addrs.len() > 0 {
        lemma_resolutions_count(page_size, lc, addrs.drop_last());
        let s = after_resolutions(
            State { phase: Phase::Idle, faults: 0, notice_pending: false },
            page_size,
            lc,
            addrs.drop_last(),
        );
        lemma_resolution(s, page_size, lc, addrs.last());
    }
}

} // verus!
