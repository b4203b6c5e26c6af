//! The sequential dialer: one address list, one in-flight attempt.
//!
//! The dialer decides which address to try next; the driver performs
//! the actual dial and reports how the attempt went. On failure the
//! error is recorded, the attempt dropped, and the next address
//! started at once; once the list is exhausted the last recorded
//! error is surfaced (or a no-addresses error when nothing was ever
//! attempted).

use vstd::prelude::*;

use crate::addr::AddressList;
use crate::addr::SockAddr;
use crate::error::ConnectError;
use crate::error::IoError;

verus! {

/// The driver's report on the in-flight dial attempt.
#[derive(Clone, Copy, PartialEq, Eq, Structural, Debug)]
pub enum DialOutcome {
    /// The attempt connected.
    Succeeded,
    /// The attempt has not settled yet.
    Pending,
    /// The attempt failed with this error.
    Failed(IoError),
}

/// What the dialer asks for, or how it ended.
#[derive(Clone, Copy, PartialEq, Eq, Structural, Debug)]
pub enum DialerStep {
    /// Start a dial attempt to this address and report its outcome.
    Dial(SockAddr),
    /// The in-flight attempt connected to this address; terminal.
    Connected(SockAddr),
    /// The in-flight attempt is still pending; poll it again later.
    Pending,
    /// No attempt is left to make; terminal with this error.
    Exhausted(ConnectError),
}

/// The dialer's mathematical state.
pub struct DialerModel {
    /// Addresses not yet attempted, in order.
    pub remaining: Seq<SockAddr>,
    /// Addresses already handed to the driver, in order.
    pub attempted: Seq<SockAddr>,
    /// The address of the attempt in flight, if one is.
    pub current: Option<SockAddr>,
    /// The error of the most recent failed attempt.
    pub last_err: Option<IoError>,
}

/// Drives one address list, one dial attempt at a time.
pub struct SequentialDialer {
    addrs: AddressList,
    current: Option<SockAddr>,
    last_err: Option<IoError>,
}

impl View for SequentialDialer {
    type V = DialerModel;

    closed spec fn view(&self) -> DialerModel {
        DialerModel {
            remaining: self.addrs.remaining(),
            attempted: self.addrs.attempted(),
            current: self.current,
            last_err: self.last_err,
        }
    }
}

impl SequentialDialer {
    /// Internal cursor consistency.
    pub closed spec fn wf(self) -> bool {
        self.addrs.wf()
    }

    /// The terminal error once no address is left: the last recorded
    /// dial failure, or a no-addresses error when none was recorded.
    pub open spec fn exhausted_error(m: DialerModel) -> ConnectError {
        match m.last_err {
            Some(e) => ConnectError::Dial(e),
            None => ConnectError::NoAddresses,
        }
    }

    /// With no attempt in flight: pull the next address and ask for a
    /// dial, or end exhausted.
    pub open spec fn start_spec(m: DialerModel) -> (DialerModel, DialerStep) {
        if m.remaining.len() > 0 {
            let a = m.remaining[0];
            (
                DialerModel {
                    remaining: m.remaining.skip(1),
                    attempted: m.attempted.push(a),
                    current: Some(a),
                    last_err: m.last_err,
                },
                DialerStep::Dial(a),
            )
        } else {
            (m, DialerStep::Exhausted(Self::exhausted_error(m)))
        }
    }

    /// With an attempt in flight: success and pending pass through;
    /// a failure is recorded, the attempt dropped, and the next
    /// address started at once.
    pub open spec fn report_spec(m: DialerModel, oc: DialOutcome) -> (DialerModel, DialerStep) {
        match oc {
            DialOutcome::Succeeded => (
                m,
                DialerStep::Connected(
                    match m.current {
                        Some(a) => a,
                        None => m.remaining[0],  // unreachable under the callers' contracts
                    },
                ),
            ),
            DialOutcome::Pending => (m, DialerStep::Pending),
            DialOutcome::Failed(e) => Self::start_spec(
                DialerModel {
                    remaining: m.remaining,
                    attempted: m.attempted,
                    current: None,
                    last_err: Some(e),
                },
            ),
        }
    }

    /// Take ownership of an address list; nothing is in flight.
    pub fn new(addrs: AddressList) -> (r: SequentialDialer)
        requires
            addrs.wf(),
        ensures
            r.wf(),
            r@ == (DialerModel {
                remaining: addrs.remaining(),
                attempted: addrs.attempted(),
                current: None,
                last_err: None,
            }),
    {
        SequentialDialer { addrs, current: None, last_err: None }
    }

    /// Begin (or resume after a failure handled by `report`) with no
    /// attempt in flight.
    pub fn start(&mut self) -> (r: DialerStep)
        requires
            old(self).wf(),
            old(self)@.current is None,
        ensures
            final(self).wf(),
            (final(self)@, r) == Self::start_spec(old(self)@),
    {
        match self.addrs.next() {
            Some(a) => {
                self.current = Some(a);
                DialerStep::Dial(a)
            },
            None => {
                match self.last_err {
                    Some(e) => DialerStep::Exhausted(ConnectError::Dial(e)),
                    None => DialerStep::Exhausted(ConnectError::NoAddresses),
                }
            },
        }
    }

    /// Feed back how the in-flight attempt went.
    pub fn report(&mut self, oc: DialOutcome) -> (r: DialerStep)
        requires
            old(self).wf(),
            old(self)@.current is Some,
        ensures
            final(self).wf(),
            (final(self)@, r) == Self::report_spec(old(self)@, oc),
    {
        match oc {
            DialOutcome::Succeeded => DialerStep::Connected(self.current.unwrap()),
            DialOutcome::Pending => DialerStep::Pending,
            DialOutcome::Failed(e) => {
                self.last_err = Some(e);
                self.current = None;
                self.start()
            },
        }
    }

    /// True when an attempt is in flight.
    pub fn has_attempt(&self) -> (r: bool)
        ensures
            r == (self@.current is Some),
    {
        self.current.is_some()
    }

    /// The address of the attempt in flight.
    pub fn current_addr(&self) -> (r: SockAddr)
        requires
            self@.current is Some,
        ensures
            self@.current == Some(r),
    {
        self.current.unwrap()
    }

    /// The error this dialer would surface once exhausted.
    pub fn terminal_error(&self) -> (r: ConnectError)
        ensures
            r == Self::exhausted_error(self@),
    {
        match self.last_err {
            Some(e) => ConnectError::Dial(e),
            None => ConnectError::NoAddresses,
        }
    }

    /// A run in which every report is a failure: the in-flight
    /// attempt fails with `errs[0]`, the attempt started in its
    /// place fails with the next error, and so on.
    pub open spec fn fail_run(m: DialerModel, errs: Seq<IoError>) -> (DialerModel, DialerStep)
        decreases errs.len(),
    {
        if errs.len() <= 1 {
            Self::report_spec(m, DialOutcome::Failed(errs[0]))
        } else {
            Self::fail_run(
                Self::report_spec(m, DialOutcome::Failed(errs[0])).0,
                errs.skip(1),
            )
        }
    }

    proof fn lemma_fail_run(m: DialerModel, errs: Seq<IoError>)
        requires
            m.current is Some,
            errs.len() == m.remaining.len() + 1,
        ensures
            ({
                let (mf, s) = Self::fail_run(m, errs);
                &&& s == DialerStep::Exhausted(ConnectError::Dial(errs.last()))
                &&& mf.attempted == m.attempted + m.remaining
                &&& mf.remaining.len() == 0
                &&& mf.current is None
                &&& mf.last_err == Some(errs.last())
            }),
        decreases errs.len(),
    {
        if errs.len() == 1 {
            assert(m.attempted + m.remaining =~= m.attempted);
        } else {
            let m1 = Self::report_spec(m, DialOutcome::Failed(errs[0])).0;
            Self::lemma_fail_run(m1, errs.skip(1));
            assert(errs.skip(1).last() == errs.last());
            assert(m1.attempted + m1.remaining =~= m.attempted + m.remaining);
        }
    }

    /// Law: for a non-empty address list where every dial fails, the
    /// dialer ends exhausted with the error of the *last* address,
    /// and every address was attempted, exactly once, in order.
    pub proof fn lemma_address_exhaustion(addrs: Seq<SockAddr>, errs: Seq<IoError>)
        requires
            addrs.len() > 0,
            errs.len() == addrs.len(),
        ensures
            ({
                let m0 = DialerModel {
                    remaining: addrs,
                    attempted: Seq::<SockAddr>::empty(),
                    current: None,
                    last_err: None,
                };
                let (m1, s1) = Self::start_spec(m0);
                let (mf, sf) = Self::fail_run(m1, errs);
                &&& s1 == DialerStep::Dial(addrs[0])
                &&& sf == DialerStep::Exhausted(ConnectError::Dial(errs.last()))
                &&& mf.attempted == addrs
                &&& mf.remaining.len() == 0
                &&& mf.current is None
            }),
    {
        let m0 = DialerModel {
            remaining: addrs,
            attempted: Seq::<SockAddr>::empty(),
            current: None,
            last_err: None,
        };
        let (m1, s1) = Self::start_spec(m0);
        Self::lemma_fail_run(m1, errs);
        assert(m1.attempted + m1.remaining =~= addrs);
    }
}

} // verus!
