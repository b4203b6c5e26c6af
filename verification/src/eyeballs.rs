//! The Happy Eyeballs race: a preferred dialer against an optional
//! fallback dialer gated behind a one-shot timer (RFC 6555).
//!
//! The coordinator owns the dialers and decides; the driver dials,
//! polls and keeps the timer. Each call to [`HappyEyeballs::advance`]
//! consumes the event the last directive asked for and returns the
//! next directive. The preferred branch is always polled first in a
//! cycle, so it wins every tie; the fallback gets its chance only
//! while the preferred branch is pending after the timer has fired.
//! The timer is one-shot: once it has been seen to fire, later cycles
//! go straight to the fallback dialer without asking again.

use vstd::prelude::*;

use crate::addr::fallback_part;
use crate::addr::preferred_part;
use crate::addr::AddressList;
use crate::addr::SockAddr;
use crate::dialer::DialOutcome;
use crate::dialer::DialerModel;
use crate::dialer::DialerStep;
use crate::dialer::SequentialDialer;
use crate::error::ConnectError;

verus! {

/// The two sides of the race.
#[derive(Clone, Copy, PartialEq, Eq, Structural, Debug)]
pub enum Branch {
    Preferred,
    Fallback,
}

/// What the coordinator asks the driver to do, or how the race ended.
#[derive(Clone, Copy, PartialEq, Eq, Structural, Debug)]
pub enum Directive {
    /// Make sure a dial to this address is in flight on this branch
    /// (dropping any older attempt of the branch), poll it once, and
    /// report the outcome.
    Dial(Branch, SockAddr),
    /// Poll the fallback timer and report whether it has elapsed.
    CheckTimer,
    /// Terminal: this branch's attempt to this address won the race.
    /// Attempts of the other branch are dropped (canceled).
    Connected(Branch, SockAddr),
    /// Terminal: no branch can connect.
    Failed(ConnectError),
    /// Nothing can progress now; yield, and resume the cycle later.
    Suspend,
}

/// What the driver observed for the last directive.
#[derive(Clone, Copy, PartialEq, Eq, Structural, Debug)]
pub enum RaceEvent {
    /// The first poll of a fresh race.
    Begin,
    /// A new poll cycle after a `Suspend`.
    Resume,
    /// The outcome of the dial the last directive asked about.
    Dial(DialOutcome),
    /// The fallback timer has elapsed.
    TimerFired,
    /// The fallback timer has not elapsed yet.
    TimerPending,
}

/// Which question the coordinator has posed to the driver.
#[derive(Clone, Copy, PartialEq, Eq, Structural, Debug)]
pub enum Asking {
    /// Fresh; nothing asked yet.
    Begin,
    /// Waiting for the outcome of the preferred branch's dial.
    PreferredDial,
    /// Waiting for the timer check.
    Timer,
    /// Waiting for the outcome of the fallback branch's dial.
    FallbackDial,
    /// Suspended; waiting for the next poll cycle.
    Suspended,
    /// The race is over.
    Done,
}

/// The coordinator's mathematical state.
pub struct RaceModel {
    pub preferred: DialerModel,
    pub fallback: Option<DialerModel>,
    pub timer_fired: bool,
    pub asking: Asking,
}

/// Races a preferred dialer against an optional timer-gated fallback.
pub struct HappyEyeballs {
    preferred: SequentialDialer,
    fallback: Option<SequentialDialer>,
    timer_fired: bool,
    asking: Asking,
    fallback_timeout_ms: Option<u64>,
}

impl View for HappyEyeballs {
    type V = RaceModel;

    closed spec fn view(&self) -> RaceModel {
        RaceModel {
            preferred: self.preferred@,
            fallback: match self.fallback {
                Some(f) => Some(f@),
                None => None,
            },
            timer_fired: self.timer_fired,
            asking: self.asking,
        }
    }
}

impl HappyEyeballs {
    /// Internal cursor consistency of both dialers.
    pub closed spec fn wf(self) -> bool {
        &&& self.preferred.wf()
        &&& match self.fallback {
            Some(f) => f.wf(),
            None => true,
        }
    }

    /// The timeout the race was configured with; `None` disables the
    /// fallback branch altogether. The driver arms the timer with it.
    pub closed spec fn spec_timeout_ms(self) -> Option<u64> {
        self.fallback_timeout_ms
    }

    /// Which events the coordinator can consume in this state.
    pub open spec fn accepts(m: RaceModel, ev: RaceEvent) -> bool {
        match ev {
            RaceEvent::Begin => m.asking is Begin,
            RaceEvent::Resume => m.asking is Suspended,
            RaceEvent::Dial(_) => m.asking is PreferredDial || m.asking is FallbackDial,
            RaceEvent::TimerFired => m.asking is Timer,
            RaceEvent::TimerPending => m.asking is Timer,
        }
    }

    /// The state invariant the transitions preserve: an answer is
    /// only awaited about an attempt that is in flight, and the
    /// timer only checked while a fallback branch exists.
    pub open spec fn inv(m: RaceModel) -> bool {
        &&& (m.asking is Begin ==> m.preferred.current is None)
        &&& (m.asking is PreferredDial ==> m.preferred.current is Some)
        &&& (m.asking is Suspended ==> m.preferred.current is Some)
        &&& (m.asking is Timer ==> m.fallback is Some && m.preferred.current is Some)
        &&& (m.asking is FallbackDial ==> m.preferred.current is Some && (match m.fallback {
            Some(f) => f.current is Some,
            None => false,
        }))
    }

    /// Make sure a dialer has an attempt to ask about: keep the one
    /// in flight, else start the next address. `None` means the
    /// dialer is exhausted.
    pub open spec fn engage_spec(d: DialerModel) -> (DialerModel, Option<SockAddr>) {
        match d.current {
            Some(a) => (d, Some(a)),
            None => {
                let (d2, s) = SequentialDialer::start_spec(d);
                match s {
                    DialerStep::Dial(a) => (d2, Some(a)),
                    _ => (d2, None),
                }
            },
        }
    }

    /// The preferred branch is exhausted: promote the fallback dialer
    /// to preferred (dropping the timer), or fail with the preferred
    /// branch's last error when there is none to promote.
    pub open spec fn exhausted_spec(m: RaceModel) -> (RaceModel, Directive) {
        match m.fallback {
            None => (
                RaceModel {
                    preferred: m.preferred,
                    fallback: None,
                    timer_fired: m.timer_fired,
                    asking: Asking::Done,
                },
                Directive::Failed(SequentialDialer::exhausted_error(m.preferred)),
            ),
            Some(fb) => {
                let (p2, a) = Self::engage_spec(fb);
                match a {
                    Some(addr) => (
                        RaceModel {
                            preferred: p2,
                            fallback: None,
                            timer_fired: m.timer_fired,
                            asking: Asking::PreferredDial,
                        },
                        Directive::Dial(Branch::Preferred, addr),
                    ),
                    None => (
                        RaceModel {
                            preferred: p2,
                            fallback: None,
                            timer_fired: m.timer_fired,
                            asking: Asking::Done,
                        },
                        Directive::Failed(SequentialDialer::exhausted_error(p2)),
                    ),
                }
            },
        }
    }

    /// Start or continue a poll cycle by engaging the preferred
    /// dialer.
    pub open spec fn cycle_spec(m: RaceModel) -> (RaceModel, Directive) {
        let (p2, a) = Self::engage_spec(m.preferred);
        let m2 = RaceModel {
            preferred: p2,
            fallback: m.fallback,
            timer_fired: m.timer_fired,
            asking: m.asking,
        };
        match a {
            Some(addr) => (
                RaceModel {
                    preferred: p2,
                    fallback: m.fallback,
                    timer_fired: m.timer_fired,
                    asking: Asking::PreferredDial,
                },
                Directive::Dial(Branch::Preferred, addr),
            ),
            None => Self::exhausted_spec(m2),
        }
    }

    /// The timer has fired (or had already): engage the fallback
    /// dialer; if it is exhausted, discard the branch and suspend.
    pub open spec fn fallback_spec(m: RaceModel) -> (RaceModel, Directive) {
        let fb = match m.fallback {
            Some(f) => f,
            None => m.preferred,  // never reached: callers check the branch exists
        };
        let (f2, a) = Self::engage_spec(fb);
        match a {
            Some(addr) => (
                RaceModel {
                    preferred: m.preferred,
                    fallback: Some(f2),
                    timer_fired: m.timer_fired,
                    asking: Asking::FallbackDial,
                },
                Directive::Dial(Branch::Fallback, addr),
            ),
            None => (
                RaceModel {
                    preferred: m.preferred,
                    fallback: None,
                    timer_fired: m.timer_fired,
                    asking: Asking::Suspended,
                },
                Directive::Suspend,
            ),
        }
    }

    /// A dial outcome for the branch the coordinator asked about.
    pub open spec fn dial_spec(m: RaceModel, oc: DialOutcome) -> (RaceModel, Directive) {
        if m.asking is PreferredDial {
            let (p2, step) = SequentialDialer::report_spec(m.preferred, oc);
            let m2 = RaceModel {
                preferred: p2,
                fallback: m.fallback,
                timer_fired: m.timer_fired,
                asking: m.asking,
            };
            match step {
                DialerStep::Connected(a) => (
                    RaceModel {
                        preferred: p2,
                        fallback: None,
                        timer_fired: m.timer_fired,
                        asking: Asking::Done,
                    },
                    Directive::Connected(Branch::Preferred, a),
                ),
                DialerStep::Dial(a) => (
                    RaceModel {
                        preferred: p2,
                        fallback: m.fallback,
                        timer_fired: m.timer_fired,
                        asking: Asking::PreferredDial,
                    },
                    Directive::Dial(Branch::Preferred, a),
                ),
                DialerStep::Pending => match m.fallback {
                    None => (
                        RaceModel {
                            preferred: p2,
                            fallback: None,
                            timer_fired: m.timer_fired,
                            asking: Asking::Suspended,
                        },
                        Directive::Suspend,
                    ),
                    Some(_) => {
                        if m.timer_fired {
                            Self::fallback_spec(m2)
                        } else {
                            (
                                RaceModel {
                                    preferred: p2,
                                    fallback: m.fallback,
                                    timer_fired: m.timer_fired,
                                    asking: Asking::Timer,
                                },
                                Directive::CheckTimer,
                            )
                        }
                    },
                },
                DialerStep::Exhausted(_) => Self::exhausted_spec(m2),
            }
        } else {
            let fb = match m.fallback {
                Some(f) => f,
                None => m.preferred,  // never reached: `inv` rules it out
            };
            let (f2, step) = SequentialDialer::report_spec(fb, oc);
            match step {
                DialerStep::Connected(a) => (
                    RaceModel {
                        preferred: f2,
                        fallback: None,
                        timer_fired: m.timer_fired,
                        asking: Asking::Done,
                    },
                    Directive::Connected(Branch::Fallback, a),
                ),
                DialerStep::Dial(a) => (
                    RaceModel {
                        preferred: m.preferred,
                        fallback: Some(f2),
                        timer_fired: m.timer_fired,
                        asking: Asking::FallbackDial,
                    },
                    Directive::Dial(Branch::Fallback, a),
                ),
                DialerStep::Pending => (
                    RaceModel {
                        preferred: m.preferred,
                        fallback: Some(f2),
                        timer_fired: m.timer_fired,
                        asking: Asking::Suspended,
                    },
                    Directive::Suspend,
                ),
                DialerStep::Exhausted(_) => (
                    RaceModel {
                        preferred: m.preferred,
                        fallback: None,
                        timer_fired: m.timer_fired,
                        asking: Asking::Suspended,
                    },
                    Directive::Suspend,
                ),
            }
        }
    }

    /// The full transition: one event in, one directive out.
    pub open spec fn advance_spec(m: RaceModel, ev: RaceEvent) -> (RaceModel, Directive) {
        match ev {
            RaceEvent::Begin => Self::cycle_spec(m),
            RaceEvent::Resume => Self::cycle_spec(m),
            RaceEvent::Dial(oc) => Self::dial_spec(m, oc),
            RaceEvent::TimerFired => Self::fallback_spec(
                RaceModel {
                    preferred: m.preferred,
                    fallback: m.fallback,
                    timer_fired: true,
                    asking: m.asking,
                },
            ),
            RaceEvent::TimerPending => (
                RaceModel {
                    preferred: m.preferred,
                    fallback: m.fallback,
                    timer_fired: m.timer_fired,
                    asking: Asking::Suspended,
                },
                Directive::Suspend,
            ),
        }
    }

    /// A dialer that has not attempted anything yet.
    pub open spec fn fresh_dialer(s: Seq<SockAddr>) -> DialerModel {
        DialerModel { remaining: s, attempted: Seq::<SockAddr>::empty(), current: None, last_err: None }
    }

    /// The race a resolved batch of addresses sets up: with a timeout
    /// the addresses are split by family preference and the other
    /// family parked behind the timer; without one (or when the list
    /// is single-family) only the preferred dialer exists.
    pub open spec fn init_spec(s: Seq<SockAddr>, fallback_timeout_ms: Option<u64>) -> RaceModel {
        if fallback_timeout_ms is Some {
            RaceModel {
                preferred: Self::fresh_dialer(preferred_part(s)),
                fallback: if fallback_part(s).len() > 0 {
                    Some(Self::fresh_dialer(fallback_part(s)))
                } else {
                    None
                },
                timer_fired: false,
                asking: Asking::Begin,
            }
        } else {
            RaceModel {
                preferred: Self::fresh_dialer(s),
                fallback: None,
                timer_fired: false,
                asking: Asking::Begin,
            }
        }
    }

    /// Set up the race over a resolved address list whose addresses
    /// are all still unattempted.
    pub fn new(addrs: AddressList, fallback_timeout_ms: Option<u64>) -> (r: HappyEyeballs)
        requires
            addrs.wf(),
            addrs.attempted() == Seq::<SockAddr>::empty(),
        ensures
            r.wf(),
            Self::inv(r@),
            r.spec_timeout_ms() == fallback_timeout_ms,
            r@ == Self::init_spec(addrs.remaining(), fallback_timeout_ms),
    {
        if fallback_timeout_ms.is_some() {
            let (preferred_addrs, fallback_addrs) = addrs.split_by_preference();
            if fallback_addrs.is_empty() {
                HappyEyeballs {
                    preferred: SequentialDialer::new(preferred_addrs),
                    fallback: None,
                    timer_fired: false,
                    asking: Asking::Begin,
                    fallback_timeout_ms,
                }
            } else {
                HappyEyeballs {
                    preferred: SequentialDialer::new(preferred_addrs),
                    fallback: Some(SequentialDialer::new(fallback_addrs)),
                    timer_fired: false,
                    asking: Asking::Begin,
                    fallback_timeout_ms,
                }
            }
        } else {
            HappyEyeballs {
                preferred: SequentialDialer::new(addrs),
                fallback: None,
                timer_fired: false,
                asking: Asking::Begin,
                fallback_timeout_ms,
            }
        }
    }

    /// The configured fallback timeout in milliseconds, for the
    /// driver to arm the timer with.
    pub fn fallback_timeout_ms(&self) -> (r: Option<u64>)
        ensures
            r == self.spec_timeout_ms(),
    {
        self.fallback_timeout_ms
    }

    /// Consume the event the last directive asked for and return the
    /// next directive.
    pub fn advance(&mut self, ev: RaceEvent) -> (d: Directive)
        requires
            old(self).wf(),
            Self::inv(old(self)@),
            Self::accepts(old(self)@, ev),
        ensures
            final(self).wf(),
            Self::inv(final(self)@),
            (final(self)@, d) == Self::advance_spec(old(self)@, ev),
    {
        proof {
            Self::lemma_inv_preserved(old(self)@, ev);
        }
        match ev {
            RaceEvent::Begin => self.cycle(),
            RaceEvent::Resume => self.cycle(),
            RaceEvent::Dial(oc) => {
                if matches!(self.asking, Asking::PreferredDial) {
                    let step = self.preferred.report(oc);
                    match step {
                        DialerStep::Connected(a) => {
                            self.fallback = None;
                            self.asking = Asking::Done;
                            Directive::Connected(Branch::Preferred, a)
                        },
                        DialerStep::Dial(a) => {
                            self.asking = Asking::PreferredDial;
                            Directive::Dial(Branch::Preferred, a)
                        },
                        DialerStep::Pending => {
                            if self.fallback.is_some() {
                                if self.timer_fired {
                                    self.engage_fallback()
                                } else {
                                    self.asking = Asking::Timer;
                                    Directive::CheckTimer
                                }
                            } else {
                                self.asking = Asking::Suspended;
                                Directive::Suspend
                            }
                        },
                        DialerStep::Exhausted(_) => self.promote_or_fail(),
                    }
                } else {
                    let mut fb = self.fallback.take().unwrap();
                    let step = fb.report(oc);
                    match step {
                        DialerStep::Connected(a) => {
                            self.preferred = fb;
                            self.asking = Asking::Done;
                            Directive::Connected(Branch::Fallback, a)
                        },
                        DialerStep::Dial(a) => {
                            self.fallback = Some(fb);
                            self.asking = Asking::FallbackDial;
                            Directive::Dial(Branch::Fallback, a)
                        },
                        DialerStep::Pending => {
                            self.fallback = Some(fb);
                            self.asking = Asking::Suspended;
                            Directive::Suspend
                        },
                        DialerStep::Exhausted(_) => {
                            self.asking = Asking::Suspended;
                            Directive::Suspend
                        },
                    }
                }
            },
            RaceEvent::TimerFired => {
                self.timer_fired = true;
                self.engage_fallback()
            },
            RaceEvent::TimerPending => {
                self.asking = Asking::Suspended;
                Directive::Suspend
            },
        }
    }

    /// Engage the preferred dialer for a new poll cycle.
    fn cycle(&mut self) -> (d: Directive)
        requires
            old(self).wf(),
        ensures
            final(self).wf(),
            (final(self)@, d) == Self::cycle_spec(old(self)@),
    {
        match engage(&mut self.preferred) {
            Some(addr) => {
                self.asking = Asking::PreferredDial;
                Directive::Dial(Branch::Preferred, addr)
            },
            None => self.promote_or_fail(),
        }
    }

    /// The preferred dialer is exhausted: promote the fallback or end
    /// the race.
    fn promote_or_fail(&mut self) -> (d: Directive)
        requires
            old(self).wf(),
        ensures
            final(self).wf(),
            (final(self)@, d) == Self::exhausted_spec(old(self)@),
    {
        match self.fallback.take() {
            None => {
                self.asking = Asking::Done;
                Directive::Failed(self.preferred.terminal_error())
            },
            Some(fb) => {
                self.preferred = fb;
                match engage(&mut self.preferred) {
                    Some(addr) => {
                        self.asking = Asking::PreferredDial;
                        Directive::Dial(Branch::Preferred, addr)
                    },
                    None => {
                        self.asking = Asking::Done;
                        Directive::Failed(self.preferred.terminal_error())
                    },
                }
            },
        }
    }

    /// The timer has fired: engage the fallback dialer, discarding
    /// the branch if it has nothing left.
    fn engage_fallback(&mut self) -> (d: Directive)
        requires
            old(self).wf(),
            old(self)@.fallback is Some,
        ensures
            final(self).wf(),
            (final(self)@, d) == Self::fallback_spec(old(self)@),
    {
        let mut fb = self.fallback.take().unwrap();
        match engage(&mut fb) {
            Some(addr) => {
                self.fallback = Some(fb);
                self.asking = Asking::FallbackDial;
                Directive::Dial(Branch::Fallback, addr)
            },
            None => {
                self.asking = Asking::Suspended;
                Directive::Suspend
            },
        }
    }
    /// A run of events from a given state.
    pub open spec fn run_spec(m: RaceModel, evs: Seq<RaceEvent>) -> RaceModel
        decreases evs.len(),
    {
        if evs.len() == 0 {
            m
        } else {
            Self::run_spec(Self::advance_spec(m, evs[0]).0, evs.skip(1))
        }
    }

    /// Every event of the run is accepted in the state it meets.
    pub open spec fn run_accepted(m: RaceModel, evs: Seq<RaceEvent>) -> bool
        decreases evs.len(),
    {
        evs.len() == 0 || (Self::accepts(m, evs[0]) && Self::run_accepted(
            Self::advance_spec(m, evs[0]).0,
            evs.skip(1),
        ))
    }

    /// Law: the state invariant holds after any accepted step.
    pub proof fn lemma_inv_preserved(m: RaceModel, ev: RaceEvent)
        requires
            Self::inv(m),
            Self::accepts(m, ev),
        ensures
            Self::inv(Self::advance_spec(m, ev).0),
    {
    }

    /// Law: without a fallback branch, one accepted step never
    /// creates one, never dials on the fallback branch, and never
    /// checks a timer.
    pub proof fn lemma_no_fallback_step(m: RaceModel, ev: RaceEvent)
        requires
            Self::inv(m),
            Self::accepts(m, ev),
            m.fallback is None,
        ensures
            ({
                let (m2, d) = Self::advance_spec(m, ev);
                &&& m2.fallback is None
                &&& !(d matches Directive::Dial(Branch::Fallback, _))
                &&& !(d is CheckTimer)
            }),
    {
    }

    /// Law: a race without a fallback branch - as built when no
    /// happy-eyeballs timeout is configured - never acquires one,
    /// over any accepted run of events.
    pub proof fn lemma_no_fallback_run(m: RaceModel, evs: Seq<RaceEvent>)
        requires
            Self::inv(m),
            Self::run_accepted(m, evs),
            m.fallback is None,
        ensures
            Self::run_spec(m, evs).fallback is None,
        decreases evs.len(),
    {
        if evs.len() > 0 {
            Self::lemma_no_fallback_step(m, evs[0]);
            Self::lemma_inv_preserved(m, evs[0]);
            Self::lemma_no_fallback_run(Self::advance_spec(m, evs[0]).0, evs.skip(1));
        }
    }

    /// Law (one terminal outcome): a step ends the race exactly when
    /// it reports a connection or a failure, and a finished race
    /// accepts no further event - the outcome is delivered exactly
    /// once.
    pub proof fn lemma_terminal_exactly_once(m: RaceModel, ev: RaceEvent)
        requires
            Self::inv(m),
            Self::accepts(m, ev),
        ensures
            ({
                let (m2, d) = Self::advance_spec(m, ev);
                &&& ((d is Connected || d is Failed) <==> m2.asking is Done)
                &&& (m2.asking is Done ==> forall|e2: RaceEvent| !Self::accepts(m2, e2))
            }),
    {
    }

    /// Law (tie-break): while the preferred attempt is pending, a
    /// fallback whose dial succeeds right after the timer fires wins
    /// the race; the fallback dialer is promoted in place of the
    /// preferred one, whose single in-flight attempt goes with it -
    /// released (canceled) exactly once.
    pub proof fn lemma_fallback_overtakes(m: RaceModel, f: DialerModel)
        requires
            Self::inv(m),
            m.asking is PreferredDial,
            m.fallback == Some(f),
            f.current is None,
            f.remaining.len() > 0,
            !m.timer_fired,
        ensures
            ({
                let a0 = f.remaining[0];
                let (m1, d1) = Self::advance_spec(m, RaceEvent::Dial(DialOutcome::Pending));
                let (m2, d2) = Self::advance_spec(m1, RaceEvent::TimerFired);
                let (m3, d3) = Self::advance_spec(m2, RaceEvent::Dial(DialOutcome::Succeeded));
                &&& d1 == Directive::CheckTimer
                &&& d2 == Directive::Dial(Branch::Fallback, a0)
                &&& d3 == Directive::Connected(Branch::Fallback, a0)
                &&& m3.preferred == (DialerModel {
                    remaining: f.remaining.skip(1),
                    attempted: f.attempted.push(a0),
                    current: Some(a0),
                    last_err: f.last_err,
                })
                &&& m3.fallback is None
                &&& m3.asking is Done
            }),
    {
    }
}

/// Keep the in-flight attempt or start the next address.
fn engage(d: &mut SequentialDialer) -> (r: Option<SockAddr>)
    requires
        old(d).wf(),
    ensures
        final(d).wf(),
        (final(d)@, r) == HappyEyeballs::engage_spec(old(d)@),
{
    if d.has_attempt() {
        Some(d.current_addr())
    } else {
        match d.start() {
            DialerStep::Dial(a) => Some(a),
            _ => None,
        }
    }
}

} // verus!
