use conncore::addr::AddressList;
use conncore::addr::HostIp;
use conncore::addr::SockAddr;
use conncore::dialer::DialOutcome;
use conncore::dialer::DialerStep;
use conncore::dialer::SequentialDialer;
use conncore::error::ConnectError;
use conncore::error::IoError;
use conncore::eyeballs::Branch;
use conncore::eyeballs::Directive;
use conncore::eyeballs::HappyEyeballs;
use conncore::eyeballs::RaceEvent;

fn v4(n: u32, port: u16) -> SockAddr {
    SockAddr { ip: HostIp::V4(n), port }
}

fn v6(n: u128, port: u16) -> SockAddr {
    SockAddr { ip: HostIp::V6(n), port }
}

#[test]
fn address_list_hands_out_in_order_once() {
    let a = v4(1, 80);
    let b = v4(2, 80);
    let mut list = AddressList::new(vec![a, b]);
    assert!(!list.is_empty());
    assert_eq!(list.next(), Some(a));
    assert_eq!(list.next(), Some(b));
    assert!(list.is_empty());
    assert_eq!(list.next(), None);
    assert_eq!(list.next(), None);
}

#[test]
fn split_keeps_first_family_preferred() {
    let a4 = v4(1, 80);
    let b6 = v6(1, 80);
    let c4 = v4(2, 80);
    let list = AddressList::new(vec![a4, b6, c4]);
    let (mut pref, mut fall) = list.split_by_preference();
    assert_eq!(pref.next(), Some(a4));
    assert_eq!(pref.next(), Some(c4));
    assert_eq!(pref.next(), None);
    assert_eq!(fall.next(), Some(b6));
    assert_eq!(fall.next(), None);
}

#[test]
fn split_with_v6_first() {
    let a6 = v6(7, 443);
    let b4 = v4(9, 443);
    let list = AddressList::new(vec![a6, b4]);
    let (mut pref, mut fall) = list.split_by_preference();
    assert_eq!(pref.next(), Some(a6));
    assert_eq!(pref.next(), None);
    assert_eq!(fall.next(), Some(b4));
}

#[test]
fn split_single_family_has_empty_fallback() {
    let list = AddressList::new(vec![v4(1, 80), v4(2, 80)]);
    let (mut pref, mut fall) = list.split_by_preference();
    assert_eq!(fall.next(), None);
    assert_eq!(pref.next(), Some(v4(1, 80)));
}

#[test]
fn split_empty_list() {
    let list = AddressList::new(Vec::new());
    let (mut pref, mut fall) = list.split_by_preference();
    assert_eq!(pref.next(), None);
    assert_eq!(fall.next(), None);
}

#[test]
fn exhaustion_surfaces_last_error() {
    // Every dial fails: the terminal error is the last address's,
    // and each address is attempted exactly once, in order.
    let a = v4(1, 80);
    let b = v4(2, 80);
    let c = v4(3, 80);
    let mut d = SequentialDialer::new(AddressList::new(vec![a, b, c]));
    assert_eq!(d.start(), DialerStep::Dial(a));
    assert_eq!(d.report(DialOutcome::Failed(IoError { code: 111 })), DialerStep::Dial(b));
    assert_eq!(d.report(DialOutcome::Failed(IoError { code: 112 })), DialerStep::Dial(c));
    assert_eq!(
        d.report(DialOutcome::Failed(IoError { code: 113 })),
        DialerStep::Exhausted(ConnectError::Dial(IoError { code: 113 })),
    );
}

#[test]
fn empty_dialer_has_no_addresses() {
    let mut d = SequentialDialer::new(AddressList::new(Vec::new()));
    assert_eq!(d.start(), DialerStep::Exhausted(ConnectError::NoAddresses));
}

#[test]
fn dialer_success_passes_through() {
    let a = v4(5, 80);
    let mut d = SequentialDialer::new(AddressList::new(vec![a]));
    assert_eq!(d.start(), DialerStep::Dial(a));
    assert_eq!(d.report(DialOutcome::Pending), DialerStep::Pending);
    assert_eq!(d.report(DialOutcome::Succeeded), DialerStep::Connected(a));
}

#[test]
fn fallback_overtakes_pending_preferred() {
    // Preferred pending, timer fires, fallback connects: the
    // fallback's success is returned and the preferred attempt is
    // dropped with the race's terminal step.
    let p = v4(1, 80);
    let f = v6(1, 80);
    let mut race = HappyEyeballs::new(AddressList::new(vec![p, f]), Some(300));
    assert_eq!(race.advance(RaceEvent::Begin), Directive::Dial(Branch::Preferred, p));
    assert_eq!(race.advance(RaceEvent::Dial(DialOutcome::Pending)), Directive::CheckTimer);
    assert_eq!(race.advance(RaceEvent::TimerFired), Directive::Dial(Branch::Fallback, f));
    assert_eq!(
        race.advance(RaceEvent::Dial(DialOutcome::Succeeded)),
        Directive::Connected(Branch::Fallback, f),
    );
}

#[test]
fn no_timeout_never_attempts_fallback() {
    // With no happy-eyeballs timeout there is no fallback branch:
    // however long the preferred attempt stays pending, the race
    // never checks a timer and never dials the other family.
    let p = v4(1, 80);
    let f = v6(1, 80);
    let mut race = HappyEyeballs::new(AddressList::new(vec![p, f]), None);
    assert_eq!(race.fallback_timeout_ms(), None);
    assert_eq!(race.advance(RaceEvent::Begin), Directive::Dial(Branch::Preferred, p));
    let mut cycles = 0;
    while cycles < 10 {
        assert_eq!(race.advance(RaceEvent::Dial(DialOutcome::Pending)), Directive::Suspend);
        assert_eq!(race.advance(RaceEvent::Resume), Directive::Dial(Branch::Preferred, p));
        cycles += 1;
    }
}

#[test]
fn timer_pending_keeps_both_branches() {
    let p = v4(1, 80);
    let f = v6(1, 80);
    let mut race = HappyEyeballs::new(AddressList::new(vec![p, f]), Some(300));
    assert_eq!(race.advance(RaceEvent::Begin), Directive::Dial(Branch::Preferred, p));
    assert_eq!(race.advance(RaceEvent::Dial(DialOutcome::Pending)), Directive::CheckTimer);
    assert_eq!(race.advance(RaceEvent::TimerPending), Directive::Suspend);
    // Next cycle polls the preferred attempt first: the tie-break.
    assert_eq!(race.advance(RaceEvent::Resume), Directive::Dial(Branch::Preferred, p));
}

#[test]
fn preferred_exhausted_promotes_fallback() {
    let p = v4(1, 80);
    let f = v6(1, 80);
    let mut race = HappyEyeballs::new(AddressList::new(vec![p, f]), Some(300));
    assert_eq!(race.advance(RaceEvent::Begin), Directive::Dial(Branch::Preferred, p));
    // The preferred family fails outright: the fallback dialer is
    // promoted and dialed as the new preferred.
    assert_eq!(
        race.advance(RaceEvent::Dial(DialOutcome::Failed(IoError { code: 111 }))),
        Directive::Dial(Branch::Preferred, f),
    );
    assert_eq!(
        race.advance(RaceEvent::Dial(DialOutcome::Succeeded)),
        Directive::Connected(Branch::Preferred, f),
    );
}

#[test]
fn fallback_failure_is_discarded() {
    // A fallback that exhausts while the preferred attempt is pending
    // is dropped without surfacing its error; the race goes on with
    // the preferred branch alone, and its error wins in the end.
    let p = v4(1, 80);
    let f = v6(1, 80);
    let mut race = HappyEyeballs::new(AddressList::new(vec![p, f]), Some(300));
    assert_eq!(race.advance(RaceEvent::Begin), Directive::Dial(Branch::Preferred, p));
    assert_eq!(race.advance(RaceEvent::Dial(DialOutcome::Pending)), Directive::CheckTimer);
    assert_eq!(race.advance(RaceEvent::TimerFired), Directive::Dial(Branch::Fallback, f));
    assert_eq!(
        race.advance(RaceEvent::Dial(DialOutcome::Failed(IoError { code: 113 }))),
        Directive::Suspend,
    );
    assert_eq!(race.advance(RaceEvent::Resume), Directive::Dial(Branch::Preferred, p));
    assert_eq!(
        race.advance(RaceEvent::Dial(DialOutcome::Failed(IoError { code: 111 }))),
        Directive::Failed(ConnectError::Dial(IoError { code: 111 })),
    );
}

#[test]
fn both_branches_exhausted_surface_promoted_error() {
    let p = v4(1, 80);
    let f = v6(1, 80);
    let mut race = HappyEyeballs::new(AddressList::new(vec![p, f]), Some(300));
    assert_eq!(race.advance(RaceEvent::Begin), Directive::Dial(Branch::Preferred, p));
    assert_eq!(
        race.advance(RaceEvent::Dial(DialOutcome::Failed(IoError { code: 111 }))),
        Directive::Dial(Branch::Preferred, f),
    );
    assert_eq!(
        race.advance(RaceEvent::Dial(DialOutcome::Failed(IoError { code: 112 }))),
        Directive::Failed(ConnectError::Dial(IoError { code: 112 })),
    );
}
