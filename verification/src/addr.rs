//! Socket addresses and the ordered address list a dialer walks.
//!
//! An address is held as plain values: the numeric IP (v4 or v6) and
//! the port. The list keeps every resolved address and a cursor; an
//! address in front of the cursor has been handed out for a dial
//! attempt and is never handed out again.

use vstd::prelude::*;

verus! {

/// An IP address as its numeric value, tagged with its family.
#[derive(Clone, Copy, PartialEq, Eq, Structural, Debug)]
pub enum HostIp {
    V4(u32),
    V6(u128),
}

impl HostIp {
    /// True when the address belongs to the IPv6 family.
    pub open spec fn spec_is_v6(self) -> bool {
        matches!(self, HostIp::V6(_))
    }

    pub fn is_v6(&self) -> (r: bool)
        ensures
            r == self.spec_is_v6(),
    {
        matches!(self, HostIp::V6(_))
    }
}

/// A socket address: an IP and a port.
#[derive(Clone, Copy, PartialEq, Eq, Structural, Debug)]
pub struct SockAddr {
    pub ip: HostIp,
    pub port: u16,
}

/// The addresses of `s` that share the family of its first address,
/// in order. Empty when `s` is empty.
pub open spec fn preferred_part(s: Seq<SockAddr>) -> Seq<SockAddr> {
    s.filter(|a: SockAddr| a.ip.spec_is_v6() == s[0].ip.spec_is_v6())
}

/// The addresses of `s` of the other family than its first address,
/// in order. Empty when `s` is empty or single-family.
pub open spec fn fallback_part(s: Seq<SockAddr>) -> Seq<SockAddr> {
    s.filter(|a: SockAddr| a.ip.spec_is_v6() != s[0].ip.spec_is_v6())
}

/// An ordered list of socket addresses with a cursor. Addresses behind
/// the cursor are still to be attempted; the cursor only moves forward,
/// so no address is ever handed out twice.
pub struct AddressList {
    addrs: Vec<SockAddr>,
    cursor: usize,
}

impl AddressList {
    /// The cursor never runs past the end of the list.
    pub closed spec fn wf(self) -> bool {
        self.cursor <= self.addrs@.len()
    }

    /// Every address the list was built from, in order.
    pub closed spec fn all(self) -> Seq<SockAddr> {
        self.addrs@
    }

    /// The addresses already handed out, in the order they were handed out.
    pub closed spec fn attempted(self) -> Seq<SockAddr> {
        self.addrs@.take(self.cursor as int)
    }

    /// The addresses not yet handed out, in order.
    pub closed spec fn remaining(self) -> Seq<SockAddr> {
        self.addrs@.skip(self.cursor as int)
    }

    /// Wrap a resolved batch of addresses; nothing is attempted yet.
    pub fn new(addrs: Vec<SockAddr>) -> (r: AddressList)
        ensures
            r.wf(),
            r.remaining() == addrs@,
            r.attempted() == Seq::<SockAddr>::empty(),
            r.all() == addrs@,
    {
        let r = AddressList { addrs, cursor: 0 };
        proof {
            assert(r.remaining() =~= r.addrs@);
            assert(r.attempted() =~= Seq::<SockAddr>::empty());
        }
        r
    }

    /// Hand out the next unattempted address, advancing the cursor;
    /// `None` once the list is exhausted.
    pub fn next(&mut self) -> (r: Option<SockAddr>)
        requires
            old(self).wf(),
        ensures
            final(self).wf(),
            final(self).all() == old(self).all(),
            old(self).remaining().len() == 0 ==> {
                &&& r is None
                &&& *final(self) == *old(self)
            },
            old(self).remaining().len() > 0 ==> {
                &&& r == Some(old(self).remaining()[0])
                &&& final(self).remaining() == old(self).remaining().skip(1)
                &&& final(self).attempted() == old(self).attempted().push(
                    old(self).remaining()[0],
                )
            },
    {
        if self.cursor < self.addrs.len() {
            let a = self.addrs[self.cursor];
            self.cursor = self.cursor + 1;
            proof {
                assert(old(self).remaining()[0] == a);
                assert(self.remaining() =~= old(self).remaining().skip(1));
                assert(self.attempted() =~= old(self).attempted().push(a));
            }
            Some(a)
        } else {
            None
        }
    }

    /// True when every address has been handed out.
    pub fn is_empty(&self) -> (r: bool)
        requires
            self.wf(),
        ensures
            r == (self.remaining().len() == 0),
    {
        self.cursor == self.addrs.len()
    }

    /// The family of the first remaining address defines "preferred":
    /// addresses of that family go to the first list, the rest to the
    /// second, each keeping its relative order. An empty or
    /// single-family list yields an empty fallback.
    pub fn split_by_preference(self) -> (r: (AddressList, AddressList))
        requires
            self.wf(),
        ensures
            r.0.wf(),
            r.1.wf(),
            r.0.attempted() == Seq::<SockAddr>::empty(),
            r.1.attempted() == Seq::<SockAddr>::empty(),
            r.0.remaining() == preferred_part(self.remaining()),
            r.1.remaining() == fallback_part(self.remaining()),
    {
        proof {
            if self.remaining().len() == 0 {
                reveal(Seq::filter);
                assert(preferred_part(self.remaining()) =~= Seq::<SockAddr>::empty());
                assert(fallback_part(self.remaining()) =~= Seq::<SockAddr>::empty());
            }
        }
        let mut preferred: Vec<SockAddr> = Vec::new();
        let mut fallback: Vec<SockAddr> = Vec::new();
        if self.cursor < self.addrs.len() {
            let prefer_v6 = self.addrs[self.cursor].ip.is_v6();
            let ghost rem = self.remaining();
            let ghost keep = |a: SockAddr| a.ip.spec_is_v6() == rem[0].ip.spec_is_v6();
            let ghost drop_pred = |a: SockAddr| a.ip.spec_is_v6() != rem[0].ip.spec_is_v6();
            let mut i: usize = self.cursor;
            while i < self.addrs.len()
                invariant
                    self.cursor <= i <= self.addrs@.len(),
                    rem == self.addrs@.skip(self.cursor as int),
                    prefer_v6 == rem[0].ip.spec_is_v6(),
                    keep == (|a: SockAddr| a.ip.spec_is_v6() == rem[0].ip.spec_is_v6()),
                    drop_pred == (|a: SockAddr| a.ip.spec_is_v6() != rem[0].ip.spec_is_v6()),
                    preferred@ == rem.take(i - self.cursor).filter(keep),
                    fallback@ == rem.take(i - self.cursor).filter(drop_pred),
                decreases self.addrs@.len() - i,
            {
                let a = self.addrs[i];
                proof {
                    reveal(Seq::filter);
                    assert(rem.take(i + 1 - self.cursor).drop_last() =~= rem.take(
                        i - self.cursor,
                    ));
                    assert(rem.take(i + 1 - self.cursor).last() == a);
                }
                if a.ip.is_v6() == prefer_v6 {
                    preferred.push(a);
                } else {
                    fallback.push(a);
                }
                i = i + 1;
            }
            proof {
                assert(rem.take(i - self.cursor) =~= rem);
                assert(preferred@ == preferred_part(rem));
                assert(fallback@ == fallback_part(rem));
            }
        }
        let r0 = AddressList::new(preferred);
        let r1 = AddressList::new(fallback);
        (r0, r1)
    }
}

} // verus!
