use vstd::prelude::*;

verus! {

/// An IPv4 address, by its four octets.
#[derive(Clone, Copy, Debug, PartialEq, Eq, Structural)]
pub struct Ipv4 {
    pub a: u8,
    pub b: u8,
    pub c: u8,
    pub d: u8,
}

/// The host side of one VM's network: its tap device (by number) and the
/// addresses of the host end and the guest end.
#[derive(Clone, Copy, Debug, PartialEq, Eq, Structural)]
pub struct NetworkLease {
    pub tap: u8,
    pub host_ip: Ipv4,
    pub host_netmask: Ipv4,
    pub guest_ip: Ipv4,
}

/// The port the in-guest agent listens on.
pub const AGENT_PORT: u16 = 50051;

/// The most leases a pool can hand out.
pub const MAX_LEASES: usize = 256;

/// The lease of slot `i`: tap `i`, host `172.29.i.1`, guest `172.29.i.2`, mask
/// `255.255.0.0`. Slot 0 is the fixed triple of a single-VM host.
pub open spec fn lease_of(i: u8) -> NetworkLease {
    NetworkLease {
        tap: i,
        host_ip: Ipv4 { a: 172, b: 29, c: i, d: 1 },
        host_netmask: Ipv4 { a: 255, b: 255, c: 0, d: 0 },
        guest_ip: Ipv4 { a: 172, b: 29, c: i, d: 2 },
    }
}

/// Two leases share no tap and no address.
pub open spec fn disjoint(x: NetworkLease, y: NetworkLease) -> bool {
    &&& x.tap != y.tap
    &&& x.host_ip != y.host_ip
    &&& x.guest_ip != y.guest_ip
    &&& x.host_ip != y.guest_ip
    &&& x.guest_ip != y.host_ip
}

/// The character of a decimal digit.
pub open spec fn digit_char(d: nat) -> char {
    if d == 0 {
        '0'
    } else if d == 1 {
        '1'
    } else if d == 2 {
        '2'
    } else if d == 3 {
        '3'
    } else if d == 4 {
        '4'
    } else if d == 5 {
        '5'
    } else if d == 6 {
        '6'
    } else if d == 7 {
        '7'
    } else if d == 8 {
        '8'
    } else {
        '9'
    }
}

/// The decimal digits of `n`, without leading zeros.
pub open spec fn decimal(n: nat) -> Seq<char>
    decreases n,
{
    if n < 10 {
        seq![digit_char(n)]
    } else {
        decimal(n / 10).push(digit_char(n % 10))
    }
}

/// The name of tap device number `i`: `"tap"` and `i` in decimal.
pub open spec fn tap_name_of(i: u8) -> Seq<char> {
    seq!['t', 'a', 'p'] + decimal(i as nat)
}

fn digit(d: u8) -> (r: &'static str)
    requires
        d < 10,
    ensures
        r@ =~= seq![digit_char(d as nat)],
{
    match d {
        0 => {
            proof {
                reveal_strlit("0");
            }
            "0"
        },
        1 => {
            proof {
                reveal_strlit("1");
            }
            "1"
        },
        2 => {
            proof {
                reveal_strlit("2");
            }
            "2"
        },
        3 => {
            proof {
                reveal_strlit("3");
            }
            "3"
        },
        4 => {
            proof {
                reveal_strlit("4");
            }
            "4"
        },
        5 => {
            proof {
                reveal_strlit("5");
            }
            "5"
        },
        6 => {
            proof {
                reveal_strlit("6");
            }
            "6"
        },
        7 => {
            proof {
                reveal_strlit("7");
            }
            "7"
        },
        8 => {
            proof {
                reveal_strlit("8");
            }
            "8"
        },
        _ => {
            proof {
                reveal_strlit("9");
            }
            "9"
        },
    }
}

/// The name of tap device number `i`, such as `"tap0"` or `"tap255"`.
pub fn tap_name(i: u8) -> (r: String)
    ensures
        r@ == tap_name_of(i),
{
    let mut s = String::from_str("tap");
    proof {
        reveal_strlit("tap");
    }
    let ghost start = s@;
    assert(start =~= seq!['t', 'a', 'p']);
    if i >= 100 {
        s.append(digit(i / 100));
        s.append(digit((i / 10) % 10));
        s.append(digit(i % 10));
        assert((i / 10) / 10 == i / 100);
        assert(decimal((i / 100) as nat) == seq![digit_char((i / 100) as nat)]);
        assert(decimal((i / 10) as nat) == decimal((i / 100) as nat).push(
            digit_char(((i / 10) % 10) as nat),
        ));
        assert(decimal(i as nat) == decimal((i / 10) as nat).push(digit_char((i % 10) as nat)));
        assert(s@ =~= start + decimal(i as nat));
    } else if i >= 10 {
        s.append(digit(i / 10));
        s.append(digit(i % 10));
        assert(decimal((i / 10) as nat) == seq![digit_char((i / 10) as nat)]);
        assert(decimal(i as nat) == decimal((i / 10) as nat).push(digit_char((i % 10) as nat)));
        assert(s@ =~= start + decimal(i as nat));
    } else {
        s.append(digit(i));
        assert(s@ =~= start + decimal(i as nat));
    }
    s
}

/// The lease of a slot.
pub fn lease(i: u8) -> (r: NetworkLease)
    ensures
        r == lease_of(i),
{
    NetworkLease {
        tap: i,
        host_ip: Ipv4 { a: 172, b: 29, c: i, d: 1 },
        host_netmask: Ipv4 { a: 255, b: 255, c: 0, d: 0 },
        guest_ip: Ipv4 { a: 172, b: 29, c: i, d: 2 },
    }
}

/// The leases of two different slots are disjoint, and so are the leases held
/// by any two requests that run at once.
pub proof fn lemma_leases_disjoint(i: u8, j: u8)
    requires
        i != j,
    ensures
        disjoint(lease_of(i), lease_of(j)),
{
}

/// The slots of a host, each free or held by one running request.
#[derive(Debug)]
pub struct LeasePool {
    in_use: Vec<bool>,
}

impl View for LeasePool {
    type V = Seq<bool>;

    /// Whether each slot is held.
    closed spec fn view(&self) -> Seq<bool> {
        self.in_use@
    }
}

impl LeasePool {
    pub open spec fn wf(&self) -> bool {
        0 < self@.len() <= MAX_LEASES
    }

    /// The slots held now.
    pub open spec fn held(&self) -> Set<u8> {
        Set::new(|i: u8| (i as int) < self@.len() && self@[i as int])
    }

    /// A pool of `capacity` free slots.
    pub fn new(capacity: usize) -> (r: Self)
        requires
            0 < capacity <= MAX_LEASES,
        ensures
            r.wf(),
            r@ == Seq::new(capacity as nat, |i: int| false),
    {
        let mut in_use: Vec<bool> = Vec::new();
        let mut i: usize = 0;
        while i < capacity
            invariant
                i <= capacity,
                in_use@ == Seq::new(i as nat, |j: int| false),
            decreases capacity - i,
        {
            in_use.push(false);
            i = i + 1;
        }
        let r = LeasePool { in_use };
        assert(r@ == in_use@);
        r
    }

    /// Takes the first free slot and gives its lease; `None` when every slot is
    /// held, in which case the pool is unchanged.
    pub fn acquire(&mut self) -> (r: Option<NetworkLease>)
        requires
            old(self).wf(),
        ensures
            final(self).wf(),
            r is None <==> forall|i: int| 0 <= i < old(self)@.len() ==> old(self)@[i],
            r is None ==> final(self)@ == old(self)@,
            r matches Some(l) ==> {
                &&& (l.tap as int) < old(self)@.len()
                &&& !old(self)@[l.tap as int]
                &&& forall|i: int| 0 <= i < l.tap ==> old(self)@[i]
                &&& l == lease_of(l.tap)
                &&& final(self)@ == old(self)@.update(l.tap as int, true)
            },
    {
        let mut i: usize = 0;
        while i < self.in_use.len()
            invariant
                self.in_use@ == old(self).in_use@,
                i <= self.in_use@.len() <= MAX_LEASES,
                forall|j: int| 0 <= j < i ==> self.in_use@[j],
            decreases self.in_use@.len() - i,
        {
            if !self.in_use[i] {
                assert(old(self)@[i as int] == false);
                self.in_use.set(i, true);
                return Some(lease(i as u8));
            }
            i = i + 1;
        }
        None
    }

    /// Gives slot `tap` back.
    pub fn release(&mut self, tap: u8)
        requires
            old(self).wf(),
            (tap as int) < old(self)@.len(),
        ensures
            final(self).wf(),
            final(self)@ == old(self)@.update(tap as int, false),
    {
        self.in_use.set(tap as usize, false);
    }
}

/// A lease handed out is disjoint from every lease still held.
pub proof fn lemma_acquired_lease_is_disjoint(pool: LeasePool, l: NetworkLease, other: u8)
    requires
        pool.wf(),
        (l.tap as int) < pool@.len(),
        !pool@[l.tap as int],
        l == lease_of(l.tap),
        pool.held().contains(other),
    ensures
        disjoint(l, lease_of(other)),
{
    lemma_leases_disjoint(l.tap, other);
}

} // verus!
