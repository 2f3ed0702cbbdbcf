//! The rate limiter of the http server: for each client address, how many
//! requests it made and when its timer was last set.
use vstd::prelude::*;
use crate::clock::unix_time_now;
use crate::string_map::StringMap;

verus! {

/// What is kept for one address.
#[derive(Clone, Copy, Debug, PartialEq, Eq, Structural)]
pub struct IpRecord {
    /// Requests counted so far.
    pub count: u8,
    /// Seconds since the Unix epoch at which the timer was last set.
    pub last_seen: u64,
}

/// The addresses seen by the server and their request counts.
pub struct IpHash {
    ips: StringMap<IpRecord>,
    /// The count at which an address is refused.
    pub limit: u8,
}

/// Seconds after which a timer runs out.
pub const TIMEOUT_SECS: u64 = 60;

/// Number of clients at which the server stops taking connections.
pub const MAX_CLIENTS: u16 = 1000;

/// Count from which a client is reported as suspicious.
pub const SUSPICIOUS_COUNT: u8 = 80;

/// The count kept for `ip`, or 0 for an address never seen.
pub open spec fn count_of(m: Map<Seq<char>, IpRecord>, ip: Seq<char>) -> u8 {
    if m.dom().contains(ip) {
        m[ip].count
    } else {
        0
    }
}

/// What `insert` makes of the record of `ip`, the time being `now`: a known
/// address under the limit counts one more request; one at the limit has its
/// timer set again; a new address starts with one request and a timer.
pub open spec fn inserted(m: Map<Seq<char>, IpRecord>, ip: Seq<char>, limit: u8, now: u64) -> Map<
    Seq<char>,
    IpRecord,
> {
    if count_of(m, ip) > 0 {
        if m[ip].count >= limit {
            m.insert(ip, IpRecord { count: m[ip].count, last_seen: now })
        } else {
            m.insert(ip, IpRecord { count: (m[ip].count + 1) as u8, last_seen: m[ip].last_seen })
        }
    } else {
        m.insert(ip, IpRecord { count: 1, last_seen: now })
    }
}

/// Whether the timer of `ip` has run out at `now`.
pub open spec fn timer_elapsed(m: Map<Seq<char>, IpRecord>, ip: Seq<char>, now: u64) -> bool {
    m.dom().contains(ip) && now >= m[ip].last_seen + TIMEOUT_SECS
}

/// The records once the timer of `ip` has been looked at: a record whose timer
/// ran out is forgotten, so the address starts counting again.
pub open spec fn expired(m: Map<Seq<char>, IpRecord>, ip: Seq<char>, now: u64) -> Map<
    Seq<char>,
    IpRecord,
> {
    if timer_elapsed(m, ip, now) {
        m.remove(ip)
    } else {
        m
    }
}

/// What the server does with a connection from `ip` at the time `now`, and
/// the records afterwards: too many known clients refuse every connection and
/// change nothing; otherwise a record whose timer ran out is forgotten, an
/// address under the limit is served and counted, and one at the limit is
/// refused and its timer set again.
pub open spec fn admission(m: Map<Seq<char>, IpRecord>, limit: u8, ip: Seq<char>, now: u64) -> (
    Admission,
    Map<Seq<char>, IpRecord>,
) {
    let fresh = expired(m, ip, now);
    let v = count_of(fresh, ip);
    if m.dom().len() >= MAX_CLIENTS {
        (Admission::Overloaded, m)
    } else if v < limit {
        (
            Admission::Served {
                banned: v + 1 >= limit,
                suspicious: v + 1 < limit && v >= SUSPICIOUS_COUNT,
            },
            inserted(fresh, ip, limit, now),
        )
    } else {
        (Admission::Refused, inserted(fresh, ip, limit, now))
    }
}

/// Every address counts at most `limit` requests.
pub open spec fn counts_within(m: Map<Seq<char>, IpRecord>, limit: u8) -> bool {
    forall|k: Seq<char>| #[trigger] m.dom().contains(k) ==> m[k].count <= limit
}

/// No address ever counts more requests than the limit: taking a connection
/// keeps every count at or under it.
pub proof fn lemma_admission_keeps_counts_within_limit(
    m: Map<Seq<char>, IpRecord>,
    limit: u8,
    ip: Seq<char>,
    now: u64,
)
    requires
        1 <= limit,
        counts_within(m, limit),
    ensures
        counts_within(admission(m, limit, ip, now).1, limit),
{
    let fresh = expired(m, ip, now);
    assert(counts_within(fresh, limit));
}

/// A served request is counted once: the count of its address, once an
/// elapsed timer has been dropped, goes up by one.
pub proof fn lemma_served_request_counts_once(
    m: Map<Seq<char>, IpRecord>,
    limit: u8,
    ip: Seq<char>,
    now: u64,
)
    requires
        admission(m, limit, ip, now).0 is Served,
    ensures
        count_of(admission(m, limit, ip, now).1, ip) == count_of(expired(m, ip, now), ip) + 1,
{
}

/// An address that was refused is not served again before a full minute has
/// passed since that refusal: the refusal set its timer again.
pub proof fn lemma_refusal_lasts_a_minute(
    m: Map<Seq<char>, IpRecord>,
    limit: u8,
    ip: Seq<char>,
    refused_at: u64,
    later: u64,
)
    requires
        admission(m, limit, ip, refused_at).0 == Admission::Refused,
        later < refused_at + TIMEOUT_SECS,
    ensures
        !(admission(admission(m, limit, ip, refused_at).1, limit, ip, later).0 is Served),
{
    let m2 = admission(m, limit, ip, refused_at).1;
    assert(m2.dom().contains(ip));
    assert(m2[ip].last_seen == refused_at);
    assert(!timer_elapsed(m2, ip, later));
}

/// Once the timer of an address has run out, the address is served again,
/// unless the server is full.
pub proof fn lemma_elapsed_timer_serves_again(
    m: Map<Seq<char>, IpRecord>,
    limit: u8,
    ip: Seq<char>,
    now: u64,
)
    requires
        1 <= limit,
        m.dom().len() < MAX_CLIENTS,
        timer_elapsed(m, ip, now),
    ensures
        admission(m, limit, ip, now).0 is Served,
        count_of(admission(m, limit, ip, now).1, ip) == 1,
{
    assert(!expired(m, ip, now).dom().contains(ip));
}

/// A full server takes no connection: with `MAX_CLIENTS` addresses known,
/// every connection is refused as overloaded and nothing changes, whatever
/// the address, even one already known.
pub proof fn lemma_full_table_refuses_everyone(
    m: Map<Seq<char>, IpRecord>,
    limit: u8,
    ip: Seq<char>,
    now: u64,
)
    requires
        m.dom().len() >= MAX_CLIENTS,
    ensures
        admission(m, limit, ip, now).0 == Admission::Overloaded,
        admission(m, limit, ip, now).1 == m,
        admission(admission(m, limit, ip, now).1, limit, ip, now).0 == Admission::Overloaded,
{
}

/// The table never holds more than `MAX_CLIENTS` addresses: a connection
/// adds at most one address, and only to a table that is not full.
pub proof fn lemma_table_stays_within_max_clients(
    m: Map<Seq<char>, IpRecord>,
    limit: u8,
    ip: Seq<char>,
    now: u64,
)
    requires
        m.dom().finite(),
        m.dom().len() <= MAX_CLIENTS,
    ensures
        admission(m, limit, ip, now).1.dom().finite(),
        admission(m, limit, ip, now).1.dom().len() <= MAX_CLIENTS,
{
    let fresh = expired(m, ip, now);
    if m.dom().len() < MAX_CLIENTS {
        if timer_elapsed(m, ip, now) {
            assert(fresh.dom() == m.dom().remove(ip));
        }
        assert(fresh.dom().finite());
        assert(fresh.dom().len() <= m.dom().len());
        let after = inserted(fresh, ip, limit, now);
        assert(after.dom() == fresh.dom().insert(ip));
    }
}

/// What the server does with a new connection.
#[derive(Clone, Copy, Debug, PartialEq, Eq, Structural)]
pub enum Admission {
    /// Too many clients are known: the connection is not taken.
    Overloaded,
    /// The address reached the limit: the request is ignored.
    Refused,
    /// The request is served.  `banned` tells that it was the last one the
    /// address may make before its timer runs out; `suspicious` that the
    /// address came close to the limit.
    Served { banned: bool, suspicious: bool },
}

impl IpHash {
    pub closed spec fn view(&self) -> Map<Seq<char>, IpRecord> {
        self.ips@
    }

    /// The value of the field `limit`.
    pub closed spec fn spec_limit(&self) -> u8 {
        self.limit
    }

    /// An empty table whose limit is 99.
    pub fn new() -> (r: Self)
        ensures
            r@ == Map::<Seq<char>, IpRecord>::empty(),
            r@.dom().finite(),
            r.spec_limit() == 99,
    {
        IpHash { ips: StringMap::new(), limit: 99 }
    }

    /// Counts one request from `ip`, reading the time from the clock.
    pub fn insert(&mut self, ip: String)
        ensures
            final(self).spec_limit() == old(self).spec_limit(),
            final(self)@.dom().finite(),
            exists|now: u64| final(self)@ == inserted(old(self)@, ip@, old(self).spec_limit(), now),
    {
        let now = unix_time_now();
        self.insert_at(ip, now);
    }

    /// Counts one request from `ip` at the time `now`.
    pub fn insert_at(&mut self, ip: String, now: u64)
        ensures
            final(self).spec_limit() == old(self).spec_limit(),
            final(self)@.dom().finite(),
            final(self)@ == inserted(old(self)@, ip@, old(self).spec_limit(), now),
    {
        if self.get_value(&ip) > 0 {
            let mut hash_value = self.get_hash(&ip);
            if hash_value.count >= self.limit {
                self.update_date_to_now_from_array(&mut hash_value, now);
            } else {
                self.increase_value_from_array(&mut hash_value);
            }
            self.ips.insert(ip, hash_value);
        } else {
            self.create_new_array_to_ip(ip, now);
        }
    }

    /// The number of addresses known, or 1000 when it does not fit in a `u16`.
    pub fn length(&self) -> (r: u16)
        ensures
            self@.dom().finite(),
            r == if self@.dom().len() <= u16::MAX {
                self@.dom().len() as u16
            } else {
                1000u16
            },
    {
        let length: usize = self.ips.len();
        if length <= 65535 {
            length as u16
        } else {
            1000
        }
    }

    /// The count of `ip`, or 0 for an address never seen.
    pub fn get_value(&self, ip: &String) -> (r: u8)
        ensures
            r == count_of(self@, ip@),
    {
        match self.ips.get(ip) {
            Some(record) => record.count,
            None => 0,
        }
    }

    /// The record of `ip`, if it is known.
    pub fn record(&self, ip: &String) -> (r: Option<IpRecord>)
        ensures
            r == if self@.dom().contains(ip@) {
                Some(self@[ip@])
            } else {
                None::<IpRecord>
            },
    {
        match self.ips.get(ip) {
            Some(record) => Some(*record),
            None => None,
        }
    }

    /// Forgets `ip`.
    pub fn forget(&mut self, ip: &String)
        ensures
            final(self).spec_limit() == old(self).spec_limit(),
            final(self)@.dom().finite(),
            final(self)@ == old(self)@.remove(ip@),
    {
        self.ips.remove(ip);
    }

    /// The record of `ip`, or a zero record for an address never seen.
    fn get_hash(&self, ip: &String) -> (r: IpRecord)
        ensures
            r == if self@.dom().contains(ip@) {
                self@[ip@]
            } else {
                IpRecord { count: 0, last_seen: 0 }
            },
    {
        match self.ips.get(ip) {
            Some(record) => *record,
            None => IpRecord { count: 0, last_seen: 0 },
        }
    }

    /// Sets the timer of the record to `now`.
    fn update_date_to_now_from_array(&self, array: &mut IpRecord, now: u64)
        ensures
            *final(array) == (IpRecord { count: old(array).count, last_seen: now }),
    {
        array.last_seen = now;
    }

    /// Counts one more request in the record.
    fn increase_value_from_array(&self, array: &mut IpRecord)
        requires
            old(array).count < 255,
        ensures
            *final(array) == (IpRecord {
                count: (old(array).count + 1) as u8,
                last_seen: old(array).last_seen,
            }),
    {
        array.count = array.count + 1;
    }

    /// Starts the record of a new address: one request, timer set to `now`.
    fn create_new_array_to_ip(&mut self, ip: String, now: u64)
        ensures
            final(self).spec_limit() == old(self).spec_limit(),
            final(self)@.dom().finite(),
            final(self)@ == old(self)@.insert(ip@, IpRecord { count: 1, last_seen: now }),
    {
        let mut array = IpRecord { count: 1, last_seen: 0 };
        self.update_date_to_now_from_array(&mut array, now);
        self.ips.insert(ip, array);
    }

    /// Decides what to do with a connection from `ip` at the time `now`, and
    /// counts it: too many known clients refuse every connection; an address
    /// whose timer ran out starts counting again; an address under the limit
    /// is served and counted; one at the limit is refused and its timer set
    /// again, so it waits a full minute from its last attempt.
    pub fn admit_client(&mut self, ip: String, now: u64) -> (r: Admission)
        ensures
            final(self).spec_limit() == old(self).spec_limit(),
            final(self)@.dom().finite(),
            (r, final(self)@) == admission(old(self)@, old(self).spec_limit(), ip@, now),
    {
        if self.length() >= MAX_CLIENTS {
            return Admission::Overloaded;
        }
        match self.record(&ip) {
            Some(record) => {
                if now >= TIMEOUT_SECS && record.last_seen <= now - TIMEOUT_SECS {
                    self.forget(&ip);
                }
            },
            None => {},
        }
        let timeout_value = self.get_value(&ip);
        if timeout_value < self.limit {
            let banned = timeout_value + 1 >= self.limit;
            let suspicious = !banned && timeout_value >= SUSPICIOUS_COUNT;
            self.insert_at(ip, now);
            Admission::Served { banned, suspicious }
        } else {
            self.insert_at(ip, now);
            Admission::Refused
        }
    }
}

} // verus!
