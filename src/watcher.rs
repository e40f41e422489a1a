use vstd::prelude::*;

use std::time::Duration;

use crate::adaptor::DaikinAdaptor;
use crate::configuration::{millis_duration, or_default, Configuration, DEFAULT_REFRESH_INTERVAL_MS};
use crate::snapshot::empty_view;

verus! {

/// The hosts known after a run of discovery events: each host not yet known is added.
pub open spec fn known_after(known: Seq<Seq<char>>, events: Seq<Seq<char>>) -> Seq<Seq<char>>
    decreases events.len(),
{
    if events.len() == 0 {
        known
    } else {
        let k = known_after(known, events.drop_last());
        if k.contains(events.last()) {
            k
        } else {
            k.push(events.last())
        }
    }
}

/// How many adaptors for `h` a run of discovery events creates.
pub open spec fn created_for(known: Seq<Seq<char>>, events: Seq<Seq<char>>, h: Seq<char>) -> nat
    decreases events.len(),
{
    if events.len() == 0 {
        0
    } else {
        let k = known_after(known, events.drop_last());
        created_for(known, events.drop_last(), h) + if !k.contains(events.last())
            && events.last() == h {
            1nat
        } else {
            0nat
        }
    }
}

proof fn lemma_created_bound(known: Seq<Seq<char>>, events: Seq<Seq<char>>, h: Seq<char>)
    ensures
        created_for(known, events, h) + (if known.contains(h) { 1nat } else { 0nat }) <= 1,
        created_for(known, events, h) > 0 || known.contains(h) ==> known_after(known, events).contains(h),
    decreases events.len(),
{
    if events.len() > 0 {
        lemma_created_bound(known, events.drop_last(), h);
        let k = known_after(known, events.drop_last());
        if !k.contains(events.last()) {
            assert(k.push(events.last()).last() == events.last());
            assert forall|x: Seq<char>| k.contains(x) implies k.push(events.last()).contains(x) by {
                let i = choose|i: int| 0 <= i < k.len() && k[i] == x;
                assert(k.push(events.last())[i] == x);
            }
            assert(k.push(events.last()).contains(events.last()) ) by {
                assert(k.push(events.last())[k.len() as int] == events.last());
            }
        }
    }
}

/// However discovery events for `h` arrive, at most one adaptor is ever created for it, and
/// none when it was already known.
pub proof fn discovery_creates_at_most_one(known: Seq<Seq<char>>, events: Seq<Seq<char>>, h: Seq<char>)
    ensures
        created_for(known, events, h) <= 1,
        known.contains(h) ==> created_for(known, events, h) == 0,
{
    lemma_created_bound(known, events, h);
}

/// The known hosts never hold one host twice.
pub proof fn known_hosts_stay_distinct(known: Seq<Seq<char>>, events: Seq<Seq<char>>)
    requires
        known.no_duplicates(),
    ensures
        known_after(known, events).no_duplicates(),
    decreases events.len(),
{
    if events.len() > 0 {
        known_hosts_stay_distinct(known, events.drop_last());
        let k = known_after(known, events.drop_last());
        if !k.contains(events.last()) {
            let k2 = k.push(events.last());
            assert forall|i: int, j: int| 0 <= i < k2.len() && 0 <= j < k2.len() && i != j implies k2[i] != k2[j] by {
                if i < k.len() && j < k.len() {
                } else if i == k.len() {
                    assert(k[j] == k2[j]);
                } else {
                    assert(k[i] == k2[i]);
                }
            }
        }
    }
}

/// Taking events one call at a time, as `on_discovered` does, gives the hosts of the whole run.
pub proof fn discovery_run_step(known: Seq<Seq<char>>, events: Seq<Seq<char>>, h: Seq<char>)
    ensures
        known_after(known, events.push(h)) == known_after(known_after(known, events), seq![h]),
{
    assert(events.push(h).drop_last() == events);
    assert(seq![h].drop_last() =~= Seq::<Seq<char>>::empty());
    assert(known_after(known_after(known, events), seq![h].drop_last()) == known_after(known, events));
}

/// Keeps one adaptor per host: the hosts configured by hand, and those found by discovery.
pub struct DaikinWatcher {
    known: Vec<String>,
    hosts: Option<Vec<String>>,
    interval: Duration,
}

impl DaikinWatcher {
    pub closed spec fn spec_known(&self) -> Seq<Seq<char>> {
        self.known.deep_view()
    }

    pub closed spec fn spec_hosts(&self) -> Option<Seq<Seq<char>>> {
        match self.hosts {
            Some(v) => Some(v.deep_view()),
            None => None,
        }
    }

    pub closed spec fn spec_interval(&self) -> Duration {
        self.interval
    }

    /// No host is known twice.
    pub open spec fn wf(&self) -> bool {
        self.spec_known().no_duplicates()
    }

    /// A watcher over the hosts and the refresh interval of `configuration`.
    pub fn new(configuration: &Configuration) -> (r: DaikinWatcher)
        ensures
            r.wf(),
            r.spec_known() == Seq::<Seq<char>>::empty(),
            r.spec_hosts() == configuration.spec_hosts(),
            r.spec_interval() == millis_duration(
                or_default(configuration.spec_refresh_interval(), DEFAULT_REFRESH_INTERVAL_MS),
            ),
    {
        let known: Vec<String> = Vec::new();
        assert(known.deep_view() =~= Seq::<Seq<char>>::empty());
        DaikinWatcher {
            known,
            hosts: configuration.hosts(),
            interval: configuration.refresh_interval(),
        }
    }

    /// Records that an adaptor runs for `host`.
    fn remember(&mut self, host: String)
        ensures
            final(self).spec_known() == old(self).spec_known().push(host@),
            final(self).spec_hosts() == old(self).spec_hosts(),
            final(self).spec_interval() == old(self).spec_interval(),
    {
        let ghost before = self.known.deep_view();
        self.known.push(host);
        assert(self.known.deep_view() =~= before.push(host@));
    }

    /// `host` already has an adaptor.
    fn is_known(&self, host: &String) -> (r: bool)
        ensures
            r == self.spec_known().contains(host@),
    {
        let mut i: usize = 0;
        while i < self.known.len()
            invariant
                i <= self.known@.len(),
                forall|j: int| 0 <= j < i ==> self.spec_known()[j] != host@,
            decreases self.known@.len() - i,
        {
            if self.known[i] == *host {
                assert(self.spec_known()[i as int] == host@);
                return true;
            }
            i += 1;
        }
        false
    }

    /// The adaptors to start for the hosts configured by hand: one for each entry of the
    /// list, a repeated entry included. All of them count as known from then on.
    pub fn start(&mut self) -> (r: Vec<DaikinAdaptor>)
        requires
            old(self).wf(),
        ensures
            final(self).wf(),
            final(self).spec_hosts() == old(self).spec_hosts(),
            final(self).spec_interval() == old(self).spec_interval(),
            (match old(self).spec_hosts() {
                Some(hs) => {
                    &&& r@.len() == hs.len()
                    &&& forall|i: int| 0 <= i < hs.len() ==> {
                        &&& (#[trigger] r@[i]).spec_host() == hs[i]
                        &&& r@[i].spec_interval() == old(self).spec_interval()
                        &&& r@[i].spec_snapshot() == empty_view()
                    }
                    &&& final(self).spec_known() == known_after(old(self).spec_known(), hs)
                },
                None => r@.len() == 0 && final(self).spec_known() == old(self).spec_known(),
            }),
    {
        let mut started: Vec<DaikinAdaptor> = Vec::new();
        let hosts = match &self.hosts {
            Some(v) => v.clone(),
            None => {
                return started;
            },
        };
        proof {
            broadcast use vstd::std_specs::vec::vec_clone_deep_view_proof;
        }
        let ghost hs = hosts.deep_view();
        let ghost known0 = self.spec_known();
        let mut i: usize = 0;
        while i < hosts.len()
            invariant
                i <= hosts@.len(),
                hs == hosts.deep_view(),
                Some(hs) == self.spec_hosts(),
                self.spec_hosts() == old(self).spec_hosts(),
                self.spec_interval() == old(self).spec_interval(),
                known0 == old(self).spec_known(),
                started@.len() == i,
                forall|j: int| 0 <= j < i ==> {
                    &&& (#[trigger] started@[j]).spec_host() == hs[j]
                    &&& started@[j].spec_interval() == old(self).spec_interval()
                    &&& started@[j].spec_snapshot() == empty_view()
                },
                self.spec_known() == known_after(known0, hs.take(i as int)),
            decreases hosts@.len() - i,
        {
            let host = &hosts[i];
            assert(host@ == hs[i as int]);
            assert(hs.take(i + 1).drop_last() == hs.take(i as int));
            if !self.is_known(host) {
                self.remember(host.clone());
            }
            started.push(DaikinAdaptor::new(host.clone(), self.interval));
            i += 1;
        }
        assert(hs.take(hosts@.len() as int) == hs);
        proof {
            known_hosts_stay_distinct(known0, hs);
        }
        started
    }

    /// Takes a host reported by discovery: the adaptor to start when the host is new, else
    /// `None`. The check and the insertion are one step, so a host gets one adaptor however
    /// often it is reported.
    pub fn on_discovered(&mut self, host: String) -> (r: Option<DaikinAdaptor>)
        requires
            old(self).wf(),
        ensures
            final(self).wf(),
            final(self).spec_known() == known_after(old(self).spec_known(), seq![host@]),
            final(self).spec_hosts() == old(self).spec_hosts(),
            final(self).spec_interval() == old(self).spec_interval(),
            r is Some <==> !old(self).spec_known().contains(host@),
            r matches Some(a) ==> {
                &&& a.spec_host() == host@
                &&& a.spec_interval() == old(self).spec_interval()
                &&& a.spec_snapshot() == empty_view()
            },
    {
        assert(seq![host@].drop_last() =~= Seq::<Seq<char>>::empty());
        assert(known_after(self.spec_known(), seq![host@].drop_last()) == self.spec_known());
        assert(seq![host@].last() == host@);
        proof {
            known_hosts_stay_distinct(self.spec_known(), seq![host@]);
        }
        if self.is_known(&host) {
            None
        } else {
            self.remember(host.clone());
            Some(DaikinAdaptor::new(host, self.interval))
        }
    }
}

} // verus!
