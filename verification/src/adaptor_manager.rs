//! Registry of the LLM adaptor processes and their lifecycle status.

use std::collections::HashMap;
use vstd::prelude::*;

use crate::protocol::AdaptorStatus;

verus! {

/// How an adaptor process is launched.
#[derive(Debug, Clone)]
pub struct AdaptorConfig {
    pub id: String,
    pub command: String,
    pub args: Vec<String>,
    pub env: HashMap<String, String>,
}

/// A registered adaptor and the state of its process.
#[derive(Debug)]
struct RunningAdaptor {
    config: AdaptorConfig,
    status: AdaptorStatus,
    pid: Option<u32>,
}

/// Process id recorded for an adaptor that the registry marks as started.
pub const SIMULATED_PID: u32 = 12345;

/// What the registry knows about one adaptor: its launch settings and its process.
pub struct AdaptorEntry {
    pub command: Seq<char>,
    pub args: Seq<Seq<char>>,
    pub env: Map<String, String>,
    pub status: AdaptorStatus,
    pub pid: Option<u32>,
}

/// The entry of an adaptor that has just been started: no launch settings yet,
/// running under the recorded process id.
pub open spec fn started_entry() -> AdaptorEntry {
    AdaptorEntry {
        command: Seq::empty(),
        args: Seq::empty(),
        env: Map::empty(),
        status: AdaptorStatus::Running,
        pid: Some(SIMULATED_PID),
    }
}

/// The entry `e` after its process has been stopped; its launch settings stay.
pub open spec fn stopped_entry(e: AdaptorEntry) -> AdaptorEntry {
    AdaptorEntry { status: AdaptorStatus::Stopped, pid: None, ..e }
}

/// Whether an adaptor in status `s` is running or on its way there.
pub open spec fn is_active(s: AdaptorStatus) -> bool {
    s == AdaptorStatus::Running || s == AdaptorStatus::Starting
}

/// The status reported for `id`: its recorded status, or `Stopped` if unknown.
pub open spec fn status_of(m: Map<Seq<char>, AdaptorEntry>, id: Seq<char>) -> AdaptorStatus {
    if m.contains_key(id) {
        m[id].status
    } else {
        AdaptorStatus::Stopped
    }
}

/// The registry after a start request for `id`: unchanged if the adaptor is
/// already active, otherwise `id` is recorded as running.
pub open spec fn after_start(m: Map<Seq<char>, AdaptorEntry>, id: Seq<char>) -> Map<
    Seq<char>,
    AdaptorEntry,
> {
    if m.contains_key(id) && is_active(m[id].status) {
        m
    } else {
        m.insert(id, started_entry())
    }
}

/// The registry after a stop request for `id`: a known adaptor becomes stopped,
/// an unknown id changes nothing.
pub open spec fn after_stop(m: Map<Seq<char>, AdaptorEntry>, id: Seq<char>) -> Map<
    Seq<char>,
    AdaptorEntry,
> {
    if m.contains_key(id) {
        m.insert(id, stopped_entry(m[id]))
    } else {
        m
    }
}

/// The registry after every adaptor has been stopped.
pub open spec fn after_stop_all(m: Map<Seq<char>, AdaptorEntry>) -> Map<Seq<char>, AdaptorEntry> {
    Map::new(|k: Seq<char>| m.contains_key(k), |k: Seq<char>| stopped_entry(m[k]))
}

/// The ids of the adaptors that are running.
pub open spec fn running_ids(m: Map<Seq<char>, AdaptorEntry>) -> Set<Seq<char>> {
    m.dom().filter(|k: Seq<char>| m[k].status == AdaptorStatus::Running)
}

/// The character sequences of a list of strings.
pub open spec fn string_views(v: Seq<String>) -> Seq<Seq<char>> {
    v.map_values(|s: String| s@)
}

/// The adaptor manager.
pub struct AdaptorManager {
    adaptors: Vec<RunningAdaptor>,
    table: Ghost<Map<Seq<char>, AdaptorEntry>>,
}

impl View for AdaptorManager {
    type V = Map<Seq<char>, AdaptorEntry>;

    closed spec fn view(&self) -> Map<Seq<char>, AdaptorEntry> {
        self.table@
    }
}

spec fn entry_of(a: RunningAdaptor) -> AdaptorEntry {
    AdaptorEntry {
        command: a.config.command@,
        args: string_views(a.config.args@),
        env: a.config.env@,
        status: a.status,
        pid: a.pid,
    }
}

impl AdaptorManager {
    spec fn id_at(&self, i: int) -> Seq<char> {
        self.adaptors@[i].config.id@
    }

    /// Well-formedness: every adaptor is recorded once, under its own id.
    pub closed spec fn wf(&self) -> bool {
        &&& forall|i: int, j: int|
            0 <= i < j < self.adaptors@.len() ==> #[trigger] self.id_at(i) != #[trigger] self.id_at(
                j,
            )
        &&& forall|i: int|
            0 <= i < self.adaptors@.len() ==> self.table@.contains_key(#[trigger] self.id_at(i))
                && self.table@[self.id_at(i)] == entry_of(self.adaptors@[i])
        &&& forall|k: Seq<char>|
            #[trigger] self.table@.contains_key(k) ==> exists|i: int|
                0 <= i < self.adaptors@.len() && #[trigger] self.id_at(i) == k
    }

    /// Creates an empty manager.
    pub fn new() -> (r: AdaptorManager)
        ensures
            r.wf(),
            r@ == Map::<Seq<char>, AdaptorEntry>::empty(),
    {
        AdaptorManager { adaptors: Vec::new(), table: Ghost(Map::empty()) }
    }

    /// The position of the adaptor recorded under `key`.
    fn find(&self, key: &String) -> (r: Option<usize>)
        requires
            self.wf(),
        ensures
            match r {
                Some(i) => i < self.adaptors@.len() && self.id_at(i as int) == key@,
                None => !self@.contains_key(key@),
            },
    {
        let mut i: usize = 0;
        while i < self.adaptors.len()
            invariant
                i <= self.adaptors@.len(),
                forall|t: int| 0 <= t < i ==> self.id_at(t) != key@,
            decreases self.adaptors@.len() - i,
        {
            if self.adaptors[i].config.id == *key {
                return Some(i);
            }
            i = i + 1;
        }
        None
    }

    /// Starts the adaptor `adaptor_id`, unless it is already running or starting.
    pub fn start_adaptor(&mut self, adaptor_id: &str) -> (r: Result<(), String>)
        requires
            old(self).wf(),
        ensures
            final(self).wf(),
            r is Ok,
            final(self)@ == after_start(old(self)@, adaptor_id@),
    {
        let key = adaptor_id.to_owned();
        let found = self.find(&key);
        let fresh = RunningAdaptor {
            config: AdaptorConfig {
                id: adaptor_id.to_owned(),
                command: String::new(),
                args: Vec::new(),
                env: HashMap::new(),
            },
            status: AdaptorStatus::Running,
            pid: Some(SIMULATED_PID),
        };
        assert(string_views(fresh.config.args@) =~= Seq::<Seq<char>>::empty());
        match found {
            Some(i) => {
                let status = self.adaptors[i].status;
                if status == AdaptorStatus::Running || status == AdaptorStatus::Starting {
                    return Ok(());
                }
                let ghost old_adaptors = self.adaptors@;
                self.adaptors.set(i, fresh);
                self.table = Ghost(self.table@.insert(key@, started_entry()));
                proof {
                    assert forall|t: int| 0 <= t < self.adaptors@.len() implies self.id_at(t)
                        == old_adaptors[t].config.id@ by {}
                    assert forall|t: int|
                        0 <= t < self.adaptors@.len() implies self.table@.contains_key(
                        #[trigger] self.id_at(t),
                    ) && self.table@[self.id_at(t)] == entry_of(self.adaptors@[t]) by {
                        if t != i {
                            assert(old(self).id_at(t) != old(self).id_at(i as int));
                        }
                    }
                    assert forall|a: int, b: int|
                        0 <= a < b < self.adaptors@.len() implies #[trigger] self.id_at(a)
                        != #[trigger] self.id_at(b) by {
                        assert(old(self).id_at(a) != old(self).id_at(b));
                    }
                    assert forall|k: Seq<char>| #[trigger]
                        self.table@.contains_key(k) implies exists|t: int|
                        0 <= t < self.adaptors@.len() && #[trigger] self.id_at(t) == k by {
                        if k != key@ {
                            let t = choose|t: int|
                                0 <= t < old_adaptors.len() && old_adaptors[t].config.id@ == k;
                            assert(self.id_at(t) == k);
                        } else {
                            assert(self.id_at(i as int) == k);
                        }
                    }
                }
            },
            None => {
                let ghost old_adaptors = self.adaptors@;
                self.adaptors.push(fresh);
                self.table = Ghost(self.table@.insert(key@, started_entry()));
                proof {
                    let n = old_adaptors.len() as int;
                    assert forall|t: int| 0 <= t < n implies self.id_at(t)
                        == old_adaptors[t].config.id@ by {}
                    assert(self.id_at(n) == key@);
                    assert forall|t: int|
                        0 <= t < self.adaptors@.len() implies self.table@.contains_key(
                        #[trigger] self.id_at(t),
                    ) && self.table@[self.id_at(t)] == entry_of(self.adaptors@[t]) by {
                        if t < n {
                            assert(old(self).table@.contains_key(old(self).id_at(t)));
                        }
                    }
                    assert forall|a: int, b: int|
                        0 <= a < b < self.adaptors@.len() implies #[trigger] self.id_at(a)
                        != #[trigger] self.id_at(b) by {
                        if b == n {
                            assert(old(self).table@.contains_key(old(self).id_at(a)));
                        } else {
                            assert(old(self).id_at(a) != old(self).id_at(b));
                        }
                    }
                    assert forall|k: Seq<char>| #[trigger]
                        self.table@.contains_key(k) implies exists|t: int|
                        0 <= t < self.adaptors@.len() && #[trigger] self.id_at(t) == k by {
                        if k != key@ {
                            let t = choose|t: int|
                                0 <= t < old_adaptors.len() && old_adaptors[t].config.id@ == k;
                            assert(self.id_at(t) == k);
                        } else {
                            assert(self.id_at(n) == k);
                        }
                    }
                }
            },
        }
        Ok(())
    }

    /// Stops the adaptor `adaptor_id`; an unknown id is left alone.
    pub fn stop_adaptor(&mut self, adaptor_id: &str) -> (r: Result<(), String>)
        requires
            old(self).wf(),
        ensures
            final(self).wf(),
            r is Ok,
            final(self)@ == after_stop(old(self)@, adaptor_id@),
    {
        let key = adaptor_id.to_owned();
        if let Some(i) = self.find(&key) {
            self.adaptors[i].status = AdaptorStatus::Stopped;
            self.adaptors[i].pid = None;
            self.table = Ghost(self.table@.insert(key@, stopped_entry(self.table@[key@])));
            proof {
                assert forall|t: int| 0 <= t < self.adaptors@.len() implies self.id_at(t)
                    == old(self).id_at(t) by {}
                assert forall|t: int|
                    0 <= t < self.adaptors@.len() implies self.table@.contains_key(
                    #[trigger] self.id_at(t),
                ) && self.table@[self.id_at(t)] == entry_of(self.adaptors@[t]) by {
                    if t != i {
                        assert(old(self).id_at(t) != old(self).id_at(i as int));
                    }
                }
                assert forall|a: int, b: int|
                    0 <= a < b < self.adaptors@.len() implies #[trigger] self.id_at(a)
                    != #[trigger] self.id_at(b) by {
                    assert(old(self).id_at(a) != old(self).id_at(b));
                }
                assert forall|k: Seq<char>| #[trigger]
                    self.table@.contains_key(k) implies exists|t: int|
                    0 <= t < self.adaptors@.len() && #[trigger] self.id_at(t) == k by {
                    if k != key@ {
                        let t = choose|t: int|
                            0 <= t < old(self).adaptors@.len() && #[trigger] old(self).id_at(t) == k;
                        assert(self.id_at(t) == k);
                    } else {
                        assert(self.id_at(i as int) == k);
                    }
                }
            }
        }
        Ok(())
    }

    /// The status of `adaptor_id`; `Stopped` if it is unknown.
    pub fn get_status(&self, adaptor_id: &str) -> (r: AdaptorStatus)
        requires
            self.wf(),
        ensures
            r == status_of(self@, adaptor_id@),
    {
        let key = adaptor_id.to_owned();
        match self.find(&key) {
            Some(i) => self.adaptors[i].status,
            None => AdaptorStatus::Stopped,
        }
    }

    /// The ids of all running adaptors, each once.
    pub fn get_running_adaptors(&self) -> (r: Vec<String>)
        requires
            self.wf(),
        ensures
            string_views(r@).to_set() == running_ids(self@),
            string_views(r@).no_duplicates(),
    {
        let mut out: Vec<String> = Vec::new();
        let ghost mut src: Seq<int> = Seq::empty();
        let mut i: usize = 0;
        while i < self.adaptors.len()
            invariant
                self.wf(),
                i <= self.adaptors@.len(),
                src.len() == out@.len(),
                forall|j: int| 0 <= j < src.len() ==> 0 <= #[trigger] src[j] < i,
                forall|a: int, b: int| 0 <= a < b < src.len() ==> src[a] < src[b],
                forall|j: int|
                    #![trigger out@[j]]
                    #![trigger src[j]]
                    0 <= j < src.len() ==> out@[j]@ == self.id_at(src[j])
                        && self.adaptors@[src[j]].status == AdaptorStatus::Running,
                forall|t: int|
                    0 <= t < i && self.adaptors@[t].status == AdaptorStatus::Running ==> exists|
                        j: int,
                    |
                        0 <= j < src.len() && #[trigger] src[j] == t,
            decreases self.adaptors@.len() - i,
        {
            if self.adaptors[i].status == AdaptorStatus::Running {
                let ghost old_src = src;
                let ghost old_out = out@;
                out.push(self.adaptors[i].config.id.clone());
                proof {
                    src = src.push(i as int);
                    assert(src[src.len() - 1] == i);
                    assert forall|j: int| 0 <= j < old_src.len() implies src[j] == old_src[j]
                        && out@[j] == old_out[j] by {}
                    assert(out@[src.len() - 1]@ == self.id_at(i as int));
                    assert forall|j: int|
                        0 <= j < src.len() implies (#[trigger] out@[j])@ == self.id_at(src[j])
                            && self.adaptors@[src[j]].status == AdaptorStatus::Running by {
                        if j < old_src.len() {
                            assert(old_out[j]@ == self.id_at(old_src[j]));
                        }
                    }
                }
            }
            i = i + 1;
        }
        proof {
            let v = string_views(out@);
            assert forall|k: Seq<char>| v.to_set().contains(k) <==> running_ids(self@).contains(k) by {
                if v.to_set().contains(k) {
                    let j = choose|j: int| 0 <= j < v.len() && v[j] == k;
                    assert(out@[j]@ == self.id_at(src[j]));
                    assert(self.table@.contains_key(self.id_at(src[j])));
                }
                if running_ids(self@).contains(k) {
                    let t = choose|t: int| 0 <= t < self.adaptors@.len() && #[trigger] self.id_at(t) == k;
                    assert(self.table@[self.id_at(t)] == entry_of(self.adaptors@[t]));
                    let j = choose|j: int| 0 <= j < src.len() && #[trigger] src[j] == t;
                    assert(out@[j]@ == k);
                    assert(v[j] == k);
                }
            }
            assert(v.to_set() =~= running_ids(self@));
            assert forall|a: int, b: int| 0 <= a < v.len() && 0 <= b < v.len() && a != b implies v[a]
                != v[b] by {
                assert(out@[a]@ == self.id_at(src[a]));
                assert(out@[b]@ == self.id_at(src[b]));
                if a < b {
                    assert(src[a] < src[b]);
                } else {
                    assert(src[b] < src[a]);
                }
            }
        }
        out
    }

    /// Stops every registered adaptor.
    pub fn stop_all(&mut self)
        requires
            old(self).wf(),
        ensures
            final(self).wf(),
            final(self)@ == after_stop_all(old(self)@),
    {
        let mut ids: Vec<String> = Vec::new();
        let mut i: usize = 0;
        while i < self.adaptors.len()
            invariant
                i <= self.adaptors@.len(),
                ids@.len() == i,
                forall|j: int| 0 <= j < i ==> (#[trigger] ids@[j])@ == self.id_at(j),
            decreases self.adaptors@.len() - i,
        {
            ids.push(self.adaptors[i].config.id.clone());
            i = i + 1;
        }
        let ghost start = self@;
        proof {
            assert forall|k: Seq<char>| #[trigger]
                start.contains_key(k) implies exists|t: int| 0 <= t < ids@.len() && ids@[t]@ == k by {
                let t = choose|t: int| 0 <= t < self.adaptors@.len() && #[trigger] self.id_at(t) == k;
                assert(ids@[t]@ == k);
            }
        }
        let mut j: usize = 0;
        while j < ids.len()
            invariant
                self.wf(),
                j <= ids@.len(),
                self@.dom() == start.dom(),
                forall|k: Seq<char>| #[trigger]
                    start.contains_key(k) ==> exists|t: int| 0 <= t < ids@.len() && ids@[t]@ == k,
                forall|k: Seq<char>| #[trigger]
                    self@.contains_key(k) ==> self@[k] == if (exists|t: int|
                        0 <= t < j && ids@[t]@ == k) {
                        stopped_entry(start[k])
                    } else {
                        start[k]
                    },
            decreases ids@.len() - j,
        {
            let _ = self.stop_adaptor(ids[j].as_str());
            j = j + 1;
        }
        proof {
            assert(self@ =~= after_stop_all(start));
        }
    }
}

impl Default for AdaptorManager {
    fn default() -> (r: AdaptorManager)
        ensures
            r.wf(),
            r@ == Map::<Seq<char>, AdaptorEntry>::empty(),
    {
        AdaptorManager::new()
    }
}

} // verus!
