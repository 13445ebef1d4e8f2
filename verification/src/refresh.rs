//! Taking in what the system reports: processes, services, endpoints, loads, and priorities.

use crate::api::{ProcessPriority, ServiceRow, TcpPortOwner, TcpPortOwnerView};
use crate::history::{last_of, push_sample};
use crate::navigation::has_pid;
use crate::rows::{
    clone_text_option, text_option, CpuPercent, NetworkRow, NetworkRowView, ProcessCategory,
    ProcessRow, ProcessRowView,
};
use crate::sorting::views;
use crate::state::{text_map, AppState, AppView, SystemSummary, CPU_WINDOW, PERFORMANCE_HISTORY};
use crate::text::{decimal, decimal_text, same_text};
use std::collections::{HashMap, VecDeque};
use vstd::prelude::*;
use vstd::std_specs::hash::*;

verus! {

/// How often the processes are sampled, in milliseconds.
pub const REFRESH_MILLIS: u64 = 1000;

/// How often the services are listed, in milliseconds.
pub const SERVICE_REFRESH_MILLIS: u64 = 5000;

/// How often the priorities are looked up, in milliseconds.
pub const PRIORITY_REFRESH_MILLIS: u64 = 5000;

/// Whether the processes are due to be sampled.
pub fn process_refresh_due(elapsed_millis: u64) -> (due: bool)
    ensures
        due == (elapsed_millis >= 1000),
{
    elapsed_millis >= REFRESH_MILLIS
}

/// Whether the services are due to be listed.
pub fn service_refresh_due(force: bool, elapsed_millis: u64) -> (due: bool)
    ensures
        due == (force || elapsed_millis >= 5000),
{
    force || elapsed_millis >= SERVICE_REFRESH_MILLIS
}

/// Whether the priorities are due to be looked up.
pub fn priority_refresh_due(force: bool, elapsed_millis: u64) -> (due: bool)
    ensures
        due == (force || elapsed_millis >= 5000),
{
    force || elapsed_millis >= PRIORITY_REFRESH_MILLIS
}

/// What the system reports of a process, with its load averaged.
#[derive(Debug, PartialEq)]
pub struct ProcessSample {
    pub pid: u32,
    pub parent_pid: Option<u32>,
    pub name: String,
    pub exe_path: Option<String>,
    pub cpu_percent: CpuPercent,
    pub memory_bytes: u64,
    pub runtime_secs: u64,
}

/// The model of a process sample.
pub struct ProcessSampleView {
    pub pid: u32,
    pub parent_pid: Option<u32>,
    pub name: Seq<char>,
    pub exe_path: Option<Seq<char>>,
    pub cpu_percent: CpuPercent,
    pub memory_bytes: u64,
    pub runtime_secs: u64,
}

impl View for ProcessSample {
    type V = ProcessSampleView;

    open spec fn view(&self) -> ProcessSampleView {
        ProcessSampleView {
            pid: self.pid,
            parent_pid: self.parent_pid,
            name: self.name@,
            exe_path: text_option(self.exe_path),
            cpu_percent: self.cpu_percent,
            memory_bytes: self.memory_bytes,
            runtime_secs: self.runtime_secs,
        }
    }
}

/// The known priority of a process.
pub open spec fn known_priority(cache: Map<u32, Seq<char>>, pid: u32) -> Seq<char> {
    if cache.contains_key(pid) {
        cache[pid]
    } else {
        "unknown"@
    }
}

/// The row of a sampled process: an app if it owns a visible window, with the priority that
/// is known of it.
pub open spec fn sampled_row(
    sample: ProcessSampleView,
    window_pids: Seq<u32>,
    cache: Map<u32, Seq<char>>,
) -> ProcessRowView {
    ProcessRowView {
        pid: sample.pid,
        parent_pid: sample.parent_pid,
        depth: 0,
        category: if window_pids.contains(sample.pid) {
            ProcessCategory::App
        } else {
            ProcessCategory::Background
        },
        name: sample.name,
        exe_path: sample.exe_path,
        priority: known_priority(cache, sample.pid),
        cpu_percent: sample.cpu_percent,
        memory_bytes: sample.memory_bytes,
        runtime_secs: sample.runtime_secs,
    }
}

/// The numbers of sampled processes, in order.
pub open spec fn sampled_pids(samples: Seq<ProcessSampleView>) -> Seq<u32> {
    Seq::new(samples.len(), |i: int| samples[i].pid)
}

/// The order of first appearance after some processes appeared, and its next number.
pub open spec fn ranked(order: Map<u32, usize>, next: int, pids: Seq<u32>) -> (
    Map<u32, usize>,
    int,
)
    decreases pids.len(),
{
    if pids.len() == 0 {
        (order, next)
    } else {
        let (before, free) = ranked(order, next, pids.drop_last());
        if before.contains_key(pids.last()) {
            (before, free)
        } else {
            (before.insert(pids.last(), free as usize), free + 1)
        }
    }
}

/// The name of the process that owns an endpoint.
pub open spec fn owner_name(rows: Seq<ProcessRowView>, pid: u32) -> Seq<char>
    decreases rows.len(),
{
    if rows.len() == 0 {
        "<unknown>"@
    } else if rows.last().pid == pid {
        rows.last().name
    } else {
        owner_name(rows.drop_last(), pid)
    }
}

/// An address with its port.
pub open spec fn endpoint(address: Seq<char>, port: u16) -> Seq<char> {
    address + ":"@ + decimal(port as nat)
}

/// The row of an endpoint.
pub open spec fn endpoint_row(owner: TcpPortOwnerView, rows: Seq<ProcessRowView>) -> NetworkRowView {
    NetworkRowView {
        pid: owner.pid,
        process_name: owner_name(rows, owner.pid),
        local_endpoint: endpoint(owner.local_addr, owner.local_port),
        remote_endpoint: endpoint(owner.remote_addr, owner.remote_port),
        state: owner.state,
    }
}

/// The known priorities after some were looked up.
pub open spec fn cached(cache: Map<u32, Seq<char>>, found: Seq<(u32, ProcessPriority)>) -> Map<
    u32,
    Seq<char>,
>
    decreases found.len(),
{
    if found.len() == 0 {
        cache
    } else {
        cached(cache, found.drop_last()).insert(found.last().0, found.last().1.word())
    }
}

/// Whether a looked-up priority was not the known one.
pub open spec fn brings_news(
    cache: Map<u32, Seq<char>>,
    found: Seq<(u32, ProcessPriority)>,
) -> bool
    decreases found.len(),
{
    found.len() > 0 && {
        let before = cached(cache, found.drop_last());
        let (pid, priority) = found.last();
        ||| brings_news(cache, found.drop_last())
        ||| !(before.contains_key(pid) && before[pid] == priority.word())
    }
}

/// Rows with the priorities that are known of them.
pub open spec fn with_priorities(rows: Seq<ProcessRowView>, cache: Map<u32, Seq<char>>) -> Seq<
    ProcessRowView,
> {
    Seq::new(
        rows.len(),
        |i: int| ProcessRowView { priority: known_priority(cache, rows[i].pid), ..rows[i] },
    )
}

impl AppView {
    /// The recent loads of a process.
    pub open spec fn recent_loads(self, pid: u32) -> Seq<CpuPercent> {
        if self.cpu_history.contains_key(pid) {
            self.cpu_history[pid]
        } else {
            Seq::empty()
        }
    }

    /// The recent loads of a process with one more sample.
    pub open spec fn loads_with(self, pid: u32, load: CpuPercent) -> Seq<CpuPercent> {
        last_of(self.recent_loads(pid).push(load), CPU_WINDOW as int)
    }

    /// The state with one more load sample of a process.
    pub open spec fn with_load(self, pid: u32, load: CpuPercent) -> AppView {
        AppView { cpu_history: self.cpu_history.insert(pid, self.loads_with(pid, load)), ..self }
    }

    /// The state with the processes of a sampling: what was known of processes that are gone
    /// is forgotten, and new ones are ranked behind all others.
    pub open spec fn with_processes(
        self,
        samples: Seq<ProcessSampleView>,
        window_pids: Seq<u32>,
    ) -> AppView {
        let pids = sampled_pids(samples);
        let (order, next) = ranked(
            self.process_stable_order.restrict(pids.to_set()),
            self.next_process_order as int,
            pids,
        );
        AppView {
            process_rows: Seq::new(
                samples.len(),
                |i: int| sampled_row(samples[i], window_pids, self.priority_cache),
            ),
            cpu_history: self.cpu_history.restrict(pids.to_set()),
            priority_cache: self.priority_cache.restrict(pids.to_set()),
            process_stable_order: order,
            next_process_order: next as usize,
            ..self
        }.rebuilt_processes()
    }

    /// The state with the endpoints of a listing.
    pub open spec fn with_endpoints(self, owners: Seq<TcpPortOwnerView>) -> AppView {
        AppView {
            network_rows: Seq::new(
                owners.len(),
                |i: int| endpoint_row(owners[i], self.process_rows),
            ),
            ..self
        }.rebuilt_network()
    }

    /// The state with the load of the whole system taken in.
    pub open spec fn with_summary(
        self,
        cpu_percent: CpuPercent,
        cpu_load: u64,
        used_memory: u64,
        total_memory: u64,
        memory_load: u64,
    ) -> AppView {
        AppView {
            summary: SystemSummary {
                cpu_percent,
                used_memory,
                total_memory,
                process_count: self.process_rows.len() as usize,
                tcp_endpoint_count: self.network_rows.len() as usize,
            },
            system_cpu_history: last_of(
                self.system_cpu_history.push(cpu_load),
                PERFORMANCE_HISTORY as int,
            ),
            system_memory_history: last_of(
                self.system_memory_history.push(memory_load),
                PERFORMANCE_HISTORY as int,
            ),
            ..self
        }
    }

    /// The state with looked-up priorities taken in; the list is made anew only if one of
    /// them is news.
    pub open spec fn with_found_priorities(self, found: Seq<(u32, ProcessPriority)>) -> AppView {
        let cache = cached(self.priority_cache, found);
        let next = AppView { priority_cache: cache, ..self };
        if brings_news(self.priority_cache, found) {
            AppView {
                process_rows: with_priorities(self.process_rows, cache),
                ..next
            }.rebuilt_processes()
        } else {
            next
        }
    }
}

/// Forgets the entries of all but the given keys.
fn keep_keys<V>(map: &mut HashMap<u32, V>, keys: &Vec<u32>)
    ensures
        final(map)@ == old(map)@.restrict(keys@.to_set()),
{
    broadcast use group_hash_axioms;

    let ghost all = map@;
    let mut rest: HashMap<u32, V> = HashMap::new();
    std::mem::swap(map, &mut rest);
    let mut kept: HashMap<u32, V> = HashMap::new();
    assert(keys@.take(0).to_set() =~= Set::<u32>::empty());
    assert(kept@ =~= all.restrict(keys@.take(0).to_set()));
    assert(rest@ =~= all.remove_keys(keys@.take(0).to_set()));
    let mut i: usize = 0;
    while i < keys.len()
        invariant
            i <= keys.len(),
            kept@ == all.restrict(keys@.take(i as int).to_set()),
            rest@ == all.remove_keys(keys@.take(i as int).to_set()),
        decreases keys.len() - i,
    {
        let key: u32 = keys[i];
        let ghost before = keys@.take(i as int);
        assert(keys@.take(i + 1) =~= before.push(key));
        proof {
            before.lemma_push_to_set_commute(key);
        }
        if let Some(value) = rest.remove(&key) {
            kept.insert(key, value);
        }
        i = i + 1;
        assert(kept@ =~= all.restrict(keys@.take(i as int).to_set()));
        assert(rest@ =~= all.remove_keys(keys@.take(i as int).to_set()));
    }
    assert(keys@.take(i as int) =~= keys@);
    std::mem::swap(map, &mut kept);
}

/// Ranks the processes that have no rank yet behind all others; returns the next free rank.
fn rank_new(order: &mut HashMap<u32, usize>, next: usize, pids: &Vec<u32>) -> (free: usize)
    requires
        next + pids.len() <= usize::MAX,
    ensures
        (final(order)@, free as int) == ranked(old(order)@, next as int, pids@),
{
    broadcast use group_hash_axioms;

    let ghost start = order@;
    let mut free: usize = next;
    let mut i: usize = 0;
    assert(pids@.take(0) =~= Seq::<u32>::empty());
    while i < pids.len()
        invariant
            i <= pids.len(),
            next + pids.len() <= usize::MAX,
            (order@, free as int) == ranked(start, next as int, pids@.take(i as int)),
            free <= next + i,
        decreases pids.len() - i,
    {
        let pid: u32 = pids[i];
        assert(pids@.take(i + 1).drop_last() =~= pids@.take(i as int));
        assert(pids@.take(i + 1).last() == pid);
        if !order.contains_key(&pid) {
            order.insert(pid, free);
            free = free + 1;
        }
        i = i + 1;
    }
    assert(pids@.take(i as int) =~= pids@);
    free
}

/// A copy of the priority that is known of a process.
fn priority_text(cache: &HashMap<u32, String>, pid: u32) -> (text: String)
    ensures
        text@ == known_priority(text_map(cache@), pid),
{
    broadcast use group_hash_axioms;

    match cache.get(&pid) {
        Some(text) => text.clone(),
        None => "unknown".to_string(),
    }
}

/// A copy of the name of the process that owns an endpoint.
fn owner_text(rows: &Vec<ProcessRow>, pid: u32) -> (text: String)
    ensures
        text@ == owner_name(views(rows@), pid),
{
    let ghost models = views(rows@);
    let mut i: usize = rows.len();
    assert(models.take(i as int) =~= models);
    while i > 0
        invariant
            i <= rows.len(),
            models == views(rows@),
            owner_name(models, pid) == owner_name(models.take(i as int), pid),
        decreases i,
    {
        assert(models.take(i as int).drop_last() =~= models.take(i - 1));
        assert(models.take(i as int).last() == rows@[i - 1]@);
        if rows[i - 1].pid == pid {
            return rows[i - 1].name.clone();
        }
        i = i - 1;
    }
    "<unknown>".to_string()
}

/// The text of an address with its port.
pub fn endpoint_text(address: &str, port: u16) -> (text: String)
    ensures
        text@ == endpoint(address@, port),
{
    let mut text = address.to_string();
    text.append(":");
    let number = decimal_text(port as u64);
    text.append(number.as_str());
    text
}

impl AppState {
    /// Takes in a load sample of a process; returns the samples to average.
    pub fn record_cpu_sample(&mut self, pid: u32, load: CpuPercent) -> (recent: Vec<CpuPercent>)
        ensures
            final(self)@ == old(self)@.with_load(pid, load),
            recent@ == old(self)@.loads_with(pid, load),
            recent.len() > 0,
    {
        broadcast use group_hash_axioms;

        let ghost before = self@;
        let mut samples: VecDeque<CpuPercent> = match self.cpu_history.remove(&pid) {
            Some(samples) => samples,
            None => VecDeque::new(),
        };
        assert(samples@ =~= before.recent_loads(pid));
        push_sample(&mut samples, load, CPU_WINDOW);
        let mut recent: Vec<CpuPercent> = Vec::new();
        let mut i: usize = 0;
        while i < samples.len()
            invariant
                i <= samples.len(),
                recent@ == samples@.take(i as int),
            decreases samples.len() - i,
        {
            recent.push(samples[i]);
            i = i + 1;
        }
        assert(recent@ =~= samples@);
        self.cpu_history.insert(pid, samples);
        assert(self@.cpu_history =~= before.with_load(pid, load).cpu_history);
        recent
    }

    /// Takes in the processes of a sampling.
    pub fn apply_process_samples(&mut self, samples: &Vec<ProcessSample>, window_pids: &Vec<u32>)
        requires
            old(self).next_process_order + samples.len() <= usize::MAX,
        ensures
            final(self)@ == old(self)@.with_processes(views(samples@), window_pids@),
    {
        broadcast use group_hash_axioms;

        let ghost start = self@;
        let ghost models = views(samples@);
        let mut rows: Vec<ProcessRow> = Vec::new();
        let mut pids: Vec<u32> = Vec::new();
        let mut i: usize = 0;
        while i < samples.len()
            invariant
                i <= samples.len(),
                models == views(samples@),
                start == self@,
                pids@ == sampled_pids(models).take(i as int),
                rows.len() == i,
                forall|k: int|
                    0 <= k < i ==> (#[trigger] rows@[k])@ == sampled_row(
                        models[k],
                        window_pids@,
                        start.priority_cache,
                    ),
            decreases samples.len() - i,
        {
            let sample = &samples[i];
            let category = if has_pid(window_pids, sample.pid) {
                ProcessCategory::App
            } else {
                ProcessCategory::Background
            };
            rows.push(
                ProcessRow {
                    pid: sample.pid,
                    parent_pid: sample.parent_pid,
                    depth: 0,
                    category,
                    name: sample.name.clone(),
                    exe_path: clone_text_option(&sample.exe_path),
                    priority: priority_text(&self.priority_cache, sample.pid),
                    cpu_percent: sample.cpu_percent,
                    memory_bytes: sample.memory_bytes,
                    runtime_secs: sample.runtime_secs,
                },
            );
            pids.push(sample.pid);
            i = i + 1;
            assert(pids@ =~= sampled_pids(models).take(i as int));
        }
        assert(pids@ =~= sampled_pids(models));
        let ghost keys = pids@.to_set();
        keep_keys(&mut self.cpu_history, &pids);
        keep_keys(&mut self.priority_cache, &pids);
        keep_keys(&mut self.process_stable_order, &pids);
        self.next_process_order =
        rank_new(&mut self.process_stable_order, self.next_process_order, &pids);
        let ghost order = start.process_stable_order.restrict(keys);
        let ghost first: int = start.next_process_order as int;
        self.process_rows = rows;
        proof {
            let wanted = AppView {
                process_rows: Seq::new(
                    models.len(),
                    |k: int| sampled_row(models[k], window_pids@, start.priority_cache),
                ),
                cpu_history: start.cpu_history.restrict(keys),
                priority_cache: start.priority_cache.restrict(keys),
                process_stable_order: ranked(order, first, pids@).0,
                next_process_order: ranked(order, first, pids@).1 as usize,
                ..start
            };
            assert(self@ =~= wanted);
        }
        self.rebuild_process_view();
    }

    /// Takes in the services of a listing.
    pub fn apply_services(&mut self, rows: Vec<ServiceRow>)
        ensures
            final(self)@ == (AppView {
                service_rows: views(rows@),
                ..old(self)@
            }).rebuilt_services(),
    {
        self.service_rows = rows;
        self.rebuild_service_view();
    }

    /// Takes in the endpoints of a listing.
    pub fn refresh_network_rows(&mut self, owners: &Vec<TcpPortOwner>)
        ensures
            final(self)@ == old(self)@.with_endpoints(views(owners@)),
    {
        let ghost start = self@;
        let ghost models = views(owners@);
        let mut rows: Vec<NetworkRow> = Vec::new();
        let mut i: usize = 0;
        while i < owners.len()
            invariant
                i <= owners.len(),
                models == views(owners@),
                start == self@,
                rows.len() == i,
                forall|k: int|
                    0 <= k < i ==> (#[trigger] rows@[k])@ == endpoint_row(
                        models[k],
                        start.process_rows,
                    ),
            decreases owners.len() - i,
        {
            let owner = &owners[i];
            rows.push(
                NetworkRow {
                    pid: owner.pid,
                    process_name: owner_text(&self.process_rows, owner.pid),
                    local_endpoint: endpoint_text(owner.local_addr.as_str(), owner.local_port),
                    remote_endpoint: endpoint_text(owner.remote_addr.as_str(), owner.remote_port),
                    state: owner.state.clone(),
                },
            );
            i = i + 1;
        }
        assert(views(rows@) =~= Seq::new(
            models.len(),
            |k: int| endpoint_row(models[k], start.process_rows),
        ));
        self.network_rows = rows;
        self.rebuild_network_view();
    }

    /// Takes in the load of the whole system, and its CPU and memory loads in whole percent.
    pub fn record_summary(
        &mut self,
        cpu_percent: CpuPercent,
        cpu_load: u64,
        used_memory: u64,
        total_memory: u64,
        memory_load: u64,
    )
        ensures
            final(self)@ == old(self)@.with_summary(
                cpu_percent,
                cpu_load,
                used_memory,
                total_memory,
                memory_load,
            ),
    {
        self.summary =
        SystemSummary {
            cpu_percent,
            used_memory,
            total_memory,
            process_count: self.process_rows.len(),
            tcp_endpoint_count: self.network_rows.len(),
        };
        push_sample(&mut self.system_cpu_history, cpu_load, PERFORMANCE_HISTORY);
        push_sample(&mut self.system_memory_history, memory_load, PERFORMANCE_HISTORY);
    }

    /// Takes in looked-up priorities.
    pub fn apply_priorities(&mut self, found: &Vec<(u32, ProcessPriority)>)
        ensures
            final(self)@ == old(self)@.with_found_priorities(found@),
    {
        broadcast use group_hash_axioms;

        let ghost start = self@;
        let mut changed = false;
        let mut i: usize = 0;
        assert(found@.take(0) =~= Seq::<(u32, ProcessPriority)>::empty());
        assert(self@ =~= (AppView {
            priority_cache: cached(start.priority_cache, found@.take(0)),
            ..start
        }));
        while i < found.len()
            invariant
                i <= found.len(),
                self@ == (AppView {
                    priority_cache: cached(start.priority_cache, found@.take(i as int)),
                    ..start
                }),
                changed == brings_news(start.priority_cache, found@.take(i as int)),
            decreases found.len() - i,
        {
            let (pid, priority) = found[i];
            let ghost before = self@.priority_cache;
            assert(found@.take(i + 1).drop_last() =~= found@.take(i as int));
            assert(found@.take(i + 1).last() == found@[i as int]);
            let known = match self.priority_cache.get(&pid) {
                Some(text) => same_text(text.as_str(), priority.label()),
                None => false,
            };
            if !known {
                changed = true;
            }
            self.priority_cache.insert(pid, priority.label().to_string());
            i = i + 1;
            assert(self@.priority_cache =~= before.insert(pid, priority.word()));
            assert(self@ =~= (AppView {
                priority_cache: cached(start.priority_cache, found@.take(i as int)),
                ..start
            }));
        }
        assert(found@.take(i as int) =~= found@);
        if changed {
            let mut rows: Vec<ProcessRow> = Vec::new();
            let mut k: usize = 0;
            let ghost now = self@;
            while k < self.process_rows.len()
                invariant
                    k <= self.process_rows.len(),
                    now == self@,
                    rows.len() == k,
                    forall|j: int|
                        0 <= j < k ==> (#[trigger] rows@[j])@ == with_priorities(
                            now.process_rows,
                            now.priority_cache,
                        )[j],
                decreases self.process_rows.len() - k,
            {
                let mut row = self.process_rows[k].clone();
                row.priority = priority_text(&self.priority_cache, row.pid);
                rows.push(row);
                k = k + 1;
            }
            assert(views(rows@) =~= with_priorities(now.process_rows, now.priority_cache));
            self.process_rows = rows;
            self.rebuild_process_view();
        }
    }
}

/// Ranking keeps every rank that was given before, and gives new processes ranks from the
/// next one on.
proof fn lemma_ranks_stay(order: Map<u32, usize>, next: int, pids: Seq<u32>)
    requires
        0 <= next,
        next + pids.len() <= usize::MAX,
    ensures
        next <= ranked(order, next, pids).1 <= next + pids.len(),
        forall|pid: u32| #[trigger]
            order.contains_key(pid) ==> ranked(order, next, pids).0.contains_key(pid) && ranked(
                order,
                next,
                pids,
            ).0[pid] == order[pid],
        forall|pid: u32|
            !order.contains_key(pid) && #[trigger] ranked(order, next, pids).0.contains_key(pid)
                ==> pids.contains(pid) && next <= ranked(order, next, pids).0[pid] < ranked(
                order,
                next,
                pids,
            ).1,
        forall|pid: u32| #[trigger]
            pids.contains(pid) ==> ranked(order, next, pids).0.contains_key(pid),
    decreases pids.len(),
{
    if pids.len() > 0 {
        let front = pids.drop_last();
        lemma_ranks_stay(order, next, front);
        assert forall|pid: u32| #[trigger] front.contains(pid) implies pids.contains(pid) by {
            let k = choose|k: int| 0 <= k < front.len() && front[k] == pid;
            assert(pids[k] == pid);
        }
        assert(pids.contains(pids.last())) by {
            assert(pids[pids.len() - 1] == pids.last());
        }
        assert forall|pid: u32| #[trigger] pids.contains(pid) implies ranked(
            order,
            next,
            pids,
        ).0.contains_key(pid) by {
            if pid != pids.last() {
                let k = choose|k: int| 0 <= k < pids.len() && pids[k] == pid;
                assert(front[k] == pid);
                assert(front.contains(pid));
            }
        }
    }
}

/// A sampling keeps the rank of every process that is still there, ranks the new ones behind
/// all ranks given so far, and forgets the processes that are gone.
pub proof fn ranks_survive_sampling(
    app: AppView,
    samples: Seq<ProcessSampleView>,
    window_pids: Seq<u32>,
)
    requires
        app.next_process_order + samples.len() <= usize::MAX,
    ensures
        ({
            let after = app.with_processes(samples, window_pids);
            let pids = sampled_pids(samples);
            &&& forall|pid: u32| #[trigger]
                after.process_stable_order.contains_key(pid) <==> pids.contains(pid)
            &&& forall|pid: u32| #[trigger]
                pids.contains(pid) ==> {
                    if app.process_stable_order.contains_key(pid) {
                        after.process_stable_order[pid] == app.process_stable_order[pid]
                    } else {
                        after.process_stable_order[pid] >= app.next_process_order
                    }
                }
        }),
{
    let pids = sampled_pids(samples);
    let kept = app.process_stable_order.restrict(pids.to_set());
    lemma_ranks_stay(kept, app.next_process_order as int, pids);
    let after = app.with_processes(samples, window_pids);
    assert(after.process_stable_order == ranked(kept, app.next_process_order as int, pids).0);
    assert forall|pid: u32| #[trigger]
        after.process_stable_order.contains_key(pid) <==> pids.contains(pid) by {
        assert(pids.to_set().contains(pid) <==> pids.contains(pid));
    }
    assert forall|pid: u32| #[trigger] pids.contains(pid) implies {
        if app.process_stable_order.contains_key(pid) {
            after.process_stable_order[pid] == app.process_stable_order[pid]
        } else {
            after.process_stable_order[pid] >= app.next_process_order
        }
    } by {
        assert(pids.to_set().contains(pid));
        assert(app.process_stable_order.contains_key(pid) <==> kept.contains_key(pid));
    }
}

/// Whether every process has a rank of its own, among the ranks that were given.
pub open spec fn ranks_are_distinct(order: Map<u32, usize>, next: int) -> bool {
    &&& forall|pid: u32| #[trigger] order.contains_key(pid) ==> order[pid] < next
    &&& forall|p: u32, q: u32|
        #![trigger order[p], order[q]]
        order.contains_key(p) && order.contains_key(q) && p != q ==> order[p] != order[q]
}

/// Ranking more processes keeps all ranks distinct.
proof fn lemma_ranks_are_distinct(order: Map<u32, usize>, next: int, pids: Seq<u32>)
    requires
        0 <= next,
        next + pids.len() <= usize::MAX,
        ranks_are_distinct(order, next),
    ensures
        ranks_are_distinct(ranked(order, next, pids).0, ranked(order, next, pids).1),
        next <= ranked(order, next, pids).1 <= next + pids.len(),
    decreases pids.len(),
{
    if pids.len() > 0 {
        lemma_ranks_are_distinct(order, next, pids.drop_last());
        let (before, free) = ranked(order, next, pids.drop_last());
        let (after, limit) = ranked(order, next, pids);
        if !before.contains_key(pids.last()) {
            assert(after == before.insert(pids.last(), free as usize));
            assert forall|p: u32, q: u32|
                #![trigger after[p], after[q]]
                after.contains_key(p) && after.contains_key(q) && p != q implies after[p]
                != after[q] by {
                if p == pids.last() {
                    assert(before[q] < free);
                } else if q == pids.last() {
                    assert(before[p] < free);
                } else {
                    assert(before[p] != before[q]);
                }
            }
        }
    }
}

/// No two processes ever share a rank: they have none to begin with, and a sampling keeps them
/// distinct.
pub proof fn ranks_stay_distinct(
    app: AppView,
    samples: Seq<ProcessSampleView>,
    window_pids: Seq<u32>,
)
    requires
        app.next_process_order + samples.len() <= usize::MAX,
        ranks_are_distinct(app.process_stable_order, app.next_process_order as int),
    ensures
        ranks_are_distinct(Map::empty(), 0),
        ({
            let after = app.with_processes(samples, window_pids);
            ranks_are_distinct(after.process_stable_order, after.next_process_order as int)
        }),
{
    let pids = sampled_pids(samples);
    let kept = app.process_stable_order.restrict(pids.to_set());
    assert forall|p: u32, q: u32|
        #![trigger kept[p], kept[q]]
        kept.contains_key(p) && kept.contains_key(q) && p != q implies kept[p] != kept[q] by {
        assert(app.process_stable_order[p] != app.process_stable_order[q]);
    }
    lemma_ranks_are_distinct(kept, app.next_process_order as int, pids);
}

/// Of the whole system the last samples are kept, the newest among them, and none is dropped
/// before there are enough.
pub proof fn histories_keep_the_last_samples(
    app: AppView,
    cpu_percent: CpuPercent,
    cpu_load: u64,
    used_memory: u64,
    total_memory: u64,
    memory_load: u64,
)
    ensures
        ({
            let after = app.with_summary(
                cpu_percent,
                cpu_load,
                used_memory,
                total_memory,
                memory_load,
            );
            let cpu = after.system_cpu_history;
            let memory = after.system_memory_history;
            &&& cpu.len() <= PERFORMANCE_HISTORY && cpu.last() == cpu_load
            &&& memory.len() <= PERFORMANCE_HISTORY && memory.last() == memory_load
            &&& app.system_cpu_history.len() < PERFORMANCE_HISTORY ==> cpu.drop_last()
                == app.system_cpu_history
            &&& app.system_memory_history.len() < PERFORMANCE_HISTORY ==> memory.drop_last()
                == app.system_memory_history
        }),
{
    assert(app.system_cpu_history.push(cpu_load).drop_last() =~= app.system_cpu_history);
    assert(app.system_memory_history.push(memory_load).drop_last() =~= app.system_memory_history);
}

/// Of a process no more loads are kept than are averaged, and the newest is among them.
pub proof fn recent_loads_are_few(app: AppView, pid: u32, load: CpuPercent)
    ensures
        app.with_load(pid, load).recent_loads(pid).len() <= CPU_WINDOW,
        app.with_load(pid, load).recent_loads(pid).last() == load,
{
}

/// The state with load samples of several processes taken in, one after the other.
pub open spec fn with_loads(app: AppView, loads: Seq<(u32, CpuPercent)>) -> AppView
    decreases loads.len(),
{
    if loads.len() == 0 {
        app
    } else {
        with_loads(app, loads.drop_last()).with_load(loads.last().0, loads.last().1)
    }
}

/// Taking in loads gives every sampled process a recent load, and changes nothing else.
proof fn lemma_loads_are_recorded(app: AppView, loads: Seq<(u32, CpuPercent)>)
    ensures
        with_loads(app, loads) == (AppView {
            cpu_history: with_loads(app, loads).cpu_history,
            ..app
        }),
        forall|i: int|
            #![trigger loads[i]]
            0 <= i < loads.len() ==> {
                let history = with_loads(app, loads).cpu_history;
                let pid = loads[i].0;
                history.contains_key(pid) && 1 <= history[pid].len() <= CPU_WINDOW
            },
    decreases loads.len(),
{
    if loads.len() > 0 {
        let front = loads.drop_last();
        lemma_loads_are_recorded(app, front);
        assert forall|i: int| #![trigger loads[i]] 0 <= i < loads.len() implies {
            let history = with_loads(app, loads).cpu_history;
            let pid = loads[i].0;
            history.contains_key(pid) && 1 <= history[pid].len() <= CPU_WINDOW
        } by {
            if i < front.len() {
                assert(front[i] == loads[i]);
            }
        }
    }
}

/// The state after a whole sampling: the load of each process is recorded, then the processes,
/// the endpoints, the load of the system, and the priorities that were looked up are taken in.
pub open spec fn after_sampling(
    app: AppView,
    samples: Seq<ProcessSampleView>,
    loads: Seq<CpuPercent>,
    window_pids: Seq<u32>,
    owners: Seq<TcpPortOwnerView>,
    system: (CpuPercent, u64, u64, u64, u64),
    found: Seq<(u32, ProcessPriority)>,
) -> AppView {
    with_loads(
        app,
        Seq::new(samples.len(), |i: int| (samples[i].pid, loads[i])),
    ).with_processes(samples, window_pids).with_endpoints(owners).with_summary(
        system.0,
        system.1,
        system.2,
        system.3,
        system.4,
    ).with_found_priorities(found)
}

/// A whole sampling leaves a rank and recent loads with exactly the processes that are there.
/// Those that had a rank keep it, the others get one behind all ranks given so far, and no two
/// share one. Of each process at least one load is kept and at most as many as are averaged;
/// of the whole system no more samples are kept than are shown.
pub proof fn a_sampling_follows_the_processes(
    app: AppView,
    samples: Seq<ProcessSampleView>,
    loads: Seq<CpuPercent>,
    window_pids: Seq<u32>,
    owners: Seq<TcpPortOwnerView>,
    system: (CpuPercent, u64, u64, u64, u64),
    found: Seq<(u32, ProcessPriority)>,
)
    requires
        app.next_process_order + samples.len() <= usize::MAX,
        ranks_are_distinct(app.process_stable_order, app.next_process_order as int),
    ensures
        ({
            let after = after_sampling(app, samples, loads, window_pids, owners, system, found);
            let live = sampled_pids(samples).to_set();
            &&& after.process_stable_order.dom() == live
            &&& after.cpu_history.dom() == live
            &&& forall|pid: u32| #[trigger]
                live.contains(pid) ==> {
                    &&& if app.process_stable_order.contains_key(pid) {
                        after.process_stable_order[pid] == app.process_stable_order[pid]
                    } else {
                        after.process_stable_order[pid] >= app.next_process_order
                    }
                    &&& 1 <= after.cpu_history[pid].len() <= CPU_WINDOW
                }
            &&& ranks_are_distinct(after.process_stable_order, after.next_process_order as int)
            &&& after.system_cpu_history.len() <= PERFORMANCE_HISTORY
            &&& after.system_memory_history.len() <= PERFORMANCE_HISTORY
        }),
{
    let recorded = Seq::new(samples.len(), |i: int| (samples[i].pid, loads[i]));
    let loaded = with_loads(app, recorded);
    lemma_loads_are_recorded(app, recorded);
    ranks_survive_sampling(loaded, samples, window_pids);
    ranks_stay_distinct(loaded, samples, window_pids);
    let pids = sampled_pids(samples);
    let live = pids.to_set();
    let taken = loaded.with_processes(samples, window_pids);
    let after = after_sampling(app, samples, loads, window_pids, owners, system, found);
    assert(after.process_stable_order == taken.process_stable_order);
    assert(after.next_process_order == taken.next_process_order);
    assert(after.cpu_history == loaded.cpu_history.restrict(live));
    assert forall|pid: u32| #[trigger] live.contains(pid) implies loaded.cpu_history.contains_key(
        pid,
    ) && 1 <= loaded.cpu_history[pid].len() <= CPU_WINDOW by {
        let i = choose|i: int| 0 <= i < pids.len() && pids[i] == pid;
        assert(recorded[i].0 == pid);
    }
    assert(after.cpu_history.dom() =~= live);
    assert(after.process_stable_order.dom() =~= live);
}

/// Looking up priorities that are all known already leaves the lists as they are.
pub proof fn known_priorities_change_nothing(app: AppView, found: Seq<(u32, ProcessPriority)>)
    requires
        !brings_news(app.priority_cache, found),
    ensures
        app.with_found_priorities(found) == app,
{
    assert(cached(app.priority_cache, found) =~= app.priority_cache) by {
        lemma_no_news(app.priority_cache, found);
    }
}

/// Known priorities stay as they are.
proof fn lemma_no_news(cache: Map<u32, Seq<char>>, found: Seq<(u32, ProcessPriority)>)
    requires
        !brings_news(cache, found),
    ensures
        cached(cache, found) == cache,
    decreases found.len(),
{
    if found.len() > 0 {
        lemma_no_news(cache, found.drop_last());
        assert(cached(cache, found) =~= cache);
    }
}

/// After a sampling the list of processes holds the sampled ones, in order, each with what was
/// sampled of it. A process is an app exactly if it owns one of the given windows, and its
/// priority is the one that was known of it, or unknown.
pub proof fn sampled_rows_show_the_samples(
    app: AppView,
    samples: Seq<ProcessSampleView>,
    window_pids: Seq<u32>,
    i: int,
)
    requires
        0 <= i < samples.len(),
    ensures
        ({
            let after = app.with_processes(samples, window_pids);
            let row = after.process_rows[i];
            &&& after.process_rows.len() == samples.len()
            &&& row.pid == samples[i].pid
            &&& row.parent_pid == samples[i].parent_pid
            &&& row.depth == 0
            &&& row.name == samples[i].name
            &&& row.exe_path == samples[i].exe_path
            &&& row.cpu_percent == samples[i].cpu_percent
            &&& row.memory_bytes == samples[i].memory_bytes
            &&& row.runtime_secs == samples[i].runtime_secs
            &&& row.category == ProcessCategory::App <==> window_pids.contains(samples[i].pid)
            &&& app.priority_cache.contains_key(samples[i].pid) ==> row.priority
                == app.priority_cache[samples[i].pid]
            &&& !app.priority_cache.contains_key(samples[i].pid) ==> row.priority == "unknown"@
        }),
{
}

/// A sampling forgets the loads and the priorities of exactly the processes that are gone, and
/// changes nothing but what is known of processes and how they are listed.
pub proof fn sampling_forgets_only_what_is_gone(
    app: AppView,
    samples: Seq<ProcessSampleView>,
    window_pids: Seq<u32>,
    pid: u32,
)
    ensures
        ({
            let after = app.with_processes(samples, window_pids);
            let there = exists|i: int| 0 <= i < samples.len() && (#[trigger] samples[i]).pid == pid;
            &&& after.cpu_history.contains_key(pid) <==> app.cpu_history.contains_key(pid) && there
            &&& after.cpu_history.contains_key(pid) ==> after.cpu_history[pid]
                == app.cpu_history[pid]
            &&& after.priority_cache.contains_key(pid) <==> app.priority_cache.contains_key(pid)
                && there
            &&& after.priority_cache.contains_key(pid) ==> after.priority_cache[pid]
                == app.priority_cache[pid]
            &&& after == (AppView {
                process_rows: after.process_rows,
                filtered_rows: after.filtered_rows,
                cpu_history: after.cpu_history,
                priority_cache: after.priority_cache,
                process_stable_order: after.process_stable_order,
                next_process_order: after.next_process_order,
                process_view: after.process_view,
                grouped_process_view: after.grouped_process_view,
                ..app
            })
        }),
{
    let pids = sampled_pids(samples);
    if exists|i: int| 0 <= i < samples.len() && (#[trigger] samples[i]).pid == pid {
        let i = choose|i: int| 0 <= i < samples.len() && (#[trigger] samples[i]).pid == pid;
        assert(pids[i] == pid);
    }
    if pids.contains(pid) {
        let i = choose|i: int| 0 <= i < pids.len() && pids[i] == pid;
        assert(samples[i].pid == pid);
    }
}

/// A process that appears before another gets the lower rank.
proof fn lemma_ranks_follow_appearance(
    order: Map<u32, usize>,
    next: int,
    pids: Seq<u32>,
    first: u32,
    later: u32,
    at: int,
)
    requires
        0 <= next,
        next + pids.len() <= usize::MAX,
        !order.contains_key(first),
        !order.contains_key(later),
        0 <= at < pids.len(),
        pids[at] == first,
        !pids.take(at + 1).contains(later),
        pids.contains(later),
    ensures
        ranked(order, next, pids).0.contains_key(first),
        ranked(order, next, pids).0.contains_key(later),
        ranked(order, next, pids).0[first] < ranked(order, next, pids).0[later],
    decreases pids.len(),
{
    let front = pids.drop_last();
    let (before, free) = ranked(order, next, front);
    lemma_ranks_stay(order, next, front);
    lemma_ranks_stay(order, next, pids);
    let place = choose|k: int| 0 <= k < pids.len() && pids[k] == later;
    if place <= at {
        assert(pids.take(at + 1)[place] == later);
    }
    assert(front[at] == first);
    assert(front.contains(first));
    assert(front.take(at + 1) =~= pids.take(at + 1));
    if front.contains(later) {
        lemma_ranks_follow_appearance(order, next, front, first, later, at);
    } else {
        assert(pids.last() == later) by {
            if place < front.len() {
                assert(front[place] == later);
            }
        }
        assert(!before.contains_key(later));
        assert(before[first] < free);
    }
}

/// After a sampling every sampled process has a rank, and no other has one. A process that had a
/// rank keeps it. The others get ranks behind all that were given, in the order in which they
/// first appear.
pub proof fn new_processes_are_ranked_by_appearance(
    app: AppView,
    samples: Seq<ProcessSampleView>,
    window_pids: Seq<u32>,
    i: int,
    j: int,
)
    requires
        app.next_process_order + samples.len() <= usize::MAX,
        0 <= i < samples.len(),
        0 <= j < samples.len(),
    ensures
        ({
            let order = app.with_processes(samples, window_pids).process_stable_order;
            let next = app.with_processes(samples, window_pids).next_process_order;
            &&& order.contains_key(samples[i].pid)
            &&& app.process_stable_order.contains_key(samples[i].pid) ==> order[samples[i].pid]
                == app.process_stable_order[samples[i].pid]
            &&& !app.process_stable_order.contains_key(samples[i].pid) ==> app.next_process_order
                <= order[samples[i].pid] < next
            &&& !app.process_stable_order.contains_key(samples[i].pid)
                && !app.process_stable_order.contains_key(samples[j].pid) && (forall|k: int|
                0 <= k <= i ==> (#[trigger] samples[k]).pid != samples[j].pid)
                ==> order[samples[i].pid] < order[samples[j].pid]
            &&& forall|pid: u32| #[trigger]
                order.contains_key(pid) ==> exists|k: int|
                    0 <= k < samples.len() && (#[trigger] samples[k]).pid == pid
        }),
{
    let pids = sampled_pids(samples);
    let kept = app.process_stable_order.restrict(pids.to_set());
    let first = app.next_process_order as int;
    let after = app.with_processes(samples, window_pids);
    lemma_ranks_stay(kept, first, pids);
    assert(after.process_stable_order == ranked(kept, first, pids).0);
    assert(after.next_process_order == ranked(kept, first, pids).1);
    assert(pids[i] == samples[i].pid);
    assert(pids[j] == samples[j].pid);
    assert(pids.contains(samples[i].pid));
    assert(pids.contains(samples[j].pid));
    assert(pids.to_set().contains(samples[i].pid));
    assert(kept.contains_key(samples[i].pid) <==> app.process_stable_order.contains_key(
        samples[i].pid,
    ));
    if !app.process_stable_order.contains_key(samples[i].pid)
        && !app.process_stable_order.contains_key(samples[j].pid) && (forall|k: int|
        0 <= k <= i ==> (#[trigger] samples[k]).pid != samples[j].pid) {
        let early = pids.take(i + 1);
        assert(!early.contains(samples[j].pid)) by {
            if early.contains(samples[j].pid) {
                let k = choose|k: int| 0 <= k < early.len() && early[k] == samples[j].pid;
                assert(samples[k].pid == samples[j].pid);
            }
        }
        lemma_ranks_follow_appearance(kept, first, pids, samples[i].pid, samples[j].pid, i);
    }
    assert forall|pid: u32| #[trigger] after.process_stable_order.contains_key(pid) implies exists|
        k: int,
    |
        0 <= k < samples.len() && (#[trigger] samples[k]).pid == pid by {
        assert(pids.contains(pid)) by {
            if kept.contains_key(pid) {
                assert(pids.to_set().contains(pid));
            }
        }
        let k = choose|k: int| 0 <= k < pids.len() && pids[k] == pid;
        assert(samples[k].pid == pid);
    }
}

/// The name of an endpoint's owner is that of the last listed process with its number, if there
/// is one.
proof fn lemma_owner_is_listed(rows: Seq<ProcessRowView>, pid: u32)
    ensures
        (forall|k: int| 0 <= k < rows.len() ==> (#[trigger] rows[k]).pid != pid) ==> owner_name(
            rows,
            pid,
        ) == "<unknown>"@,
        forall|k: int|
            0 <= k < rows.len() && (#[trigger] rows[k]).pid == pid && (forall|n: int|
                k < n < rows.len() ==> (#[trigger] rows[n]).pid != pid) ==> owner_name(rows, pid)
                == rows[k].name,
    decreases rows.len(),
{
    if rows.len() > 0 {
        let front = rows.drop_last();
        lemma_owner_is_listed(front, pid);
        assert(rows[rows.len() - 1] == rows.last());
        if rows.last().pid != pid {
            if forall|k: int| 0 <= k < rows.len() ==> (#[trigger] rows[k]).pid != pid {
                assert forall|k: int| 0 <= k < front.len() implies (#[trigger] front[k]).pid
                    != pid by {
                    assert(front[k] == rows[k]);
                }
            }
            assert forall|k: int|
                0 <= k < rows.len() && (#[trigger] rows[k]).pid == pid && (forall|n: int|
                    k < n < rows.len() ==> (#[trigger] rows[n]).pid != pid) implies owner_name(
                rows,
                pid,
            ) == rows[k].name by {
                assert(front[k] == rows[k]);
                assert forall|n: int| k < n < front.len() implies (#[trigger] front[n]).pid
                    != pid by {
                    assert(front[n] == rows[n]);
                }
            }
        }
    }
}

/// After the endpoints were listed there is a row for each, in order, with its owner's number, its
/// two ends as addresses with ports, and its state. Its process is named as the list of
/// processes names it, and unknown if it is not listed there. Nothing else changes but the rows
/// that are found and the selection among them.
pub proof fn endpoint_rows_show_the_endpoints(
    app: AppView,
    owners: Seq<TcpPortOwnerView>,
    i: int,
    k: int,
)
    requires
        0 <= i < owners.len(),
    ensures
        ({
            let after = app.with_endpoints(owners);
            let row = after.network_rows[i];
            let rows = app.process_rows;
            &&& after.network_rows.len() == owners.len()
            &&& row.pid == owners[i].pid
            &&& row.local_endpoint == owners[i].local_addr + ":"@ + decimal(
                owners[i].local_port as nat,
            )
            &&& row.remote_endpoint == owners[i].remote_addr + ":"@ + decimal(
                owners[i].remote_port as nat,
            )
            &&& row.state == owners[i].state
            &&& (forall|n: int| 0 <= n < rows.len() ==> (#[trigger] rows[n]).pid != row.pid)
                ==> row.process_name == "<unknown>"@
            &&& 0 <= k < rows.len() && rows[k].pid == row.pid && (forall|n: int|
                k < n < rows.len() ==> (#[trigger] rows[n]).pid != row.pid) ==> row.process_name
                == rows[k].name
            &&& after == (AppView {
                network_rows: after.network_rows,
                filtered_network: after.filtered_network,
                network_view: after.network_view,
                ..app
            })
        }),
{
    lemma_owner_is_listed(app.process_rows, owners[i].pid);
}

/// What is shown of the whole system is what was measured, with the numbers of processes and
/// endpoints that are listed. The last sixty loads are kept, with the new one at the end.
pub proof fn summary_shows_what_was_measured(
    app: AppView,
    cpu_percent: CpuPercent,
    cpu_load: u64,
    used_memory: u64,
    total_memory: u64,
    memory_load: u64,
)
    ensures
        ({
            let after = app.with_summary(
                cpu_percent,
                cpu_load,
                used_memory,
                total_memory,
                memory_load,
            );
            let cpu = app.system_cpu_history.push(cpu_load);
            let memory = app.system_memory_history.push(memory_load);
            &&& after.summary.cpu_percent == cpu_percent
            &&& after.summary.used_memory == used_memory
            &&& after.summary.total_memory == total_memory
            &&& app.process_rows.len() <= usize::MAX ==> after.summary.process_count
                == app.process_rows.len()
            &&& app.network_rows.len() <= usize::MAX ==> after.summary.tcp_endpoint_count
                == app.network_rows.len()
            &&& after.system_cpu_history == (if cpu.len() <= 60 {
                cpu
            } else {
                cpu.subrange(cpu.len() - 60, cpu.len() as int)
            })
            &&& after.system_memory_history == (if memory.len() <= 60 {
                memory
            } else {
                memory.subrange(memory.len() - 60, memory.len() as int)
            })
            &&& after == (AppView {
                summary: after.summary,
                system_cpu_history: after.system_cpu_history,
                system_memory_history: after.system_memory_history,
                ..app
            })
        }),
{
    let cpu = app.system_cpu_history.push(cpu_load);
    let memory = app.system_memory_history.push(memory_load);
    if cpu.len() > 60 {
        assert(cpu.skip(cpu.len() - 60) =~= cpu.subrange(cpu.len() - 60, cpu.len() as int));
    }
    if memory.len() > 60 {
        assert(memory.skip(memory.len() - 60) =~= memory.subrange(
            memory.len() - 60,
            memory.len() as int,
        ));
    }
}

/// Of the loads of a process the last three are kept and averaged, with the new one at the end;
/// the loads of other processes stay as they are.
pub proof fn the_last_three_loads_are_averaged(app: AppView, pid: u32, other: u32, load: CpuPercent)
    ensures
        ({
            let before = if app.cpu_history.contains_key(pid) {
                app.cpu_history[pid]
            } else {
                Seq::empty()
            };
            let all = before.push(load);
            let recent = app.loads_with(pid, load);
            let after = app.with_load(pid, load);
            &&& recent == (if all.len() <= 3 {
                all
            } else {
                all.subrange(all.len() - 3, all.len() as int)
            })
            &&& after.cpu_history.contains_key(pid) && after.cpu_history[pid] == recent
            &&& other != pid ==> (after.cpu_history.contains_key(other)
                == app.cpu_history.contains_key(other)) && (app.cpu_history.contains_key(other)
                ==> after.cpu_history[other] == app.cpu_history[other])
            &&& after == (AppView { cpu_history: after.cpu_history, ..app })
        }),
{
    let all = app.recent_loads(pid).push(load);
    if all.len() > 3 {
        assert(all.skip(all.len() - 3) =~= all.subrange(all.len() - 3, all.len() as int));
    }
}

/// What was looked up last of a process is what is known of it; what is known of the others stays.
proof fn lemma_cache_holds_the_found(
    cache: Map<u32, Seq<char>>,
    found: Seq<(u32, ProcessPriority)>,
    pid: u32,
)
    ensures
        (forall|k: int| 0 <= k < found.len() ==> (#[trigger] found[k]).0 != pid) ==> (cached(
            cache,
            found,
        ).contains_key(pid) == cache.contains_key(pid)) && (cache.contains_key(pid) ==> cached(
            cache,
            found,
        )[pid] == cache[pid]),
        forall|k: int|
            0 <= k < found.len() && (#[trigger] found[k]).0 == pid && (forall|n: int|
                k < n < found.len() ==> (#[trigger] found[n]).0 != pid) ==> cached(
                cache,
                found,
            ).contains_key(pid) && cached(cache, found)[pid] == found[k].1.word(),
    decreases found.len(),
{
    if found.len() > 0 {
        let front = found.drop_last();
        lemma_cache_holds_the_found(cache, front, pid);
        assert(found[found.len() - 1] == found.last());
        if found.last().0 != pid {
            if forall|k: int| 0 <= k < found.len() ==> (#[trigger] found[k]).0 != pid {
                assert forall|k: int| 0 <= k < front.len() implies (#[trigger] front[k]).0
                    != pid by {
                    assert(front[k] == found[k]);
                }
            }
            assert forall|k: int|
                0 <= k < found.len() && (#[trigger] found[k]).0 == pid && (forall|n: int|
                    k < n < found.len() ==> (#[trigger] found[n]).0 != pid) implies cached(
                cache,
                found,
            ).contains_key(pid) && cached(cache, found)[pid] == found[k].1.word() by {
                assert(front[k] == found[k]);
                assert forall|n: int| k < n < front.len() implies (#[trigger] front[n]).0
                    != pid by {
                    assert(front[n] == found[n]);
                }
            }
        }
    }
}

/// A looked-up priority that is not the known one is news.
proof fn lemma_news(
    cache: Map<u32, Seq<char>>,
    found: Seq<(u32, ProcessPriority)>,
    k: int,
)
    requires
        forall|a: int, b: int|
            0 <= a < b < found.len() ==> (#[trigger] found[a]).0 != (#[trigger] found[b]).0,
        0 <= k < found.len(),
        !(cache.contains_key(found[k].0) && cache[found[k].0] == found[k].1.word()),
    ensures
        brings_news(cache, found),
    decreases found.len(),
{
    let front = found.drop_last();
    assert forall|a: int, b: int| 0 <= a < b < front.len() implies (#[trigger] front[a]).0 != (
    #[trigger] front[b]).0 by {
        assert(front[a] == found[a] && front[b] == found[b]);
    }
    if k < front.len() {
        assert(front[k] == found[k]);
        lemma_news(cache, front, k);
    } else {
        assert forall|n: int| 0 <= n < front.len() implies (#[trigger] front[n]).0
            != found[k].0 by {
            assert(front[n] == found[n]);
        }
        lemma_cache_holds_the_found(cache, front, found[k].0);
    }
}

/// After priorities were looked up, one for each process, each of them is the known one, in the
/// words for priorities, and what was known of other processes stays. If one of them was not
/// known, every listed process shows what is now known of it, and is otherwise as it was.
pub proof fn found_priorities_are_shown(
    app: AppView,
    found: Seq<(u32, ProcessPriority)>,
    k: int,
    pid: u32,
    i: int,
)
    requires
        forall|a: int, b: int|
            0 <= a < b < found.len() ==> (#[trigger] found[a]).0 != (#[trigger] found[b]).0,
        0 <= k < found.len(),
        0 <= i < app.process_rows.len(),
    ensures
        ({
            let after = app.with_found_priorities(found);
            let cache = after.priority_cache;
            let row = after.process_rows[i];
            let news = !app.priority_cache.contains_key(found[k].0)
                || app.priority_cache[found[k].0] != found[k].1.word();
            &&& cache.contains_key(found[k].0) && cache[found[k].0] == found[k].1.word()
            &&& (forall|n: int| 0 <= n < found.len() ==> (#[trigger] found[n]).0 != pid) ==> (
            cache.contains_key(pid) == app.priority_cache.contains_key(pid)) && (cache.contains_key(
                pid,
            ) ==> cache[pid] == app.priority_cache[pid])
            &&& after.process_rows.len() == app.process_rows.len()
            &&& row == (ProcessRowView { priority: row.priority, ..app.process_rows[i] })
            &&& news && cache.contains_key(row.pid) ==> row.priority == cache[row.pid]
            &&& news && !cache.contains_key(row.pid) ==> row.priority == "unknown"@
            &&& after == (AppView {
                process_rows: after.process_rows,
                filtered_rows: after.filtered_rows,
                priority_cache: cache,
                process_view: after.process_view,
                grouped_process_view: after.grouped_process_view,
                ..app
            })
        }),
{
    let cache = cached(app.priority_cache, found);
    let after = app.with_found_priorities(found);
    assert(after.priority_cache == cache);
    lemma_cache_holds_the_found(app.priority_cache, found, pid);
    lemma_cache_holds_the_found(app.priority_cache, found, found[k].0);
    assert forall|n: int| k < n < found.len() implies (#[trigger] found[n]).0 != found[k].0 by {}
    if !(app.priority_cache.contains_key(found[k].0) && app.priority_cache[found[k].0]
        == found[k].1.word()) {
        lemma_news(app.priority_cache, found, k);
        assert(after.process_rows == with_priorities(app.process_rows, cache));
    }
}

/// What is known of a process sample is what it holds.
pub proof fn sample_models_show_what_is_held(sample: ProcessSample)
    ensures
        sample@.pid == sample.pid,
        sample@.parent_pid == sample.parent_pid,
        sample@.name == sample.name@,
        sample@.exe_path is Some == sample.exe_path is Some,
        sample.exe_path matches Some(path) ==> sample@.exe_path == Some(path@),
        sample@.cpu_percent == sample.cpu_percent,
        sample@.memory_bytes == sample.memory_bytes,
        sample@.runtime_secs == sample.runtime_secs,
{
}

/// Priorities that are all known already bring no news.
proof fn lemma_all_known(cache: Map<u32, Seq<char>>, found: Seq<(u32, ProcessPriority)>)
    requires
        forall|k: int|
            0 <= k < found.len() ==> cache.contains_key((#[trigger] found[k]).0)
                && cache[found[k].0] == found[k].1.word(),
    ensures
        !brings_news(cache, found),
    decreases found.len(),
{
    if found.len() > 0 {
        let front = found.drop_last();
        assert forall|k: int| 0 <= k < front.len() implies cache.contains_key(
            (#[trigger] front[k]).0,
        ) && cache[front[k].0] == front[k].1.word() by {
            assert(front[k] == found[k]);
        }
        lemma_all_known(cache, front);
        lemma_no_news(cache, front);
        assert(found[found.len() - 1] == found.last());
    }
}

/// Priorities that are known already change nothing, not even the selection.
pub proof fn nothing_new_changes_nothing(app: AppView, found: Seq<(u32, ProcessPriority)>)
    requires
        forall|k: int|
            0 <= k < found.len() ==> app.priority_cache.contains_key((#[trigger] found[k]).0)
                && app.priority_cache[found[k].0] == found[k].1.word(),
    ensures
        app.with_found_priorities(found) == app,
{
    lemma_all_known(app.priority_cache, found);
    known_priorities_change_nothing(app, found);
}

/// The processes are sampled every second, and the services and the priorities every five seconds,
/// or at once if they are asked for.
pub proof fn refreshes_are_due_by_time(
    elapsed: u64,
    force: bool,
    processes: bool,
    services: bool,
    priorities: bool,
)
    requires
        call_ensures(process_refresh_due, (elapsed,), processes),
        call_ensures(service_refresh_due, (force, elapsed), services),
        call_ensures(priority_refresh_due, (force, elapsed), priorities),
    ensures
        processes <==> elapsed >= 1000,
        services <==> force || elapsed >= 5000,
        priorities <==> force || elapsed >= 5000,
{
}

} // verus!
