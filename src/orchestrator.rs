//! The host registry and the planning and bookkeeping of rolling fleet
//! updates.
//!
//! The registry owns the configuration of every registered host, keyed by a
//! unique name, in registration order. A fleet update selects hosts through a
//! filter, cuts the selection into consecutive batches, and counts per-host
//! outcomes batch by batch; the caller runs the hosts of one batch in
//! parallel, waits for all of them, and pauses between batches.

use vstd::prelude::*;
use crate::config::{FleetFilter, FleetUpdateConfig, HostConfig};
use crate::error::CoreError;
use crate::host::copy_strings;
use crate::message::{FleetUpdateProgress, InventoryResult, UpdateResult};

verus! {

/// Whether some element of `names` reads `n`.
pub open spec fn has_name(names: Seq<String>, n: Seq<char>) -> bool {
    exists|k: int| 0 <= k < names.len() && names[k]@ == n
}

/// Whether some element of `wanted` is among `tags`.
pub open spec fn shares_tag(wanted: Seq<String>, tags: Seq<String>) -> bool {
    exists|i: int| 0 <= i < wanted.len() && has_name(tags, wanted[i]@)
}

/// Whether the filter selects a host: it is not excluded, and when the
/// filter names tags, the host carries at least one of them.
pub open spec fn selected(c: HostConfig, f: Option<FleetFilter>) -> bool {
    match f {
        None => true,
        Some(f) => !has_name(f.exclude_hosts@, c.name@) && (f.tags@.len() == 0 || shares_tag(
            f.tags@,
            c.tags@,
        )),
    }
}

/// Names of the selected hosts, in registration order.
pub open spec fn targets(hosts: Seq<HostConfig>, f: Option<FleetFilter>) -> Seq<Seq<char>>
    decreases hosts.len(),
{
    if hosts.len() == 0 {
        Seq::empty()
    } else {
        let rest = targets(hosts.drop_last(), f);
        if selected(hosts.last(), f) {
            rest.push(hosts.last().name@)
        } else {
            rest
        }
    }
}

/// `s` cut into consecutive pieces of `b` elements; the last piece may be
/// shorter. Size zero gives no pieces.
pub open spec fn chunked(s: Seq<String>, b: nat) -> Seq<Seq<String>>
    decreases s.len(),
{
    if b == 0 || s.len() == 0 {
        Seq::empty()
    } else {
        let k = if s.len() < b {
            s.len()
        } else {
            b
        };
        seq![s.take(k as int)] + chunked(s.skip(k as int), b)
    }
}

/// Total number of elements of a list of pieces.
pub open spec fn total_len(bs: Seq<Seq<String>>) -> nat
    decreases bs.len(),
{
    if bs.len() == 0 {
        0
    } else {
        bs[0].len() + total_len(bs.drop_first())
    }
}

/// The texts of a list of strings.
pub open spec fn texts(v: Seq<String>) -> Seq<Seq<char>> {
    v.map_values(|s: String| s@)
}

/// The contents of a list of batches.
pub open spec fn batch_views(bs: Seq<Vec<String>>) -> Seq<Seq<String>> {
    bs.map_values(|v: Vec<String>| v@)
}

/// Unique names.
pub open spec fn names_unique(hosts: Seq<HostConfig>) -> bool {
    forall|i: int, j: int| 0 <= i < j < hosts.len() ==> hosts[i].name@ != hosts[j].name@
}

/// Whether a registered host is named `n`.
pub open spec fn registered(hosts: Seq<HostConfig>, n: Seq<char>) -> bool {
    exists|i: int| 0 <= i < hosts.len() && hosts[i].name@ == n
}

/// Whether the text `n` is in `names`.
pub fn list_has(names: &Vec<String>, n: &String) -> (r: bool)
    ensures
        r == has_name(names@, n@),
{
    let mut k: usize = 0;
    while k < names.len()
        invariant
            k <= names@.len(),
            forall|j: int| 0 <= j < k ==> names@[j]@ != n@,
        decreases names@.len() - k,
    {
        if names[k] == *n {
            return true;
        }
        k = k + 1;
    }
    false
}

fn any_shared(wanted: &Vec<String>, tags: &Vec<String>) -> (r: bool)
    ensures
        r == shares_tag(wanted@, tags@),
{
    let mut i: usize = 0;
    while i < wanted.len()
        invariant
            i <= wanted@.len(),
            forall|j: int| 0 <= j < i ==> !has_name(tags@, wanted@[j]@),
        decreases wanted@.len() - i,
    {
        if list_has(tags, &wanted[i]) {
            return true;
        }
        i = i + 1;
    }
    false
}

/// Whether the filter selects the host `c`.
pub fn is_selected(c: &HostConfig, f: &Option<FleetFilter>) -> (r: bool)
    ensures
        r == selected(*c, *f),
{
    match f {
        None => true,
        Some(f) => {
            if list_has(&f.exclude_hosts, &c.name) {
                false
            } else if f.tags.len() == 0 {
                true
            } else {
                any_shared(&f.tags, &c.tags)
            }
        },
    }
}

proof fn lemma_chunked_step(s: Seq<String>, b: nat, pos: int, k: int)
    requires
        b > 0,
        0 <= pos < s.len(),
        k == (if s.len() - pos < b {
            s.len() - pos
        } else {
            b as int
        }),
    ensures
        chunked(s.skip(pos), b) == seq![s.subrange(pos, pos + k)] + chunked(s.skip(pos + k), b),
{
    let t = s.skip(pos);
    assert(t.take(k) =~= s.subrange(pos, pos + k));
    assert(t.skip(k) =~= s.skip(pos + k));
}

/// Cuts `targets` into consecutive batches of `batch_size` hosts; the last
/// batch may be shorter. A batch size of zero gives no batches.
pub fn plan_batches(targets: &Vec<String>, batch_size: usize) -> (r: Vec<Vec<String>>)
    ensures
        batch_views(r@) == chunked(targets@, batch_size as nat),
{
    let mut out: Vec<Vec<String>> = Vec::new();
    if batch_size == 0 {
        proof {
            assert(batch_views(out@) =~= chunked(targets@, batch_size as nat));
        }
        return out;
    }
    let n = targets.len();
    let mut pos: usize = 0;
    proof {
        assert(targets@.skip(0) =~= targets@);
        assert(batch_views(out@) + chunked(targets@.skip(0), batch_size as nat) =~= chunked(
            targets@,
            batch_size as nat,
        ));
    }
    while pos < n
        invariant
            n == targets@.len(),
            batch_size > 0,
            pos <= n,
            batch_views(out@) + chunked(targets@.skip(pos as int), batch_size as nat) == chunked(
                targets@,
                batch_size as nat,
            ),
        decreases n - pos,
    {
        let k: usize = if n - pos < batch_size {
            n - pos
        } else {
            batch_size
        };
        let mut chunk: Vec<String> = Vec::new();
        let mut j: usize = 0;
        while j < k
            invariant
                pos + k <= n,
                n == targets@.len(),
                j <= k,
                chunk@ == targets@.subrange(pos as int, pos + j),
            decreases k - j,
        {
            chunk.push(targets[pos + j].clone());
            j = j + 1;
            proof {
                assert(chunk@ =~= targets@.subrange(pos as int, pos + j));
            }
        }
        proof {
            lemma_chunked_step(targets@, batch_size as nat, pos as int, k as int);
            let before = batch_views(out@);
            assert(batch_views(out@.push(chunk)) =~= before.push(chunk@));
            assert(before.push(chunk@) + chunked(targets@.skip(pos + k), batch_size as nat)
                =~= before + (seq![chunk@] + chunked(targets@.skip(pos + k), batch_size as nat)));
        }
        out.push(chunk);
        pos = pos + k;
    }
    proof {
        assert(targets@.skip(n as int) =~= Seq::<String>::empty());
        assert(batch_views(out@) + Seq::<Seq<String>>::empty() =~= batch_views(out@));
    }
    out
}

/// Registry of the managed hosts.
pub struct OrchestratorActor {
    configs: Vec<HostConfig>,
}

impl OrchestratorActor {
    /// The registered hosts, in registration order.
    pub closed spec fn hosts(&self) -> Seq<HostConfig> {
        self.configs@
    }

    /// Host names are unique.
    pub open spec fn wf(&self) -> bool {
        names_unique(self.hosts())
    }

    /// An empty registry.
    pub fn new() -> (r: Self)
        ensures
            r.wf(),
            r.hosts().len() == 0,
    {
        OrchestratorActor { configs: Vec::new() }
    }

    /// Number of registered hosts.
    pub fn host_count(&self) -> (r: usize)
        ensures
            r == self.hosts().len(),
    {
        self.configs.len()
    }

    /// Position of the host named `name`.
    fn position(&self, name: &String) -> (r: Option<usize>)
        requires
            self.wf(),
        ensures
            match r {
                Some(i) => i < self.hosts().len() && self.hosts()[i as int].name@ == name@,
                None => !registered(self.hosts(), name@),
            },
    {
        let mut i: usize = 0;
        while i < self.configs.len()
            invariant
                i <= self.configs@.len(),
                forall|j: int| 0 <= j < i ==> self.configs@[j].name@ != name@,
            decreases self.configs@.len() - i,
        {
            if self.configs[i].name == *name {
                return Some(i);
            }
            i = i + 1;
        }
        None
    }

    /// Whether a host named `name` is registered.
    pub fn contains_host(&self, name: &String) -> (r: bool)
        requires
            self.wf(),
        ensures
            r == registered(self.hosts(), name@),
    {
        match self.position(name) {
            Some(_) => true,
            None => false,
        }
    }

    /// The settings of the host named `name`.
    pub fn host_config(&self, name: &String) -> (r: Result<&HostConfig, CoreError>)
        requires
            self.wf(),
        ensures
            registered(self.hosts(), name@) ==> r is Ok && r->Ok_0.name@ == name@ && exists|
                i: int,
            |
                0 <= i < self.hosts().len() && self.hosts()[i] == *r->Ok_0,
            !registered(self.hosts(), name@) ==> r == Err::<&HostConfig, CoreError>(
                CoreError::HostNotFound(*name),
            ),
    {
        match self.position(name) {
            Some(i) => Ok(&self.configs[i]),
            None => Err(CoreError::HostNotFound(name.clone())),
        }
    }

    /// Registers a host under its name; fails when the name is taken.
    pub fn register_host(&mut self, config: HostConfig) -> (r: Result<(), CoreError>)
        requires
            old(self).wf(),
        ensures
            final(self).wf(),
            registered(old(self).hosts(), config.name@) ==> {
                &&& r == Err::<(), CoreError>(CoreError::HostAlreadyExists(config.name))
                &&& final(self).hosts() == old(self).hosts()
            },
            !registered(old(self).hosts(), config.name@) ==> {
                &&& r is Ok
                &&& final(self).hosts() == old(self).hosts().push(config)
            },
    {
        if self.contains_host(&config.name) {
            return Err(CoreError::HostAlreadyExists(config.name));
        }
        self.configs.push(config);
        proof {
            assert forall|i: int, j: int| 0 <= i < j < self.configs@.len() implies self.configs@[i].name@
                != self.configs@[j].name@ by {
                if j == self.configs@.len() - 1 {
                    assert(self.configs@[i] == old(self).configs@[i]);
                }
            }
        }
        Ok(())
    }

    /// Removes the host named `name` and hands back its settings; fails when
    /// no such host is registered.
    pub fn unregister_host(&mut self, name: &String) -> (r: Result<HostConfig, CoreError>)
        requires
            old(self).wf(),
        ensures
            final(self).wf(),
            !registered(final(self).hosts(), name@),
            !registered(old(self).hosts(), name@) ==> {
                &&& r == Err::<HostConfig, CoreError>(CoreError::HostNotFound(*name))
                &&& final(self).hosts() == old(self).hosts()
            },
            registered(old(self).hosts(), name@) ==> exists|i: int|
                0 <= i < old(self).hosts().len() && old(self).hosts()[i].name@ == name@ && r
                    == Ok::<HostConfig, CoreError>(old(self).hosts()[i]) && final(self).hosts()
                    == old(self).hosts().remove(i),
    {
        match self.position(name) {
            None => Err(CoreError::HostNotFound(name.clone())),
            Some(i) => {
                let c = self.configs.remove(i);
                proof {
                    let o = old(self).configs@;
                    assert forall|a: int, b: int| 0 <= a < b < self.configs@.len() implies self.configs@[a].name@
                        != self.configs@[b].name@ by {
                        let a2 = if a < i { a } else { a + 1 };
                        let b2 = if b < i { b } else { b + 1 };
                        assert(self.configs@[a] == o[a2]);
                        assert(self.configs@[b] == o[b2]);
                    }
                    assert forall|k: int| 0 <= k < self.configs@.len() implies self.configs@[k].name@
                        != name@ by {
                        let k2 = if k < i { k } else { k + 1 };
                        assert(self.configs@[k] == o[k2]);
                    }
                }
                Ok(c)
            },
        }
    }

    /// Names of the hosts that the filter selects, in registration order.
    pub fn fleet_targets(&self, filter: &Option<FleetFilter>) -> (r: Vec<String>)
        ensures
            texts(r@) == targets(self.hosts(), *filter),
    {
        let mut out: Vec<String> = Vec::new();
        let mut i: usize = 0;
        while i < self.configs.len()
            invariant
                i <= self.configs@.len(),
                texts(out@) == targets(self.configs@.take(i as int), *filter),
            decreases self.configs@.len() - i,
        {
            let ghost before = out@;
            proof {
                assert(self.configs@.take(i + 1).drop_last() =~= self.configs@.take(i as int));
                assert(self.configs@.take(i + 1).last() == self.configs@[i as int]);
            }
            if is_selected(&self.configs[i], filter) {
                out.push(self.configs[i].name.clone());
                proof {
                    assert(texts(out@) =~= texts(before).push(self.configs@[i as int].name@));
                }
            }
            i = i + 1;
        }
        proof {
            assert(self.configs@.take(self.configs@.len() as int) =~= self.configs@);
        }
        out
    }

    /// Plans a rolling fleet update: the selected hosts cut into batches of
    /// `config.batch_size`. A batch size of zero selects no host.
    pub fn start_fleet_update(&self, config: &FleetUpdateConfig) -> (r: FleetRun)
        ensures
            r.wf(),
            r.batch_size() == config.batch_size,
            r.delay_ms() == config.delay_between_batches_ms,
            r.dry_run() == config.dry_run,
            r.next_index() == 0,
            r.progress_spec().in_progress == 0,
            r.progress_spec().completed == 0,
            r.progress_spec().failed == 0,
            config.batch_size == 0 ==> r.progress_spec().total_hosts == 0 && r.batches().len()
                == 0,
            config.batch_size > 0 ==> {
                &&& r.progress_spec().total_hosts == targets(self.hosts(), config.filter).len()
                &&& texts(flatten(r.batches())) == targets(self.hosts(), config.filter)
                &&& exists|t: Seq<String>|
                    texts(t) == targets(self.hosts(), config.filter) && r.batches() == chunked(
                        t,
                        config.batch_size as nat,
                    )
            },
    {
        let chosen = if config.batch_size == 0 {
            Vec::new()
        } else {
            self.fleet_targets(&config.filter)
        };
        let batches = plan_batches(&chosen, config.batch_size);
        proof {
            lemma_chunked_total(chosen@, config.batch_size as nat);
            if config.batch_size > 0 {
                lemma_chunked_flatten(chosen@, config.batch_size as nat);
                assert(texts(chosen@).len() == chosen@.len());
            }
            assert(batch_views(batches@).skip(0) =~= batch_views(batches@));
            chunked_bounds(chosen@, config.batch_size as nat);
            assert forall|i: int| 0 <= i < batches@.len() implies 0 < #[trigger] batches@[i]@.len()
                <= config.batch_size by {
                assert(batch_views(batches@)[i] == batches@[i]@);
            }
            if config.batch_size == 0 {
                assert(batch_views(batches@).len() == 0);
                assert(batch_views(batches@).skip(0) =~= Seq::<Seq<String>>::empty());
            }
        }
        FleetRun {
            batches,
            next: 0,
            total: chosen.len(),
            completed: 0,
            failed: 0,
            in_progress: 0,
            batch_size: config.batch_size,
            delay_ms: config.delay_between_batches_ms,
            dry_run: config.dry_run,
        }
    }
}

/// The elements of all pieces, in order.
pub open spec fn flatten(bs: Seq<Seq<String>>) -> Seq<String>
    decreases bs.len(),
{
    if bs.len() == 0 {
        Seq::empty()
    } else {
        bs[0] + flatten(bs.drop_first())
    }
}

proof fn lemma_chunked_total(s: Seq<String>, b: nat)
    ensures
        b > 0 ==> total_len(chunked(s, b)) == s.len(),
        b == 0 ==> chunked(s, b).len() == 0,
    decreases s.len(),
{
    if b > 0 && s.len() > 0 {
        let k = if s.len() < b {
            s.len()
        } else {
            b
        };
        lemma_chunked_total(s.skip(k as int), b);
        let c = chunked(s, b);
        assert(c.drop_first() =~= chunked(s.skip(k as int), b));
    }
}

proof fn lemma_chunked_flatten(s: Seq<String>, b: nat)
    requires
        b > 0,
    ensures
        flatten(chunked(s, b)) == s,
    decreases s.len(),
{
    if s.len() == 0 {
        assert(flatten(chunked(s, b)) =~= s);
    } else {
        let k = if s.len() < b {
            s.len()
        } else {
            b
        };
        lemma_chunked_flatten(s.skip(k as int), b);
        let c = chunked(s, b);
        assert(c.drop_first() =~= chunked(s.skip(k as int), b));
        assert(s.take(k as int) + s.skip(k as int) =~= s);
    }
}

/// Every piece of `chunked(s, b)` holds between one and `b` elements.
proof fn chunked_bounds(s: Seq<String>, b: nat)
    ensures
        forall|i: int|
            0 <= i < chunked(s, b).len() ==> 0 < #[trigger] chunked(s, b)[i].len() <= b,
    decreases s.len(),
{
    if b > 0 && s.len() > 0 {
        let k = if s.len() < b {
            s.len()
        } else {
            b
        };
        chunked_bounds(s.skip(k as int), b);
        let c = chunked(s, b);
        assert forall|i: int| 0 <= i < c.len() implies 0 < #[trigger] c[i].len() <= b by {
            if i > 0 {
                assert(c[i] == chunked(s.skip(k as int), b)[i - 1]);
            }
        }
    }
}

/// Bookkeeping of one rolling fleet update. The caller takes one batch at a
/// time with `next_batch`, runs an inventory query followed by an update on
/// each of its hosts in parallel, reports the per-host outcomes with
/// `record_batch`, and pauses for `pause_ms()` before the next batch.
pub struct FleetRun {
    batches: Vec<Vec<String>>,
    next: usize,
    total: usize,
    completed: usize,
    failed: usize,
    in_progress: usize,
    batch_size: usize,
    delay_ms: u64,
    dry_run: bool,
}

impl FleetRun {
    /// The planned batches.
    pub closed spec fn batches(&self) -> Seq<Seq<String>> {
        batch_views(self.batches@)
    }

    /// Index of the next batch to run.
    pub closed spec fn next_index(&self) -> nat {
        self.next as nat
    }

    /// Maximum number of hosts of one batch.
    pub closed spec fn batch_size(&self) -> usize {
        self.batch_size
    }

    /// Pause between batches, in milliseconds.
    pub closed spec fn delay_ms(&self) -> u64 {
        self.delay_ms
    }

    /// Whether upgrades are simulated.
    pub closed spec fn dry_run(&self) -> bool {
        self.dry_run
    }

    /// The counts so far.
    pub closed spec fn progress_spec(&self) -> FleetUpdateProgress {
        FleetUpdateProgress {
            total_hosts: self.total,
            completed: self.completed,
            failed: self.failed,
            in_progress: self.in_progress,
        }
    }

    /// Every selected host is counted exactly once: completed, failed,
    /// running in the current batch, or waiting in a later batch. No batch
    /// holds more than `batch_size` hosts.
    pub closed spec fn wf(&self) -> bool {
        &&& self.next <= self.batches@.len()
        &&& self.completed + self.failed + self.in_progress + total_len(
            self.batches().skip(self.next as int),
        ) == self.total
        &&& self.in_progress <= self.batch_size
        &&& (self.in_progress > 0 ==> self.next > 0 && self.in_progress == self.batches@[self.next
            - 1]@.len())
        &&& forall|i: int|
            0 <= i < self.batches@.len() ==> 0 < #[trigger] self.batches@[i]@.len()
                <= self.batch_size
    }

    /// Whether every batch has run and been reported.
    pub closed spec fn finished(&self) -> bool {
        self.next == self.batches@.len() && self.in_progress == 0
    }

    /// The counts so far.
    pub fn progress(&self) -> (r: FleetUpdateProgress)
        ensures
            r == self.progress_spec(),
    {
        FleetUpdateProgress {
            total_hosts: self.total,
            completed: self.completed,
            failed: self.failed,
            in_progress: self.in_progress,
        }
    }

    /// Whether every batch has run and been reported.
    pub fn is_finished(&self) -> (r: bool)
        ensures
            r == self.finished(),
    {
        self.next == self.batches.len() && self.in_progress == 0
    }

    /// Whether upgrades are simulated.
    pub fn is_dry_run(&self) -> (r: bool)
        ensures
            r == self.dry_run(),
    {
        self.dry_run
    }

    /// Takes the next batch to run, or `None` when all batches have run.
    /// Its hosts count as in progress until `record_batch`.
    pub fn next_batch(&mut self) -> (r: Option<Vec<String>>)
        requires
            old(self).wf(),
            old(self).progress_spec().in_progress == 0,
        ensures
            final(self).wf(),
            final(self).batches() == old(self).batches(),
            final(self).batch_size() == old(self).batch_size(),
            final(self).delay_ms() == old(self).delay_ms(),
            final(self).dry_run() == old(self).dry_run(),
            old(self).next_index() < old(self).batches().len() ==> {
                &&& r is Some
                &&& r->Some_0@ == old(self).batches()[old(self).next_index() as int]
                &&& final(self).next_index() == old(self).next_index() + 1
                &&& final(self).progress_spec() == (FleetUpdateProgress {
                    in_progress: r->Some_0@.len() as usize,
                    ..old(self).progress_spec()
                })
            },
            old(self).next_index() >= old(self).batches().len() ==> {
                &&& r is None
                &&& *final(self) == *old(self)
            },
    {
        if self.next >= self.batches.len() {
            return None;
        }
        let batch = copy_strings(&self.batches[self.next]);
        proof {
            let bs = self.batches();
            let n = self.next as int;
            assert(bs.skip(n).drop_first() =~= bs.skip(n + 1));
            assert(bs.skip(n)[0] == bs[n]);
        }
        self.in_progress = batch.len();
        self.next = self.next + 1;
        Some(batch)
    }

    /// Counts the outcomes of the batch in progress: `true` for a host whose
    /// inventory query and update both succeeded, `false` otherwise.
    pub fn record_batch(&mut self, outcomes: &Vec<bool>)
        requires
            old(self).wf(),
            outcomes@.len() == old(self).progress_spec().in_progress,
        ensures
            final(self).wf(),
            final(self).batches() == old(self).batches(),
            final(self).next_index() == old(self).next_index(),
            final(self).batch_size() == old(self).batch_size(),
            final(self).delay_ms() == old(self).delay_ms(),
            final(self).dry_run() == old(self).dry_run(),
            final(self).progress_spec().in_progress == 0,
            final(self).progress_spec().total_hosts == old(self).progress_spec().total_hosts,
            final(self).progress_spec().completed == old(self).progress_spec().completed
                + successes(outcomes@),
            final(self).progress_spec().completed + final(self).progress_spec().failed
                == old(self).progress_spec().completed + old(self).progress_spec().failed
                + outcomes@.len(),
    {
        let mut k: usize = 0;
        let mut good: usize = 0;
        while k < outcomes.len()
            invariant
                k <= outcomes@.len(),
                good == successes(outcomes@.take(k as int)),
                good <= k,
            decreases outcomes@.len() - k,
        {
            proof {
                assert(outcomes@.take(k + 1).drop_last() =~= outcomes@.take(k as int));
            }
            if outcomes[k] {
                good = good + 1;
            }
            k = k + 1;
        }
        proof {
            assert(outcomes@.take(outcomes@.len() as int) =~= outcomes@);
        }
        self.completed = self.completed + good;
        self.failed = self.failed + (outcomes.len() - good);
        self.in_progress = 0;
    }

    /// How long to pause before the next batch: the configured delay while
    /// batches remain, zero after the last batch.
    pub fn pause_ms(&self) -> (r: u64)
        ensures
            self.next_index() < self.batches().len() ==> r == self.delay_ms(),
            self.next_index() >= self.batches().len() ==> r == 0,
    {
        if self.next < self.batches.len() {
            self.delay_ms
        } else {
            0
        }
    }
}

/// Number of `true` outcomes.
pub open spec fn successes(s: Seq<bool>) -> nat
    decreases s.len(),
{
    if s.len() == 0 {
        0
    } else {
        successes(s.drop_last()) + if s.last() {
            1nat
        } else {
            0nat
        }
    }
}

/// Whether one host of a fleet update completed: its inventory query and
/// its update both succeeded.
pub fn host_completed(
    query: &Result<InventoryResult, CoreError>,
    update: &Result<UpdateResult, CoreError>,
) -> (r: bool)
    ensures
        r == (query is Ok && update is Ok),
{
    query.is_ok() && update.is_ok()
}

/// When a fleet update has run all its batches, every selected host is
/// counted as completed or failed and none is in progress; at every point no
/// more than `batch_size` hosts are in progress.
pub proof fn lemma_fleet_totals(run: FleetRun)
    requires
        run.wf(),
    ensures
        run.progress_spec().in_progress <= run.batch_size(),
        run.finished() ==> run.progress_spec().completed + run.progress_spec().failed
            == run.progress_spec().total_hosts && run.progress_spec().in_progress == 0,
{
    if run.finished() {
        assert(run.batches().skip(run.next_index() as int) =~= Seq::<Seq<String>>::empty());
    }
}

/// A batch size of zero gives no batches.
pub proof fn lemma_zero_batch_size(s: Seq<String>)
    ensures
        chunked(s, 0).len() == 0,
{
}

/// When the batch size covers all selected hosts, they run in one batch.
pub proof fn lemma_single_batch(s: Seq<String>, b: nat)
    requires
        0 < s.len() <= b,
    ensures
        chunked(s, b) == seq![s],
{
    reveal_with_fuel(chunked, 2);
    assert(s.take(s.len() as int) =~= s);
    assert(s.skip(s.len() as int) =~= Seq::<String>::empty());
    assert(chunked(s.skip(s.len() as int), b) =~= Seq::<Seq<String>>::empty());
    assert(seq![s] + Seq::<Seq<String>>::empty() =~= seq![s]);
}

/// With no selected host there is no batch.
pub proof fn lemma_no_targets(s: Seq<String>, b: nat)
    requires
        s.len() == 0,
    ensures
        chunked(s, b).len() == 0,
{
}

} // verus!
