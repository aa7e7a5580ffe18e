//! Fetch coordination: one job per message at a time, and the plan of a
//! job's fetches, dispatched with bounded concurrency.
//!
//! The fetches themselves are awaited outside; the caller asks the window
//! which item to start next and reports each completion.

use vstd::prelude::*;
use std::collections::HashSet;
use crate::query_command::{DownloadFormat, DownloadTarget};

pub use crate::error::AlreadyDownloading;

verus! {

broadcast use vstd::std_specs::hash::group_hash_axioms;

/// How many files are fetched at a time: past 8 the gain of more
/// concurrent fetches was small.
pub const C: usize = 8;

/// The messages whose jobs are running, and how many files a job fetches
/// at a time.
pub struct Downloader {
    in_flight: HashSet<i32>,
    concurrency: usize,
}

/// The files of one job.
pub struct Tasks {
    pub message_id: i32,
    pub format: DownloadFormat,
    pub stickers: Vec<Task>,
}

/// One file: where the platform keeps it, the name it is given, and its
/// size in bytes as the platform announced it.
pub struct Task {
    pub path: String,
    pub name: String,
    pub size: u32,
}

/// The announced sizes of tasks, added up.
pub open spec fn sizes_sum(tasks: Seq<Task>) -> nat
    decreases tasks.len(),
{
    if tasks.len() == 0 {
        0
    } else {
        sizes_sum(tasks.drop_last()) + tasks.last().size as nat
    }
}

impl Tasks {
    /// The bytes the job will fetch, as announced; `u64::MAX` if more.
    pub fn total_size(&self) -> (r: u64)
        ensures
            r == if sizes_sum(self.stickers@) <= u64::MAX {
                sizes_sum(self.stickers@)
            } else {
                u64::MAX as nat
            },
    {
        let mut total: u64 = 0;
        let mut i: usize = 0;
        while i < self.stickers.len()
            invariant
                i <= self.stickers@.len(),
                total == if sizes_sum(self.stickers@.subrange(0, i as int)) <= u64::MAX {
                    sizes_sum(self.stickers@.subrange(0, i as int))
                } else {
                    u64::MAX as nat
                },
            decreases self.stickers@.len() - i,
        {
            assert(self.stickers@.subrange(0, i as int + 1).drop_last() =~= self.stickers@.subrange(
                0,
                i as int,
            ));
            total = total.saturating_add(self.stickers[i].size as u64);
            i = i + 1;
        }
        assert(self.stickers@.subrange(0, i as int) =~= self.stickers@);
        total
    }
}

/// One planned fetch: the name its result carries, and what to fetch.
pub struct Fetch {
    pub name: String,
    pub path: String,
}

impl Downloader {
    pub closed spec fn spec_in_flight(&self) -> Set<i32> {
        self.in_flight@
    }

    /// Whether a job for message `id` would be accepted now.
    pub open spec fn accepts(&self, id: i32) -> bool {
        !self.spec_in_flight().contains(id)
    }

    pub closed spec fn spec_concurrency(&self) -> usize {
        self.concurrency
    }

    pub closed spec fn wf(&self) -> bool {
        self.concurrency > 0
    }

    pub fn new() -> (r: Self)
        ensures
            r.wf(),
            r.spec_in_flight() == Set::<i32>::empty(),
            r.spec_concurrency() == C,
    {
        Downloader { in_flight: HashSet::new(), concurrency: C }
    }

    /// A registry whose jobs fetch `concurrency` files at a time.
    pub fn with_concurrency(concurrency: usize) -> (r: Self)
        requires
            concurrency > 0,
        ensures
            r.wf(),
            r.spec_in_flight() == Set::<i32>::empty(),
            r.spec_concurrency() == concurrency,
    {
        Downloader { in_flight: HashSet::new(), concurrency }
    }

    pub fn is_in_flight(&self, id: i32) -> (r: bool)
        ensures
            r == self.spec_in_flight().contains(id),
    {
        self.in_flight.contains(&id)
    }

    /// Accepts a job unless one for the same message is running; an
    /// accepted job holds its message until `finish`.
    pub fn download(&mut self, t: Tasks, target: DownloadTarget) -> (r: Result<FetchWindow, AlreadyDownloading>)
        requires
            old(self).wf(),
        ensures
            final(self).wf(),
            final(self).spec_concurrency() == old(self).spec_concurrency(),
            r is Ok <==> old(self).accepts(t.message_id),
            r is Err ==> final(self).spec_in_flight() == old(self).spec_in_flight(),
            r matches Err(AlreadyDownloading(x)) ==> x == target,
            r matches Ok(w) ==> {
                &&& final(self).spec_in_flight() == old(self).spec_in_flight().insert(t.message_id)
                &&& w.wf()
                &&& w.spec_job_id() == t.message_id
                &&& w.spec_limit() == old(self).spec_concurrency()
                &&& w.spec_next() == 0
                &&& w.spec_running() == 0
                &&& w.spec_landed() == 0
                &&& w.spec_items().len() == t.stickers@.len()
                &&& forall|i: int|
                    0 <= i < t.stickers@.len() ==> {
                        &&& (#[trigger] w.spec_items()[i]).path@ == t.stickers@[i].path@
                        &&& w.spec_items()[i].name@ == t.stickers@[i].name@
                    }
            },
    {
        if !self.in_flight.insert(t.message_id) {
            return Err(AlreadyDownloading(target));
        }
        let mut items: Vec<Fetch> = Vec::new();
        let mut i: usize = 0;
        while i < t.stickers.len()
            invariant
                i <= t.stickers@.len(),
                items@.len() == i,
                forall|j: int|
                    0 <= j < i ==> {
                        &&& (#[trigger] items@[j]).path@ == t.stickers@[j].path@
                        &&& items@[j].name@ == t.stickers@[j].name@
                    },
            decreases t.stickers@.len() - i,
        {
            let task = &t.stickers[i];
            let name = task.name.clone();
            let path = task.path.clone();
            items.push(Fetch { name, path });
            i = i + 1;
        }
        Ok(FetchWindow { job_id: t.message_id, items, limit: self.concurrency, next: 0, running: 0, landed: 0 })
    }

    /// Releases a job's message, whatever became of the job.
    pub fn finish(&mut self, id: i32)
        requires
            old(self).wf(),
        ensures
            final(self).wf(),
            final(self).spec_concurrency() == old(self).spec_concurrency(),
            final(self).spec_in_flight() == old(self).spec_in_flight().remove(id),
    {
        self.in_flight.remove(&id);
    }
}

/// While a job for a message runs, another for it is refused; once the job
/// is finished, a new one for the message is accepted.
pub proof fn lemma_one_job_per_message(before: Downloader, running: Downloader, after: Downloader, id: i32)
    requires
        before.accepts(id),
        running.spec_in_flight() == before.spec_in_flight().insert(id),
        after.spec_in_flight() == running.spec_in_flight().remove(id),
    ensures
        !running.accepts(id),
        after.accepts(id),
        after.spec_in_flight() == before.spec_in_flight(),
{
    assert(after.spec_in_flight() =~= before.spec_in_flight());
}

/// Finishing a job, whether its fetches were all consumed or were abandoned
/// part way, releases its message and no other.
pub proof fn lemma_finish_releases(running: Downloader, after: Downloader, id: i32)
    requires
        after.spec_in_flight() == running.spec_in_flight().remove(id),
    ensures
        !after.spec_in_flight().contains(id),
        forall|other: i32|
            other != id ==> (after.spec_in_flight().contains(other) <==> running.spec_in_flight().contains(
                other,
            )),
{
}

/// The fetches of one accepted job. Items `0 .. next` have been started;
/// `running` of them have not landed yet, and never more than `limit`.
pub struct FetchWindow {
    job_id: i32,
    items: Vec<Fetch>,
    limit: usize,
    next: usize,
    running: usize,
    landed: usize,
}

impl FetchWindow {
    pub closed spec fn spec_job_id(&self) -> i32 {
        self.job_id
    }

    pub closed spec fn spec_items(&self) -> Seq<Fetch> {
        self.items@
    }

    pub closed spec fn spec_limit(&self) -> usize {
        self.limit
    }

    pub closed spec fn spec_next(&self) -> usize {
        self.next
    }

    pub closed spec fn spec_running(&self) -> usize {
        self.running
    }

    pub closed spec fn spec_landed(&self) -> usize {
        self.landed
    }

    pub open spec fn wf(&self) -> bool {
        &&& self.spec_limit() > 0
        &&& self.spec_next() <= self.spec_items().len()
        &&& self.spec_running() <= self.spec_limit()
        &&& self.spec_landed() + self.spec_running() == self.spec_next()
    }

    pub open spec fn spec_done(&self) -> bool {
        self.spec_landed() == self.spec_items().len()
    }

    /// The message whose job this is.
    pub fn job_id(&self) -> (r: i32)
        ensures
            r == self.spec_job_id(),
    {
        self.job_id
    }

    /// The planned fetches, in the job's order.
    pub fn items(&self) -> (r: &Vec<Fetch>)
        ensures
            r@ == self.spec_items(),
    {
        &self.items
    }

    /// How many fetches may be unresolved at once.
    pub fn limit(&self) -> (r: usize)
        ensures
            r == self.spec_limit(),
    {
        self.limit
    }

    /// How many started fetches have not landed yet.
    pub fn running(&self) -> (r: usize)
        ensures
            r == self.spec_running(),
    {
        self.running
    }

    /// The item to start now, if the window has room and items are left.
    pub fn start_next(&mut self) -> (r: Option<usize>)
        requires
            old(self).wf(),
        ensures
            final(self).wf(),
            final(self).spec_items() == old(self).spec_items(),
            final(self).spec_job_id() == old(self).spec_job_id(),
            final(self).spec_limit() == old(self).spec_limit(),
            final(self).spec_landed() == old(self).spec_landed(),
            if old(self).spec_running() < old(self).spec_limit() && old(self).spec_next() < old(
                self,
            ).spec_items().len() {
                &&& r == Some(old(self).spec_next())
                &&& final(self).spec_next() == old(self).spec_next() + 1
                &&& final(self).spec_running() == old(self).spec_running() + 1
            } else {
                &&& r is None
                &&& final(self).spec_next() == old(self).spec_next()
                &&& final(self).spec_running() == old(self).spec_running()
            },
    {
        if self.running < self.limit && self.next < self.items.len() {
            let i = self.next;
            self.next = self.next + 1;
            self.running = self.running + 1;
            Some(i)
        } else {
            None
        }
    }

    /// Records that one started fetch has landed, with whatever outcome.
    pub fn landed(&mut self)
        requires
            old(self).wf(),
            old(self).spec_running() > 0,
        ensures
            final(self).wf(),
            final(self).spec_items() == old(self).spec_items(),
            final(self).spec_job_id() == old(self).spec_job_id(),
            final(self).spec_limit() == old(self).spec_limit(),
            final(self).spec_next() == old(self).spec_next(),
            final(self).spec_running() == old(self).spec_running() - 1,
            final(self).spec_landed() == old(self).spec_landed() + 1,
    {
        self.running = self.running - 1;
        self.landed = self.landed + 1;
    }

    /// Whether every item has landed.
    pub fn is_done(&self) -> (r: bool)
        requires
            self.wf(),
        ensures
            r == self.spec_done(),
    {
        self.landed == self.items.len()
    }
}

/// Whatever the order of starts and landings, a window never has more than
/// its limit of fetches unresolved, and the job is done only once every item
/// was started and has landed.
pub proof fn lemma_window_bounded(w: FetchWindow)
    requires
        w.wf(),
    ensures
        w.spec_running() <= w.spec_limit(),
        w.spec_done() ==> w.spec_next() == w.spec_items().len() && w.spec_running() == 0,
{
}

/// The bytes of a fetched file: its chunks, in the order received.
pub open spec fn joined(chunks: Seq<Vec<u8>>) -> Seq<u8> {
    chunks.map_values(|c: Vec<u8>| c@).flatten()
}

/// Joins the chunks of one fetched file.
pub fn join_chunks(chunks: &Vec<Vec<u8>>) -> (r: Vec<u8>)
    ensures
        r@ == joined(chunks@),
{
    let mut out: Vec<u8> = Vec::new();
    let mut i: usize = 0;
    while i < chunks.len()
        invariant
            i <= chunks@.len(),
            out@ == joined(chunks@.subrange(0, i as int)),
        decreases chunks@.len() - i,
    {
        let ghost done = chunks@.subrange(0, i as int);
        proof {
            let next = chunks@.subrange(0, i as int + 1);
            assert(next =~= done.push(chunks@[i as int]));
            assert(next.map_values(|c: Vec<u8>| c@) =~= done.map_values(|c: Vec<u8>| c@) + seq![
                chunks@[i as int]@,
            ]);
            vstd::seq_lib::lemma_flatten_concat(
                done.map_values(|c: Vec<u8>| c@),
                seq![chunks@[i as int]@],
            );
            seq![chunks@[i as int]@].lemma_flatten_one_element();
        }
        out.extend_from_slice(chunks[i].as_slice());
        i = i + 1;
    }
    assert(chunks@.subrange(0, chunks@.len() as int) =~= chunks@);
    out
}

} // verus!
