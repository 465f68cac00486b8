use vstd::prelude::*;

use crate::download::DownloadProgress;
use crate::error::DownOnSpotError;

verus! {

/// How many bytes a download asks for per read.
pub const CHUNK_SIZE: usize = 65536;

/// One item of a download's progress sequence.
pub type ProgressItem = Result<DownloadProgress, DownOnSpotError>;

/// Where a download stands.
#[derive(Clone, Copy, Debug, PartialEq, Eq, Structural)]
pub enum JobPhase {
    Started,
    Downloading,
    Finished,
    Failed,
}

pub open spec fn is_progress(e: ProgressItem) -> bool {
    e matches Ok(DownloadProgress::Progress { .. })
}

pub open spec fn is_terminal(e: ProgressItem) -> bool {
    e matches Ok(DownloadProgress::Finished) || e is Err
}

/// The bytes done that a progress item reports.
pub open spec fn done_of(e: ProgressItem) -> int {
    match e {
        Ok(DownloadProgress::Progress { current, total: _ }) => current as int,
        _ => 0,
    }
}

/// The total that a progress item reports.
pub open spec fn total_of(e: ProgressItem) -> int {
    match e {
        Ok(DownloadProgress::Progress { current: _, total }) => total as int,
        _ => 0,
    }
}

/// The rules of a progress sequence: `Started` first, then progress items
/// whose bytes done never decrease, and at most one terminal item, last.
pub open spec fn well_ordered(events: Seq<ProgressItem>) -> bool {
    &&& events.len() >= 1
    &&& events[0] == Ok::<DownloadProgress, DownOnSpotError>(DownloadProgress::Started)
    &&& forall|i: int| 1 <= i < events.len() - 1 ==> is_progress(#[trigger] events[i])
    &&& events.len() >= 2 ==> is_progress(events.last()) || is_terminal(events.last())
    &&& forall|i: int, j: int|
        1 <= i < j < events.len() && is_progress(#[trigger] events[i]) && is_progress(
            #[trigger] events[j],
        ) ==> done_of(events[i]) <= done_of(events[j])
}

/// One download's bookkeeping: its phase, the bytes read so far and the
/// progress items it has emitted.
pub struct DownloadJob {
    phase: JobPhase,
    total: usize,
    data: Vec<u8>,
    events: Ghost<Seq<ProgressItem>>,
}

impl DownloadJob {
    pub closed spec fn spec_phase(&self) -> JobPhase {
        self.phase
    }

    pub closed spec fn spec_total(&self) -> usize {
        self.total
    }

    pub closed spec fn spec_data(&self) -> Seq<u8> {
        self.data@
    }

    /// The progress items emitted so far.
    pub closed spec fn spec_events(&self) -> Seq<ProgressItem> {
        self.events@
    }

    pub closed spec fn wf(&self) -> bool {
        &&& well_ordered(self.events@)
        &&& (self.phase == JobPhase::Started || self.phase == JobPhase::Downloading)
            ==> forall|i: int| 1 <= i < self.events@.len() ==> is_progress(#[trigger] self.events@[i])
        &&& self.phase == JobPhase::Started ==> self.events@.len() == 1
        &&& self.phase == JobPhase::Finished ==> self.events@.len() >= 2 && self.events@.last()
            == Ok::<DownloadProgress, DownOnSpotError>(DownloadProgress::Finished)
        &&& self.phase == JobPhase::Failed ==> self.events@.len() >= 2 && self.events@.last() is Err
        &&& forall|i: int|
            1 <= i < self.events@.len() && is_progress(#[trigger] self.events@[i]) ==> done_of(
                self.events@[i],
            ) <= self.data@.len() && total_of(self.events@[i]) == self.total
    }

    /// Starts a download: nothing is resolved yet, and `Started` is emitted at once.
    pub fn start() -> (r: (DownloadJob, DownloadProgress))
        ensures
            r.0.wf(),
            r.0.spec_phase() == JobPhase::Started,
            r.0.spec_data().len() == 0,
            r.1 == DownloadProgress::Started,
            r.0.spec_events() == seq![Ok::<DownloadProgress, DownOnSpotError>(r.1)],
    {
        let ghost first: Seq<ProgressItem> = seq![Ok(DownloadProgress::Started)];
        let job = DownloadJob {
            phase: JobPhase::Started,
            total: 0,
            data: Vec::new(),
            events: Ghost(first),
        };
        (job, DownloadProgress::Started)
    }

    /// The phase the download is in.
    pub fn phase(&self) -> (r: JobPhase)
        ensures
            r == self.spec_phase(),
    {
        self.phase
    }

    /// The length of the stream being read, as reported in progress items.
    pub fn total(&self) -> (r: usize)
        ensures
            r == self.spec_total(),
    {
        self.total
    }

    /// The bytes read so far.
    pub fn data(&self) -> (r: &Vec<u8>)
        ensures
            r@ == self.spec_data(),
    {
        &self.data
    }

    /// The bytes read, once the download is over.
    pub fn into_data(self) -> (r: Vec<u8>)
        ensures
            r@ == self.spec_data(),
    {
        self.data
    }

    /// The stream is open and `total` bytes long: reading begins. Emits nothing.
    pub fn begin(&mut self, total: usize)
        requires
            old(self).wf(),
            old(self).spec_phase() == JobPhase::Started,
        ensures
            final(self).wf(),
            final(self).spec_phase() == JobPhase::Downloading,
            final(self).spec_total() == total,
            final(self).spec_data() == old(self).spec_data(),
            final(self).spec_events() == old(self).spec_events(),
    {
        self.phase = JobPhase::Downloading;
        self.total = total;
    }

    /// The download failed with `e` before it finished: emits `e` as its last item.
    pub fn fail(&mut self, e: DownOnSpotError) -> (r: ProgressItem)
        requires
            old(self).wf(),
            old(self).spec_phase() == JobPhase::Started || old(self).spec_phase()
                == JobPhase::Downloading,
        ensures
            final(self).wf(),
            r == Err::<DownloadProgress, DownOnSpotError>(e),
            final(self).spec_phase() == JobPhase::Failed,
            final(self).spec_total() == old(self).spec_total(),
            final(self).spec_data() == old(self).spec_data(),
            final(self).spec_events() == old(self).spec_events().push(r),
    {
        let r: ProgressItem = Err(e);
        self.events = Ghost(self.events@.push(r));
        self.phase = JobPhase::Failed;
        r
    }

    /// A read delivered `chunk`. An empty chunk is the end of the data and
    /// emits `Finished`; any other is kept and emits the bytes read so far
    /// against the total.
    pub fn on_data(&mut self, chunk: &[u8]) -> (r: DownloadProgress)
        requires
            old(self).wf(),
            old(self).spec_phase() == JobPhase::Downloading,
        ensures
            final(self).wf(),
            final(self).spec_total() == old(self).spec_total(),
            final(self).spec_data() == old(self).spec_data() + chunk@,
            final(self).spec_events() == old(self).spec_events().push(Ok(r)),
            chunk@.len() == 0 ==> r == DownloadProgress::Finished && final(self).spec_phase()
                == JobPhase::Finished,
            chunk@.len() > 0 ==> final(self).spec_phase() == JobPhase::Downloading && r
                == (DownloadProgress::Progress {
                current: final(self).spec_data().len() as usize,
                total: old(self).spec_total(),
            }),
    {
        let ghost old_events = self.events@;
        if chunk.len() == 0 {
            let r = DownloadProgress::Finished;
            self.events = Ghost(self.events@.push(Ok(r)));
            self.phase = JobPhase::Finished;
            assert(self.data@ =~= old(self).data@ + chunk@);
            return r;
        }
        let mut i: usize = 0;
        while i < chunk.len()
            invariant
                i <= chunk@.len(),
                self.data@ == old(self).data@ + chunk@.subrange(0, i as int),
                self.phase == old(self).phase,
                self.total == old(self).total,
                self.events == old(self).events,
            decreases chunk@.len() - i,
        {
            self.data.push(chunk[i]);
            assert(chunk@.subrange(0, i + 1) == chunk@.subrange(0, i as int).push(chunk@[i as int]));
            i = i + 1;
        }
        assert(chunk@.subrange(0, chunk@.len() as int) =~= chunk@);
        let r = DownloadProgress::Progress { current: self.data.len(), total: self.total };
        self.events = Ghost(old_events.push(Ok(r)));
        assert forall|i: int|
            1 <= i < self.events@.len() && is_progress(#[trigger] self.events@[i]) implies done_of(
            self.events@[i],
        ) <= self.data@.len() && total_of(self.events@[i]) == self.total by {
            if i < old_events.len() {
                assert(self.events@[i] == old_events[i]);
            }
        }
        r
    }

    /// A read failed. An interrupted read is tried again and emits nothing;
    /// any other failure ends the download with `e`.
    pub fn on_read_error(&mut self, interrupted: bool, e: DownOnSpotError) -> (r: Option<ProgressItem>)
        requires
            old(self).wf(),
            old(self).spec_phase() == JobPhase::Downloading,
        ensures
            final(self).wf(),
            final(self).spec_total() == old(self).spec_total(),
            final(self).spec_data() == old(self).spec_data(),
            interrupted ==> r is None && *final(self) == *old(self),
            !interrupted ==> r == Some(Err::<DownloadProgress, DownOnSpotError>(e))
                && final(self).spec_phase() == JobPhase::Failed && final(self).spec_events()
                == old(self).spec_events().push(Err(e)),
    {
        if interrupted {
            None
        } else {
            Some(self.fail(e))
        }
    }
}

/// Whether the latest item polled from a download shows that it is over:
/// it finished, it failed, or its sequence has ended.
pub open spec fn spec_is_done(latest: Option<ProgressItem>) -> bool {
    match latest {
        None => true,
        Some(e) => is_terminal(e),
    }
}

/// Whether the latest item polled from a download shows that it is over.
pub fn is_done(latest: &Option<ProgressItem>) -> (r: bool)
    ensures
        r == spec_is_done(*latest),
{
    match latest {
        None => true,
        Some(Ok(DownloadProgress::Finished)) => true,
        Some(Ok(_)) => false,
        Some(Err(_)) => true,
    }
}

/// The downloads of `jobs` whose latest item does not show them over, in
/// their order.
pub open spec fn retained<T>(jobs: Seq<T>, latest: Seq<Option<ProgressItem>>) -> Seq<T>
    decreases jobs.len(),
{
    if jobs.len() == 0 {
        Seq::empty()
    } else {
        let n = jobs.len() - 1;
        let kept = retained(jobs.take(n), latest);
        if spec_is_done(latest[n]) {
            kept
        } else {
            kept.push(jobs[n])
        }
    }
}

/// The downloads in flight, at most `max_concurrent` of them.
pub struct DownloadQueue<T> {
    jobs: Vec<T>,
    max_concurrent: usize,
}

impl<T> DownloadQueue<T> {
    /// The downloads held, in the order they were admitted.
    pub closed spec fn spec_jobs(&self) -> Seq<T> {
        self.jobs@
    }

    pub closed spec fn spec_max_concurrent(&self) -> usize {
        self.max_concurrent
    }

    pub open spec fn wf(&self) -> bool {
        self.spec_jobs().len() <= self.spec_max_concurrent()
    }

    /// An empty queue that holds at most `max_concurrent` downloads.
    pub fn new(max_concurrent: usize) -> (r: Self)
        ensures
            r.wf(),
            r.spec_jobs().len() == 0,
            r.spec_max_concurrent() == max_concurrent,
    {
        DownloadQueue { jobs: Vec::new(), max_concurrent }
    }

    /// How many downloads are held.
    pub fn len(&self) -> (r: usize)
        ensures
            r == self.spec_jobs().len(),
    {
        self.jobs.len()
    }

    /// The most downloads held at once.
    pub fn max_concurrent(&self) -> (r: usize)
        ensures
            r == self.spec_max_concurrent(),
    {
        self.max_concurrent
    }

    /// Admits `job` where there is room, and hands it back otherwise.
    pub fn submit(&mut self, job: T) -> (r: Option<T>)
        requires
            old(self).wf(),
        ensures
            final(self).wf(),
            final(self).spec_max_concurrent() == old(self).spec_max_concurrent(),
            old(self).spec_jobs().len() < old(self).spec_max_concurrent() ==> r is None
                && final(self).spec_jobs() == old(self).spec_jobs().push(job),
            old(self).spec_jobs().len() >= old(self).spec_max_concurrent() ==> r == Some(job)
                && final(self).spec_jobs() == old(self).spec_jobs(),
    {
        if self.jobs.len() < self.max_concurrent {
            self.jobs.push(job);
            None
        } else {
            Some(job)
        }
    }

    /// Hands out every download held, to be polled; the queue is left empty.
    pub fn take_all(&mut self) -> (r: Vec<T>)
        requires
            old(self).wf(),
        ensures
            final(self).wf(),
            r@ == old(self).spec_jobs(),
            final(self).spec_jobs().len() == 0,
            final(self).spec_max_concurrent() == old(self).spec_max_concurrent(),
    {
        let mut all: Vec<T> = Vec::new();
        all.append(&mut self.jobs);
        all
    }

    /// Takes back the polled downloads `polled`, whose latest items are
    /// `latest`, keeping those not over, in their order.
    pub fn reap(&mut self, polled: Vec<T>, latest: &Vec<Option<ProgressItem>>)
        requires
            old(self).wf(),
            old(self).spec_jobs().len() == 0,
            polled@.len() == latest@.len(),
            polled@.len() <= old(self).spec_max_concurrent(),
        ensures
            final(self).wf(),
            final(self).spec_jobs() == retained(polled@, latest@),
            final(self).spec_max_concurrent() == old(self).spec_max_concurrent(),
    {
        let mut rest = polled;
        let ghost all = rest@;
        let mut kept: Vec<T> = Vec::new();
        let mut i: usize = 0;
        while i < latest.len()
            invariant
                all.len() == latest@.len(),
                i <= all.len(),
                rest@ == all.skip(i as int),
                kept@ == retained(all.take(i as int), latest@),
                kept@.len() <= i,
            decreases all.len() - i,
        {
            assert(all.take(i + 1).take(i as int) =~= all.take(i as int));
            assert(all.take(i + 1)[i as int] == all[i as int]);
            let job = rest.remove(0);
            assert(rest@ =~= all.skip(i + 1));
            if !is_done(&latest[i]) {
                kept.push(job);
            }
            i = i + 1;
        }
        assert(all.take(all.len() as int) =~= all);
        self.jobs = kept;
    }
}

/// The progress items of a download that has ended: `Started` first, a
/// terminal item (`Finished` or an error) last, progress items in between
/// whose bytes done never decrease; and where no more bytes were read than
/// the reported total, none reports more than that total.
pub proof fn lemma_completed_job_events(job: DownloadJob)
    requires
        job.wf(),
        job.spec_phase() == JobPhase::Finished || job.spec_phase() == JobPhase::Failed,
    ensures
        job.spec_events()[0] == Ok::<DownloadProgress, DownOnSpotError>(DownloadProgress::Started),
        is_terminal(job.spec_events().last()),
        forall|i: int| 1 <= i < job.spec_events().len() - 1 ==> is_progress(#[trigger] job.spec_events()[i]),
        forall|i: int, j: int|
            1 <= i < j < job.spec_events().len() && is_progress(#[trigger] job.spec_events()[i])
                && is_progress(#[trigger] job.spec_events()[j]) ==> done_of(job.spec_events()[i])
                <= done_of(job.spec_events()[j]),
        job.spec_data().len() <= job.spec_total() ==> forall|i: int|
            1 <= i < job.spec_events().len() && is_progress(#[trigger] job.spec_events()[i])
                ==> done_of(job.spec_events()[i]) <= total_of(job.spec_events()[i]),
{
}

} // verus!
