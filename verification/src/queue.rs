//! The first-in first-out queue of uploads waiting for the upload worker.

use vstd::prelude::*;
use crate::server::Server;
use crate::upload::UploadRequest;
use std::collections::VecDeque;

verus! {

/// One upload waiting to be sent: the request as it was enqueued, the server
/// to send it to, whether to notify even while the window is visible, and
/// whether it is a retry of an earlier attempt.
#[derive(Debug)]
pub struct UploadQueueJob {
    pub request: UploadRequest,
    pub server: Server,
    pub always_notify: bool,
    pub retry: bool,
}

impl Clone for UploadQueueJob {
    fn clone(&self) -> (r: Self)
        ensures
            r == *self,
    {
        UploadQueueJob {
            request: self.request.clone(),
            server: self.server.clone(),
            always_notify: self.always_notify,
            retry: self.retry,
        }
    }
}

/// Whether a job is for an upload other than the one with the given id.
pub open spec fn job_is_not_for(id: Seq<char>) -> spec_fn(UploadQueueJob) -> bool {
    |job: UploadQueueJob| job.request.upload.id@ != id
}

/// Uploads waiting to be sent, oldest first.
#[derive(Debug)]
pub struct UploadQueue {
    jobs: VecDeque<UploadQueueJob>,
}

impl UploadQueue {
    /// The waiting jobs, oldest first.
    pub closed spec fn jobs(&self) -> Seq<UploadQueueJob> {
        self.jobs@
    }

    /// An empty queue.
    pub fn new() -> (q: UploadQueue)
        ensures
            q.jobs() == Seq::<UploadQueueJob>::empty(),
    {
        UploadQueue { jobs: VecDeque::new() }
    }

    /// The number of waiting jobs.
    pub fn len(&self) -> (n: usize)
        ensures
            n == self.jobs().len(),
    {
        self.jobs.len()
    }

    /// Puts a job at the back of the queue.
    pub fn push(&mut self, item: UploadQueueJob)
        ensures
            final(self).jobs() == old(self).jobs().push(item),
    {
        self.jobs.push_back(item);
    }

    /// Takes the job at the front of the queue, if there is one.
    pub fn pop_next(&mut self) -> (r: Option<UploadQueueJob>)
        ensures
            old(self).jobs().len() == 0 ==> r is None && final(self).jobs() == old(self).jobs(),
            old(self).jobs().len() > 0 ==> r == Some(old(self).jobs()[0]) && final(self).jobs()
                == old(self).jobs().drop_first(),
    {
        let r = self.jobs.pop_front();
        proof {
            if old(self).jobs@.len() > 0 {
                assert(self.jobs@ =~= old(self).jobs@.drop_first());
            }
        }
        r
    }

    /// Drops every waiting job for the upload with the given id; the others
    /// keep their order. Tells how many jobs were dropped.
    pub fn remove_upload_job(&mut self, id: &String) -> (removed: usize)
        ensures
            final(self).jobs() == old(self).jobs().filter(job_is_not_for(id@)),
            removed == old(self).jobs().len() - final(self).jobs().len(),
    {
        let ghost pred = job_is_not_for(id@);
        let mut kept: VecDeque<UploadQueueJob> = VecDeque::new();
        let mut k: usize = 0;
        proof {
            reveal(Seq::filter);
            assert(self.jobs@.take(0) =~= Seq::<UploadQueueJob>::empty());
        }
        while k < self.jobs.len()
            invariant
                k <= self.jobs.len(),
                kept@ == self.jobs@.take(k as int).filter(pred),
                kept@.len() <= k,
                pred == job_is_not_for(id@),
            decreases self.jobs.len() - k,
        {
            proof {
                reveal(Seq::filter);
                assert(self.jobs@.take(k + 1).drop_last() =~= self.jobs@.take(k as int));
            }
            if self.jobs[k].request.upload.id != *id {
                kept.push_back(self.jobs[k].clone());
            }
            k = k + 1;
        }
        assert(self.jobs@.take(k as int) =~= self.jobs@);
        let removed = self.jobs.len() - kept.len();
        self.jobs = kept;
        removed
    }
}

} // verus!
