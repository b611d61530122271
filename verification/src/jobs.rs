//! The board of render jobs the service is working on.
//!
//! The driver owns the locking and the identifiers; this module owns
//! every decision about the board: when a new job is admitted, how a
//! job moves from queued to rendering to completed, and what a status
//! or download request is answered with.

use crate::status::{ImageStatus, Rendering};
use std::collections::HashMap;
use vstd::prelude::*;

verus! {

broadcast use vstd::std_specs::hash::group_hash_axioms;

/// Most jobs the board accepts at once, finished ones included.
pub const MAX_PROCESSING: usize = 3;

/// How a download request is answered.
#[derive(Debug)]
pub enum DownloadDecision<C> {
    /// No job with that id.
    NotFound,
    /// The job was finished; it leaves the board and its completion
    /// payload is handed over.
    Finished(C),
    /// The job is still queued or rendering; it stays on the board and
    /// the client is sent back to the status page.
    Retry,
}

/// How a status request is answered.
#[derive(Debug)]
pub enum StatusDecision<E> {
    /// No job with that id.
    NotFound,
    /// Accepted, not yet rendering.
    Queued,
    /// Rendering, with its progress.
    Rendering(Rendering),
    /// Finished well; the job stays until it is downloaded.
    Finished,
    /// Finished badly; the job leaves the board and the error is
    /// handed over.
    Failed(E),
}

/// The render jobs in flight, by job id.
pub struct JobBoard<C> {
    table: HashMap<u128, ImageStatus<C>>,
}

impl<C> JobBoard<C> {
    /// The jobs on the board.
    pub closed spec fn jobs(&self) -> Map<u128, ImageStatus<C>> {
        self.table@
    }

    /// An empty board.
    pub fn new() -> (r: Self)
        ensures
            r.jobs() == Map::<u128, ImageStatus<C>>::empty(),
    {
        Self { table: HashMap::new() }
    }

    /// How many jobs the board holds.
    pub fn job_count(&self) -> (r: usize)
        ensures
            r == self.jobs().len(),
    {
        self.table.len()
    }

    /// Admits a new job as queued, unless the board is already over
    /// [`MAX_PROCESSING`] jobs.
    pub fn try_queue(&mut self, id: u128) -> (admitted: bool)
        ensures
            admitted == (old(self).jobs().len() <= MAX_PROCESSING),
            admitted ==> final(self).jobs() == old(self).jobs().insert(
                id,
                ImageStatus::<C>::Queued,
            ),
            !admitted ==> final(self).jobs() == old(self).jobs(),
    {
        if self.table.len() > MAX_PROCESSING {
            false
        } else {
            self.table.insert(id, ImageStatus::Queued);
            true
        }
    }

    /// Moves a job to rendering with fresh progress.  Fails, changing
    /// nothing, when the job was never queued.
    pub fn start_rendering(&mut self, id: u128, progress: Rendering) -> (found: bool)
        ensures
            found == old(self).jobs().contains_key(id),
            found ==> final(self).jobs() == old(self).jobs().insert(
                id,
                ImageStatus::<C>::Rendering(progress),
            ),
            !found ==> final(self).jobs() == old(self).jobs(),
    {
        if self.table.contains_key(&id) {
            self.table.insert(id, ImageStatus::Rendering(progress));
            true
        } else {
            false
        }
    }

    /// Records one more finished pixel of a rendering job, with the
    /// times the driver measured.  Fails, changing nothing, when the
    /// job is unknown; a job in any other state is left as it is.
    pub fn update_rendering(&mut self, id: u128, elapsed_secs: u64, eta_secs: u64) -> (found: bool)
        requires
            (old(self).jobs().contains_key(id) && old(self).jobs()[id] is Rendering)
                ==> old(self).jobs()[id]->Rendering_0.cur_pixel
                    < old(self).jobs()[id]->Rendering_0.max_pixels,
        ensures
            found == old(self).jobs().contains_key(id),
            !found ==> final(self).jobs() == old(self).jobs(),
            found && !(old(self).jobs()[id] is Rendering) ==> final(self).jobs()
                == old(self).jobs(),
            found && old(self).jobs()[id] is Rendering ==> final(self).jobs() == old(
                self,
            ).jobs().insert(
                id,
                ImageStatus::<C>::Rendering(
                    (Rendering {
                        cur_pixel: (old(self).jobs()[id]->Rendering_0.cur_pixel + 1) as u32,
                        elapsed_secs,
                        eta_secs,
                        ..old(self).jobs()[id]->Rendering_0
                    }),
                ),
            ),
    {
        let ghost old_jobs = self.table@;
        match self.table.remove(&id) {
            None => false,
            Some(ImageStatus::Rendering(mut progress)) => {
                progress.advance(elapsed_secs, eta_secs);
                self.table.insert(id, ImageStatus::Rendering(progress));
                true
            },
            Some(other) => {
                self.table.insert(id, other);
                proof {
                    assert(self.table@ =~= old_jobs);
                }
                true
            },
        }
    }

    /// Marks a job completed with its payload.  Fails, changing
    /// nothing, when the job is unknown.
    pub fn complete(&mut self, id: u128, payload: C) -> (found: bool)
        ensures
            found == old(self).jobs().contains_key(id),
            found ==> final(self).jobs() == old(self).jobs().insert(
                id,
                ImageStatus::Completed(payload),
            ),
            !found ==> final(self).jobs() == old(self).jobs(),
    {
        if self.table.contains_key(&id) {
            self.table.insert(id, ImageStatus::Completed(payload));
            true
        } else {
            false
        }
    }

    /// Answers a download request: a finished job leaves the board and
    /// hands its payload over; an unfinished one stays and the client
    /// is told to retry by way of the status page.
    pub fn resolve_download(&mut self, id: u128) -> (r: DownloadDecision<C>)
        ensures
            !old(self).jobs().contains_key(id) ==> r is NotFound && final(self).jobs() == old(
                self,
            ).jobs(),
            old(self).jobs().contains_key(id) && old(self).jobs()[id] is Completed ==> (r matches
                DownloadDecision::Finished(c) && c == old(self).jobs()[id]->Completed_0
                && final(self).jobs() == old(self).jobs().remove(id)),
            old(self).jobs().contains_key(id) && !(old(self).jobs()[id] is Completed) ==> r
                is Retry && final(self).jobs() == old(self).jobs(),
    {
        let ghost old_jobs = self.table@;
        match self.table.remove(&id) {
            None => DownloadDecision::NotFound,
            Some(ImageStatus::Completed(payload)) => DownloadDecision::Finished(payload),
            Some(other) => {
                self.table.insert(id, other);
                proof {
                    assert(self.table@ =~= old_jobs);
                }
                DownloadDecision::Retry
            },
        }
    }
}

impl<T, E> JobBoard<Result<T, E>> {
    /// Answers a status request.  Only a job that finished badly is
    /// touched: it leaves the board and its error is handed over.
    pub fn resolve_status(&mut self, id: u128) -> (r: StatusDecision<E>)
        ensures
            !old(self).jobs().contains_key(id) ==> r is NotFound && final(self).jobs() == old(
                self,
            ).jobs(),
            old(self).jobs().contains_key(id) ==> match old(self).jobs()[id] {
                ImageStatus::Queued => r is Queued && final(self).jobs() == old(self).jobs(),
                ImageStatus::Rendering(progress) => (r matches StatusDecision::Rendering(p)
                    && p == progress && final(self).jobs() == old(self).jobs()),
                ImageStatus::Completed(done) => match done {
                    Ok(_) => r is Finished && final(self).jobs() == old(self).jobs(),
                    Err(error) => (r matches StatusDecision::Failed(e) && e == error
                        && final(self).jobs() == old(self).jobs().remove(id)),
                },
            },
    {
        let failed = match self.table.get(&id) {
            None => return StatusDecision::NotFound,
            Some(ImageStatus::Queued) => false,
            Some(ImageStatus::Rendering(_)) => false,
            Some(ImageStatus::Completed(Ok(_))) => false,
            Some(ImageStatus::Completed(Err(_))) => true,
        };
        if failed {
            match self.table.remove(&id) {
                Some(ImageStatus::Completed(Err(error))) => StatusDecision::Failed(error),
                _ => vstd::pervasive::unreached(),
            }
        } else {
            match self.table.get(&id) {
                Some(ImageStatus::Queued) => StatusDecision::Queued,
                Some(ImageStatus::Rendering(progress)) => StatusDecision::Rendering(*progress),
                Some(ImageStatus::Completed(_)) => StatusDecision::Finished,
                None => vstd::pervasive::unreached(),
            }
        }
    }
}

} // verus!
