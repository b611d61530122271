//! Job status bookkeeping for render jobs.
//!
//! A job is queued, then rendering with progress counters, then
//! completed with some payload (the finished image, or the failure the
//! driver recorded).  The payload type is the driver's; this module
//! only shuffles it, so the combinators are generic over it.

use vstd::prelude::*;

verus! {

/// The answer to a status request for a job whose image is ready.
#[derive(Debug)]
pub struct CompletedImageResponse {
    /// Where the finished image can be fetched.
    pub download_url: String,
}

impl CompletedImageResponse {
    /// Points the client at the download URL of the job under the
    /// given service root.
    pub fn new(root: &str, id: &str) -> (r: Self)
        ensures
            r.download_url@ == root@ + "/"@ + id@ + "/download"@,
    {
        Self { download_url: crate::text::download_url(root, id) }
    }
}

/// Progress of a render in flight.
///
/// Times are plain values: the start instant as milliseconds since the
/// epoch, elapsed time and the estimate as whole seconds.  Derived
/// display text (a percentage with decimals) is the driver's concern.
#[derive(Debug, Clone, Copy, PartialEq, Eq, Structural)]
pub struct Rendering {
    /// Pixels finished so far.
    pub cur_pixel: u32,
    /// Pixels the render will produce in all.
    pub max_pixels: u32,
    /// When the render started, in milliseconds since the epoch.
    pub start_ms: i64,
    /// Whole seconds spent so far.
    pub elapsed_secs: u64,
    /// Estimated whole seconds to completion.
    pub eta_secs: u64,
}

impl Rendering {
    /// Fresh progress for a render of `max_pixels` pixels starting now.
    pub fn new(max_pixels: u32, start_ms: i64) -> (r: Self)
        ensures
            r.cur_pixel == 0,
            r.max_pixels == max_pixels,
            r.start_ms == start_ms,
            r.elapsed_secs == 0,
            r.eta_secs == 0,
    {
        Self { cur_pixel: 0, max_pixels, start_ms, elapsed_secs: 0, eta_secs: 0 }
    }

    /// Records one more finished pixel along with the times the driver
    /// measured.  The total and the start instant never change.
    pub fn advance(&mut self, elapsed_secs: u64, eta_secs: u64)
        requires
            old(self).cur_pixel < old(self).max_pixels,
        ensures
            final(self).cur_pixel == old(self).cur_pixel + 1,
            final(self).max_pixels == old(self).max_pixels,
            final(self).start_ms == old(self).start_ms,
            final(self).elapsed_secs == elapsed_secs,
            final(self).eta_secs == eta_secs,
    {
        self.cur_pixel = self.cur_pixel + 1;
        self.elapsed_secs = elapsed_secs;
        self.eta_secs = eta_secs;
    }

    /// Pixels still to render.
    pub fn remaining(&self) -> (r: u32)
        requires
            self.cur_pixel <= self.max_pixels,
        ensures
            r == self.max_pixels - self.cur_pixel,
    {
        self.max_pixels - self.cur_pixel
    }
}

/// The status of a job as a status request reports it.
pub type ImageStatusResponse = ImageStatus<CompletedImageResponse>;

/// Where a render job stands: not started, in flight, or finished with
/// a payload `C` of the driver's choosing.
#[derive(Debug)]
pub enum ImageStatus<C> {
    /// Accepted but not yet rendering.
    Queued,
    /// Rendering, with progress counters.
    Rendering(Rendering),
    /// Finished; `C` carries what came of it.
    Completed(C),
}

impl<C> ImageStatus<C> {
    /// The same status with the completion payload borrowed rather
    /// than owned.
    pub fn as_ref(&self) -> (r: ImageStatus<&C>)
        ensures
            r is Queued <==> self is Queued,
            r is Rendering <==> self is Rendering,
            r is Completed <==> self is Completed,
            self is Rendering ==> r->Rendering_0 == self->Rendering_0,
            self is Completed ==> r->Completed_0 == self->Completed_0,
    {
        match *self {
            ImageStatus::Queued => ImageStatus::Queued,
            ImageStatus::Rendering(ref u) => ImageStatus::Rendering(*u),
            ImageStatus::Completed(ref c) => ImageStatus::Completed(c),
        }
    }

    /// Applies `op` to the completion payload, leaving the other
    /// states as they are.
    pub fn map_completed<O, F: FnOnce(C) -> O>(self, op: F) -> (r: ImageStatus<O>)
        requires
            self is Completed ==> call_requires(op, (self->Completed_0,)),
        ensures
            r is Queued <==> self is Queued,
            r is Rendering <==> self is Rendering,
            r is Completed <==> self is Completed,
            self is Rendering ==> r->Rendering_0 == self->Rendering_0,
            self is Completed ==> call_ensures(op, (self->Completed_0,), r->Completed_0),
    {
        match self {
            ImageStatus::Queued => ImageStatus::Queued,
            ImageStatus::Rendering(u) => ImageStatus::Rendering(u),
            ImageStatus::Completed(c) => ImageStatus::Completed(op(c)),
        }
    }
}

impl<T, E> ImageStatus<Result<T, E>> {
    /// Moves the result out of the completion payload: a failed
    /// completion becomes the error, every other status is kept.
    pub fn transpose_complete(self) -> (r: Result<ImageStatus<T>, E>)
        ensures
            self is Queued ==> (r matches Ok(s) && s is Queued),
            self is Rendering ==> (r matches Ok(s) && s is Rendering
                && s->Rendering_0 == self->Rendering_0),
            self is Completed && self->Completed_0 is Ok ==> (r matches Ok(s)
                && s is Completed && s->Completed_0 == self->Completed_0->Ok_0),
            self is Completed && self->Completed_0 is Err ==> (r matches Err(e)
                && e == self->Completed_0->Err_0),
    {
        match self {
            ImageStatus::Queued => Ok(ImageStatus::Queued),
            ImageStatus::Rendering(u) => Ok(ImageStatus::Rendering(u)),
            ImageStatus::Completed(c) => match c {
                Ok(t) => Ok(ImageStatus::Completed(t)),
                Err(e) => Err(e),
            },
        }
    }
}

} // verus!
