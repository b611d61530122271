//! Validation of a render request before a job is accepted.
//!
//! A request arrives with pre-parsed plain values; the scene and camera
//! numbers themselves need no validation here (construction-time
//! invariants are the driver's concern), but the dimensions and the
//! sampling budget are capped so a single job cannot monopolise the
//! service.

use crate::text::{decimal_string, spec_decimal};
use vstd::prelude::*;
use vstd::string::StringExecFns;

verus! {

/// Largest accepted width or height, in pixels.
pub const MAX_DIM: u32 = 3000;

/// Largest accepted number of samples per pixel.
pub const MAX_SAMPLES: u32 = 500;

/// Largest accepted bounce depth cap.
pub const MAX_DEPTH: u32 = 50;

/// Why a render request was rejected.  Each variant carries the values
/// it was rejected for; the driver renders them into its reply.
#[derive(Debug, Clone, Copy, PartialEq, Eq, Structural)]
pub enum RequestError {
    /// Width or height is zero or above [`MAX_DIM`].
    DimensionsOutOfRange { width: u32, height: u32 },
    /// More samples per pixel than [`MAX_SAMPLES`].
    TooManySamples { samples_per_pixel: u32 },
    /// A bounce depth cap above [`MAX_DEPTH`].
    DepthTooBig { max_depth: u32 },
}

/// The answer to an accepted render request: the job's id and where
/// its status can be polled.
#[derive(Debug)]
pub struct GenImageResponse {
    /// The fresh job id, in its text form.
    pub id: String,
    /// The status URL of the job under the service root.
    pub status_url: String,
}

impl GenImageResponse {
    pub fn new(root: &str, id: String) -> (r: Self)
        ensures
            r.id@ == id@,
            r.status_url@ == root@ + "/"@ + id@,
    {
        let status_url = crate::text::status_url(root, id.as_str());
        Self { id, status_url }
    }
}

impl RequestError {
    /// The reply text of [`RequestError::message`].
    pub open spec fn spec_message(self) -> Seq<char> {
        match self {
            RequestError::DimensionsOutOfRange { width, height } => "Width or Height: ("@
                + spec_decimal(width as int) + ", "@ + spec_decimal(height as int)
                + ") can't be greater than "@ + spec_decimal(MAX_DIM as int)
                + " pixels and less than 1"@,
            RequestError::TooManySamples { samples_per_pixel } => "Too many Samples per Pixel: "@
                + spec_decimal(samples_per_pixel as int) + " out of "@
                + spec_decimal(MAX_SAMPLES as int),
            RequestError::DepthTooBig { max_depth } => "Max Depth too big: "@
                + spec_decimal(max_depth as int) + " out of "@ + spec_decimal(MAX_DEPTH as int),
        }
    }

    /// The text a rejected request is answered with.
    pub fn message(&self) -> (r: String)
        ensures
            r@ == self.spec_message(),
    {
        match *self {
            RequestError::DimensionsOutOfRange { width, height } => {
                let mut s = String::from_str("Width or Height: (");
                let w = decimal_string(width as u64);
                s.append(w.as_str());
                s.append(", ");
                let h = decimal_string(height as u64);
                s.append(h.as_str());
                s.append(") can't be greater than ");
                let cap = decimal_string(MAX_DIM as u64);
                s.append(cap.as_str());
                s.append(" pixels and less than 1");
                proof {
                    assert(s@ =~= self.spec_message());
                }
                s
            },
            RequestError::TooManySamples { samples_per_pixel } => {
                let mut s = String::from_str("Too many Samples per Pixel: ");
                let n = decimal_string(samples_per_pixel as u64);
                s.append(n.as_str());
                s.append(" out of ");
                let cap = decimal_string(MAX_SAMPLES as u64);
                s.append(cap.as_str());
                proof {
                    assert(s@ =~= self.spec_message());
                }
                s
            },
            RequestError::DepthTooBig { max_depth } => {
                let mut s = String::from_str("Max Depth too big: ");
                let n = decimal_string(max_depth as u64);
                s.append(n.as_str());
                s.append(" out of ");
                let cap = decimal_string(MAX_DEPTH as u64);
                s.append(cap.as_str());
                proof {
                    assert(s@ =~= self.spec_message());
                }
                s
            },
        }
    }
}

/// The checks of [`validate_request`], in the order they are made:
/// dimensions first, then the sample budget, then the depth cap.
pub open spec fn spec_validate_request(
    width: u32,
    height: u32,
    samples_per_pixel: u32,
    max_depth: u32,
) -> Result<(), RequestError> {
    if width > MAX_DIM || width < 1 || height > MAX_DIM || height < 1 {
        Err(RequestError::DimensionsOutOfRange { width, height })
    } else if samples_per_pixel > MAX_SAMPLES {
        Err(RequestError::TooManySamples { samples_per_pixel })
    } else if max_depth > MAX_DEPTH {
        Err(RequestError::DepthTooBig { max_depth })
    } else {
        Ok(())
    }
}

/// Accepts a render request exactly when both dimensions are in
/// `1..=MAX_DIM`, the samples per pixel are at most `MAX_SAMPLES` and
/// the depth cap is at most `MAX_DEPTH`; otherwise reports the first
/// failed check with the offending values.
pub fn validate_request(
    width: u32,
    height: u32,
    samples_per_pixel: u32,
    max_depth: u32,
) -> (r: Result<(), RequestError>)
    ensures
        r == spec_validate_request(width, height, samples_per_pixel, max_depth),
        r is Ok <==> 1 <= width <= MAX_DIM && 1 <= height <= MAX_DIM
            && samples_per_pixel <= MAX_SAMPLES && max_depth <= MAX_DEPTH,
{
    if width > MAX_DIM || width < 1 || height > MAX_DIM || height < 1 {
        return Err(RequestError::DimensionsOutOfRange { width, height });
    }
    if samples_per_pixel > MAX_SAMPLES {
        return Err(RequestError::TooManySamples { samples_per_pixel });
    }
    if max_depth > MAX_DEPTH {
        return Err(RequestError::DepthTooBig { max_depth });
    }
    Ok(())
}

} // verus!
