use vstd::prelude::*;
use crate::chimes::ChimeSinkError;
use crate::span::Span;

verus! {

/// Why a chime that a user handed in was not taken.
#[derive(Clone, Copy, Debug, PartialEq, Eq, Structural)]
pub enum AttachmentError {
    /// The chime plays longer than is allowed.
    Duration,
    /// The data is no audio that can be measured.
    Unreadable,
    /// The data could not be put on disk or into the store.
    Tempfile,
}

impl AttachmentError {
    /// The message under which the error is explained to the user.
    pub open spec fn spec_message(&self) -> Seq<char> {
        match self {
            AttachmentError::Duration => "duration-exceeded"@,
            AttachmentError::Unreadable => "data-unreadable"@,
            AttachmentError::Tempfile => "internal-error"@,
        }
    }

    /// The message under which the error is explained to the user.
    pub fn message(&self) -> (s: String)
        ensures
            s@ == self.spec_message(),
    {
        match self {
            AttachmentError::Duration => "duration-exceeded".to_string(),
            AttachmentError::Unreadable => "data-unreadable".to_string(),
            AttachmentError::Tempfile => "internal-error".to_string(),
        }
    }
}

/// Whether a file of `size` bytes is over the limit. A limit of `-1` is no
/// limit.
pub open spec fn over_limit(limit: isize, size: u64) -> bool {
    limit != -1 && size as int > limit as int
}

/// Whether a file of `size` bytes is over the limit. A limit of `-1` is no
/// limit.
pub fn exceeds_size_limit(limit: isize, size: u64) -> (r: bool)
    ensures
        r == over_limit(limit, size),
{
    if limit == -1 {
        false
    } else if limit < 0 {
        true
    } else {
        size > limit as u64
    }
}

/// The first check on a chime handed in: it has to be on disk.
pub fn check_written(written: bool) -> (r: Result<(), AttachmentError>)
    ensures
        written ==> r is Ok,
        !written ==> r == Err::<(), AttachmentError>(AttachmentError::Tempfile),
{
    if written {
        Ok(())
    } else {
        Err(AttachmentError::Tempfile)
    }
}

/// What the probe's answer means for the chime. `probed` is nothing where
/// the probe failed, and holds nothing where it found no length.
pub open spec fn duration_verdict(probed: Option<Option<Span>>, max: Span) -> Result<
    (),
    AttachmentError,
> {
    match probed {
        Some(Some(length)) => if length.nanos > max.nanos {
            Err(AttachmentError::Duration)
        } else {
            Ok(())
        },
        _ => Err(AttachmentError::Unreadable),
    }
}

/// The second check: the probe must have measured the chime, and the chime
/// must not play longer than `max`.
pub fn check_duration(probed: Option<Option<Span>>, max: Span) -> (r: Result<(), AttachmentError>)
    ensures
        r == duration_verdict(probed, max),
{
    match probed {
        Some(Some(length)) => {
            if length.exceeds(&max) {
                Err(AttachmentError::Duration)
            } else {
                Ok(())
            }
        },
        _ => Err(AttachmentError::Unreadable),
    }
}

/// The last check: the store must have taken the chime.
pub fn check_saved(saved: Result<(), ChimeSinkError>) -> (r: Result<(), AttachmentError>)
    ensures
        saved is Ok ==> r is Ok,
        saved is Err ==> r == Err::<(), AttachmentError>(AttachmentError::Tempfile),
{
    match saved {
        Ok(()) => Ok(()),
        Err(_) => Err(AttachmentError::Tempfile),
    }
}

/// A file's mode with the three execute bits taken out.
pub fn without_execute_bits(mode: u32) -> (r: u32)
    ensures
        r == mode & !0o111u32,
        r & 0o111u32 == 0,
        r | (mode & 0o111u32) == mode,
{
    let r = mode & !0o111u32;
    assert(r & 0o111u32 == 0) by (bit_vector)
        requires
            r == mode & !0o111u32,
    ;
    assert(r | (mode & 0o111u32) == mode) by (bit_vector)
        requires
            r == mode & !0o111u32,
    ;
    r
}

} // verus!
