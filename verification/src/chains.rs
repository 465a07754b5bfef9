//! Playback chains: what playing, stopping and setting the volume of a
//! chain does with each of its links, and how the outcome is reported.
use vstd::prelude::*;
use vstd::string::StringExecFns;

use crate::text::{append_decimal, decimal};

verus! {

/// What the registry knows of a link's receiver.
#[derive(Debug, Clone, Copy, PartialEq, Eq, Structural)]
pub struct LinkReceiver {
    pub paired: bool,
    pub has_session: bool,
}

/// What playing a chain does for one link.
#[derive(Debug, Clone, Copy, PartialEq, Eq, Structural)]
pub enum ChainLinkStep {
    /// The receiver is not registered: the link fails.
    NotFound,
    /// The receiver is not paired: the link fails.
    NotPaired,
    /// Start a session at `session_volume`; once it runs, set `volume`.
    Start { session_volume: u32, volume: u32 },
    /// The receiver already streams: set `volume`.
    Continue { volume: u32 },
}

/// The step for one link of a chain being played: a muted link is set to
/// volume 0 once its session runs.
pub open spec fn spec_chain_link_step(r: Option<LinkReceiver>, volume: i64, muted: bool) -> ChainLinkStep {
    let target: u32 = if muted {
        0
    } else {
        volume as u32
    };
    match r {
        None => ChainLinkStep::NotFound,
        Some(x) => if !x.paired {
            ChainLinkStep::NotPaired
        } else if x.has_session {
            ChainLinkStep::Continue { volume: target }
        } else {
            ChainLinkStep::Start { session_volume: volume as u32, volume: target }
        },
    }
}

/// Decides the step for one link of a chain being played.
pub fn chain_link_step(r: Option<LinkReceiver>, volume: i64, muted: bool) -> (s: ChainLinkStep)
    ensures
        s == spec_chain_link_step(r, volume, muted),
{
    let target: u32 = if muted {
        0
    } else {
        volume as u32
    };
    match r {
        None => ChainLinkStep::NotFound,
        Some(x) => if !x.paired {
            ChainLinkStep::NotPaired
        } else if x.has_session {
            ChainLinkStep::Continue { volume: target }
        } else {
            ChainLinkStep::Start { session_volume: volume as u32, volume: target }
        },
    }
}

/// The failure text of a link that could not be played.
pub fn chain_step_error(s: ChainLinkStep) -> (r: Option<&'static str>)
    ensures
        r matches Some(t) ==> t@ == (match s {
            ChainLinkStep::NotFound => "receiver not found in registry"@,
            _ => "receiver not paired"@,
        }),
        r is Some == (s == ChainLinkStep::NotFound || s == ChainLinkStep::NotPaired),
{
    match s {
        ChainLinkStep::NotFound => Some("receiver not found in registry"),
        ChainLinkStep::NotPaired => Some("receiver not paired"),
        _ => None,
    }
}

/// A chain that could not be played.
#[derive(Debug, Clone, Copy, PartialEq, Eq, Structural)]
pub enum ChainPlayError {
    /// `400 NO_OUTPUTS`.
    NoOutputs,
    /// `502 PLAYBACK_FAILED` over this many configured links.
    PlaybackFailed { configured: u64 },
}

impl ChainPlayError {
    /// The error's code and message.
    pub fn text(&self) -> (r: (&'static str, String))
        ensures
            r.0@ == (match self {
                ChainPlayError::NoOutputs => "NO_OUTPUTS"@,
                ChainPlayError::PlaybackFailed { .. } => "PLAYBACK_FAILED"@,
            }),
            r.1@ == (match self {
                ChainPlayError::NoOutputs => "chain has no configured links"@,
                ChainPlayError::PlaybackFailed { configured } => "failed to start audio output on any of "@
                    + decimal(*configured as nat) + " configured links"@,
            }),
    {
        match self {
            ChainPlayError::NoOutputs => ("NO_OUTPUTS", String::from_str("chain has no configured links")),
            ChainPlayError::PlaybackFailed { configured } => {
                let mut s = String::from_str("failed to start audio output on any of ");
                append_decimal(&mut s, *configured);
                s.append(" configured links");
                ("PLAYBACK_FAILED", s)
            },
        }
    }
}

/// The outcome of playing a chain with `active` of `configured` links
/// running: `playing` when all run, `partial` otherwise, with the number of
/// failed links.
pub fn chain_play_outcome(active: usize, configured: usize) -> (r: Result<
    (&'static str, usize),
    ChainPlayError,
>)
    requires
        active <= configured,
    ensures
        configured == 0 ==> r == Err::<(&'static str, usize), ChainPlayError>(ChainPlayError::NoOutputs),
        configured > 0 && active == 0 ==> r == Err::<(&'static str, usize), ChainPlayError>(
            ChainPlayError::PlaybackFailed { configured: configured as u64 },
        ),
        configured > 0 && active > 0 ==> (r matches Ok((s, failed)) && failed == configured - active
            && s@ == (if active == configured {
            "playing"@
        } else {
            "partial"@
        })),
{
    if configured == 0 {
        return Err(ChainPlayError::NoOutputs);
    }
    if active == 0 {
        return Err(ChainPlayError::PlaybackFailed { configured: configured as u64 });
    }
    Ok((if active == configured { "playing" } else { "partial" }, configured - active))
}

/// The outcome of stopping a chain: the status, and whether the chain is
/// saved as stopped (it is unless every stop failed).
pub fn chain_stop_outcome(stopped: usize, failed: usize) -> (r: (&'static str, bool))
    ensures
        r.0@ == (if failed == 0 {
            "stopped"@
        } else if stopped > 0 {
            "partial"@
        } else {
            "failed"@
        }),
        r.1 == (failed == 0 || stopped > 0),
{
    let status = if failed == 0 {
        "stopped"
    } else if stopped > 0 {
        "partial"
    } else {
        "failed"
    };
    (status, failed == 0 || stopped > 0)
}

/// The volume a chain volume request sets: an integer from 0 to 100.
pub fn chain_volume(requested: Option<i64>) -> (r: Result<i64, &'static str>)
    ensures
        match requested {
            Some(v) => if 0 <= v <= 100 {
                r == Ok::<i64, &'static str>(v)
            } else {
                r matches Err(m) && m@ == "volume must be an integer between 0 and 100"@
            },
            None => r matches Err(m) && m@ == "volume must be an integer between 0 and 100"@,
        },
{
    match requested {
        Some(v) => if 0 <= v && v <= 100 {
            Ok(v)
        } else {
            Err("volume must be an integer between 0 and 100")
        },
        None => Err("volume must be an integer between 0 and 100"),
    }
}

/// How setting a chain's volume went for one link.
#[derive(Debug)]
pub enum LinkVolumeStatus {
    /// Stored and applied.
    Updated,
    /// Stored, but the receiver refused or is unusable.
    HardwareFailed(String),
    /// Storing failed.
    DbFailed(String),
    /// The link no longer exists.
    LinkNotFound,
}

/// Classifies one link of a chain volume change from the result of storing
/// it (`Ok(false)`: no such link) and of applying it to the receiver.
pub fn link_volume_status(stored: Result<bool, String>, applied: Result<(), String>) -> (r: LinkVolumeStatus)
    ensures
        match (stored, applied) {
            (Ok(true), Ok(_)) => r is Updated,
            (Ok(true), Err(e)) => r matches LinkVolumeStatus::HardwareFailed(m) && m@ == e@,
            (Err(e), _) => r matches LinkVolumeStatus::DbFailed(m) && m@ == e@,
            (Ok(false), _) => r is LinkNotFound,
        },
{
    match (stored, applied) {
        (Ok(true), Ok(_)) => LinkVolumeStatus::Updated,
        (Ok(true), Err(e)) => LinkVolumeStatus::HardwareFailed(e),
        (Err(e), _) => LinkVolumeStatus::DbFailed(e),
        (Ok(false), _) => LinkVolumeStatus::LinkNotFound,
    }
}

/// The status of a chain volume change over `links` links.
pub fn chain_volume_status(links: usize, succeeded: usize, failed: usize) -> (s: &'static str)
    ensures
        s@ == (if links == 0 {
            "no_links"@
        } else if failed == 0 {
            "success"@
        } else if succeeded > 0 {
            "partial"@
        } else {
            "failed"@
        }),
{
    if links == 0 {
        "no_links"
    } else if failed == 0 {
        "success"
    } else if succeeded > 0 {
        "partial"
    } else {
        "failed"
    }
}


/// The volume a link's step leaves its receiver at, if it sets one.
pub open spec fn link_step_volume(s: ChainLinkStep) -> Option<u32> {
    match s {
        ChainLinkStep::Start { volume, .. } => Some(volume),
        ChainLinkStep::Continue { volume } => Some(volume),
        _ => None,
    }
}

/// Playing a chain leaves a paired receiver of a muted link at volume 0 and
/// one of any other link at the link's volume, whether or not it already
/// streams; a receiver that does not stream yet gets a session started at
/// the link's volume first.  Unknown and unpaired receivers fail the link.
pub proof fn law_muted_link_is_silent(r: LinkReceiver, volume: i64, muted: bool)
    ensures
        r.paired ==> link_step_volume(spec_chain_link_step(Some(r), volume, muted)) == Some(
            if muted { 0u32 } else { volume as u32 },
        ),
        r.paired && !r.has_session ==> (spec_chain_link_step(Some(r), volume, muted) matches ChainLinkStep::Start {
            session_volume,
            ..
        } && session_volume == volume as u32),
        r.paired ==> (r.has_session <==> spec_chain_link_step(Some(r), volume, muted) is Continue),
        !r.paired ==> spec_chain_link_step(Some(r), volume, muted) == ChainLinkStep::NotPaired,
        spec_chain_link_step(None, volume, muted) == ChainLinkStep::NotFound,
{
}
} // verus!
