//! Action parameter parsing for the WinAudio driver.
//!
//! Session-targeted actions accept a single string parameter of the form
//! `"pinned:<N>"` or `"discovered:<N>"` where `N` is a 1-based slot for
//! pinned apps and a 0-based index for discovery slots.

use vstd::prelude::*;

use crate::params::{param_str, ParamValue};
use crate::text::{str_eq, char_range, chars_of, find_char, first_index_of, parse_u8, parse_u8_spec, seq_eq, trim_chars, trimmed};

verus! {

/// Target of a session action.
#[derive(Debug, Clone, Copy, PartialEq, Eq, Structural)]
pub enum SessionTarget {
    /// Pinned slot, 1..=8 (matches the fader number declared in YAML).
    Pinned(u8),
    /// Discovery slot, 0-based, indexing the FIFO list of auto-discovered
    /// sessions that aren't pinned.
    Discovered(u8),
}

/// Why a session target parameter was rejected.
#[derive(Debug, Clone, Copy, PartialEq, Eq, Structural)]
pub enum SessionTargetError {
    /// No parameter was given.
    MissingTarget,
    /// The first parameter is not a string.
    NotAString,
    /// The target has no `':'` separator.
    MissingSeparator,
    /// The index after `':'` is not a `u8`.
    BadIndex,
    /// A pinned slot outside 1..=8.
    PinnedOutOfRange(u8),
    /// A discovered slot of 8 or more.
    DiscoveredOutOfRange(u8),
    /// The kind before `':'` is neither `pinned` nor `discovered`.
    UnknownKind,
}

/// The outcome of parsing a session target from action parameters.
pub open spec fn session_target_spec(params: Seq<ParamValue>) -> Result<SessionTarget, SessionTargetError> {
    if params.len() == 0 {
        Err(SessionTargetError::MissingTarget)
    } else {
        match param_str(params[0]) {
            None => Err(SessionTargetError::NotAString),
            Some(raw) => match first_index_of(raw, ':') {
                None => Err(SessionTargetError::MissingSeparator),
                Some(p) => match parse_u8_spec(trimmed(raw.skip(p + 1))) {
                    None => Err(SessionTargetError::BadIndex),
                    Some(n) => {
                        let kind = trimmed(raw.take(p));
                        if kind == "pinned"@ {
                            if 1 <= n <= 8 {
                                Ok(SessionTarget::Pinned(n))
                            } else {
                                Err(SessionTargetError::PinnedOutOfRange(n))
                            }
                        } else if kind == "discovered"@ {
                            if n < 8 {
                                Ok(SessionTarget::Discovered(n))
                            } else {
                                Err(SessionTargetError::DiscoveredOutOfRange(n))
                            }
                        } else {
                            Err(SessionTargetError::UnknownKind)
                        }
                    },
                },
            },
        }
    }
}

/// Parse the target of a session action from its parameters:
/// `"pinned:N"` (N in 1..=8) or `"discovered:N"` (N in 0..8). Spaces
/// around the kind and the index are ignored.
pub fn parse_session_target(params: &[ParamValue]) -> (r: Result<SessionTarget, SessionTargetError>)
    ensures
        r == session_target_spec(params@),
{
    proof {
        assert(forall|i: int| 0 <= i < params@.len() ==> params@[i] == params[i]);
    }
    if params.len() == 0 {
        return Err(SessionTargetError::MissingTarget);
    }
    let raw = match params[0].as_str() {
        Some(s) => s,
        None => return Err(SessionTargetError::NotAString),
    };
    let cs = chars_of(raw);
    let p = match find_char(&cs, ':') {
        Some(p) => p,
        None => return Err(SessionTargetError::MissingSeparator),
    };
    let idx = char_range(&cs, p + 1, cs.len());
    let idx_t = trim_chars(&idx);
    proof {
        assert(idx@ =~= cs@.skip(p + 1));
    }
    let n = match parse_u8(&idx_t) {
        Some(n) => n,
        None => return Err(SessionTargetError::BadIndex),
    };
    let kind = char_range(&cs, 0, p);
    let kind_t = trim_chars(&kind);
    proof {
        assert(kind@ =~= cs@.take(p as int));
    }
    let pinned = chars_of("pinned");
    let discovered = chars_of("discovered");
    if seq_eq(&kind_t, &pinned) {
        if 1 <= n && n <= 8 {
            Ok(SessionTarget::Pinned(n))
        } else {
            Err(SessionTargetError::PinnedOutOfRange(n))
        }
    } else if seq_eq(&kind_t, &discovered) {
        if n < 8 {
            Ok(SessionTarget::Discovered(n))
        } else {
            Err(SessionTargetError::DiscoveredOutOfRange(n))
        }
    } else {
        Err(SessionTargetError::UnknownKind)
    }
}


/// What the WinAudio driver does with an action request.
#[derive(Debug, Clone, Copy, PartialEq, Eq, Structural)]
pub enum WinAudioCommand {
    /// The driver is not initialized: the request is dropped.
    NotInitialized,
    /// Set the master volume from the fader value.
    MasterVolume,
    /// Toggle the master mute.
    ToggleMasterMute,
    /// Set the volume of the target's session from the fader value.
    SessionVolume(SessionTarget),
    /// Toggle the mute of the target's session.
    ToggleSessionMute(SessionTarget),
    /// A button release of a mute action: nothing.
    IgnoredRelease,
    /// An unknown action: nothing.
    Unknown,
}

/// The command for an action request. Session actions parse their target
/// first, so a bad target is an error even on a release; mute actions act
/// on press only.
pub open spec fn winaudio_command_spec(initialized: bool, is_release: bool, action: Seq<char>, params: Seq<ParamValue>) -> Result<WinAudioCommand, SessionTargetError> {
    if !initialized {
        Ok(WinAudioCommand::NotInitialized)
    } else if action == "master_volume"@ {
        Ok(WinAudioCommand::MasterVolume)
    } else if action == "master_mute"@ {
        if is_release { Ok(WinAudioCommand::IgnoredRelease) } else { Ok(WinAudioCommand::ToggleMasterMute) }
    } else if action == "session_volume"@ {
        match session_target_spec(params) {
            Ok(t) => Ok(WinAudioCommand::SessionVolume(t)),
            Err(e) => Err(e),
        }
    } else if action == "session_mute"@ {
        match session_target_spec(params) {
            Ok(t) => if is_release { Ok(WinAudioCommand::IgnoredRelease) } else { Ok(WinAudioCommand::ToggleSessionMute(t)) },
            Err(e) => Err(e),
        }
    } else {
        Ok(WinAudioCommand::Unknown)
    }
}

/// Decide what an action request does (see [`winaudio_command_spec`]).
pub fn winaudio_command(initialized: bool, is_release: bool, action: &str, params: &[ParamValue]) -> (r: Result<WinAudioCommand, SessionTargetError>)
    ensures
        r == winaudio_command_spec(initialized, is_release, action@, params@),
{
    if !initialized {
        Ok(WinAudioCommand::NotInitialized)
    } else if str_eq(action, "master_volume") {
        Ok(WinAudioCommand::MasterVolume)
    } else if str_eq(action, "master_mute") {
        if is_release { Ok(WinAudioCommand::IgnoredRelease) } else { Ok(WinAudioCommand::ToggleMasterMute) }
    } else if str_eq(action, "session_volume") {
        let t = parse_session_target(params)?;
        Ok(WinAudioCommand::SessionVolume(t))
    } else if str_eq(action, "session_mute") {
        let t = parse_session_target(params)?;
        if is_release { Ok(WinAudioCommand::IgnoredRelease) } else { Ok(WinAudioCommand::ToggleSessionMute(t)) }
    } else {
        Ok(WinAudioCommand::Unknown)
    }
}

} // verus!
