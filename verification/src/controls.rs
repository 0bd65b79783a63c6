//! Player controls: volume, mute, transport and playback-state reads,
//! layered over the property bridge as fire-and-forget commands and
//! single-property probes.

use vstd::prelude::*;

use crate::bridge::Itunes;
use crate::error::BridgeError;
use crate::song::SongInterface;
use crate::text;

verus! {

/// Whether the mute probe's text reports the player muted.
pub fn mute_state(text: &str) -> (r: bool)
    ensures
        r == (text@ == "True"@),
{
    text::str_eq(text, "True")
}

/// Whether the player-state probe's text reports active playback.
pub fn playing_state(text: &str) -> (r: bool)
    ensures
        r == (text::trim_spec(text@) == "1"@),
{
    text::str_eq(text::trim_spaces(text), "1")
}

/// The command expression that sets the player volume.
pub open spec fn volume_command(v: nat) -> Seq<char> {
    "SoundVolume = "@ + text::dec_digits(v)
}

/// Renders the command expression that sets the player volume.
pub fn set_volume_command(volume: u16) -> (r: String)
    ensures
        r@ == volume_command(volume as nat),
{
    let mut s = String::from_str("SoundVolume = ");
    let d = text::u16_to_dec(volume);
    s.append(d.as_str());
    s
}

/// Control operations on the player, over a shared bridge.
///
/// The mute flag is read once at construction; `toggle_mute` flips away
/// from that initial state.
pub struct ItunesPlayerControls<'t> {
    pub(crate) itunes: &'t Itunes,
    /// The mute state read when the controls were constructed.
    pub muted: bool,
    /// The song view sharing the same bridge.
    pub song_interface: SongInterface<'t>,
}

impl<'t> ItunesPlayerControls<'t> {
    /// Controls over the given bridge; reads the current mute state once.
    pub fn new(itunes: &'t Itunes) -> (r: Result<ItunesPlayerControls<'t>, BridgeError>)
        ensures
            r matches Err(e) ==> e.is_host_error(),
    {
        match itunes.get_property("Mute") {
            Err(e) => Err(e),
            Ok(text) => Ok(
                ItunesPlayerControls {
                    itunes,
                    muted: mute_state(text.as_str()),
                    song_interface: SongInterface::new(itunes),
                },
            ),
        }
    }

    /// Reads the current volume as a number.
    pub fn get_volume(&self) -> (r: Result<u8, BridgeError>)
        ensures
            r matches Err(e) ==> e.is_host_error() || e == BridgeError::Coercion,
    {
        match self.itunes.get_property("SoundVolume") {
            Err(e) => Err(e),
            Ok(text) => match text::parse_u8(text::trim_spaces(text.as_str())) {
                Some(v) => Ok(v),
                None => Err(BridgeError::Coercion),
            },
        }
    }

    /// Reads the current volume and issues the command that raises it by
    /// the given amount.  The sum is sent as-is; the player clamps it to
    /// its own range.
    pub fn increase_volume(&self, increase_by: u8) -> (r: Result<(), BridgeError>)
        ensures
            r matches Err(e) ==> e.is_host_error() || e == BridgeError::Coercion,
    {
        match self.get_volume() {
            Err(e) => Err(e),
            Ok(v) => {
                let cmd = set_volume_command(v as u16 + increase_by as u16);
                self.itunes.property(cmd.as_str())
            },
        }
    }

    /// Issues the command that sets the volume.
    pub fn set_volume(&self, volume: u8) -> (r: Result<(), BridgeError>)
        ensures
            r matches Err(e) ==> e.is_host_error(),
    {
        let cmd = set_volume_command(volume as u16);
        self.itunes.property(cmd.as_str())
    }

    /// Pauses playback.
    pub fn pause(&self) -> (r: Result<(), BridgeError>)
        ensures
            r matches Err(e) ==> e.is_host_error(),
    {
        self.itunes.property("pause()")
    }

    /// Starts or resumes playback.
    pub fn play(&self) -> (r: Result<(), BridgeError>)
        ensures
            r matches Err(e) ==> e.is_host_error(),
    {
        self.itunes.property("play()")
    }

    /// Skips to the next track.
    pub fn next_track(&self) -> (r: Result<(), BridgeError>)
        ensures
            r matches Err(e) ==> e.is_host_error(),
    {
        self.itunes.property("NextTrack()")
    }

    /// Skips to the previous track.
    pub fn previous_track(&self) -> (r: Result<(), BridgeError>)
        ensures
            r matches Err(e) ==> e.is_host_error(),
    {
        self.itunes.property("PreviousTrack()")
    }

    /// Issues the command that flips the mute flag away from the state read
    /// at construction.
    pub fn toggle_mute(&self) -> (r: Result<(), BridgeError>)
        ensures
            r matches Err(e) ==> e.is_host_error(),
    {
        if self.muted {
            self.itunes.property("Mute = $False")
        } else {
            self.itunes.property("Mute = $True")
        }
    }

    /// Checks whether the currently ready song is playing.
    pub fn is_playing(&self) -> (r: Result<bool, BridgeError>)
        ensures
            r matches Err(e) ==> e.is_host_error(),
    {
        match self.itunes.get_property("PlayerState") {
            Err(e) => Err(e),
            Ok(text) => Ok(playing_state(text.as_str())),
        }
    }
}

} // verus!
