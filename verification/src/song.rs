//! The typed snapshot of the current song, assembled from several property
//! reads, and the minutes:seconds time formatting.
//!
//! All property values cross the bridge as text; the coercions to numbers
//! happen here and return a typed failure instead of aborting on malformed
//! input.

use vstd::prelude::*;

use crate::bridge::Itunes;
use crate::error::BridgeError;
use crate::text;

verus! {

/// A typed projection of the current track's properties.
#[derive(Debug)]
pub struct SongInfo {
    /// Name of the currently playing song.
    pub name: String,
    /// Length (in seconds) of the currently playing song.
    pub duration: u16,
    /// Formatted (M:S) version of the `duration` property.
    pub time: String,
    /// Progress (in seconds) of the currently playing song.
    pub progress: u8,
    /// Formatted (M:S) version of the `progress` property.
    pub formatted_progress: String,
    /// Album name of the currently playing song.
    pub album: String,
    /// Name of the artist(s) that created the currently playing song.
    pub artist: String,
}

/// Minutes:seconds rendering with the seconds component padded to two
/// digits.
pub open spec fn m_s_format(seconds: nat) -> Seq<char> {
    text::dec_digits(seconds / 60) + seq![':'] + (if seconds % 60 < 10 {
        seq!['0']
    } else {
        Seq::<char>::empty()
    }) + text::dec_digits(seconds % 60)
}

/// In the padded rendering the seconds component is always exactly two
/// digits: the text is the minutes digits, a colon, then two characters.
pub proof fn lemma_m_s_format_two_digit_seconds(seconds: nat)
    ensures
        ({
            let secs = if seconds % 60 < 10 {
                seq!['0'] + text::dec_digits(seconds % 60)
            } else {
                text::dec_digits(seconds % 60)
            };
            &&& m_s_format(seconds) == text::dec_digits(seconds / 60) + seq![':'] + secs
            &&& secs.len() == 2
        }),
{
    assert(seconds % 60 < 60) by (nonlinear_arith);
    let s = seconds % 60;
    if s < 10 {
        assert(text::dec_digits(s).len() == 1);
        assert(m_s_format(seconds) =~= text::dec_digits(seconds / 60) + seq![':'] + (seq!['0']
            + text::dec_digits(s)));
    } else {
        assert(s / 10 < 10) by (nonlinear_arith)
            requires
                s < 60,
        ;
        assert(text::dec_digits(s / 10).len() == 1);
        assert(text::dec_digits(s).len() == 2);
        assert(m_s_format(seconds) =~= text::dec_digits(seconds / 60) + seq![':']
            + text::dec_digits(s));
    }
}

/// Formats a second count as minutes:seconds, the seconds component padded
/// to two digits.
pub fn format_seconds(seconds: u8) -> (r: String)
    ensures
        r@ == m_s_format(seconds as nat),
{
    let x: u8 = seconds / 60;
    let y: u8 = seconds % 60;
    proof {
        reveal_strlit(":");
        reveal_strlit("0");
        assert(":"@ =~= seq![':']);
        assert("0"@ =~= seq!['0']);
    }
    let mut s = text::u8_to_dec(x);
    s.append(":");
    if y < 10 {
        s.append("0");
    }
    let t = text::u8_to_dec(y);
    s.append(t.as_str());
    proof {
        assert(s@ =~= m_s_format(seconds as nat));
    }
    s
}

/// The default snapshot when no track is loaded: empty name, album and
/// artist, zero duration and zero progress, the time fields rendered as a
/// zero second count.
pub fn empty_song_info() -> (r: SongInfo)
    ensures
        r.name@ == Seq::<char>::empty(),
        r.album@ == Seq::<char>::empty(),
        r.artist@ == Seq::<char>::empty(),
        r.duration == 0,
        r.progress == 0,
        r.time@ == "0:00"@,
        r.formatted_progress@ == "0:00"@,
{
    SongInfo {
        name: String::new(),
        album: String::new(),
        artist: String::new(),
        duration: 0,
        time: String::from_str("0:00"),
        progress: 0,
        formatted_progress: String::from_str("0:00"),
    }
}

/// Assembles the snapshot from the six raw property texts, in the order the
/// batch probe requests them: progress, name, album, artist, duration,
/// duration-as-time.  A malformed number is a typed failure.
pub fn song_info_from_values(
    progress_text: &str,
    name: &str,
    album: &str,
    artist: &str,
    duration_text: &str,
    time: &str,
) -> (r: Result<SongInfo, BridgeError>)
    ensures
        r is Ok <==> text::u8_text(progress_text@) && text::u16_text(
            text::trim_spec(duration_text@),
        ),
        r matches Ok(info) ==> {
            &&& info.name@ == name@
            &&& info.album@ == album@
            &&& info.artist@ == artist@
            &&& info.time@ == time@
            &&& info.progress as nat == text::dec_val(progress_text@)
            &&& info.duration as nat == text::dec_val(text::trim_spec(duration_text@))
            &&& info.formatted_progress@ == m_s_format(text::dec_val(progress_text@))
        },
        r matches Err(e) ==> e == BridgeError::Coercion,
{
    let progress = match text::parse_u8(progress_text) {
        Some(v) => v,
        None => {
            return Err(BridgeError::Coercion);
        },
    };
    let duration = match text::parse_u16(text::trim_spaces(duration_text)) {
        Some(v) => v,
        None => {
            return Err(BridgeError::Coercion);
        },
    };
    Ok(
        SongInfo {
            name: String::from_str(name),
            album: String::from_str(album),
            artist: String::from_str(artist),
            duration,
            time: String::from_str(time),
            progress,
            formatted_progress: format_seconds(progress),
        },
    )
}

/// A view of the current song over a shared bridge.
pub struct SongInterface<'t> {
    itunes: &'t Itunes,
}

impl<'t> SongInterface<'t> {
    pub fn new(itunes: &'t Itunes) -> (r: SongInterface<'t>) {
        SongInterface { itunes }
    }

    /// Reads the snapshot of the current song: the empty defaults when no
    /// track is loaded, otherwise one batch probe for the six properties,
    /// coerced into the typed snapshot.
    pub fn get_song_info(&self) -> (r: Result<SongInfo, BridgeError>)
        ensures
            r matches Err(e) ==> e.is_host_error() || e == BridgeError::MisalignedResponse || e
                == BridgeError::Coercion,
    {
        match self.itunes.is_song_ready() {
            Err(e) => Err(e),
            Ok(false) => Ok(empty_song_info()),
            Ok(true) => {
                let props: Vec<&str> = vec![
                    "PlayerPosition",
                    "CurrentTrack.Name",
                    "CurrentTrack.Album",
                    "CurrentTrack.Artist",
                    "CurrentTrack.Duration",
                    "CurrentTrack.Time",
                ];
                let ghost pv = props.deep_view();
                proof {
                    assert(pv.len() == 6);
                }
                match self.itunes.get_properties(props) {
                    Err(e) => Err(e),
                    Ok(resp) => song_info_from_values(
                        resp.value_at(0).as_str(),
                        resp.value_at(1).as_str(),
                        resp.value_at(2).as_str(),
                        resp.value_at(3).as_str(),
                        resp.value_at(4).as_str(),
                        resp.value_at(5).as_str(),
                    ),
                }
            },
        }
    }

    /// Formats `seconds` into a minutes:seconds time format, the seconds
    /// component padded to two digits.
    pub fn format_m_s(&self, seconds: u8) -> (r: String)
        ensures
            r@ == m_s_format(seconds as nat),
    {
        format_seconds(seconds)
    }

    /// Formats `progress` into a minutes:seconds time format, the seconds
    /// component padded to two digits.
    pub fn format_progress(&self, progress: u8) -> (r: String)
        ensures
            r@ == m_s_format(progress as nat),
    {
        format_seconds(progress)
    }
}

} // verus!
