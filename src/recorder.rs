use vstd::prelude::*;
use vstd::string::*;
use crate::tracker::{Guard, RecordingState, TrackerError};
use crate::twitch::{ChannelInfo, ChannelView};

verus! {

/// `dir` and `name` joined as path components.
pub open spec fn join_of(dir: Seq<char>, name: Seq<char>) -> Seq<char> {
    if dir.len() == 0 || dir.last() == '/' {
        dir + name
    } else {
        dir + "/"@ + name
    }
}

/// The name of the file a recording goes to.
pub open spec fn file_name_of(stamp: Seq<char>, c: ChannelView) -> Seq<char> {
    stamp + "_"@ + c.user_name + "_"@ + c.game_name + "_"@ + c.title + ".mkv"@
}

/// The file a recording goes to: one directory per channel under the
/// archive root.
pub open spec fn target_of(archive_dir: Seq<char>, stamp: Seq<char>, c: ChannelView) -> Seq<char> {
    join_of(join_of(archive_dir, c.user_name), file_name_of(stamp, c))
}

/// The shell command that captures a channel's broadcast into its file.
pub open spec fn command_of(archive_dir: Seq<char>, stamp: Seq<char>, c: ChannelView) -> Seq<char> {
    "streamlink https://twitch.tv/"@ + c.user_login + " best --twitch-disable-hosting -o \""@
        + target_of(archive_dir, stamp, c) + "\""@
}

fn join_path(dir: &str, name: &str) -> (r: String)
    ensures
        r@ == join_of(dir@, name@),
{
    let n = dir.unicode_len();
    let mut p = String::from_str(dir);
    if n > 0 && dir.get_char(n - 1) != '/' {
        p.append("/");
    }
    p.append(name);
    p
}

/// The name of the file a recording goes to.
pub fn file_name(stamp: &str, channel: &ChannelInfo) -> (r: String)
    ensures
        r@ == file_name_of(stamp@, channel@),
{
    let mut f = String::from_str(stamp);
    f.append("_");
    f.append(channel.user_name.as_str());
    f.append("_");
    f.append(channel.game_name.as_str());
    f.append("_");
    f.append(channel.title.as_str());
    f.append(".mkv");
    f
}

/// The shell command that captures `channel` into a file under
/// `archive_dir` named after the capture time `stamp`.
pub fn create_command(archive_dir: &str, stamp: &str, channel: &ChannelInfo) -> (r: String)
    ensures
        r@ == command_of(archive_dir@, stamp@, channel@),
{
    let dir = join_path(archive_dir, channel.user_name.as_str());
    let name = file_name(stamp, channel);
    let target = join_path(dir.as_str(), name.as_str());
    let mut cmd = String::from_str("streamlink https://twitch.tv/");
    cmd.append(channel.user_login.as_str());
    cmd.append(" best --twitch-disable-hosting -o \"");
    cmd.append(target.as_str());
    cmd.append("\"");
    cmd
}

/// The UTC time of a timestamp as `time_format` writes it with the pattern
/// `%Y-%m-%d_%H-%M-%S`; `None` where it cannot split the timestamp.
pub uninterp spec fn archive_stamp_of(ts: i64) -> Option<Seq<char>>;

/// Relies on time_format::strftime_utc: formats `ts` seconds since the epoch
/// as a sortable UTC time, or fails where the C library cannot split it.
#[verifier::external_body]
fn archive_stamp(ts: i64) -> (r: Option<String>)
    ensures
        match r {
            Some(s) => archive_stamp_of(ts) == Some(s@),
            None => archive_stamp_of(ts) is None,
        },
{
    time_format::strftime_utc("%Y-%m-%d_%H-%M-%S", ts).ok()
}

/// A registered recording: the guard to hand back when the capture ends,
/// and the command that performs the capture.
#[derive(Debug)]
pub struct Recording {
    pub guard: Guard,
    pub command: String,
}

/// Why a recording was not started.
#[derive(Debug, PartialEq, Eq, Clone, Copy)]
pub enum StartError {
    /// The channel already has a recording in progress.
    AlreadyRecording,
    /// The capture time could not be written.
    Timestamp,
}

/// Registers a recording of `channel` and builds its capture command for
/// the capture time `stamp`. Refused, with the state unchanged, where the
/// channel is already recording.
pub fn begin_recording(
    state: &mut RecordingState,
    archive_dir: &str,
    stamp: &str,
    channel: &ChannelInfo,
) -> (r: Result<Recording, TrackerError>)
    requires
        old(state).wf(),
    ensures
        final(state).wf(),
        old(state)@.contains(channel.user_login@) ==> r == Err::<Recording, TrackerError>(
            TrackerError::AlreadyRecording,
        ) && final(state)@ == old(state)@,
        !old(state)@.contains(channel.user_login@) ==> (r matches Ok(rec)
            && rec.guard.login_view() == channel.user_login@
            && rec.command@ == command_of(archive_dir@, stamp@, channel@)
            && final(state)@ == old(state)@.insert(channel.user_login@)),
{
    let command = create_command(archive_dir, stamp, channel);
    match state.begin(&channel.user_login) {
        Ok(guard) => Ok(Recording { guard, command }),
        Err(e) => Err(e),
    }
}

/// Registers a recording of `channel` captured at `ts` seconds since the
/// epoch. Nothing is registered where the time cannot be written or the
/// channel is already recording.
pub fn try_record(state: &mut RecordingState, archive_dir: &str, ts: i64, channel: &ChannelInfo) -> (r:
    Result<Recording, StartError>)
    requires
        old(state).wf(),
    ensures
        final(state).wf(),
        archive_stamp_of(ts) is None ==> r == Err::<Recording, StartError>(StartError::Timestamp)
            && final(state)@ == old(state)@,
        archive_stamp_of(ts) is Some && old(state)@.contains(channel.user_login@) ==> r == Err::<
            Recording,
            StartError,
        >(StartError::AlreadyRecording) && final(state)@ == old(state)@,
        archive_stamp_of(ts) is Some && !old(state)@.contains(channel.user_login@) ==> (r matches Ok(
            rec,
        ) && rec.guard.login_view() == channel.user_login@ && rec.command@ == command_of(
            archive_dir@,
            archive_stamp_of(ts)->Some_0,
            channel@,
        ) && final(state)@ == old(state)@.insert(channel.user_login@)),
{
    match archive_stamp(ts) {
        Some(stamp) => match begin_recording(state, archive_dir, stamp.as_str(), channel) {
            Ok(rec) => Ok(rec),
            Err(_) => Err(StartError::AlreadyRecording),
        },
        None => Err(StartError::Timestamp),
    }
}

} // verus!
