use vstd::prelude::*;
use crate::tracker::RecordingState;
use crate::twitch::{ChannelInfo, ChannelView, ConfigError};

verus! {

/// The live channels that need a new recording: those whose login is not
/// recording, in the order the query listed them.
pub open spec fn to_dispatch_of(recording: Set<Seq<char>>, live: Seq<ChannelView>) -> Seq<
    ChannelView,
>
    decreases live.len(),
{
    if live.len() == 0 {
        Seq::empty()
    } else if recording.contains(live.last().user_login) {
        to_dispatch_of(recording, live.drop_last())
    } else {
        to_dispatch_of(recording, live.drop_last()).push(live.last())
    }
}

/// The display names of the live channels that are still recording.
pub open spec fn still_recording_of(recording: Set<Seq<char>>, live: Seq<ChannelView>) -> Seq<
    Seq<char>,
>
    decreases live.len(),
{
    if live.len() == 0 {
        Seq::empty()
    } else if recording.contains(live.last().user_login) {
        still_recording_of(recording, live.drop_last()).push(live.last().user_name)
    } else {
        still_recording_of(recording, live.drop_last())
    }
}

/// What one poll cycle decides.
#[derive(Debug)]
pub struct CyclePlan {
    /// The channels to start a recording for.
    pub to_record: Vec<ChannelInfo>,
    /// The display names of the live channels already recording.
    pub still_recording: Vec<String>,
}

/// Splits the live channels of one cycle into those to record and those
/// already recording.
pub fn plan_cycle(state: &RecordingState, live: Vec<ChannelInfo>) -> (r: CyclePlan)
    ensures
        r.to_record@.map_values(|c: ChannelInfo| c@) == to_dispatch_of(
            state@,
            live@.map_values(|c: ChannelInfo| c@),
        ),
        r.still_recording@.map_values(|s: String| s@) == still_recording_of(
            state@,
            live@.map_values(|c: ChannelInfo| c@),
        ),
{
    let ghost all = live@.map_values(|c: ChannelInfo| c@);
    let mut rest = live;
    let mut to_record: Vec<ChannelInfo> = Vec::new();
    let mut still_recording: Vec<String> = Vec::new();
    let ghost mut done: int = 0;
    while rest.len() > 0
        invariant
            0 <= done <= all.len(),
            rest@.map_values(|c: ChannelInfo| c@) == all.skip(done),
            to_record@.map_values(|c: ChannelInfo| c@) == to_dispatch_of(state@, all.take(done)),
            still_recording@.map_values(|s: String| s@) == still_recording_of(
                state@,
                all.take(done),
            ),
        decreases rest.len(),
    {
        let ghost before = rest@;
        proof {
            assert(before.map_values(|c: ChannelInfo| c@).len() == before.len());
            assert(before.map_values(|c: ChannelInfo| c@)[0] == before[0]@);
        }
        let c = rest.remove(0);
        proof {
            assert(c@ == all[done]);
            assert(all.take(done + 1).drop_last() =~= all.take(done));
            assert(all.take(done + 1).last() == c@);
        }
        if state.is_recording(&c.user_login) {
            still_recording.push(c.user_name);
        } else {
            to_record.push(c);
        }
        proof {
            assert(to_record@.map_values(|c: ChannelInfo| c@) =~= to_dispatch_of(
                state@,
                all.take(done + 1),
            ));
            assert(still_recording@.map_values(|s: String| s@) =~= still_recording_of(
                state@,
                all.take(done + 1),
            ));
            done = done + 1;
            assert(rest@ =~= before.skip(1));
            assert forall|k: int| 0 <= k < rest@.len() implies #[trigger] rest@[k]@ == all[done + k] by {
                assert(before.map_values(|c: ChannelInfo| c@)[k + 1] == before[k + 1]@);
            }
            assert(rest@.map_values(|c: ChannelInfo| c@) =~= all.skip(done));
        }
    }
    proof {
        assert(all.take(done) =~= all);
    }
    CyclePlan { to_record, still_recording }
}

/// What std's `str::trim` leaves of a text.
pub uninterp spec fn trimmed(s: Seq<char>) -> Seq<char>;

/// Relies on str::trim: drops leading and trailing whitespace.
#[verifier::external_body]
fn trim(s: &str) -> (r: &str)
    ensures
        r@ == trimmed(s@),
{
    s.trim()
}

/// The lines of a watch list that name a channel: those that are not blank.
pub open spec fn watched_of(lines: Seq<String>) -> Seq<Seq<char>>
    decreases lines.len(),
{
    if lines.len() == 0 {
        Seq::empty()
    } else if trimmed(lines.last()@).len() == 0 {
        watched_of(lines.drop_last())
    } else {
        watched_of(lines.drop_last()).push(lines.last()@)
    }
}

/// The channels that a watch list names, one per non-blank line; an empty
/// list is a configuration error.
pub fn read_channels(lines: Vec<String>) -> (r: Result<Vec<String>, ConfigError>)
    ensures
        match r {
            Ok(v) => v@.map_values(|s: String| s@) == watched_of(lines@) && v@.len() > 0,
            Err(e) => e == ConfigError::EmptyWatchList && watched_of(lines@).len() == 0,
        },
{
    let ghost all = lines@;
    let mut rest = lines;
    let mut out: Vec<String> = Vec::new();
    let ghost mut done: int = 0;
    while rest.len() > 0
        invariant
            0 <= done <= all.len(),
            rest@ == all.skip(done),
            out@.map_values(|s: String| s@) == watched_of(all.take(done)),
        decreases rest.len(),
    {
        let ghost before = rest@;
        let line = rest.remove(0);
        proof {
            assert(line == all[done]);
            assert(all.take(done + 1).drop_last() =~= all.take(done));
            assert(all.take(done + 1).last() == line);
        }
        if !trim(line.as_str()).is_empty() {
            out.push(line);
        }
        proof {
            assert(out@.map_values(|s: String| s@) =~= watched_of(all.take(done + 1)));
            done = done + 1;
            assert(rest@ =~= all.skip(done));
        }
    }
    proof {
        assert(all.take(done) =~= all);
    }
    if out.len() == 0 {
        Err(ConfigError::EmptyWatchList)
    } else {
        Ok(out)
    }
}

} // verus!
