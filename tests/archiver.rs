use stream_archiver::cache::ExpiringCache;
use stream_archiver::orchestrator::{plan_cycle, read_channels};
use stream_archiver::recorder::{begin_recording, create_command, file_name, try_record, StartError};
use stream_archiver::tracker::{RecordingState, TrackerError};
use stream_archiver::twitch::{
    auth_from_token_response, authorization_header, get_live_channels, live_channels_from_response,
    read_client_id_and_secret, streams_url, token_url, Auth, ChannelInfo, ConfigError, QueryError,
};

fn s(x: &str) -> String {
    x.to_string()
}

fn channel(login: &str, name: &str) -> ChannelInfo {
    ChannelInfo::new(s(login), s(name), s("Chess"), s("live"), s("Blitz"), s("2024-01-01T00:00:00Z"), s("en"))
}

fn record_json(login: &str) -> String {
    format!(
        "{{\"user_login\":\"{login}\",\"user_name\":\"{login}\",\"game_name\":\"Chess\",\"type\":\"live\",\"title\":\"Blitz\",\"started_at\":\"2024-01-01T00:00:00Z\",\"language\":\"en\"}}"
    )
}

#[test]
fn new_keeps_every_field() {
    let c = ChannelInfo::new(s("a"), s("b"), s("c"), s("d"), s("e"), s("f"), s("g"));
    assert_eq!(
        (c.user_login, c.user_name, c.game_name, c.typ, c.title, c.started_at, c.language),
        (s("a"), s("b"), s("c"), s("d"), s("e"), s("f"), s("g"))
    );
}

#[test]
fn startup_state_records_nothing() {
    let st = RecordingState::new();
    assert!(!st.is_recording(&s("alice")));
    assert!(!st.is_recording(&s("")));
}

#[test]
fn second_begin_for_same_login_is_refused() {
    let mut st = RecordingState::new();
    let g = st.begin(&s("alice")).unwrap();
    assert_eq!(st.begin(&s("alice")).unwrap_err(), TrackerError::AlreadyRecording);
    assert!(st.is_recording(&s("alice")));
    assert!(st.begin(&s("bob")).is_ok());
    st.release(g);
    assert!(!st.is_recording(&s("alice")));
    assert!(st.is_recording(&s("bob")));
}

#[test]
fn failed_capture_still_releases() {
    let mut st = RecordingState::new();
    let rec = begin_recording(&mut st, "/arch", "T", &channel("alice", "Alice")).unwrap();
    assert!(st.is_recording(&s("alice")));
    // the capture process exits non-zero: the guard is released all the same
    st.release(rec.guard);
    assert!(!st.is_recording(&s("alice")));
    assert!(begin_recording(&mut st, "/arch", "T", &channel("alice", "Alice")).is_ok());
}

#[test]
fn cache_computes_once_within_ttl() {
    let mut c: ExpiringCache<u32> = ExpiringCache::new(10);
    let mut calls = 0;
    assert_eq!(c.get_or_compute(100, || { calls += 1; Ok::<u32, ()>(7) }), Ok(true));
    assert_eq!(c.get_or_compute(109, || { calls += 1; Ok::<u32, ()>(8) }), Ok(false));
    assert_eq!(calls, 1);
    assert_eq!(c.value(), Some(&7));
}

#[test]
fn cache_computes_again_after_ttl() {
    let mut c: ExpiringCache<u32> = ExpiringCache::new(10);
    let mut calls = 0;
    assert_eq!(c.get_or_compute(100, || { calls += 1; Ok::<u32, ()>(7) }), Ok(true));
    assert_eq!(c.get_or_compute(111, || { calls += 1; Ok::<u32, ()>(8) }), Ok(true));
    assert_eq!(calls, 2);
    assert_eq!(c.value(), Some(&8));
    assert!(c.is_fresh(120));
    assert!(!c.is_fresh(121));
}

#[test]
fn cache_does_not_store_failures() {
    let mut c: ExpiringCache<u32> = ExpiringCache::new(10);
    assert_eq!(c.get_or_compute(100, || Err::<u32, &str>("down")), Err("down"));
    assert_eq!(c.value(), None);
    assert_eq!(c.get_or_compute(101, || Ok::<u32, &str>(3)), Ok(true));
    assert_eq!(c.value(), Some(&3));
}

#[test]
fn empty_data_gives_no_channels() {
    let r = live_channels_from_response("{\"data\":[]}").unwrap();
    assert!(r.is_empty());
}

#[test]
fn one_record_gives_one_channel_verbatim() {
    let text = "{\"data\":[{\"user_login\":\"alice\",\"user_name\":\"Alice\",\"game_name\":\"Chess\",\"type\":\"live\",\"title\":\"Blitz & more\",\"started_at\":\"2024-05-01T10:00:00Z\",\"language\":\"de\",\"viewer_count\":5}]}";
    let r = live_channels_from_response(text).unwrap();
    assert_eq!(r.len(), 1);
    let c = &r[0];
    assert_eq!(c.user_login, "alice");
    assert_eq!(c.user_name, "Alice");
    assert_eq!(c.game_name, "Chess");
    assert_eq!(c.typ, "live");
    assert_eq!(c.title, "Blitz & more");
    assert_eq!(c.started_at, "2024-05-01T10:00:00Z");
    assert_eq!(c.language, "de");
}

#[test]
fn malformed_json_is_data_format_not_transport() {
    let bad = get_live_channels(&Ok(s("{\"data\": [")));
    let down = get_live_channels(&Err(s("connection refused")));
    assert_eq!(bad.unwrap_err(), QueryError::DataFormat);
    assert_eq!(down.unwrap_err(), QueryError::Transport);
}

#[test]
fn missing_data_or_bad_record_is_data_format() {
    assert_eq!(live_channels_from_response("{\"error\":1}").unwrap_err(), QueryError::DataFormat);
    assert_eq!(live_channels_from_response("{\"data\":{}}").unwrap_err(), QueryError::DataFormat);
    assert_eq!(live_channels_from_response("[1]").unwrap_err(), QueryError::DataFormat);
    assert_eq!(
        live_channels_from_response("{\"data\":[{\"user_login\":\"alice\"}]}").unwrap_err(),
        QueryError::DataFormat
    );
    assert_eq!(live_channels_from_response("{\"data\":[7]}").unwrap_err(), QueryError::DataFormat);
}

#[test]
fn only_live_channel_is_dispatched() {
    let watch = read_channels(vec![s("alice"), s("bob")]).unwrap();
    assert_eq!(watch, vec![s("alice"), s("bob")]);
    let body = format!("{{\"data\":[{}]}}", record_json("alice"));
    let live = get_live_channels(&Ok(body)).unwrap();
    let mut st = RecordingState::new();
    let plan = plan_cycle(&st, live);
    assert_eq!(plan.to_record.len(), 1);
    assert_eq!(plan.to_record[0].user_login, "alice");
    assert!(plan.still_recording.is_empty());
    let rec = begin_recording(&mut st, "/arch", "T", &plan.to_record[0]).unwrap();
    assert!(st.is_recording(&s("alice")));
    assert!(!st.is_recording(&s("bob")));
    st.release(rec.guard);
    assert!(!st.is_recording(&s("alice")));
}

#[test]
fn channel_already_recording_is_not_dispatched_again() {
    let mut st = RecordingState::new();
    let _g = st.begin(&s("alice")).unwrap();
    let plan = plan_cycle(&st, vec![channel("alice", "Alice"), channel("bob", "Bob")]);
    assert_eq!(plan.still_recording, vec![s("Alice")]);
    assert_eq!(plan.to_record.len(), 1);
    assert_eq!(plan.to_record[0].user_login, "bob");
}

#[test]
fn begin_recording_refuses_recording_channel() {
    let mut st = RecordingState::new();
    let _g = st.begin(&s("alice")).unwrap();
    let r = begin_recording(&mut st, "/arch", "T", &channel("alice", "Alice"));
    assert_eq!(r.unwrap_err(), TrackerError::AlreadyRecording);
}

#[test]
fn command_names_url_and_target() {
    let c = channel("alice", "Alice");
    assert_eq!(file_name("2024-01-01_00-00-00", &c), "2024-01-01_00-00-00_Alice_Chess_Blitz.mkv");
    assert_eq!(
        create_command("/arch", "T", &c),
        "streamlink https://twitch.tv/alice best --twitch-disable-hosting -o \"/arch/Alice/T_Alice_Chess_Blitz.mkv\""
    );
    assert_eq!(
        create_command("/arch/", "T", &c),
        "streamlink https://twitch.tv/alice best --twitch-disable-hosting -o \"/arch/Alice/T_Alice_Chess_Blitz.mkv\""
    );
}

#[test]
fn try_record_stamps_in_utc() {
    let mut st = RecordingState::new();
    let rec = try_record(&mut st, "/a", 86_400 + 3_723, &channel("alice", "Alice")).unwrap();
    assert_eq!(
        rec.command,
        "streamlink https://twitch.tv/alice best --twitch-disable-hosting -o \"/a/Alice/1970-01-02_01-02-03_Alice_Chess_Blitz.mkv\""
    );
    let again = try_record(&mut st, "/a", 0, &channel("alice", "Alice"));
    assert_eq!(again.unwrap_err(), StartError::AlreadyRecording);
}

#[test]
fn streams_url_encodes_and_batches() {
    let url = streams_url(&vec![s("alice"), s("b b&c")]);
    assert_eq!(url, "https://api.twitch.tv/helix/streams?user_login=alice&user_login=b%20b%26c");
    assert_eq!(streams_url(&vec![]), "https://api.twitch.tv/helix/streams?user_login=");
}

#[test]
fn token_url_and_header() {
    assert_eq!(
        token_url("id", "sec"),
        "https://id.twitch.tv/oauth2/token?client_id=id&client_secret=sec&grant_type=client_credentials"
    );
    let a = Auth { client_id: s("id"), bearer_token: s("tok") };
    assert_eq!(authorization_header(&a), "Bearer tok");
}

#[test]
fn token_response_gives_bearer() {
    let a = auth_from_token_response(s("id"), "{\"access_token\":\"tok\",\"expires_in\":5,\"token_type\":\"bearer\"}").unwrap();
    assert_eq!(a.client_id, "id");
    assert_eq!(a.bearer_token, "tok");
    assert_eq!(auth_from_token_response(s("id"), "nope").unwrap_err(), QueryError::DataFormat);
}

#[test]
fn credentials_file_is_read() {
    let r = read_client_id_and_secret("{\"client-id\":\"i\",\"client-secret\":\"x\"}").unwrap();
    assert_eq!(r, (s("i"), s("x")));
    assert_eq!(read_client_id_and_secret("{\"client-id\":\"i\"}").unwrap_err(), ConfigError::Credentials);
}

#[test]
fn watch_list_skips_blank_lines() {
    let r = read_channels(vec![s("alice"), s("   "), s(""), s("bob")]).unwrap();
    assert_eq!(r, vec![s("alice"), s("bob")]);
    assert_eq!(read_channels(vec![s(" "), s("\t")]).unwrap_err(), ConfigError::EmptyWatchList);
    assert_eq!(read_channels(vec![]).unwrap_err(), ConfigError::EmptyWatchList);
}
