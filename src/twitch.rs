use vstd::prelude::*;
use vstd::string::*;
use crate::json::{Json, get_field, get_string_field, parse_json, parsed_json, field, string_field};

verus! {

/// A live channel as reported by the platform at query time.
#[derive(Debug)]
pub struct ChannelInfo {
    pub user_login: String,
    pub user_name: String,
    pub game_name: String,
    pub typ: String,
    pub title: String,
    pub started_at: String,
    pub language: String,
}

/// The texts of a `ChannelInfo`.
pub ghost struct ChannelView {
    pub user_login: Seq<char>,
    pub user_name: Seq<char>,
    pub game_name: Seq<char>,
    pub typ: Seq<char>,
    pub title: Seq<char>,
    pub started_at: Seq<char>,
    pub language: Seq<char>,
}

impl View for ChannelInfo {
    type V = ChannelView;

    open spec fn view(&self) -> ChannelView {
        ChannelView {
            user_login: self.user_login@,
            user_name: self.user_name@,
            game_name: self.game_name@,
            typ: self.typ@,
            title: self.title@,
            started_at: self.started_at@,
            language: self.language@,
        }
    }
}

impl ChannelInfo {
    pub fn new(
        user_login: String,
        user_name: String,
        game_name: String,
        typ: String,
        title: String,
        started_at: String,
        language: String,
    ) -> (r: Self)
        ensures
            r.user_login == user_login,
            r.user_name == user_name,
            r.game_name == game_name,
            r.typ == typ,
            r.title == title,
            r.started_at == started_at,
            r.language == language,
    {
        ChannelInfo { user_login, user_name, game_name, typ, title, started_at, language }
    }
}

/// Why a query to the platform gave no answer.
#[derive(Debug, PartialEq, Eq, Clone, Copy)]
pub enum QueryError {
    /// The request did not get through: no connection, a timeout, a non-2xx status.
    Transport,
    /// The answer arrived but does not have the expected JSON shape.
    DataFormat,
}

/// The channel described by one record of the `data` array, where each of
/// its seven members is a JSON string.
pub open spec fn channel_of_record(rec: Json) -> Option<ChannelView> {
    if string_field(rec, "user_login"@) is Some && string_field(rec, "user_name"@) is Some
        && string_field(rec, "game_name"@) is Some && string_field(rec, "type"@) is Some
        && string_field(rec, "title"@) is Some && string_field(rec, "started_at"@) is Some
        && string_field(rec, "language"@) is Some {
        Some(
            ChannelView {
                user_login: string_field(rec, "user_login"@).unwrap(),
                user_name: string_field(rec, "user_name"@).unwrap(),
                game_name: string_field(rec, "game_name"@).unwrap(),
                typ: string_field(rec, "type"@).unwrap(),
                title: string_field(rec, "title"@).unwrap(),
                started_at: string_field(rec, "started_at"@).unwrap(),
                language: string_field(rec, "language"@).unwrap(),
            },
        )
    } else {
        None
    }
}

/// The live channels that a streams response lists: `None` where `data` is
/// missing, is not an array, or holds a record that is not well formed.
pub open spec fn live_channels_of(body: Json) -> Option<Seq<ChannelView>> {
    match field(body, "data"@) {
        Some(Json::Array(recs)) => if forall|i: int|
            0 <= i < recs@.len() ==> (#[trigger] channel_of_record(recs@[i])) is Some {
            Some(recs@.map_values(|rec: Json| channel_of_record(rec).unwrap()))
        } else {
            None
        },
        _ => None,
    }
}

/// Reads one record of the `data` array.
fn channel_from_record(rec: &Json) -> (r: Option<ChannelInfo>)
    ensures
        match r {
            Some(c) => channel_of_record(*rec) == Some(c@),
            None => channel_of_record(*rec) is None,
        },
{
    proof {
        reveal_strlit("user_login");
        reveal_strlit("user_name");
        reveal_strlit("game_name");
        reveal_strlit("type");
        reveal_strlit("title");
        reveal_strlit("started_at");
        reveal_strlit("language");
    }
    let user_login = get_string_field(rec, "user_login");
    let user_name = get_string_field(rec, "user_name");
    let game_name = get_string_field(rec, "game_name");
    let typ = get_string_field(rec, "type");
    let title = get_string_field(rec, "title");
    let started_at = get_string_field(rec, "started_at");
    let language = get_string_field(rec, "language");
    match (user_login, user_name, game_name, typ, title, started_at, language) {
        (Some(a), Some(b), Some(c), Some(d), Some(e), Some(f), Some(g)) => Some(
            ChannelInfo::new(a, b, c, d, e, f, g),
        ),
        _ => None,
    }
}

/// Reads the live channels out of a parsed streams response. A missing or
/// malformed `data` member, or any malformed record, fails the whole answer.
pub fn parse_live_channels(body: &Json) -> (r: Result<Vec<ChannelInfo>, QueryError>)
    ensures
        match r {
            Ok(v) => live_channels_of(*body) == Some(v@.map_values(|c: ChannelInfo| c@)),
            Err(e) => e == QueryError::DataFormat && live_channels_of(*body) is None,
        },
{
    proof {
        reveal_strlit("data");
    }
    let recs = match get_field(body, "data") {
        Some(Json::Array(recs)) => recs,
        _ => return Err(QueryError::DataFormat),
    };
    let mut out: Vec<ChannelInfo> = Vec::new();
    let mut i: usize = 0;
    while i < recs.len()
        invariant
            0 <= i <= recs@.len(),
            field(*body, "data"@) == Some(Json::Array(*recs)),
            out@.len() == i,
            forall|k: int| 0 <= k < i ==> channel_of_record(recs@[k]) == Some(#[trigger] out@[k]@),
        decreases recs.len() - i,
    {
        match channel_from_record(&recs[i]) {
            Some(c) => out.push(c),
            None => return Err(QueryError::DataFormat),
        }
        i = i + 1;
    }
    assert forall|k: int| 0 <= k < recs@.len() implies (#[trigger] channel_of_record(
        recs@[k],
    )) is Some by {
        assert(channel_of_record(recs@[k]) == Some(out@[k]@));
    }
    assert(out@.map_values(|c: ChannelInfo| c@) =~= recs@.map_values(
        |rec: Json| channel_of_record(rec).unwrap(),
    ));
    Ok(out)
}

/// What a successful streams request answers: the channels it lists, or
/// `DataFormat` where the text is not JSON or not of the expected shape.
pub open spec fn response_result(text: Seq<char>) -> Result<Seq<ChannelView>, QueryError> {
    match parsed_json(text) {
        Some(body) => match live_channels_of(body) {
            Some(cs) => Ok(cs),
            None => Err(QueryError::DataFormat),
        },
        None => Err(QueryError::DataFormat),
    }
}

/// Reads the live channels out of the text of a streams response.
pub fn live_channels_from_response(text: &str) -> (r: Result<Vec<ChannelInfo>, QueryError>)
    ensures
        match r {
            Ok(v) => response_result(text@) == Ok::<Seq<ChannelView>, QueryError>(
                v@.map_values(|c: ChannelInfo| c@),
            ),
            Err(e) => response_result(text@) == Err::<Seq<ChannelView>, QueryError>(e),
        },
{
    match parse_json(text) {
        Some(body) => parse_live_channels(&body),
        None => Err(QueryError::DataFormat),
    }
}

/// Turns the outcome of the streams request into the live channels: a
/// request that did not get through is a `Transport` error, an answer of the
/// wrong shape a `DataFormat` error. Channels that are not live are simply
/// absent from the answer.
pub fn get_live_channels(response: &Result<String, String>) -> (r: Result<
    Vec<ChannelInfo>,
    QueryError,
>)
    ensures
        response is Err ==> r == Err::<Vec<ChannelInfo>, QueryError>(QueryError::Transport),
        response is Ok ==> match r {
            Ok(v) => response_result(response->Ok_0@) == Ok::<Seq<ChannelView>, QueryError>(
                v@.map_values(|c: ChannelInfo| c@),
            ),
            Err(e) => response_result(response->Ok_0@) == Err::<Seq<ChannelView>, QueryError>(e),
        },
{
    match response {
        Ok(text) => live_channels_from_response(text.as_str()),
        Err(_) => Err(QueryError::Transport),
    }
}

/// What urlencoding makes of a text: every byte but ASCII letters, digits
/// and `-_.~` percent-encoded.
pub uninterp spec fn url_encoded(s: Seq<char>) -> Seq<char>;

/// Relies on urlencoding::encode: percent-encodes the UTF-8 bytes of `s`.
#[verifier::external_body]
fn url_encode(s: &str) -> (r: String)
    ensures
        r@ == url_encoded(s@),
{
    urlencoding::encode(s).into_owned()
}

/// The encoded names, joined by `&user_login=`.
pub open spec fn login_filters(names: Seq<String>) -> Seq<char>
    decreases names.len(),
{
    if names.len() == 0 {
        Seq::empty()
    } else if names.len() == 1 {
        url_encoded(names[0]@)
    } else {
        login_filters(names.drop_last()) + "&user_login="@ + url_encoded(names.last()@)
    }
}

pub open spec fn streams_url_of(names: Seq<String>) -> Seq<char> {
    "https://api.twitch.tv/helix/streams?user_login="@ + login_filters(names)
}

/// The one request URL that asks for the live state of all `names` at once.
pub fn streams_url(names: &Vec<String>) -> (r: String)
    ensures
        r@ == streams_url_of(names@),
{
    let mut url = String::from_str("https://api.twitch.tv/helix/streams?user_login=");
    let mut i: usize = 0;
    while i < names.len()
        invariant
            0 <= i <= names@.len(),
            url@ == streams_url_of(names@.take(i as int)),
        decreases names.len() - i,
    {
        if i > 0 {
            url.append("&user_login=");
        }
        let enc = url_encode(names[i].as_str());
        url.append(enc.as_str());
        proof {
            assert(names@.take(i + 1).drop_last() =~= names@.take(i as int));
            if i == 0 {
                assert(login_filters(names@.take(0)) =~= Seq::<char>::empty());
            }
        }
        i = i + 1;
    }
    assert(names@.take(names@.len() as int) =~= names@);
    url
}

/// The token request URL for the client-credentials exchange.
pub fn token_url(client_id: &str, client_secret: &str) -> (r: String)
    ensures
        r@ == "https://id.twitch.tv/oauth2/token?client_id="@ + client_id@ + "&client_secret="@
            + client_secret@ + "&grant_type=client_credentials"@,
{
    let mut url = String::from_str("https://id.twitch.tv/oauth2/token?client_id=");
    url.append(client_id);
    url.append("&client_secret=");
    url.append(client_secret);
    url.append("&grant_type=client_credentials");
    url
}

/// The client identifier and bearer token that authorize API calls.
#[derive(Debug, Clone)]
pub struct Auth {
    pub client_id: String,
    pub bearer_token: String,
}

/// Why the local configuration cannot be used.
#[derive(Debug, PartialEq, Eq, Clone, Copy)]
pub enum ConfigError {
    /// The credentials file is not a JSON object with string members
    /// `client-id` and `client-secret`.
    Credentials,
    /// The watch list names no channel.
    EmptyWatchList,
}

/// The client id and secret held by the credentials file.
pub open spec fn credentials_of(text: Seq<char>) -> Option<(Seq<char>, Seq<char>)> {
    match parsed_json(text) {
        Some(j) => if string_field(j, "client-id"@) is Some && string_field(j, "client-secret"@) is Some {
            Some((string_field(j, "client-id"@).unwrap(), string_field(j, "client-secret"@).unwrap()))
        } else {
            None
        },
        None => None,
    }
}

/// Reads the client id and secret out of the credentials file's text.
pub fn read_client_id_and_secret(text: &str) -> (r: Result<(String, String), ConfigError>)
    ensures
        match r {
            Ok((id, secret)) => credentials_of(text@) == Some((id@, secret@)),
            Err(e) => e == ConfigError::Credentials && credentials_of(text@) is None,
        },
{
    proof {
        reveal_strlit("client-id");
        reveal_strlit("client-secret");
    }
    match parse_json(text) {
        Some(j) => match (get_string_field(&j, "client-id"), get_string_field(&j, "client-secret")) {
            (Some(id), Some(secret)) => Ok((id, secret)),
            _ => Err(ConfigError::Credentials),
        },
        None => Err(ConfigError::Credentials),
    }
}

/// The access token of a token response.
pub open spec fn access_token_of(text: Seq<char>) -> Option<Seq<char>> {
    match parsed_json(text) {
        Some(j) => string_field(j, "access_token"@),
        None => None,
    }
}

/// Reads the bearer token out of the token endpoint's answer and pairs it
/// with the client id it was issued to.
pub fn auth_from_token_response(client_id: String, text: &str) -> (r: Result<Auth, QueryError>)
    ensures
        match r {
            Ok(a) => a.client_id == client_id && access_token_of(text@) == Some(a.bearer_token@),
            Err(e) => e == QueryError::DataFormat && access_token_of(text@) is None,
        },
{
    proof {
        reveal_strlit("access_token");
    }
    match parse_json(text) {
        Some(j) => match get_string_field(&j, "access_token") {
            Some(bearer_token) => Ok(Auth { client_id, bearer_token }),
            None => Err(QueryError::DataFormat),
        },
        None => Err(QueryError::DataFormat),
    }
}

/// The value of the `Authorization` header for a bearer token.
pub fn authorization_header(auth: &Auth) -> (r: String)
    ensures
        r@ == "Bearer "@ + auth.bearer_token@,
{
    let mut h = String::from_str("Bearer ");
    h.append(auth.bearer_token.as_str());
    h
}

} // verus!
