//! The health check: walks the whole pipeline live, past every cache, and reports
//! where it breaks.

use crate::auth::{bearer, bearer_authorization, is_authorized, validate_api_key};
use crate::reply::{reject, reply, unauthorized, uncached, BodyView, Reply, ReplyBody, ReplyView};
use crate::spotify::artists::{artist_address, artist_url};
use crate::spotify::genres::ArtistGenres;
use crate::spotify::history::{
    all_ids, artist_ids, first_failure, parse_play_history, readable,
    readable_entries_stay_in_place,
};
use crate::spotify::model::PlayHistoryObject;
use crate::spotify::recent::{history_url, recently_played_url, RECENTLY_PLAYED_FETCH_LIMIT};
use crate::spotify::report::{
    ArtistReport, ArtistReportView, DiagnoseReport, PlayedReport, PlayedReportView, ReportView,
    SettingsReport, SettingsView, TokenReport, TokenReportView,
};
use crate::spotify::token::{is_revoked, is_revoked_grant, is_success, Credentials};
use crate::spotify::track::{build_tracks, named_entries_give_a_track_each, tracks_of};
use crate::text::{
    contains, copy_texts, decimal, joined, occurs, opt_text, shortened, snippet, texts,
};
use vstd::prelude::*;

verus! {

/// Said when the refresh token was revoked.
pub const REVOKED: &'static str = "The refresh token has been revoked. The client ID and secret are probably still fine - only the user grant is gone. Re-run `python3 spotify_reauth.py --write-env` as the account owner, then restart the service. To confirm the app credentials separately, try a client_credentials grant: if that returns 200, the secret is valid and only the refresh token needs replacing.";

/// Said when no token was granted for another reason.
pub const NO_TOKEN: &'static str = "Token refresh failed. Check SPOTIFY_CLIENT_ID / SPOTIFY_CLIENT_SECRET / SPOTIFY_REFRESH_TOKEN, and that the app still exists and the owner has an active Spotify Premium subscription (required for Development Mode apps since February 2026).";

/// Said when the listening history could not be asked for.
pub const HISTORY_UNREACHABLE: &'static str = "The recently-played endpoint could not be reached. Check the connection between this service and api.spotify.com.";

/// Said when the listening history was refused.
pub const REJECTED: &'static str = "The recently-played endpoint rejected the request. A 403 usually means this app no longer has access to the endpoint (February 2026 Development Mode restrictions) or the account is not on the app's allow-list.";

/// Said when the listening history is empty.
pub const NOTHING_PLAYED: &'static str = "Spotify returned an empty listening history. Nothing has been played recently, or the refresh token belongs to a different account.";

/// Said when the listening history is not what it should be.
pub const UNEXPECTED_SHAPE: &'static str = "Spotify answered 200 but the response shape is not what we expect. Compare the body above against the structs in src/spotify.rs.";

/// Said when the artist was not to be had.
pub const NO_ARTIST_DATA: &'static str = "The artist lookup failed, so no genres are known and tracks are served unfiltered. A 401, 403 or 404 usually means this app no longer has access to the endpoint (February 2026 Development Mode restrictions).";

/// Said when nothing else was.
pub const ALL_WELL: &'static str = "Every stage succeeded. If /aggregated still returns an empty tracks array, the genre filter is removing everything - compare excluded_genres above against the genres reported by artist_lookup.";

/// Why no artist was looked up.
pub const NO_ARTIST: &'static str = "no artist id available from recently-played";

/// What was answered to the lookup of an artist: the status, the body, and the
/// genres in it if it could be parsed.
pub struct ArtistAnswer {
    pub status: u16,
    pub body: String,
    pub genres: Option<Vec<String>>,
}

/// What happened last while the pipeline was walked.
pub enum DiagnoseEvent {
    /// The check was asked for.
    Request { authorization: Option<String>, credentials: Credentials },
    /// A new token was asked for.
    Token { report: DiagnoseReport, token: Result<(String, u64), String> },
    /// The listening history was asked for.
    Played { report: DiagnoseReport, token: String, answer: Result<(u16, String), String> },
    /// It was parsed: as a whole, and each of its entries.
    Parsed {
        report: DiagnoseReport,
        token: String,
        status: u16,
        body: String,
        items: Result<Vec<Result<PlayHistoryObject, String>>, String>,
    },
    /// An artist was looked up.
    Artist { report: DiagnoseReport, artist_id: String, answer: Result<ArtistAnswer, String> },
}

/// What is to be done next.
pub enum DiagnoseStep {
    /// Ask for a new token.
    RequestToken { report: DiagnoseReport },
    /// Ask for the listening history, with the `Authorization` header.
    FetchPlayed { report: DiagnoseReport, token: String, url: String, authorization: String },
    /// Parse it.
    ParsePlayed { report: DiagnoseReport, token: String, status: u16, body: String },
    /// Look an artist up, with the `Authorization` header.
    FetchArtist { report: DiagnoseReport, artist_id: String, url: String, authorization: String },
    Respond(Reply),
}

/// The model of [`DiagnoseStep`].
#[verifier::ext_equal]
pub enum DiagnoseStepView {
    RequestToken { report: ReportView },
    FetchPlayed {
        report: ReportView,
        token: Seq<char>,
        url: Seq<char>,
        authorization: Seq<char>,
    },
    ParsePlayed { report: ReportView, token: Seq<char>, status: u16, body: Seq<char> },
    FetchArtist {
        report: ReportView,
        artist_id: Seq<char>,
        url: Seq<char>,
        authorization: Seq<char>,
    },
    Respond(ReplyView),
}

impl View for DiagnoseStep {
    type V = DiagnoseStepView;

    open spec fn view(&self) -> DiagnoseStepView {
        match *self {
            DiagnoseStep::RequestToken { report } => DiagnoseStepView::RequestToken {
                report: report@,
            },
            DiagnoseStep::FetchPlayed { report, token, url, authorization } => {
                DiagnoseStepView::FetchPlayed {
                    report: report@,
                    token: token@,
                    url: url@,
                    authorization: authorization@,
                }
            },
            DiagnoseStep::ParsePlayed { report, token, status, body } => {
                DiagnoseStepView::ParsePlayed {
                    report: report@,
                    token: token@,
                    status,
                    body: body@,
                }
            },
            DiagnoseStep::FetchArtist { report, artist_id, url, authorization } => {
                DiagnoseStepView::FetchArtist {
                    report: report@,
                    artist_id: artist_id@,
                    url: url@,
                    authorization: authorization@,
                }
            },
            DiagnoseStep::Respond(r) => DiagnoseStepView::Respond(r@),
        }
    }
}

/// A setting is there, and is not empty.
pub open spec fn is_set(setting: Option<String>) -> bool {
    setting matches Some(value) && value@.len() > 0
}

/// The report before the first stage.
pub open spec fn first_report(credentials: Credentials, excluded: Seq<Seq<char>>) -> ReportView {
    ReportView {
        config: SettingsView {
            client_id_set: is_set(credentials.client_id),
            client_secret_set: is_set(credentials.client_secret),
            refresh_token_set: is_set(credentials.refresh_token),
            excluded_genres: excluded,
        },
        token_refresh: None,
        recently_played: None,
        artist_lookup: None,
        conclusion: None,
    }
}

/// The report with a conclusion, unless it has one already.
pub open spec fn concluded(report: ReportView, conclusion: Seq<char>) -> ReportView {
    ReportView {
        conclusion: if report.conclusion is None {
            Some(conclusion)
        } else {
            report.conclusion
        },
        ..report
    }
}

/// The error of a token refresh means that the refresh token is dead.
pub open spec fn says_revoked(error: Seq<char>) -> bool {
    is_revoked(error) || occurs("no longer valid"@, error)
}

/// The report behind the token refresh.
pub open spec fn report_token(report: ReportView, token: Result<(String, u64), String>) -> ReportView {
    match token {
        Ok((_, expires_in)) => ReportView {
            token_refresh: Some(TokenReportView::Granted { expires_in }),
            ..report
        },
        Err(error) => concluded(
            ReportView {
                token_refresh: Some(TokenReportView::Failed { error: error@ }),
                ..report
            },
            if says_revoked(error@) {
                REVOKED@
            } else {
                NO_TOKEN@
            },
        ),
    }
}

/// The report behind the request for the listening history.
pub open spec fn report_played(report: ReportView, played: PlayedReportView) -> ReportView {
    let told = ReportView { recently_played: Some(played), ..report };
    match played {
        PlayedReportView::Unreachable { .. } => concluded(told, HISTORY_UNREACHABLE@),
        PlayedReportView::Refused { .. } => concluded(told, REJECTED@),
        PlayedReportView::Unreadable { .. } => concluded(told, UNEXPECTED_SHAPE@),
        PlayedReportView::Read { items_returned, .. } => if items_returned == 0 {
            concluded(told, NOTHING_PLAYED@)
        } else {
            told
        },
    }
}

/// The answer that the check ends with.
pub open spec fn final_reply(report: ReportView) -> ReplyView {
    uncached(200, BodyView::Report(concluded(report, ALL_WELL@)))
}

/// The step behind the listening history: the lookup of the first artist in it, if
/// there is one.
pub open spec fn artist_stage(
    report: ReportView,
    token: Seq<char>,
    artist_id: Option<Seq<char>>,
) -> DiagnoseStepView {
    match artist_id {
        Some(id) => DiagnoseStepView::FetchArtist {
            report,
            artist_id: id,
            url: artist_address(id),
            authorization: bearer(token),
        },
        None => DiagnoseStepView::Respond(
            final_reply(report_artist(report, ArtistReportView::Skipped { reason: NO_ARTIST@ })),
        ),
    }
}

/// The first of a sequence, if there is one.
pub open spec fn first_text(s: Seq<Seq<char>>) -> Option<Seq<char>> {
    if s.len() > 0 {
        Some(s[0])
    } else {
        None
    }
}

/// What is told of a listening history that was parsed.
pub open spec fn told_of(
    status: u16,
    items: Seq<Result<PlayHistoryObject, String>>,
) -> PlayedReportView {
    PlayedReportView::Read {
        status,
        items_returned: items.len(),
        items_parsed: readable(items).len(),
        items_skipped: (items.len() - readable(items).len()) as nat,
        first_parse_error: opt_text(first_failure(items)),
        tracks_built: tracks_of(readable(items), Map::empty()).len(),
    }
}

/// What is told of the lookup of an artist.
pub open spec fn told_of_artist(
    artist_id: Seq<char>,
    answer: Result<ArtistAnswer, String>,
) -> ArtistReportView {
    match answer {
        Ok(a) => ArtistReportView::Answered {
            ok: is_success(a.status),
            artist_id,
            status: a.status,
            genres: match a.genres {
                Some(list) => Some(texts(list@)),
                None => None,
            },
            body: if is_success(a.status) {
                None
            } else {
                Some(shortened(a.body@, 500))
            },
        },
        Err(e) => ArtistReportView::Unreachable { error: e@ },
    }
}

/// The artist was looked up in vain.
pub open spec fn artist_failed(artist: ArtistReportView) -> bool {
    match artist {
        ArtistReportView::Answered { ok, .. } => !ok,
        ArtistReportView::Unreachable { .. } => true,
        ArtistReportView::Skipped { .. } => false,
    }
}

/// The report behind the lookup of an artist.
pub open spec fn report_artist(report: ReportView, artist: ArtistReportView) -> ReportView {
    let told = ReportView { artist_lookup: Some(artist), ..report };
    if artist_failed(artist) {
        concluded(told, NO_ARTIST_DATA@)
    } else {
        told
    }
}

/// The token of a refresh; an empty one where there is none.
pub open spec fn token_or_nothing(token: Result<(String, u64), String>) -> Seq<char> {
    match token {
        Ok((t, _)) => t@,
        Err(_) => Seq::empty(),
    }
}

/// What is to be done behind each event of the check. Where no token was granted,
/// the listening history is asked for all the same, with an empty one.
pub open spec fn diagnose_step(
    event: DiagnoseEvent,
    api_key: Seq<char>,
    excluded: Seq<Seq<char>>,
) -> DiagnoseStepView {
    match event {
        DiagnoseEvent::Request { authorization, credentials } => if is_authorized(
            authorization,
            api_key,
        ) {
            DiagnoseStepView::RequestToken { report: first_report(credentials, excluded) }
        } else {
            DiagnoseStepView::Respond(unauthorized())
        },
        DiagnoseEvent::Token { report, token } => DiagnoseStepView::FetchPlayed {
            report: report_token(report@, token),
            token: token_or_nothing(token),
            url: history_url(RECENTLY_PLAYED_FETCH_LIMIT as nat),
            authorization: bearer(token_or_nothing(token)),
        },
        DiagnoseEvent::Played { report, token, answer: Err(e) } => artist_stage(
            report_played(report@, PlayedReportView::Unreachable { error: e@ }),
            token@,
            None,
        ),
        DiagnoseEvent::Played { report, token, answer: Ok((status, body)) } => if is_success(
            status,
        ) {
            DiagnoseStepView::ParsePlayed { report: report@, token: token@, status, body: body@ }
        } else {
            artist_stage(
                report_played(
                    report@,
                    PlayedReportView::Refused { status, body: shortened(body@, 800) },
                ),
                token@,
                None,
            )
        },
        DiagnoseEvent::Parsed { report, token, status, body, items: Err(e) } => artist_stage(
            report_played(
                report@,
                PlayedReportView::Unreadable {
                    status,
                    error: "unparseable response: "@ + e@,
                    body: shortened(body@, 800),
                },
            ),
            token@,
            None,
        ),
        DiagnoseEvent::Parsed { report, token, status, body, items: Ok(items) } => artist_stage(
            report_played(report@, told_of(status, items@)),
            token@,
            first_text(all_ids(readable(items@))),
        ),
        DiagnoseEvent::Artist { report, artist_id, answer } => DiagnoseStepView::Respond(
            final_reply(report_artist(report@, told_of_artist(artist_id@, answer))),
        ),
    }
}

fn setting_is_set(setting: &Option<String>) -> (r: bool)
    ensures
        r == is_set(*setting),
{
    match setting {
        Some(value) => !value.as_str().is_empty(),
        None => false,
    }
}

fn conclude(report: &mut DiagnoseReport, conclusion: &str)
    ensures
        final(report)@ == concluded(old(report)@, conclusion@),
{
    if report.conclusion.is_none() {
        report.conclusion = Some(conclusion.to_owned());
    }
}

fn record_token(report: &mut DiagnoseReport, token: &Result<(String, u64), String>)
    ensures
        final(report)@ == report_token(old(report)@, *token),
{
    match token {
        Ok((_, expires_in)) => {
            report.token_refresh = Some(TokenReport::Granted { expires_in: *expires_in });
        },
        Err(error) => {
            report.token_refresh = Some(TokenReport::Failed { error: error.clone() });
            if is_revoked_grant(error.as_str()) || contains(error.as_str(), "no longer valid") {
                conclude(report, REVOKED);
            } else {
                conclude(report, NO_TOKEN);
            }
        },
    }
}

fn record_played(report: &mut DiagnoseReport, played: PlayedReport)
    ensures
        final(report)@ == report_played(old(report)@, played@),
{
    let conclusion = match &played {
        PlayedReport::Unreachable { .. } => Some(HISTORY_UNREACHABLE),
        PlayedReport::Refused { .. } => Some(REJECTED),
        PlayedReport::Unreadable { .. } => Some(UNEXPECTED_SHAPE),
        PlayedReport::Read { items_returned, .. } => {
            if *items_returned == 0 {
                Some(NOTHING_PLAYED)
            } else {
                None
            }
        },
    };
    report.recently_played = Some(played);
    if let Some(text) = conclusion {
        conclude(report, text);
    }
}

fn record_artist(report: &mut DiagnoseReport, artist: ArtistReport)
    ensures
        final(report)@ == report_artist(old(report)@, artist@),
{
    let failed = match &artist {
        ArtistReport::Answered { ok, .. } => !*ok,
        ArtistReport::Unreachable { .. } => true,
        ArtistReport::Skipped { .. } => false,
    };
    report.artist_lookup = Some(artist);
    if failed {
        conclude(report, NO_ARTIST_DATA);
    }
}

fn finish(report: DiagnoseReport) -> (r: DiagnoseStep)
    ensures
        r@ == DiagnoseStepView::Respond(final_reply(report@)),
{
    let mut whole = report;
    conclude(&mut whole, ALL_WELL);
    DiagnoseStep::Respond(reply(200, ReplyBody::Report(whole)))
}

fn go_to_artist(report: DiagnoseReport, token: String, artist_id: Option<String>) -> (r:
    DiagnoseStep)
    ensures
        r@ == artist_stage(report@, token@, opt_text(artist_id)),
{
    match artist_id {
        Some(id) => {
            let url = artist_url(id.as_str());
            let authorization = bearer_authorization(token.as_str());
            DiagnoseStep::FetchArtist { report, artist_id: id, url, authorization }
        },
        None => {
            let mut told = report;
            record_artist(&mut told, ArtistReport::Skipped { reason: NO_ARTIST.to_owned() });
            finish(told)
        },
    }
}

/// The ID of the first artist that the entries name.
pub fn first_artist_id(items: &Vec<PlayHistoryObject>) -> (r: Option<String>)
    ensures
        opt_text(r) == first_text(all_ids(items@)),
{
    let ghost all = items@;
    let mut i: usize = 0;
    while i < items.len()
        invariant
            i <= items.len(),
            all == items@,
            all_ids(all.take(i as int)).len() == 0,
        decreases items.len() - i,
    {
        let ids = artist_ids(&items[i].track.artists);
        assert(all.take(i + 1).drop_last() =~= all.take(i as int));
        assert(all_ids(all.take(i + 1)) =~= texts(ids@));
        if ids.len() > 0 {
            proof {
                lemma_first_id_stays(all, i + 1);
            }
            return Some(ids[0].clone());
        }
        i = i + 1;
    }
    assert(all.take(all.len() as int) =~= all);
    None
}

proof fn lemma_first_id_stays(items: Seq<PlayHistoryObject>, n: int)
    requires
        0 <= n <= items.len(),
        all_ids(items.take(n)).len() > 0,
    ensures
        first_text(all_ids(items)) == first_text(all_ids(items.take(n))),
    decreases items.len() - n,
{
    if n < items.len() {
        assert(items.take(n + 1).drop_last() =~= items.take(n));
        assert(all_ids(items.take(n + 1))[0] == all_ids(items.take(n))[0]);
        lemma_first_id_stays(items, n + 1);
    } else {
        assert(items.take(n) =~= items);
    }
}

fn describe_history(
    status: u16,
    items: Vec<Result<PlayHistoryObject, String>>,
) -> (r: (PlayedReport, Option<String>))
    ensures
        r.0@ == told_of(status, items@),
        opt_text(r.1) == first_text(all_ids(readable(items@))),
{
    let items_returned = items.len();
    let (parsed, items_skipped, first_parse_error) = parse_play_history(items);
    let nothing_known = ArtistGenres::new();
    let built = build_tracks(&parsed, &nothing_known);
    let played = PlayedReport::Read {
        status,
        items_returned,
        items_parsed: parsed.len(),
        items_skipped,
        first_parse_error,
        tracks_built: built.len(),
    };
    (played, first_artist_id(&parsed))
}

fn describe_artist(artist_id: String, answer: Result<ArtistAnswer, String>) -> (r: ArtistReport)
    ensures
        r@ == told_of_artist(artist_id@, answer),
{
    match answer {
        Ok(a) => {
            let ok = 200 <= a.status && a.status < 300;
            let body = if ok {
                None
            } else {
                Some(snippet(a.body.as_str(), 500))
            };
            ArtistReport::Answered { ok, artist_id, status: a.status, genres: a.genres, body }
        },
        Err(error) => ArtistReport::Unreachable { error },
    }
}

/// Takes the health check from what happened last to what is to be done next. It
/// reaches every stage even when an earlier one fails, so that one request tells
/// whether it is the credentials, an endpoint or the filter.
pub fn diagnose(event: DiagnoseEvent, api_key: &str, excluded_genres: &Vec<String>) -> (r:
    DiagnoseStep)
    ensures
        r@ == diagnose_step(event, api_key@, texts(excluded_genres@)),
{
    match event {
        DiagnoseEvent::Request { authorization, credentials } => {
            if !validate_api_key(&authorization, api_key) {
                return DiagnoseStep::Respond(reject());
            }
            let config = SettingsReport {
                client_id_set: setting_is_set(&credentials.client_id),
                client_secret_set: setting_is_set(&credentials.client_secret),
                refresh_token_set: setting_is_set(&credentials.refresh_token),
                excluded_genres: copy_texts(excluded_genres),
            };
            let report = DiagnoseReport {
                config,
                token_refresh: None,
                recently_played: None,
                artist_lookup: None,
                conclusion: None,
            };
            DiagnoseStep::RequestToken { report }
        },
        DiagnoseEvent::Token { report, token } => {
            let mut told = report;
            record_token(&mut told, &token);
            let token = match token {
                Ok((t, _)) => t,
                Err(_) => String::new(),
            };
            let authorization = bearer_authorization(token.as_str());
            DiagnoseStep::FetchPlayed {
                report: told,
                token,
                url: recently_played_url(RECENTLY_PLAYED_FETCH_LIMIT),
                authorization,
            }
        },
        DiagnoseEvent::Played { report, token, answer: Err(error) } => {
            let mut told = report;
            record_played(&mut told, PlayedReport::Unreachable { error });
            go_to_artist(told, token, None)
        },
        DiagnoseEvent::Played { report, token, answer: Ok((status, body)) } => {
            if 200 <= status && status < 300 {
                DiagnoseStep::ParsePlayed { report, token, status, body }
            } else {
                let mut told = report;
                let played = PlayedReport::Refused { status, body: snippet(body.as_str(), 800) };
                record_played(&mut told, played);
                go_to_artist(told, token, None)
            }
        },
        DiagnoseEvent::Parsed { report, token, status, body, items: Err(e) } => {
            let mut told = report;
            let played = PlayedReport::Unreadable {
                status,
                error: joined("unparseable response: ", e.as_str()),
                body: snippet(body.as_str(), 800),
            };
            record_played(&mut told, played);
            go_to_artist(told, token, None)
        },
        DiagnoseEvent::Parsed { report, token, status, body, items: Ok(items) } => {
            let mut told = report;
            let (played, artist_id) = describe_history(status, items);
            record_played(&mut told, played);
            go_to_artist(told, token, artist_id)
        },
        DiagnoseEvent::Artist { report, artist_id, answer } => {
            let mut told = report;
            record_artist(&mut told, describe_artist(artist_id, answer));
            finish(told)
        },
    }
}

/// The stages in front of the event are in its report.
pub open spec fn stages_so_far(event: DiagnoseEvent) -> bool {
    match event {
        DiagnoseEvent::Request { .. } => true,
        DiagnoseEvent::Token { .. } => true,
        DiagnoseEvent::Played { report, .. } => report@.token_refresh is Some,
        DiagnoseEvent::Parsed { report, .. } => report@.token_refresh is Some,
        DiagnoseEvent::Artist { report, .. } => report@.token_refresh is Some
            && report@.recently_played is Some,
    }
}

/// Every stage is reported on, whichever of them fail: the report of each step
/// holds the stages in front of it, and the report that is sent holds them all,
/// with a conclusion. Only a request without the API key gets another answer.
pub proof fn every_stage_is_reported(
    event: DiagnoseEvent,
    api_key: Seq<char>,
    excluded: Seq<Seq<char>>,
)
    requires
        stages_so_far(event),
    ensures
        match diagnose_step(event, api_key, excluded) {
            DiagnoseStepView::RequestToken { .. } => true,
            DiagnoseStepView::FetchPlayed { report, .. } => report.token_refresh is Some,
            DiagnoseStepView::ParsePlayed { report, .. } => report.token_refresh is Some,
            DiagnoseStepView::FetchArtist { report, .. } => report.token_refresh is Some
                && report.recently_played is Some,
            DiagnoseStepView::Respond(r) => {
                ||| r == unauthorized() && event is Request
                ||| r.status == 200 && (r.body matches BodyView::Report(report)
                    && report.token_refresh is Some && report.recently_played is Some
                    && report.artist_lookup is Some && report.conclusion is Some)
            },
        },
{
}

/// The first failure decides the conclusion: a conclusion that a report has is not
/// replaced.
pub proof fn conclusions_stay(
    report: ReportView,
    played: PlayedReportView,
    artist: ArtistReportView,
)
    requires
        report.conclusion is Some,
    ensures
        report_played(report, played).conclusion == report.conclusion,
        report_artist(report, artist).conclusion == report.conclusion,
        concluded(report, ALL_WELL@).conclusion == report.conclusion,
{
}

/// A stage in the report failed.
pub open spec fn stage_failed(report: ReportView) -> bool {
    ||| report.token_refresh matches Some(TokenReportView::Failed { .. })
    ||| report.recently_played matches Some(PlayedReportView::Unreachable { .. })
    ||| report.recently_played matches Some(PlayedReportView::Refused { .. })
    ||| report.recently_played matches Some(PlayedReportView::Unreadable { .. })
    ||| (report.artist_lookup matches Some(artist) && artist_failed(artist))
}

/// The listening history came, and was empty.
pub open spec fn nothing_played(report: ReportView) -> bool {
    report.recently_played matches Some(PlayedReportView::Read { items_returned, .. })
        && items_returned == 0
}

/// A report on the way has a conclusion exactly if there is something to tell, and
/// none says that all is well.
pub open spec fn is_honest(report: ReportView) -> bool {
    &&& report.conclusion is Some <==> stage_failed(report) || nothing_played(report)
    &&& report.conclusion != Some(ALL_WELL@)
}

/// The report of the event is honest, and holds no stage that is still to come.
pub open spec fn is_on_its_way(event: DiagnoseEvent) -> bool {
    match event {
        DiagnoseEvent::Request { .. } => true,
        DiagnoseEvent::Token { report, .. } => is_honest(report@) && report@.token_refresh is None
            && report@.recently_played is None && report@.artist_lookup is None,
        DiagnoseEvent::Played { report, .. } => is_honest(report@) && report@.recently_played is None
            && report@.artist_lookup is None,
        DiagnoseEvent::Parsed { report, .. } => is_honest(report@) && report@.recently_played is None
            && report@.artist_lookup is None,
        DiagnoseEvent::Artist { report, .. } => is_honest(report@) && report@.artist_lookup is None,
    }
}

/// The report that is sent says that every stage succeeded exactly if no stage in it
/// failed and something was played; on the way there every report is honest.
pub proof fn success_is_told_of_success_only(
    event: DiagnoseEvent,
    api_key: Seq<char>,
    excluded: Seq<Seq<char>>,
)
    requires
        is_on_its_way(event),
    ensures
        match diagnose_step(event, api_key, excluded) {
            DiagnoseStepView::RequestToken { report } => is_honest(report)
                && report.token_refresh is None && report.recently_played is None
                && report.artist_lookup is None,
            DiagnoseStepView::FetchPlayed { report, .. } => is_honest(report)
                && report.recently_played is None && report.artist_lookup is None,
            DiagnoseStepView::ParsePlayed { report, .. } => is_honest(report)
                && report.recently_played is None && report.artist_lookup is None,
            DiagnoseStepView::FetchArtist { report, .. } => is_honest(report)
                && report.artist_lookup is None,
            DiagnoseStepView::Respond(r) => r.body matches BodyView::Report(report) ==> (
            report.conclusion == Some(ALL_WELL@) <==> !stage_failed(report) && !nothing_played(
                report,
            )),
        },
{
    lemma_conclusions_differ();
}

proof fn lemma_conclusions_differ()
    ensures
        REVOKED@ != ALL_WELL@,
        NO_TOKEN@ != ALL_WELL@,
        HISTORY_UNREACHABLE@ != ALL_WELL@,
        REJECTED@ != ALL_WELL@,
        NOTHING_PLAYED@ != ALL_WELL@,
        UNEXPECTED_SHAPE@ != ALL_WELL@,
        NO_ARTIST_DATA@ != ALL_WELL@,
{
    reveal_strlit(
        "The refresh token has been revoked. The client ID and secret are probably still fine - only the user grant is gone. Re-run `python3 spotify_reauth.py --write-env` as the account owner, then restart the service. To confirm the app credentials separately, try a client_credentials grant: if that returns 200, the secret is valid and only the refresh token needs replacing.",
    );
    reveal_strlit(
        "Token refresh failed. Check SPOTIFY_CLIENT_ID / SPOTIFY_CLIENT_SECRET / SPOTIFY_REFRESH_TOKEN, and that the app still exists and the owner has an active Spotify Premium subscription (required for Development Mode apps since February 2026).",
    );
    reveal_strlit(
        "The recently-played endpoint could not be reached. Check the connection between this service and api.spotify.com.",
    );
    reveal_strlit(
        "The recently-played endpoint rejected the request. A 403 usually means this app no longer has access to the endpoint (February 2026 Development Mode restrictions) or the account is not on the app's allow-list.",
    );
    reveal_strlit(
        "Spotify returned an empty listening history. Nothing has been played recently, or the refresh token belongs to a different account.",
    );
    reveal_strlit(
        "Spotify answered 200 but the response shape is not what we expect. Compare the body above against the structs in src/spotify.rs.",
    );
    reveal_strlit(
        "The artist lookup failed, so no genres are known and tracks are served unfiltered. A 401, 403 or 404 usually means this app no longer has access to the endpoint (February 2026 Development Mode restrictions).",
    );
    reveal_strlit(
        "Every stage succeeded. If /aggregated still returns an empty tracks array, the genre filter is removing everything - compare excluded_genres above against the genres reported by artist_lookup.",
    );
    assert(ALL_WELL@[0] == 'E');
    assert(REVOKED@[0] != 'E');
    assert(NO_TOKEN@[0] != 'E');
    assert(HISTORY_UNREACHABLE@[0] != 'E');
    assert(REJECTED@[0] != 'E');
    assert(NOTHING_PLAYED@[0] != 'E');
    assert(UNEXPECTED_SHAPE@[0] != 'E');
    assert(NO_ARTIST_DATA@[0] != 'E');
}

/// A setting counts as set exactly if it is there and is not empty, and each is reported
/// on its own.
pub proof fn settings_are_reported_as_they_are(credentials: Credentials, excluded: Seq<Seq<char>>)
    ensures
        first_report(credentials, excluded).config.client_id_set <==> (credentials.client_id
            matches Some(v) && v@.len() > 0),
        first_report(credentials, excluded).config.client_secret_set <==> (
        credentials.client_secret matches Some(v) && v@.len() > 0),
        first_report(credentials, excluded).config.refresh_token_set <==> (
        credentials.refresh_token matches Some(v) && v@.len() > 0),
        first_report(credentials, excluded).config.excluded_genres == excluded,
        first_report(credentials, excluded).token_refresh is None,
        first_report(credentials, excluded).recently_played is None,
        first_report(credentials, excluded).artist_lookup is None,
        first_report(credentials, excluded).conclusion is None,
{
}

/// The check is made for whoever has the key, and for nobody else.
pub proof fn the_check_needs_the_key(
    authorization: Option<String>,
    credentials: Credentials,
    api_key: Seq<char>,
    excluded: Seq<Seq<char>>,
)
    ensures
        diagnose_step(
            DiagnoseEvent::Request { authorization, credentials },
            api_key,
            excluded,
        ) is RequestToken <==> (authorization matches Some(header) && header@ == "Bearer "@
            + api_key),
        diagnose_step(
            DiagnoseEvent::Request { authorization, credentials },
            api_key,
            excluded,
        ) matches DiagnoseStepView::RequestToken { report } ==> report == first_report(
            credentials,
            excluded,
        ),
        diagnose_step(
            DiagnoseEvent::Request { authorization, credentials },
            api_key,
            excluded,
        ) matches DiagnoseStepView::Respond(r) ==> r.status == 401,
{
}

/// What became of the token refresh is reported as it is, and the history asked for with
/// the token, or with none. A dead refresh token is told apart from other failures.
pub proof fn the_refresh_is_reported(
    report: DiagnoseReport,
    granted: (String, u64),
    error: String,
    api_key: Seq<char>,
    excluded: Seq<Seq<char>>,
    front: Seq<char>,
    back: Seq<char>,
)
    ensures
        diagnose_step(DiagnoseEvent::Token { report, token: Ok(granted) }, api_key, excluded)
            matches DiagnoseStepView::FetchPlayed { report: told, token, url, authorization }
            && told.token_refresh == Some(TokenReportView::Granted { expires_in: granted.1 })
            && told.conclusion == report@.conclusion && told.config == report@.config
            && told.recently_played == report@.recently_played && told.artist_lookup
            == report@.artist_lookup && token == granted.0@ && authorization
            == "Bearer "@ + granted.0@ && url
            == "https://api.spotify.com/v1/me/player/recently-played?limit="@ + decimal(25),
        diagnose_step(DiagnoseEvent::Token { report, token: Err(error) }, api_key, excluded)
            matches DiagnoseStepView::FetchPlayed { report: told, token, .. }
            && told.token_refresh == Some(TokenReportView::Failed { error: error@ })
            && told.config == report@.config && token.len() == 0 && (report@.conclusion is None ==> told.conclusion == Some(
            if occurs("invalid_grant"@, error@) || occurs("no longer valid"@, error@) {
                REVOKED@
            } else {
                NO_TOKEN@
            },
        )),
        says_revoked(front + "invalid_grant"@ + back),
        says_revoked(front + "no longer valid"@ + back),
{
    crate::text::parts_occur(front, "invalid_grant"@, back);
    crate::text::parts_occur(front, "no longer valid"@, back);
}

/// An answer of success is parsed. A history that was not reached, was refused or could
/// not be read is reported with what is known of the failure, and no artist is looked up.
pub proof fn failures_of_the_history_are_reported(
    report: DiagnoseReport,
    token: String,
    status: u16,
    body: String,
    error: String,
    api_key: Seq<char>,
    excluded: Seq<Seq<char>>,
)
    requires
        report@.conclusion is None,
    ensures
        200 <= status <= 299 ==> diagnose_step(
            DiagnoseEvent::Played { report, token, answer: Ok((status, body)) },
            api_key,
            excluded,
        ) == (DiagnoseStepView::ParsePlayed { report: report@, token: token@, status, body: body@ }),
        !(200 <= status <= 299) ==> is_sent(
            diagnose_step(
                DiagnoseEvent::Played { report, token, answer: Ok((status, body)) },
                api_key,
                excluded,
            ),
            report@,
            PlayedReportView::Refused { status, body: shortened(body@, 800) },
            REJECTED@,
        ),
        is_sent(
            diagnose_step(
                DiagnoseEvent::Played { report, token, answer: Err(error) },
                api_key,
                excluded,
            ),
            report@,
            PlayedReportView::Unreachable { error: error@ },
            HISTORY_UNREACHABLE@,
        ),
        is_sent(
            diagnose_step(
                DiagnoseEvent::Parsed { report, token, status, body, items: Err(error) },
                api_key,
                excluded,
            ),
            report@,
            PlayedReportView::Unreadable {
                status,
                error: "unparseable response: "@ + error@,
                body: shortened(body@, 800),
            },
            UNEXPECTED_SHAPE@,
        ),
{
}

/// The step sends the report with this history, no artist, and this conclusion; the rest
/// of it is as it was.
pub open spec fn is_sent(
    step: DiagnoseStepView,
    report: ReportView,
    played: PlayedReportView,
    conclusion: Seq<char>,
) -> bool {
    step matches DiagnoseStepView::Respond(r) && r.status == 200 && (r.body
        matches BodyView::Report(sent) && sent.config == report.config && sent.token_refresh
        == report.token_refresh && sent.recently_played == Some(played) && sent.conclusion == Some(
        conclusion,
    ) && (sent.artist_lookup matches Some(ArtistReportView::Skipped { .. })))
}

/// A history that was read is counted: every entry is either parsed or skipped, and a
/// track is built of each that was parsed and has a name.
pub proof fn a_history_is_counted(status: u16, items: Seq<Result<PlayHistoryObject, String>>)
    ensures
        told_of(status, items) matches PlayedReportView::Read {
            status: told,
            items_returned,
            items_parsed,
            items_skipped,
            first_parse_error,
            tracks_built,
        } && told == status && items_returned == items.len() && items_parsed + items_skipped
            == items.len() && tracks_built <= items_parsed && (items_skipped == 0
            <==> first_parse_error is None) && ((forall|i: int|
            0 <= i < items.len() ==> (#[trigger] items[i]) is Ok) ==> items_skipped == 0) && ((
        forall|i: int|
            0 <= i < items.len() ==> ((#[trigger] items[i]) matches Ok(item)
                && item.track.name is Some)) ==> tracks_built == items.len()),
{
    lemma_counts(items);
    lemma_tracks_are_no_more(readable(items));
    if forall|i: int| 0 <= i < items.len() ==> (#[trigger] items[i]) is Ok {
        readable_entries_stay_in_place(items);
    }
    if forall|i: int|
        0 <= i < items.len() ==> ((#[trigger] items[i]) matches Ok(item)
            && item.track.name is Some) {
        assert forall|i: int| 0 <= i < items.len() implies (#[trigger] items[i]) is Ok by {}
        readable_entries_stay_in_place(items);
        assert forall|i: int| 0 <= i < readable(items).len() implies (#[trigger] readable(
            items,
        )[i]).track.name is Some by {
            assert(items[i] == Ok::<PlayHistoryObject, String>(readable(items)[i]));
        }
        named_entries_give_a_track_each(readable(items), Map::empty());
    }
}

proof fn lemma_counts(items: Seq<Result<PlayHistoryObject, String>>)
    ensures
        readable(items).len() <= items.len(),
        readable(items).len() == items.len() <==> first_failure(items) is None,
    decreases items.len(),
{
    if items.len() > 0 {
        lemma_counts(items.drop_last());
    }
}

proof fn lemma_tracks_are_no_more(items: Seq<PlayHistoryObject>)
    ensures
        tracks_of(items, Map::empty()).len() <= items.len(),
    decreases items.len(),
{
    if items.len() > 0 {
        lemma_tracks_are_no_more(items.drop_last());
    }
}

/// Behind a history that was read, the first artist that it names is looked up with the
/// token at hand; where it names none, the lookup is skipped.
pub proof fn the_first_artist_is_looked_up(
    report: DiagnoseReport,
    token: String,
    status: u16,
    body: String,
    items: Vec<Result<PlayHistoryObject, String>>,
    api_key: Seq<char>,
    excluded: Seq<Seq<char>>,
)
    ensures
        all_ids(readable(items@)).len() > 0 ==> (diagnose_step(
            DiagnoseEvent::Parsed { report, token, status, body, items: Ok(items) },
            api_key,
            excluded,
        ) matches DiagnoseStepView::FetchArtist { report: told, artist_id, url, authorization }
            && artist_id == all_ids(readable(items@))[0] && url
            == "https://api.spotify.com/v1/artists/"@ + artist_id && authorization == "Bearer "@
            + token@ && told.config == report@.config && told.token_refresh == report@.token_refresh
            && told.recently_played == Some(told_of(status, items@)) && (items@.len() > 0
            ==> told.conclusion == report@.conclusion)),
        all_ids(readable(items@)).len() == 0 ==> (diagnose_step(
            DiagnoseEvent::Parsed { report, token, status, body, items: Ok(items) },
            api_key,
            excluded,
        ) matches DiagnoseStepView::Respond(r) && (r.body matches BodyView::Report(sent)
            && sent.artist_lookup == Some(ArtistReportView::Skipped { reason: NO_ARTIST@ })
            && sent.recently_played == Some(told_of(status, items@)) && (report@.conclusion is None
            && items@.len() == 0 ==> sent.conclusion == Some(NOTHING_PLAYED@)))),
{
}

/// The lookup of an artist is reported with what was answered, and with the beginning of
/// the body where it did not succeed; it is ok exactly if the status is one of success.
pub proof fn the_lookup_is_reported(
    report: DiagnoseReport,
    artist_id: String,
    answer: ArtistAnswer,
    error: String,
    api_key: Seq<char>,
    excluded: Seq<Seq<char>>,
)
    ensures
        diagnose_step(
            DiagnoseEvent::Artist { report, artist_id, answer: Ok(answer) },
            api_key,
            excluded,
        ) matches DiagnoseStepView::Respond(r) && r.status == 200 && (r.body
            matches BodyView::Report(sent) && sent.token_refresh == report@.token_refresh
            && sent.recently_played == report@.recently_played && sent.config == report@.config && (
        sent.artist_lookup
            matches Some(ArtistReportView::Answered { ok, artist_id: id, status, genres, body })
            && (ok <==> 200 <= answer.status <= 299) && id == artist_id@ && status == answer.status
            && (answer.genres is None <==> genres is None) && (answer.genres matches Some(list)
            ==> genres == Some(texts(list@))) && (ok ==> body is None) && (!ok ==> body == Some(
            shortened(answer.body@, 500),
        )) && (!ok && report@.conclusion is None ==> sent.conclusion == Some(NO_ARTIST_DATA@)))),
        diagnose_step(
            DiagnoseEvent::Artist { report, artist_id, answer: Err(error) },
            api_key,
            excluded,
        ) matches DiagnoseStepView::Respond(r) && (r.body matches BodyView::Report(sent)
            && sent.artist_lookup == Some(ArtistReportView::Unreachable { error: error@ }) && (
        report@.conclusion is None ==> sent.conclusion == Some(NO_ARTIST_DATA@))),
{
}

} // verus!
