use static_feeds::reply::ReplyBody;
use static_feeds::spotify::diagnose::{
    diagnose, ArtistAnswer, DiagnoseEvent, DiagnoseStep, ALL_WELL, HISTORY_UNREACHABLE,
    NOTHING_PLAYED, NO_ARTIST, NO_ARTIST_DATA, NO_TOKEN, REJECTED, REVOKED, UNEXPECTED_SHAPE,
};
use static_feeds::spotify::model::{ArtistObject, PlayHistoryObject, TrackObject};
use static_feeds::spotify::report::{ArtistReport, DiagnoseReport, PlayedReport, TokenReport};
use static_feeds::spotify::token::Credentials;

const KEY: &str = "k3y";

fn excluded() -> Vec<String> {
    vec!["comedy".to_string()]
}

fn step(event: DiagnoseEvent) -> DiagnoseStep {
    diagnose(event, KEY, &excluded())
}

fn credentials() -> Credentials {
    Credentials {
        client_id: Some("id".to_string()),
        client_secret: Some(String::new()),
        refresh_token: None,
    }
}

fn first_report() -> DiagnoseReport {
    let event = DiagnoseEvent::Request {
        authorization: Some("Bearer k3y".to_string()),
        credentials: credentials(),
    };
    match step(event) {
        DiagnoseStep::RequestToken { report } => report,
        _ => panic!("the token was to be refreshed"),
    }
}

fn after_token(token: Result<(String, u64), String>) -> (DiagnoseReport, String) {
    match step(DiagnoseEvent::Token { report: first_report(), token }) {
        DiagnoseStep::FetchPlayed { report, token, url, authorization } => {
            assert_eq!(authorization, format!("Bearer {}", token));
            assert_eq!(url, "https://api.spotify.com/v1/me/player/recently-played?limit=25");
            (report, token)
        }
        _ => panic!("the history was to be fetched"),
    }
}

fn granted() -> (DiagnoseReport, String) {
    after_token(Ok(("t".to_string(), 3600)))
}

fn sent(last: DiagnoseStep) -> DiagnoseReport {
    match last {
        DiagnoseStep::Respond(reply) => {
            assert_eq!(reply.status, 200);
            assert_eq!(reply.cache_control, "no-store");
            match reply.body {
                ReplyBody::Report(report) => {
                    assert!(report.token_refresh.is_some());
                    assert!(report.recently_played.is_some());
                    assert!(report.artist_lookup.is_some());
                    assert!(report.conclusion.is_some());
                    report
                }
                _ => panic!("a report was expected"),
            }
        }
        _ => panic!("an answer was expected"),
    }
}

fn played(name: Option<&str>, artist_id: Option<&str>) -> PlayHistoryObject {
    PlayHistoryObject {
        track: TrackObject {
            name: name.map(str::to_string),
            album: None,
            artists: vec![ArtistObject { name: None, id: artist_id.map(str::to_string) }],
            external_urls: None,
            id: None,
        },
        played_at: None,
    }
}

fn parsed(items: Result<Vec<Result<PlayHistoryObject, String>>, String>) -> DiagnoseStep {
    let (report, token) = granted();
    step(DiagnoseEvent::Parsed { report, token, status: 200, body: "{}".to_string(), items })
}

fn before_artist() -> (DiagnoseReport, String) {
    match parsed(Ok(vec![Ok(played(Some("Song"), Some("a1")))])) {
        DiagnoseStep::FetchArtist { report, artist_id, .. } => (report, artist_id),
        _ => panic!("an artist was to be looked up"),
    }
}

fn is_skipped(report: &DiagnoseReport) -> bool {
    match &report.artist_lookup {
        Some(ArtistReport::Skipped { reason }) => reason == NO_ARTIST,
        _ => false,
    }
}

#[test]
fn the_check_needs_the_api_key() {
    let event = DiagnoseEvent::Request { authorization: None, credentials: credentials() };
    match step(event) {
        DiagnoseStep::Respond(reply) => assert_eq!(reply.status, 401),
        _ => panic!("an answer was expected"),
    }
}

#[test]
fn the_settings_are_reported_first() {
    let report = first_report();
    assert!(report.config.client_id_set);
    assert!(!report.config.client_secret_set);
    assert!(!report.config.refresh_token_set);
    assert_eq!(report.config.excluded_genres, excluded());
    assert!(report.token_refresh.is_none());
    assert!(report.conclusion.is_none());
}

#[test]
fn a_granted_token_is_used() {
    let (report, token) = granted();
    assert_eq!(token, "t");
    assert!(matches!(report.token_refresh, Some(TokenReport::Granted { expires_in: 3600 })));
    assert!(report.conclusion.is_none());
}

#[test]
fn a_failed_refresh_does_not_stop_the_check() {
    let (report, token) = after_token(Err("Token refresh failed: HTTP 400".to_string()));
    assert_eq!(token, "");
    match &report.token_refresh {
        Some(TokenReport::Failed { error }) => assert_eq!(error, "Token refresh failed: HTTP 400"),
        _ => panic!("a failure was expected"),
    }
    assert_eq!(report.conclusion.as_deref(), Some(NO_TOKEN));

    let answer = Ok((401, " denied ".to_string()));
    let report = sent(step(DiagnoseEvent::Played { report, token, answer }));
    match &report.recently_played {
        Some(PlayedReport::Refused { status, body }) => {
            assert_eq!((*status, body.as_str()), (401, "denied"));
        }
        _ => panic!("a refusal was expected"),
    }
    assert!(is_skipped(&report));
    // The first failure decides.
    assert_eq!(report.conclusion.as_deref(), Some(NO_TOKEN));
}

#[test]
fn a_revoked_token_is_told_apart() {
    for error in ["HTTP 400 - invalid_grant", "Refresh token is no longer valid"] {
        let (report, _) = after_token(Err(error.to_string()));
        assert_eq!(report.conclusion.as_deref(), Some(REVOKED));
    }
}

#[test]
fn a_refused_history_is_reported() {
    let (report, token) = granted();
    let answer = Ok((403, "x".repeat(801)));
    let report = sent(step(DiagnoseEvent::Played { report, token, answer }));
    match &report.recently_played {
        Some(PlayedReport::Refused { status, body }) => {
            assert_eq!(*status, 403);
            assert_eq!(*body, format!("{}…", "x".repeat(800)));
        }
        _ => panic!("a refusal was expected"),
    }
    assert!(is_skipped(&report));
    assert_eq!(report.conclusion.as_deref(), Some(REJECTED));
}

#[test]
fn an_unreachable_history_is_reported() {
    let (report, token) = granted();
    let answer = Err("dns".to_string());
    let report = sent(step(DiagnoseEvent::Played { report, token, answer }));
    match &report.recently_played {
        Some(PlayedReport::Unreachable { error }) => assert_eq!(error, "dns"),
        _ => panic!("a failure was expected"),
    }
    assert!(is_skipped(&report));
    assert_eq!(report.conclusion.as_deref(), Some(HISTORY_UNREACHABLE));
}

#[test]
fn a_history_that_came_is_parsed() {
    let (report, token) = granted();
    let answer = Ok((200, "{}".to_string()));
    match step(DiagnoseEvent::Played { report, token, answer }) {
        DiagnoseStep::ParsePlayed { token, status, body, .. } => {
            assert_eq!((token.as_str(), status, body.as_str()), ("t", 200, "{}"));
        }
        _ => panic!("the history was to be parsed"),
    }
}

#[test]
fn an_unreadable_history_is_reported() {
    let report = sent(parsed(Err("eof".to_string())));
    match &report.recently_played {
        Some(PlayedReport::Unreadable { status, error, body }) => {
            assert_eq!(*status, 200);
            assert_eq!(error, "unparseable response: eof");
            assert_eq!(body, "{}");
        }
        _ => panic!("a failure was expected"),
    }
    assert_eq!(report.conclusion.as_deref(), Some(UNEXPECTED_SHAPE));
}

#[test]
fn an_empty_history_is_reported() {
    let report = sent(parsed(Ok(vec![])));
    assert!(matches!(
        report.recently_played,
        Some(PlayedReport::Read { items_returned: 0, tracks_built: 0, .. })
    ));
    assert!(is_skipped(&report));
    assert_eq!(report.conclusion.as_deref(), Some(NOTHING_PLAYED));
}

#[test]
fn every_stage_is_walked() {
    let items = vec![
        Err("bad".to_string()),
        Ok(played(None, None)),
        Ok(played(Some("Song"), Some("a1"))),
    ];
    let (report, artist_id) = match parsed(Ok(items)) {
        DiagnoseStep::FetchArtist { report, artist_id, url, authorization } => {
            assert_eq!(authorization, "Bearer t");
            assert_eq!(artist_id, "a1");
            assert_eq!(url, "https://api.spotify.com/v1/artists/a1");
            (report, artist_id)
        }
        _ => panic!("an artist was to be looked up"),
    };
    match &report.recently_played {
        Some(PlayedReport::Read {
            status,
            items_returned,
            items_parsed,
            items_skipped,
            first_parse_error,
            tracks_built,
        }) => {
            assert_eq!((*status, *items_returned, *items_parsed), (200, 3, 2));
            assert_eq!((*items_skipped, *tracks_built), (1, 1));
            assert_eq!(first_parse_error.as_deref(), Some("bad"));
        }
        _ => panic!("a history was expected"),
    }
    let answer = Ok(ArtistAnswer {
        status: 200,
        body: "{}".to_string(),
        genres: Some(vec!["pop".to_string()]),
    });
    let report = sent(step(DiagnoseEvent::Artist { report, artist_id, answer }));
    match &report.artist_lookup {
        Some(ArtistReport::Answered { ok, artist_id, status, genres, body }) => {
            assert!(*ok);
            assert_eq!(artist_id, "a1");
            assert_eq!(*status, 200);
            assert_eq!(genres.as_deref(), Some(&["pop".to_string()][..]));
            assert!(body.is_none());
        }
        _ => panic!("an artist was expected"),
    }
    assert_eq!(report.conclusion.as_deref(), Some(ALL_WELL));
}

#[test]
fn a_refused_artist_lookup_is_reported() {
    let (report, artist_id) = before_artist();
    let answer = Ok(ArtistAnswer { status: 404, body: "x".repeat(501), genres: None });
    let report = sent(step(DiagnoseEvent::Artist { report, artist_id, answer }));
    match &report.artist_lookup {
        Some(ArtistReport::Answered { ok, status, genres, body, .. }) => {
            assert!(!*ok);
            assert_eq!(*status, 404);
            assert!(genres.is_none());
            assert_eq!(body.as_deref(), Some(format!("{}…", "x".repeat(500)).as_str()));
        }
        _ => panic!("an answer was expected"),
    }
    assert_eq!(report.conclusion.as_deref(), Some(NO_ARTIST_DATA));

    let (report, artist_id) = before_artist();
    let answer = Err("dns".to_string());
    let report = sent(step(DiagnoseEvent::Artist { report, artist_id, answer }));
    match &report.artist_lookup {
        Some(ArtistReport::Unreachable { error }) => assert_eq!(error, "dns"),
        _ => panic!("a failure was expected"),
    }
    assert_eq!(report.conclusion.as_deref(), Some(NO_ARTIST_DATA));
}
