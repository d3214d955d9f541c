//! The report on the health of the Spotify pipeline.

use crate::text::{opt_text, texts};
use vstd::prelude::*;

verus! {

/// Which of the settings are there.
#[derive(Debug)]
pub struct SettingsReport {
    pub client_id_set: bool,
    pub client_secret_set: bool,
    pub refresh_token_set: bool,
    pub excluded_genres: Vec<String>,
}

/// How the token refresh went.
#[derive(Debug)]
pub enum TokenReport {
    Granted { expires_in: u64 },
    Failed { error: String },
}

/// How the request for the listening history went.
#[derive(Debug)]
pub enum PlayedReport {
    Unreachable { error: String },
    Refused { status: u16, body: String },
    Read {
        status: u16,
        items_returned: usize,
        items_parsed: usize,
        items_skipped: usize,
        first_parse_error: Option<String>,
        tracks_built: usize,
    },
    Unreadable { status: u16, error: String, body: String },
}

/// How the lookup of one artist went.
#[derive(Debug)]
pub enum ArtistReport {
    Answered {
        ok: bool,
        artist_id: String,
        status: u16,
        genres: Option<Vec<String>>,
        body: Option<String>,
    },
    Unreachable { error: String },
    Skipped { reason: String },
}

/// The whole report, as far as it goes.
#[derive(Debug)]
pub struct DiagnoseReport {
    pub config: SettingsReport,
    pub token_refresh: Option<TokenReport>,
    pub recently_played: Option<PlayedReport>,
    pub artist_lookup: Option<ArtistReport>,
    pub conclusion: Option<String>,
}

/// The model of [`SettingsReport`].
#[verifier::ext_equal]
pub struct SettingsView {
    pub client_id_set: bool,
    pub client_secret_set: bool,
    pub refresh_token_set: bool,
    pub excluded_genres: Seq<Seq<char>>,
}

/// The model of [`TokenReport`].
#[verifier::ext_equal]
pub enum TokenReportView {
    Granted { expires_in: u64 },
    Failed { error: Seq<char> },
}

/// The model of [`PlayedReport`].
#[verifier::ext_equal]
pub enum PlayedReportView {
    Unreachable { error: Seq<char> },
    Refused { status: u16, body: Seq<char> },
    Read {
        status: u16,
        items_returned: nat,
        items_parsed: nat,
        items_skipped: nat,
        first_parse_error: Option<Seq<char>>,
        tracks_built: nat,
    },
    Unreadable { status: u16, error: Seq<char>, body: Seq<char> },
}

/// The model of [`ArtistReport`].
#[verifier::ext_equal]
pub enum ArtistReportView {
    Answered {
        ok: bool,
        artist_id: Seq<char>,
        status: u16,
        genres: Option<Seq<Seq<char>>>,
        body: Option<Seq<char>>,
    },
    Unreachable { error: Seq<char> },
    Skipped { reason: Seq<char> },
}

/// The model of [`DiagnoseReport`].
#[verifier::ext_equal]
pub struct ReportView {
    pub config: SettingsView,
    pub token_refresh: Option<TokenReportView>,
    pub recently_played: Option<PlayedReportView>,
    pub artist_lookup: Option<ArtistReportView>,
    pub conclusion: Option<Seq<char>>,
}

impl View for SettingsReport {
    type V = SettingsView;

    open spec fn view(&self) -> SettingsView {
        SettingsView {
            client_id_set: self.client_id_set,
            client_secret_set: self.client_secret_set,
            refresh_token_set: self.refresh_token_set,
            excluded_genres: texts(self.excluded_genres@),
        }
    }
}

impl View for TokenReport {
    type V = TokenReportView;

    open spec fn view(&self) -> TokenReportView {
        match *self {
            TokenReport::Granted { expires_in } => TokenReportView::Granted { expires_in },
            TokenReport::Failed { error } => TokenReportView::Failed { error: error@ },
        }
    }
}

impl View for PlayedReport {
    type V = PlayedReportView;

    open spec fn view(&self) -> PlayedReportView {
        match *self {
            PlayedReport::Unreachable { error } => PlayedReportView::Unreachable { error: error@ },
            PlayedReport::Refused { status, body } => PlayedReportView::Refused {
                status,
                body: body@,
            },
            PlayedReport::Read {
                status,
                items_returned,
                items_parsed,
                items_skipped,
                first_parse_error,
                tracks_built,
            } => PlayedReportView::Read {
                status,
                items_returned: items_returned as nat,
                items_parsed: items_parsed as nat,
                items_skipped: items_skipped as nat,
                first_parse_error: opt_text(first_parse_error),
                tracks_built: tracks_built as nat,
            },
            PlayedReport::Unreadable { status, error, body } => PlayedReportView::Unreadable {
                status,
                error: error@,
                body: body@,
            },
        }
    }
}

impl View for ArtistReport {
    type V = ArtistReportView;

    open spec fn view(&self) -> ArtistReportView {
        match *self {
            ArtistReport::Answered { ok, artist_id, status, genres, body } => {
                ArtistReportView::Answered {
                    ok,
                    artist_id: artist_id@,
                    status,
                    genres: match genres {
                        Some(list) => Some(texts(list@)),
                        None => None,
                    },
                    body: opt_text(body),
                }
            },
            ArtistReport::Unreachable { error } => ArtistReportView::Unreachable { error: error@ },
            ArtistReport::Skipped { reason } => ArtistReportView::Skipped { reason: reason@ },
        }
    }
}

impl View for DiagnoseReport {
    type V = ReportView;

    open spec fn view(&self) -> ReportView {
        ReportView {
            config: self.config@,
            token_refresh: match self.token_refresh {
                Some(r) => Some(r@),
                None => None,
            },
            recently_played: match self.recently_played {
                Some(r) => Some(r@),
                None => None,
            },
            artist_lookup: match self.artist_lookup {
                Some(r) => Some(r@),
                None => None,
            },
            conclusion: opt_text(self.conclusion),
        }
    }
}

} // verus!
