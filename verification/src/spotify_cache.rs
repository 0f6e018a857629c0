//! When the Spotify backend is built anew and when the cached one is kept:
//! it is keyed by a fingerprint of every setting that changes its identity.

use crate::text::{push_str, trim};
use vstd::prelude::*;

verus! {

/// Which Spotify backend plays.
#[derive(Clone, Copy, Debug, PartialEq, Eq, Structural)]
pub enum SpotifyBackendKind {
    Connect,
    WebPlayback,
}

/// The Spotify settings.
#[derive(Clone, Debug, PartialEq, Eq)]
pub struct SpotifyConfig {
    pub enabled: bool,
    pub client_id: String,
    pub redirect_uri: String,
    pub device_name: String,
    pub default_device_id: String,
    pub market: String,
    pub backend: SpotifyBackendKind,
}

/// What to do for a request of the backend.
#[derive(Clone, Debug, PartialEq, Eq)]
pub enum BackendChoice {
    /// Spotify is off, or has no client id: no backend.
    Unavailable,
    /// The cached backend was built from these settings: hand it out.
    Reuse,
    /// Build a backend (asking for the streaming scope when it plays in the
    /// web player) and cache it under this fingerprint.
    Build { fingerprint: String, needs_streaming_scope: bool },
}

pub open spec fn spec_backend_name(kind: SpotifyBackendKind) -> Seq<char> {
    match kind {
        SpotifyBackendKind::Connect => "Connect"@,
        SpotifyBackendKind::WebPlayback => "WebPlayback"@,
    }
}

/// The settings that name a backend, joined by `|`.
pub open spec fn spec_fingerprint(cfg: SpotifyConfig) -> Seq<char> {
    cfg.client_id@ + "|"@ + cfg.redirect_uri@ + "|"@ + cfg.device_name@ + "|"@ + cfg.default_device_id@ + "|"@
        + cfg.market@ + "|"@ + spec_backend_name(cfg.backend)
}

/// Whether the settings can give a backend: enabled, with a client id that
/// is not blank.
pub open spec fn spec_usable(cfg: SpotifyConfig) -> bool {
    cfg.enabled && crate::text::trimmed(cfg.client_id@).len() > 0
}

fn backend_name(kind: SpotifyBackendKind) -> (res: &'static str)
    ensures
        res@ == spec_backend_name(kind),
{
    match kind {
        SpotifyBackendKind::Connect => "Connect",
        SpotifyBackendKind::WebPlayback => "WebPlayback",
    }
}

/// The fingerprint a backend built from `cfg` is cached under.
pub fn fingerprint(cfg: &SpotifyConfig) -> (res: String)
    ensures
        res@ == spec_fingerprint(*cfg),
{
    let mut s = String::new();
    push_str(&mut s, cfg.client_id.as_str());
    push_str(&mut s, "|");
    push_str(&mut s, cfg.redirect_uri.as_str());
    push_str(&mut s, "|");
    push_str(&mut s, cfg.device_name.as_str());
    push_str(&mut s, "|");
    push_str(&mut s, cfg.default_device_id.as_str());
    push_str(&mut s, "|");
    push_str(&mut s, cfg.market.as_str());
    push_str(&mut s, "|");
    push_str(&mut s, backend_name(cfg.backend));
    proof {
        assert(s@ =~= spec_fingerprint(*cfg));
    }
    s
}

/// Decides, from the settings and the fingerprint of the cached backend if
/// there is one, whether to hand out nothing, the cached backend, or a new
/// one.
pub fn choose_backend(cfg: &SpotifyConfig, cached: Option<&str>) -> (res: BackendChoice)
    ensures
        !spec_usable(*cfg) ==> res == BackendChoice::Unavailable,
        spec_usable(*cfg) && (cached matches Some(fp) && fp@ == spec_fingerprint(*cfg)) ==> res == BackendChoice::Reuse,
        spec_usable(*cfg) && !(cached matches Some(fp) && fp@ == spec_fingerprint(*cfg)) ==> (res matches BackendChoice::Build {
            fingerprint,
            needs_streaming_scope,
        } && fingerprint@ == spec_fingerprint(*cfg) && needs_streaming_scope == (cfg.backend
            == SpotifyBackendKind::WebPlayback)),
{
    if !cfg.enabled || trim(cfg.client_id.as_str()).unicode_len() == 0 {
        return BackendChoice::Unavailable;
    }
    let fp = fingerprint(cfg);
    match cached {
        Some(have) => if crate::text::str_equals(have, fp.as_str()) {
            return BackendChoice::Reuse;
        },
        None => {},
    }
    let needs_streaming_scope = match cfg.backend {
        SpotifyBackendKind::WebPlayback => true,
        SpotifyBackendKind::Connect => false,
    };
    BackendChoice::Build { fingerprint: fp, needs_streaming_scope }
}

} // verus!
