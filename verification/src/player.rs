//! The player: one backend instance, created from the configuration with a fallback.
//!
//! Creation alternates starting a backend (work done by the caller) and deciding
//! what comes next. `Player::new` decides the first backend to start;
//! `PlayerCreation::on_started` takes the outcome of each start and says which
//! backend to start next, or what creation returns.

use vstd::prelude::*;
use crate::backend::{
    BuildConfig, PlayerBackend, backend_for_name, backend_for_lowercase_name, ascii_lowercase,
    is_ascii_chars,
};

verus! {

/// Playback state reported by a player.
#[derive(Debug, Clone, Copy, PartialEq, Eq, Structural)]
pub enum PlayerState {
    Idle,
    Loading,
    Playing,
    Paused,
    Stopped,
    Error,
}

/// The playback section of the application configuration, as far as player creation reads it.
pub struct PlaybackConfig {
    pub player_backend: String,
}

/// The application configuration, as far as player creation reads it.
pub struct Config {
    pub playback: PlaybackConfig,
}

/// A player running on one backend; `G` is the GStreamer player, `M` the MPV player.
pub enum Player<G, M> {
    GStreamer(G),
    Mpv(M),
}

/// The backend that creation tries first: GStreamer on macOS, else the configured one.
pub open spec fn primary_backend(config: Config, build: BuildConfig) -> PlayerBackend {
    if build.macos {
        PlayerBackend::GStreamer
    } else {
        backend_for_name(config.playback.player_backend@, build)
    }
}

/// The backend tried when the primary one fails to start, if the build offers it.
pub open spec fn fallback_backend(primary: PlayerBackend, build: BuildConfig) -> Option<PlayerBackend> {
    match primary {
        PlayerBackend::GStreamer => if build.has_mpv() { Some(PlayerBackend::Mpv) } else { None },
        PlayerBackend::Mpv => if build.gstreamer { Some(PlayerBackend::GStreamer) } else { None },
    }
}

/// The fallback, when there is one, is the other backend, and the build offers it;
/// when the build offers both backends there always is one, and when it offers only
/// the primary one there is none.
pub proof fn lemma_fallback_is_the_other_offered_backend(primary: PlayerBackend, build: BuildConfig)
    ensures
        fallback_backend(primary, build) matches Some(b) ==> b != primary && build.offers(b),
        build.gstreamer && build.has_mpv() ==> fallback_backend(primary, build) is Some,
        build.offers(primary) && !(build.gstreamer && build.has_mpv()) ==> fallback_backend(
            primary,
            build,
        ) is None,
{
}

/// On macOS the first backend tried is GStreamer, whatever the configuration and the
/// other flags, and there is no fallback from it.
pub proof fn lemma_macos_creation_is_gstreamer_only(config: Config, build: BuildConfig)
    requires
        build.macos,
    ensures
        primary_backend(config, build) == PlayerBackend::GStreamer,
        fallback_backend(primary_backend(config, build), build) is None,
{
}

/// The first backend tried is one the build offers.
pub proof fn lemma_primary_is_offered(config: Config, build: BuildConfig)
    requires
        build.wf(),
    ensures
        build.offers(primary_backend(config, build)),
{
}

/// A player creation in progress: which backend is being started, and, once the
/// first start has failed, that start's error.
pub struct PlayerCreation<E> {
    build: BuildConfig,
    primary: PlayerBackend,
    pending: PlayerBackend,
    first_error: Option<E>,
}

/// What creation does after a start: start another backend, or finish.
pub enum Step<G, M, E> {
    /// Start this backend, then hand its outcome to the creation.
    Start(PlayerBackend, PlayerCreation<E>),
    /// Creation is over with this result.
    Finished(Result<Player<G, M>, E>),
}

impl<E> PlayerCreation<E> {
    /// The build creation runs in.
    pub closed spec fn build(self) -> BuildConfig {
        self.build
    }

    /// The backend started first.
    pub closed spec fn primary(self) -> PlayerBackend {
        self.primary
    }

    /// The backend whose start outcome is awaited.
    pub closed spec fn pending(self) -> PlayerBackend {
        self.pending
    }

    /// The error of the first start, once it has failed.
    pub closed spec fn first_error(self) -> Option<E> {
        self.first_error
    }

    /// The awaited start is the primary one with no failure yet, or the fallback
    /// after the primary one failed; either way a backend the build offers.
    pub closed spec fn wf(self) -> bool {
        &&& self.build.wf()
        &&& self.build.offers(self.pending)
        &&& match self.first_error {
            None => self.pending == self.primary,
            Some(_) => fallback_backend(self.primary, self.build) == Some(self.pending),
        }
    }

    /// The backend to start now.
    pub fn pending_backend(&self) -> (r: PlayerBackend)
        ensures
            r == self.pending(),
    {
        self.pending
    }

    /// Takes the outcome of starting the awaited backend and decides the next step.
    ///
    /// A started player finishes creation with it. A failed primary start leads to
    /// starting the fallback when the build offers one, else creation fails with that
    /// error. A failed fallback start fails creation with the primary start's error.
    pub fn on_started<G, M>(self, outcome: Result<Player<G, M>, E>) -> (r: Step<G, M, E>)
        requires
            self.wf(),
            outcome matches Ok(p) ==> p.backend_of() == self.pending(),
        ensures
            match outcome {
                Ok(p) => r == Step::<G, M, E>::Finished(Ok(p)),
                Err(e) => match self.first_error() {
                    None => match fallback_backend(self.primary(), self.build()) {
                        Some(b) => r matches Step::Start(next, c) && next == b && c.wf()
                            && c.pending() == b && c.primary() == self.primary() && c.build()
                            == self.build() && c.first_error() == Some(e),
                        None => r == Step::<G, M, E>::Finished(Err(e)),
                    },
                    Some(e0) => r == Step::<G, M, E>::Finished(Err(e0)),
                },
            },
            r matches Step::Start(b, c) ==> self.first_error() is None && b != self.primary()
                && self.build().offers(b),
            r matches Step::Start(b, c) ==> (b == PlayerBackend::Mpv ==> self.build().mpv
                && !self.build().macos) && (b == PlayerBackend::GStreamer
                ==> self.build().gstreamer),
            self.build().macos ==> !(r is Start),
            r matches Step::Finished(Ok(p)) ==> p.backend_of() == self.pending() && self.build().offers(
                p.backend_of(),
            ),
    {
        match outcome {
            Ok(p) => Step::Finished(Ok(p)),
            Err(e) => match self.first_error {
                Some(e0) => Step::Finished(Err(e0)),
                None => {
                    let fallback = match self.primary {
                        PlayerBackend::GStreamer => if self.build.mpv_available() {
                            Some(PlayerBackend::Mpv)
                        } else {
                            None
                        },
                        PlayerBackend::Mpv => if self.build.gstreamer {
                            Some(PlayerBackend::GStreamer)
                        } else {
                            None
                        },
                    };
                    match fallback {
                        Some(b) => Step::Start(
                            b,
                            PlayerCreation {
                                build: self.build,
                                primary: self.primary,
                                pending: b,
                                first_error: Some(e),
                            },
                        ),
                        None => Step::Finished(Err(e)),
                    }
                },
            },
        }
    }
}

impl<G, M> Player<G, M> {
    /// The backend this player runs on.
    pub open spec fn backend_of(self) -> PlayerBackend {
        match self {
            Player::GStreamer(_) => PlayerBackend::GStreamer,
            Player::Mpv(_) => PlayerBackend::Mpv,
        }
    }

    /// Begins creating a player: decides the backend to start first, GStreamer on
    /// macOS and otherwise the one the configuration names. The caller starts it
    /// (MPV is handed this `config`) and reports the outcome to `on_started`.
    pub fn new<E>(config: &Config, build: &BuildConfig) -> (r: PlayerCreation<E>)
        requires
            build.wf(),
        ensures
            r.wf(),
            r.build() == *build,
            r.first_error() is None,
            r.primary() == r.pending(),
            r.pending() == primary_backend(*config, *build),
            !build.macos && is_ascii_chars(config.playback.player_backend@) ==> r.pending()
                == backend_for_lowercase_name(
                ascii_lowercase(config.playback.player_backend@),
                *build,
            ),
            build.offers(r.pending()),
            build.macos ==> r.pending() == PlayerBackend::GStreamer,
            r.pending() == PlayerBackend::Mpv ==> build.mpv && !build.macos,
            r.pending() == PlayerBackend::GStreamer ==> build.gstreamer,
    {
        let backend = if build.macos {
            PlayerBackend::GStreamer
        } else {
            PlayerBackend::from_name(config.playback.player_backend.as_str(), build)
        };
        PlayerCreation { build: *build, primary: backend, pending: backend, first_error: None }
    }

    /// Routes an error callback to the backend. Only the MPV backend reports errors
    /// through a callback: for it the MPV player and the callback to install on it are
    /// returned; the GStreamer backend takes none, and `None` is returned.
    pub fn set_error_callback<F>(&self, callback: F) -> (r: Option<(&M, F)>) where
        F: Fn(String) + Send + 'static,

        ensures
            match *self {
                Player::Mpv(m) => r == Some((&m, callback)),
                Player::GStreamer(_) => r is None,
            },
    {
        match self {
            Player::Mpv(mpv) => Some((mpv, callback)),
            Player::GStreamer(_) => None,
        }
    }
}

} // verus!
