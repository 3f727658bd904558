use reel::backend::{BuildConfig, PlayerBackend};
use reel::player::{Config, PlaybackConfig, Player, PlayerState, Step};

fn linux_both() -> BuildConfig {
    BuildConfig { macos: false, gstreamer: true, mpv: true }
}

fn config(name: &str) -> Config {
    Config { playback: PlaybackConfig { player_backend: name.to_string() } }
}

fn kind<G, M>(p: &Player<G, M>) -> PlayerBackend {
    match p {
        Player::GStreamer(_) => PlayerBackend::GStreamer,
        Player::Mpv(_) => PlayerBackend::Mpv,
    }
}

#[test]
fn name_selects_named_backend() {
    let b = linux_both();
    assert_eq!(PlayerBackend::from_name("gstreamer", &b), PlayerBackend::GStreamer);
    assert_eq!(PlayerBackend::from_name("mpv", &b), PlayerBackend::Mpv);
}

#[test]
fn name_is_compared_without_case() {
    let b = linux_both();
    assert_eq!(PlayerBackend::from_name("GStreamer", &b), PlayerBackend::GStreamer);
    assert_eq!(PlayerBackend::from_name("GSTREAMER", &b), PlayerBackend::GStreamer);
    assert_eq!(PlayerBackend::from_name("MPV", &b), PlayerBackend::Mpv);
}

#[test]
fn lowercase_name_is_compared_exactly() {
    let b = linux_both();
    assert_eq!(PlayerBackend::from_lowercase_name("gstreamer", &b), PlayerBackend::GStreamer);
    assert_eq!(PlayerBackend::from_lowercase_name("GStreamer", &b), PlayerBackend::Mpv);
}

#[test]
fn unknown_name_defaults_to_mpv_when_both_available() {
    let b = linux_both();
    assert_eq!(PlayerBackend::from_name("vlc", &b), PlayerBackend::Mpv);
    assert_eq!(PlayerBackend::from_name("", &b), PlayerBackend::Mpv);
}

#[test]
fn unknown_name_defaults_to_the_only_backend() {
    let gst_only = BuildConfig { macos: false, gstreamer: true, mpv: false };
    assert_eq!(PlayerBackend::from_name("vlc", &gst_only), PlayerBackend::GStreamer);
    assert_eq!(PlayerBackend::from_name("mpv", &gst_only), PlayerBackend::GStreamer);
    let mpv_only = BuildConfig { macos: false, gstreamer: false, mpv: true };
    assert_eq!(PlayerBackend::from_name("vlc", &mpv_only), PlayerBackend::Mpv);
    assert_eq!(PlayerBackend::from_name("gstreamer", &mpv_only), PlayerBackend::Mpv);
}

#[test]
fn macos_always_selects_gstreamer() {
    let mac = BuildConfig { macos: true, gstreamer: true, mpv: true };
    assert_eq!(PlayerBackend::from_name("mpv", &mac), PlayerBackend::GStreamer);
    assert_eq!(PlayerBackend::from_lowercase_name("mpv", &mac), PlayerBackend::GStreamer);
    assert!(!mac.mpv_available());
}

#[test]
fn mpv_availability() {
    assert!(linux_both().mpv_available());
    assert!(!BuildConfig { macos: false, gstreamer: true, mpv: false }.mpv_available());
}

/// Runs a creation to its end, recording which backends were started.
fn run_creation(
    name: &str,
    build: &BuildConfig,
    gst: Result<u8, String>,
    mpv: Result<u16, String>,
) -> (Result<Player<u8, u16>, String>, Vec<PlayerBackend>) {
    let cfg = config(name);
    let mut creation = Player::<u8, u16>::new::<String>(&cfg, build);
    let mut started = Vec::new();
    loop {
        let backend = creation.pending_backend();
        started.push(backend);
        let outcome = match backend {
            PlayerBackend::GStreamer => gst.clone().map(Player::GStreamer),
            PlayerBackend::Mpv => mpv.clone().map(Player::Mpv),
        };
        match creation.on_started(outcome) {
            Step::Start(next, rest) => {
                assert_eq!(rest.pending_backend(), next);
                creation = rest;
            }
            Step::Finished(r) => return (r, started),
        }
    }
}

#[test]
fn new_starts_configured_backend() {
    let cfg = config("mpv");
    let creation = Player::<u8, u16>::new::<String>(&cfg, &linux_both());
    assert_eq!(creation.pending_backend(), PlayerBackend::Mpv);
    let cfg = config("GStreamer");
    let creation = Player::<u8, u16>::new::<String>(&cfg, &linux_both());
    assert_eq!(creation.pending_backend(), PlayerBackend::GStreamer);
}

#[test]
fn started_player_finishes_creation() {
    let (r, started) = run_creation("mpv", &linux_both(), Ok(1), Ok(2));
    assert!(matches!(r, Ok(Player::Mpv(2))));
    assert_eq!(started, vec![PlayerBackend::Mpv]);
    let (r, started) = run_creation("GStreamer", &linux_both(), Ok(1), Ok(2));
    assert!(matches!(r, Ok(Player::GStreamer(1))));
    assert_eq!(started, vec![PlayerBackend::GStreamer]);
}

#[test]
fn falls_back_to_gstreamer_when_mpv_fails() {
    let (r, started) = run_creation("mpv", &linux_both(), Ok(1), Err("mpv failed".to_string()));
    assert!(matches!(r, Ok(Player::GStreamer(1))));
    assert_eq!(started, vec![PlayerBackend::Mpv, PlayerBackend::GStreamer]);
}

#[test]
fn falls_back_to_mpv_when_gstreamer_fails() {
    let (r, started) =
        run_creation("gstreamer", &linux_both(), Err("gst failed".to_string()), Ok(2));
    assert!(matches!(r, Ok(Player::Mpv(2))));
    assert_eq!(started, vec![PlayerBackend::GStreamer, PlayerBackend::Mpv]);
}

#[test]
fn reports_primary_error_when_both_fail() {
    let gst_err = Err("gst failed".to_string());
    let mpv_err = Err("mpv failed".to_string());
    let (r, started) = run_creation("gstreamer", &linux_both(), gst_err.clone(), mpv_err.clone());
    assert_eq!(r.err(), Some("gst failed".to_string()));
    assert_eq!(started.len(), 2);
    let (r, _) = run_creation("mpv", &linux_both(), gst_err, mpv_err);
    assert_eq!(r.err(), Some("mpv failed".to_string()));
}

#[test]
fn no_fallback_with_a_single_backend() {
    let gst_only = BuildConfig { macos: false, gstreamer: true, mpv: false };
    let (r, started) = run_creation("mpv", &gst_only, Err("gst failed".to_string()), Ok(2));
    assert_eq!(r.err(), Some("gst failed".to_string()));
    assert_eq!(started, vec![PlayerBackend::GStreamer]);
    let mpv_only = BuildConfig { macos: false, gstreamer: false, mpv: true };
    let (r, started) = run_creation("gstreamer", &mpv_only, Ok(1), Err("mpv failed".to_string()));
    assert_eq!(r.err(), Some("mpv failed".to_string()));
    assert_eq!(started, vec![PlayerBackend::Mpv]);
}

#[test]
fn macos_starts_only_gstreamer() {
    let mac = BuildConfig { macos: true, gstreamer: true, mpv: true };
    let (r, started) = run_creation("mpv", &mac, Ok(1), Ok(2));
    assert_eq!(r.as_ref().map(kind).ok(), Some(PlayerBackend::GStreamer));
    assert_eq!(started, vec![PlayerBackend::GStreamer]);
    let (r, started) = run_creation("mpv", &mac, Err("gst failed".to_string()), Ok(2));
    assert_eq!(r.err(), Some("gst failed".to_string()));
    assert_eq!(started, vec![PlayerBackend::GStreamer]);
}

#[test]
fn error_callback_goes_to_mpv_only() {
    let mpv: Player<u8, u16> = Player::Mpv(7);
    let routed = mpv.set_error_callback(|_msg: String| {});
    assert_eq!(routed.map(|(m, _)| *m), Some(7));
    let gst: Player<u8, u16> = Player::GStreamer(3);
    assert!(gst.set_error_callback(|_msg: String| {}).is_none());
}

#[test]
fn player_state_compares_by_variant() {
    assert_eq!(PlayerState::Playing, PlayerState::Playing.clone());
    assert_ne!(PlayerState::Paused, PlayerState::Stopped);
}

