//! Which playback backends a build offers, and which one a configured name selects.

use vstd::prelude::*;

verus! {

/// The playback engines a player can be built on.
#[derive(Debug, Clone, Copy, PartialEq, Eq, Structural)]
pub enum PlayerBackend {
    GStreamer,
    Mpv,
}

/// What the running build offers: the target platform and the backends compiled in.
///
/// MPV is never offered on macOS, whatever the `mpv` flag says.
#[derive(Debug, Clone, Copy, PartialEq, Eq, Structural)]
pub struct BuildConfig {
    pub macos: bool,
    pub gstreamer: bool,
    pub mpv: bool,
}

impl BuildConfig {
    /// MPV is usable: compiled in and not on macOS.
    pub open spec fn has_mpv(self) -> bool {
        self.mpv && !self.macos
    }

    /// The build offers the given backend.
    pub open spec fn offers(self, b: PlayerBackend) -> bool {
        match b {
            PlayerBackend::GStreamer => self.gstreamer,
            PlayerBackend::Mpv => self.has_mpv(),
        }
    }

    /// A build that can run at all: at least one backend is usable.
    /// (Without one the program does not build; on macOS that means GStreamer.)
    pub open spec fn wf(self) -> bool {
        self.gstreamer || self.has_mpv()
    }

    /// Whether MPV is usable in this build.
    pub fn mpv_available(&self) -> (r: bool)
        ensures
            r == self.has_mpv(),
            self.macos ==> !r,
            r ==> self.mpv,
            self.mpv && !self.macos ==> r,
    {
        self.mpv && !self.macos
    }
}

/// MPV is never usable on macOS; elsewhere it is usable exactly when compiled in.
/// GStreamer is offered exactly when compiled in, on every platform.
pub proof fn lemma_offered_backends_follow_the_flags(build: BuildConfig)
    ensures
        build.macos ==> !build.has_mpv(),
        build.macos ==> !build.offers(PlayerBackend::Mpv),
        !build.macos ==> (build.has_mpv() <==> build.mpv),
        build.offers(PlayerBackend::GStreamer) <==> build.gstreamer,
        build.offers(PlayerBackend::Mpv) ==> build.mpv,
        build.macos && build.wf() ==> build.gstreamer,
{
}

/// The backend chosen for an already lower-cased configured name.
///
/// macOS always gets GStreamer. Elsewhere "gstreamer" picks GStreamer when it is
/// compiled in; otherwise ("mpv", an unknown name, or an unavailable request)
/// MPV is taken when it is usable, and GStreamer when it is not.
pub open spec fn backend_for_lowercase_name(name: Seq<char>, build: BuildConfig) -> PlayerBackend {
    if build.macos {
        PlayerBackend::GStreamer
    } else if name == "gstreamer"@ && build.gstreamer {
        PlayerBackend::GStreamer
    } else if build.has_mpv() {
        PlayerBackend::Mpv
    } else {
        PlayerBackend::GStreamer
    }
}

/// Unicode lower-casing of a string, as `str::to_lowercase` computes it.
pub uninterp spec fn str_lowercase(s: Seq<char>) -> Seq<char>;

/// The backend chosen for a configured name, compared without regard to case.
pub open spec fn backend_for_name(name: Seq<char>, build: BuildConfig) -> PlayerBackend {
    backend_for_lowercase_name(str_lowercase(name), build)
}

/// A string made only of ASCII characters.
pub open spec fn is_ascii_chars(s: Seq<char>) -> bool {
    forall|i: int| 0 <= i < s.len() ==> (#[trigger] s[i] as u32) < 128
}

/// ASCII lower-casing of one character: 'A'..='Z' become 'a'..='z', all else is kept.
pub open spec fn ascii_lower_char(c: char) -> char {
    if 'A' <= c && c <= 'Z' {
        ((c as u32) + 32) as char
    } else {
        c
    }
}

/// ASCII lower-casing of a string, character by character.
pub open spec fn ascii_lowercase(s: Seq<char>) -> Seq<char> {
    s.map_values(|c: char| ascii_lower_char(c))
}

/// Calls `str::to_lowercase`; its result is named `str_lowercase` of the argument.
/// On ASCII input the Unicode lower case of each character is its ASCII lower case,
/// so there the result is stated exactly; on other input only the name is given.
#[verifier::external_body]
fn lowercase(s: &str) -> (r: String)
    ensures
        r@ == str_lowercase(s@),
        is_ascii_chars(s@) ==> r@ == ascii_lowercase(s@),
{
    s.to_lowercase()
}

/// Whatever the configured name, a runnable build selects a backend it offers.
pub proof fn lemma_selection_is_offered(name: Seq<char>, build: BuildConfig)
    requires
        build.wf(),
    ensures
        build.offers(backend_for_name(name, build)),
        build.offers(backend_for_lowercase_name(name, build)),
{
}

/// On macOS the selection is GStreamer, whatever the configured name.
pub proof fn lemma_macos_selects_gstreamer(name: Seq<char>, build: BuildConfig)
    requires
        build.macos,
    ensures
        backend_for_name(name, build) == PlayerBackend::GStreamer,
        backend_for_lowercase_name(name, build) == PlayerBackend::GStreamer,
{
}

/// Off macOS, naming a backend the build offers selects that backend.
pub proof fn lemma_named_backend_is_selected(build: BuildConfig)
    requires
        !build.macos,
    ensures
        build.gstreamer ==> backend_for_lowercase_name("gstreamer"@, build) == PlayerBackend::GStreamer,
        build.has_mpv() ==> backend_for_lowercase_name("mpv"@, build) == PlayerBackend::Mpv,
{
    reveal_strlit("gstreamer");
    reveal_strlit("mpv");
    assert("mpv"@.len() != "gstreamer"@.len());
}

/// Off macOS, with both backends compiled in, any name other than "gstreamer"
/// (including an unknown one) selects MPV.
pub proof fn lemma_mpv_is_the_default(name: Seq<char>, build: BuildConfig)
    requires
        !build.macos,
        build.gstreamer,
        build.mpv,
        name != "gstreamer"@,
    ensures
        backend_for_lowercase_name(name, build) == PlayerBackend::Mpv,
{
}

/// When only one backend is offered, it is selected whatever the name.
pub proof fn lemma_single_backend_is_selected(name: Seq<char>, build: BuildConfig)
    requires
        build.wf(),
        !(build.gstreamer && build.has_mpv()),
    ensures
        build.gstreamer ==> backend_for_name(name, build) == PlayerBackend::GStreamer,
        build.has_mpv() ==> backend_for_name(name, build) == PlayerBackend::Mpv,
{
}

/// ASCII lower-casing is idempotent and keeps a string ASCII.
pub proof fn lemma_ascii_lowercase_idempotent(s: Seq<char>)
    requires
        is_ascii_chars(s),
    ensures
        is_ascii_chars(ascii_lowercase(s)),
        ascii_lowercase(ascii_lowercase(s)) == ascii_lowercase(s),
{
    assert forall|i: int| 0 <= i < s.len() implies (#[trigger] ascii_lowercase(s)[i] as u32) < 128 by {
        let c = s[i];
        assert((c as u32) < 128);
        if 'A' <= c && c <= 'Z' {
            assert(ascii_lower_char(c) as u32 == (c as u32) + 32);
        }
    }
    assert forall|i: int| 0 <= i < s.len() implies #[trigger] ascii_lowercase(ascii_lowercase(s))[i]
        == ascii_lowercase(s)[i] by {
        let c = s[i];
        if 'A' <= c && c <= 'Z' {
            assert(ascii_lower_char(c) as u32 == (c as u32) + 32);
        }
    }
    assert(ascii_lowercase(ascii_lowercase(s)) =~= ascii_lowercase(s));
}

/// Names of ASCII characters that differ only in the case of their letters select
/// the same backend; in particular a name and its lower-cased form agree.
pub proof fn lemma_ascii_case_does_not_matter(s: Seq<char>, t: Seq<char>, build: BuildConfig)
    requires
        is_ascii_chars(s),
        is_ascii_chars(t),
        ascii_lowercase(s) == ascii_lowercase(t),
    ensures
        backend_for_lowercase_name(ascii_lowercase(s), build) == backend_for_lowercase_name(
            ascii_lowercase(t),
            build,
        ),
        backend_for_lowercase_name(ascii_lowercase(ascii_lowercase(s)), build)
            == backend_for_lowercase_name(ascii_lowercase(s), build),
{
    lemma_ascii_lowercase_idempotent(s);
}

/// Off macOS, "GSTREAMER" and "MPV" select the backends they name, as the lower-case names do.
pub proof fn lemma_upper_case_names_are_selected(build: BuildConfig)
    requires
        !build.macos,
    ensures
        build.gstreamer ==> backend_for_lowercase_name(ascii_lowercase("GSTREAMER"@), build)
            == PlayerBackend::GStreamer,
        build.has_mpv() ==> backend_for_lowercase_name(ascii_lowercase("MPV"@), build)
            == PlayerBackend::Mpv,
{
    reveal_strlit("GSTREAMER");
    reveal_strlit("gstreamer");
    reveal_strlit("MPV");
    reveal_strlit("mpv");
    assert(ascii_lowercase("GSTREAMER"@) =~= "gstreamer"@);
    assert(ascii_lowercase("MPV"@) =~= "mpv"@);
    lemma_named_backend_is_selected(build);
}

impl PlayerBackend {
    /// Picks the backend for a name that is already lower case.
    pub fn from_lowercase_name(name: &str, build: &BuildConfig) -> (r: PlayerBackend)
        requires
            build.wf(),
        ensures
            r == backend_for_lowercase_name(name@, *build),
            build.offers(r),
    {
        if build.macos {
            return PlayerBackend::GStreamer;
        }
        let owned = name.to_owned();
        if build.gstreamer && owned == String::from_str("gstreamer") {
            PlayerBackend::GStreamer
        } else if build.mpv_available() {
            PlayerBackend::Mpv
        } else {
            PlayerBackend::GStreamer
        }
    }

    /// Picks the backend for a configured name such as "mpv" or "GStreamer".
    pub fn from_name(name: &str, build: &BuildConfig) -> (r: PlayerBackend)
        requires
            build.wf(),
        ensures
            r == backend_for_name(name@, *build),
            is_ascii_chars(name@) ==> r == backend_for_lowercase_name(ascii_lowercase(name@), *build),
            build.offers(r),
    {
        if build.macos {
            return PlayerBackend::GStreamer;
        }
        let lowered = lowercase(name);
        Self::from_lowercase_name(lowered.as_str(), build)
    }
}

} // verus!
