//! Decisions behind the recorder's user-facing commands: turning raw capture
//! errors into actionable messages tagged for the frontend, choosing the
//! operating-system settings panel to open for a permission, and naming the
//! file a recording is saved to.

use crate::text::{chars_of, contains_str, has_substring, lowercase, to_lowercase};
use vstd::prelude::*;
use vstd::string::StringExecFns;

verus! {

/// Tag in error messages that lets the frontend offer an "Open Settings"
/// button for the microphone permission.
pub const PERM_HINT_MIC: &'static str = "[STENO_PERM:microphone]";

/// Tag in error messages that lets the frontend offer an "Open Settings"
/// button for the screen-capture permission.
pub const PERM_HINT_SCREEN: &'static str = "[STENO_PERM:screen-capture]";

/// The operating system the recorder runs on.
#[derive(Clone, Copy, Debug, PartialEq, Eq, Structural)]
pub enum Platform {
    MacOs,
    Linux,
    Windows,
}

/// `text`, then the raw error in brackets.
pub open spec fn with_raw(text: Seq<char>, raw: Seq<char>) -> Seq<char> {
    text + " (raw: "@ + raw + ")"@
}

/// `text`, a permission tag, then the raw error in brackets.
pub open spec fn tagged(text: Seq<char>, hint: Seq<char>, raw: Seq<char>) -> Seq<char> {
    with_raw(text + " "@ + hint, raw)
}

fn build_with_raw(text: &str, raw: &str) -> (s: String)
    ensures
        s@ == with_raw(text@, raw@),
{
    let mut s = text.to_owned();
    s.append(" (raw: ");
    s.append(raw);
    s.append(")");
    s
}

fn build_tagged(text: &str, hint: &str, raw: &str) -> (s: String)
    ensures
        s@ == tagged(text@, hint@, raw@),
{
    let mut s = text.to_owned();
    s.append(" ");
    s.append(hint);
    s.append(" (raw: ");
    s.append(raw);
    s.append(")");
    s
}

/// The message for a microphone start failure with raw text `raw`, whose
/// lowercase form is `lower`.
pub open spec fn mic_error_text(raw: Seq<char>, lower: Seq<char>) -> Seq<char> {
    if has_substring(lower, "no default input device"@) {
        tagged(
            "No input device found. Plug in a mic or check OS audio settings."@,
            PERM_HINT_MIC@,
            raw,
        )
    } else if has_substring(lower, "permission"@) || has_substring(lower, "not authorized"@) {
        tagged("Microphone permission denied."@, PERM_HINT_MIC@, raw)
    } else {
        tagged("Microphone start failed."@, PERM_HINT_MIC@, raw)
    }
}

/// Builds the microphone error message from the raw error and its
/// lowercase form.
pub fn describe_mic_error(raw: &str, lower: &str) -> (s: String)
    ensures
        s@ == mic_error_text(raw@, lower@),
{
    let l = chars_of(lower);
    if contains_str(&l, "no default input device") {
        build_tagged(
            "No input device found. Plug in a mic or check OS audio settings.",
            PERM_HINT_MIC,
            raw,
        )
    } else if contains_str(&l, "permission") || contains_str(&l, "not authorized") {
        build_tagged("Microphone permission denied.", PERM_HINT_MIC, raw)
    } else {
        build_tagged("Microphone start failed.", PERM_HINT_MIC, raw)
    }
}

/// Rewrites a raw microphone start error into an actionable message, always
/// tagged so the frontend can offer to open the microphone settings.
/// Matching is on the lowercase form of the raw error.
pub fn humanize_mic_error(raw: String) -> (s: String)
    ensures
        s@ == mic_error_text(raw@, lowercase(raw@)),
{
    let lower = to_lowercase(raw.as_str());
    describe_mic_error(raw.as_str(), lower.as_str())
}

/// The message for a system-audio start failure with raw text `raw`, whose
/// lowercase form is `lower`, on `platform` when it is one with a known
/// capture path; elsewhere only the general message applies.
pub open spec fn system_error_text(raw: Seq<char>, lower: Seq<char>, platform: Option<Platform>) -> Seq<
    char,
> {
    let fallback = tagged("System audio start failed."@, PERM_HINT_SCREEN@, raw);
    match platform {
        None => fallback,
        Some(Platform::MacOs) => if has_substring(lower, "scshareablecontent"@) || has_substring(
            lower,
            "screen recording"@,
        ) {
            tagged("Screen Recording permission needed for system audio."@, PERM_HINT_SCREEN@, raw)
        } else {
            fallback
        },
        Some(Platform::Linux) => if has_substring(lower, "pipewire"@) || has_substring(
            lower,
            "connect"@,
        ) {
            with_raw(
                "PipeWire daemon doesn't appear to be running. Try: systemctl --user start pipewire pipewire-pulse wireplumber."@,
                raw,
            )
        } else {
            fallback
        },
        Some(Platform::Windows) => if has_substring(lower, "device"@) && (has_substring(lower, "busy"@)
            || has_substring(lower, "in use"@)) {
            with_raw(
                "Default audio output is busy. Close other apps that may be using it exclusively."@,
                raw,
            )
        } else {
            fallback
        },
    }
}

/// Builds the system-audio error message from the raw error and its
/// lowercase form.
pub fn describe_system_error(raw: &str, lower: &str, platform: Option<Platform>) -> (s: String)
    ensures
        s@ == system_error_text(raw@, lower@, platform),
{
    let l = chars_of(lower);
    match platform {
        None => {},
        Some(Platform::MacOs) => {
            if contains_str(&l, "scshareablecontent") || contains_str(&l, "screen recording") {
                return build_tagged(
                    "Screen Recording permission needed for system audio.",
                    PERM_HINT_SCREEN,
                    raw,
                );
            }
        },
        Some(Platform::Linux) => {
            if contains_str(&l, "pipewire") || contains_str(&l, "connect") {
                return build_with_raw(
                    "PipeWire daemon doesn't appear to be running. Try: systemctl --user start pipewire pipewire-pulse wireplumber.",
                    raw,
                );
            }
        },
        Some(Platform::Windows) => {
            if contains_str(&l, "device") && (contains_str(&l, "busy") || contains_str(
                &l,
                "in use",
            )) {
                return build_with_raw(
                    "Default audio output is busy. Close other apps that may be using it exclusively.",
                    raw,
                );
            }
        },
    }
    build_tagged("System audio start failed.", PERM_HINT_SCREEN, raw)
}

/// Rewrites a raw system-audio start error into an actionable message for
/// the platform's capture path (`None` on a platform with no known capture
/// path). Matching is on the lowercase form.
pub fn humanize_system_error(raw: String, platform: Option<Platform>) -> (s: String)
    ensures
        s@ == system_error_text(raw@, lowercase(raw@), platform),
{
    let lower = to_lowercase(raw.as_str());
    describe_system_error(raw.as_str(), lower.as_str(), platform)
}

/// What opening the microphone settings means on `platform`: `Ok` with the
/// settings URL to hand to the system opener, or `Err` with guidance where
/// there is no such panel.
pub open spec fn mic_settings(platform: Platform) -> Result<Seq<char>, Seq<char>> {
    match platform {
        Platform::MacOs => Ok(
            "x-apple.systempreferences:com.apple.preference.security?Privacy_Microphone"@,
        ),
        Platform::Windows => Ok("ms-settings:privacy-microphone"@),
        Platform::Linux => Err(
            "On Linux, microphone access is configured per app via your desktop's privacy/sound settings. Look for an Input or Microphone panel."@,
        ),
    }
}

/// What opening the screen-capture settings means on `platform` (see
/// [`mic_settings`]). Windows has no screen-recording panel, so its general
/// privacy page is opened.
pub open spec fn screen_capture_settings(platform: Platform) -> Result<Seq<char>, Seq<char>> {
    match platform {
        Platform::MacOs => Ok(
            "x-apple.systempreferences:com.apple.preference.security?Privacy_ScreenCapture"@,
        ),
        Platform::Windows => Ok("ms-settings:privacy"@),
        Platform::Linux => Err(
            "On Linux, system audio capture is handled by PipeWire — there is no OS-level permission panel. Confirm the daemon is running: systemctl --user status pipewire."@,
        ),
    }
}

/// The view of a `Result<String, String>`.
pub open spec fn result_view(r: Result<String, String>) -> Result<Seq<char>, Seq<char>> {
    match r {
        Ok(s) => Ok(s@),
        Err(e) => Err(e@),
    }
}

/// Decides how to open the microphone settings on `platform`.
pub fn open_mic_settings(platform: Platform) -> (r: Result<String, String>)
    ensures
        result_view(r) == mic_settings(platform),
{
    match platform {
        Platform::MacOs => Ok(
            "x-apple.systempreferences:com.apple.preference.security?Privacy_Microphone".to_owned(),
        ),
        Platform::Windows => Ok("ms-settings:privacy-microphone".to_owned()),
        Platform::Linux => Err(
            "On Linux, microphone access is configured per app via your desktop's privacy/sound settings. Look for an Input or Microphone panel.".to_owned(),
        ),
    }
}

/// Decides how to open the screen-capture settings on `platform`.
pub fn open_screen_capture_settings(platform: Platform) -> (r: Result<String, String>)
    ensures
        result_view(r) == screen_capture_settings(platform),
{
    match platform {
        Platform::MacOs => Ok(
            "x-apple.systempreferences:com.apple.preference.security?Privacy_ScreenCapture".to_owned(),
        ),
        Platform::Windows => Ok("ms-settings:privacy".to_owned()),
        Platform::Linux => Err(
            "On Linux, system audio capture is handled by PipeWire — there is no OS-level permission panel. Confirm the daemon is running: systemctl --user status pipewire.".to_owned(),
        ),
    }
}

/// What the permission panel request `kind` means on `platform`:
/// `"microphone"` and `"screen-capture"` select a settings panel; any other
/// kind is refused.
pub open spec fn permission_panel(kind: Seq<char>, platform: Platform) -> Result<
    Seq<char>,
    Seq<char>,
> {
    if kind == "microphone"@ {
        mic_settings(platform)
    } else if kind == "screen-capture"@ {
        screen_capture_settings(platform)
    } else {
        Err("unknown permission kind: "@ + kind)
    }
}

/// Decides how to answer a request to open the settings panel for the
/// permission `kind`: `Ok` with the URL to open, or `Err` with the message.
pub fn open_permission_panel(kind: &str, platform: Platform) -> (r: Result<String, String>)
    ensures
        result_view(r) == permission_panel(kind@, platform),
{
    let k = kind.to_owned();
    if k == "microphone".to_owned() {
        open_mic_settings(platform)
    } else if k == "screen-capture".to_owned() {
        open_screen_capture_settings(platform)
    } else {
        let mut e = "unknown permission kind: ".to_owned();
        e.append(kind);
        Err(e)
    }
}

/// The command line that hands `url` to the platform's opener.
pub open spec fn opener_argv(platform: Platform, url: Seq<char>) -> Seq<Seq<char>> {
    match platform {
        Platform::MacOs => seq!["open"@, url],
        Platform::Windows => seq!["cmd"@, "/c"@, "start"@, ""@, url],
        Platform::Linux => seq!["xdg-open"@, url],
    }
}

/// The view of a list of strings.
pub open spec fn strings_view(v: Seq<String>) -> Seq<Seq<char>> {
    v.map_values(|s: String| s@)
}

/// The program and arguments that open `url` with the platform's opener;
/// on Windows the empty argument keeps `start` from taking the URL as a
/// window title.
pub fn opener_command(platform: Platform, url: &str) -> (argv: Vec<String>)
    ensures
        strings_view(argv@) == opener_argv(platform, url@),
{
    let mut argv: Vec<String> = Vec::new();
    match platform {
        Platform::MacOs => {
            argv.push("open".to_owned());
        },
        Platform::Windows => {
            argv.push("cmd".to_owned());
            argv.push("/c".to_owned());
            argv.push("start".to_owned());
            argv.push("".to_owned());
        },
        Platform::Linux => {
            argv.push("xdg-open".to_owned());
        },
    }
    argv.push(url.to_owned());
    assert(strings_view(argv@) =~= opener_argv(platform, url@));
    argv
}

/// The name of the platform's opener, as shown in its error messages.
pub open spec fn opener_name_spec(platform: Platform) -> Seq<char> {
    match platform {
        Platform::MacOs => "open"@,
        Platform::Windows => "start"@,
        Platform::Linux => "xdg-open"@,
    }
}

/// The name of the platform's opener, which prefixes the error reported
/// when it cannot be launched.
pub fn opener_name(platform: Platform) -> (name: &'static str)
    ensures
        name@ == opener_name_spec(platform),
{
    match platform {
        Platform::MacOs => "open",
        Platform::Windows => "start",
        Platform::Linux => "xdg-open",
    }
}

/// Path components, below the user's documents folder, of the recording
/// stamped `stamp`.
pub open spec fn audio_output_components_spec(stamp: Seq<char>) -> Seq<Seq<char>> {
    seq!["Steno"@, ".steno"@, "audio"@, stamp + ".opus"@]
}

/// The path components, below the documents folder, of the Opus file a
/// recording stamped `stamp` is saved to.
pub fn audio_output_components(stamp: &str) -> (parts: Vec<String>)
    ensures
        strings_view(parts@) == audio_output_components_spec(stamp@),
{
    let mut parts: Vec<String> = Vec::new();
    parts.push("Steno".to_owned());
    parts.push(".steno".to_owned());
    parts.push("audio".to_owned());
    let mut file = stamp.to_owned();
    file.append(".opus");
    parts.push(file);
    assert(strings_view(parts@) =~= audio_output_components_spec(stamp@));
    parts
}

/// `s` ends with `suffix`.
pub open spec fn ends_with(s: Seq<char>, suffix: Seq<char>) -> bool {
    suffix.len() <= s.len() && s.subrange(s.len() - suffix.len(), s.len() as int) == suffix
}

proof fn lemma_with_raw_ends(text: Seq<char>, raw: Seq<char>)
    ensures
        ends_with(with_raw(text, raw), " (raw: "@ + raw + ")"@),
{
    let s = with_raw(text, raw);
    let suffix = " (raw: "@ + raw + ")"@;
    assert(s =~= text + suffix);
    assert(s.subrange(s.len() - suffix.len(), s.len() as int) =~= suffix);
}

proof fn lemma_tagged_parts(text: Seq<char>, hint: Seq<char>, raw: Seq<char>)
    ensures
        has_substring(tagged(text, hint, raw), hint),
        ends_with(tagged(text, hint, raw), " (raw: "@ + raw + ")"@),
{
    let s = tagged(text, hint, raw);
    let at = (text + " "@).len() as int;
    assert(s.subrange(at, at + hint.len()) =~= hint);
    lemma_with_raw_ends(text + " "@ + hint, raw);
}

/// Tagging law: every message a microphone start failure is turned into
/// carries the microphone permission tag, so the frontend can always offer
/// to open the microphone settings, and ends with the raw error as
/// ` (raw: …)`.
pub proof fn lemma_mic_errors_tagged(raw: Seq<char>, lower: Seq<char>)
    ensures
        has_substring(mic_error_text(raw, lower), PERM_HINT_MIC@),
        ends_with(mic_error_text(raw, lower), " (raw: "@ + raw + ")"@),
{
    lemma_tagged_parts(
        "No input device found. Plug in a mic or check OS audio settings."@,
        PERM_HINT_MIC@,
        raw,
    );
    lemma_tagged_parts("Microphone permission denied."@, PERM_HINT_MIC@, raw);
    lemma_tagged_parts("Microphone start failed."@, PERM_HINT_MIC@, raw);
}

/// Raw-error law for system audio: every message a system-audio start
/// failure is turned into ends with the raw error as ` (raw: …)`; on macOS,
/// where the failure is a screen-recording permission matter, and where no
/// capture path is known, the message always carries the screen-capture
/// permission tag.
pub proof fn lemma_system_errors_keep_raw(raw: Seq<char>, lower: Seq<char>, platform: Option<Platform>)
    ensures
        ends_with(system_error_text(raw, lower, platform), " (raw: "@ + raw + ")"@),
        platform is None || platform == Some(Platform::MacOs) ==> has_substring(
            system_error_text(raw, lower, platform),
            PERM_HINT_SCREEN@,
        ),
{
    lemma_tagged_parts("System audio start failed."@, PERM_HINT_SCREEN@, raw);
    lemma_tagged_parts(
        "Screen Recording permission needed for system audio."@,
        PERM_HINT_SCREEN@,
        raw,
    );
    lemma_with_raw_ends(
        "PipeWire daemon doesn't appear to be running. Try: systemctl --user start pipewire pipewire-pulse wireplumber."@,
        raw,
    );
    lemma_with_raw_ends(
        "Default audio output is busy. Close other apps that may be using it exclusively."@,
        raw,
    );
}

/// The advice given for a PipeWire daemon that is not running.
pub open spec fn pipewire_advice() -> Seq<char> {
    "PipeWire daemon doesn't appear to be running. Try: systemctl --user start pipewire pipewire-pulse wireplumber."@
}

/// Routing law for system-audio errors: on Linux, a raw error that mentions
/// PipeWire or a connection (in any letter case) always gets the advice to
/// start the PipeWire daemon followed by the raw error, never the
/// screen-capture permission message; on macOS, one that mentions
/// SCShareableContent or screen recording gets the Screen Recording
/// permission message; on Windows, one that mentions a device being busy or
/// in use gets the busy-output message; any other error, and any error where
/// no capture path is known, gets the general tagged message.
pub proof fn lemma_system_error_routing(raw: Seq<char>, lower: Seq<char>, platform: Option<Platform>)
    ensures
        platform == Some(Platform::Linux) && (has_substring(lower, "pipewire"@) || has_substring(
            lower,
            "connect"@,
        )) ==> system_error_text(raw, lower, platform) == pipewire_advice() + " (raw: "@ + raw
            + ")"@,
        platform == Some(Platform::MacOs) && (has_substring(lower, "scshareablecontent"@)
            || has_substring(lower, "screen recording"@)) ==> system_error_text(raw, lower, platform)
            == "Screen Recording permission needed for system audio."@ + " "@ + PERM_HINT_SCREEN@
            + " (raw: "@ + raw + ")"@,
        platform == Some(Platform::Windows) && has_substring(lower, "device"@) && (has_substring(
            lower,
            "busy"@,
        ) || has_substring(lower, "in use"@)) ==> system_error_text(raw, lower, platform)
            == "Default audio output is busy. Close other apps that may be using it exclusively."@
            + " (raw: "@ + raw + ")"@,
        platform is None || (platform == Some(Platform::Linux) && !has_substring(lower, "pipewire"@)
            && !has_substring(lower, "connect"@)) || (platform == Some(Platform::MacOs)
            && !has_substring(lower, "scshareablecontent"@) && !has_substring(
            lower,
            "screen recording"@,
        )) || (platform == Some(Platform::Windows) && !(has_substring(lower, "device"@) && (
        has_substring(lower, "busy"@) || has_substring(lower, "in use"@)))) ==> system_error_text(
            raw,
            lower,
            platform,
        ) == "System audio start failed."@ + " "@ + PERM_HINT_SCREEN@ + " (raw: "@ + raw + ")"@,
{
    assert(with_raw(pipewire_advice(), raw) =~= pipewire_advice() + " (raw: "@ + raw + ")"@);
}

/// Routing law for microphone errors: an error that mentions a missing
/// default input device (in any letter case) gets the no-device message; one
/// that mentions permission or authorization gets the permission-denied
/// message; any other gets the general message; all carry the microphone tag
/// and then the raw error.
pub proof fn lemma_mic_error_routing(raw: Seq<char>, lower: Seq<char>)
    ensures
        has_substring(lower, "no default input device"@) ==> mic_error_text(raw, lower)
            == "No input device found. Plug in a mic or check OS audio settings."@ + " "@
            + PERM_HINT_MIC@ + " (raw: "@ + raw + ")"@,
        !has_substring(lower, "no default input device"@) && (has_substring(lower, "permission"@)
            || has_substring(lower, "not authorized"@)) ==> mic_error_text(raw, lower)
            == "Microphone permission denied."@ + " "@ + PERM_HINT_MIC@ + " (raw: "@ + raw + ")"@,
        !has_substring(lower, "no default input device"@) && !has_substring(lower, "permission"@)
            && !has_substring(lower, "not authorized"@) ==> mic_error_text(raw, lower)
            == "Microphone start failed."@ + " "@ + PERM_HINT_MIC@ + " (raw: "@ + raw + ")"@,
{
}

} // verus!
