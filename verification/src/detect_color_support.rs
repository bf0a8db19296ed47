//! The capability detector: a pure decision procedure over a snapshot of
//! environment signals, plus thin probes for the two ambient signals
//! (terminal attachment and CI detection) that are not part of the snapshot.
//!
//! The decision procedure is evaluated top to bottom and the first matching
//! rule wins: hard disables (`NO_COLOR`, `TERM=dumb`, a non-terminal stream
//! without the `IGNORE_IS_TERMINAL` escape hatch), then macOS-specific
//! upgrades, then a Linux `COLORTERM` upgrade, then an unconditional Windows
//! upgrade, then generic ANSI/CI heuristics, then no color at all.

use vstd::prelude::*;

use is_terminal::IsTerminal;

use crate::str_match::{
    spec_ends_with,
    spec_has_substring,
    spec_starts_with,
    str_contains,
    str_ends_with,
    str_eq,
    str_starts_with,
};

verus! {

/// The stream to check for color support.
#[derive(Clone, Copy, Debug)]
pub enum Stream {
    Stdout,
    Stderr,
}

/// The detected or forced color rendering capability of a terminal stream.
///
/// `NotSet` is an override-store-only sentinel meaning "no explicit override
/// is active"; the detector never returns it.
#[derive(Debug, Clone, Copy, PartialEq, Eq, Structural)]
pub enum ColorSupport {
    Ansi256,
    Truecolor,
    NoColor,
    NotSet,
}

/// The identity of the host operating system, as far as the decision
/// procedure distinguishes it.
#[derive(Debug, Clone, Copy, PartialEq, Eq, Structural)]
pub enum HostOs {
    MacOs,
    Linux,
    Windows,
    Other,
}

/// A snapshot of the environment signals that the detector reads: the six
/// environment variables (each `None` when absent) and the host operating
/// system. Terminal attachment and CI detection are queried separately.
#[derive(Debug)]
pub struct EnvSnapshot {
    /// `NO_COLOR`: present with a value other than `"0"` forces no color.
    pub no_color: Option<String>,
    /// `TERM`: terminal family string; `"dumb"` forces no color.
    pub term: Option<String>,
    /// `TERM_PROGRAM`: macOS-only disambiguation of the terminal program.
    pub term_program: Option<String>,
    /// `COLORTERM`: presence or the value `"truecolor"` signals upgrades.
    pub colorterm: Option<String>,
    /// `CLICOLOR`: present with a value other than `"0"` signals color.
    pub clicolor: Option<String>,
    /// `IGNORE_IS_TERMINAL`: escape hatch bypassing the terminal requirement.
    pub ignore_is_terminal: Option<String>,
    /// The host operating system.
    pub os: HostOs,
}

/// The variable is present and its value is not the literal `"0"`.
pub open spec fn spec_set_not_zero(v: Option<String>) -> bool {
    match v {
        Some(s) => s@ != "0"@,
        None => false,
    }
}

/// The variable is present and holds exactly the characters of `lit`.
pub open spec fn spec_opt_eq(v: Option<String>, lit: Seq<char>) -> bool {
    match v {
        Some(s) => s@ == lit,
        None => false,
    }
}

/// The terminal name reports a 256-color palette: it ends with `"256"` or
/// with `"256color"`.
pub open spec fn spec_check_256_color(term: Seq<char>) -> bool {
    spec_ends_with(term, "256"@) || spec_ends_with(term, "256color"@)
}

/// The terminal name belongs to a known color-capable family.
pub open spec fn spec_check_ansi_color(term: Seq<char>) -> bool {
    spec_starts_with(term, "screen"@)
    || spec_starts_with(term, "xterm"@)
    || spec_starts_with(term, "vt100"@)
    || spec_starts_with(term, "vt220"@)
    || spec_starts_with(term, "rxvt"@)
    || spec_has_substring(term, "color"@)
    || spec_has_substring(term, "ansi"@)
    || spec_has_substring(term, "cygwin"@)
    || spec_has_substring(term, "linux"@)
}

/// A hard disable applies: `NO_COLOR` is set (to other than `"0"`), `TERM`
/// is `"dumb"`, or the stream is not a terminal and the escape hatch
/// `IGNORE_IS_TERMINAL` is not set (to other than `"0"`).
pub open spec fn spec_hard_disabled(env: EnvSnapshot, is_tty: bool) -> bool {
    spec_set_not_zero(env.no_color)
    || spec_opt_eq(env.term, "dumb"@)
    || !(is_tty || spec_set_not_zero(env.ignore_is_terminal))
}

/// The macOS rule that caps Apple's bundled Terminal.app at 256 colors.
pub open spec fn spec_macos_apple_256(env: EnvSnapshot) -> bool {
    spec_opt_eq(env.term_program, "Apple_Terminal"@)
    && match env.term {
        Some(t) => spec_check_256_color(t@),
        None => false,
    }
}

/// The macOS truecolor rule: iTerm, or `COLORTERM=truecolor`.
pub open spec fn spec_macos_truecolor(env: EnvSnapshot) -> bool {
    spec_opt_eq(env.term_program, "iTerm.app"@) || spec_opt_eq(env.colorterm, "truecolor"@)
}

/// The generic ANSI/CI heuristics: `COLORTERM` present with any value, a
/// color-capable `TERM` family, `CLICOLOR` set (to other than `"0"`), or a
/// recognized continuous-integration environment.
pub open spec fn spec_generic_color(env: EnvSnapshot, is_ci: bool) -> bool {
    (match env.colorterm {
        Some(_) => true,
        None => false,
    })
    || (match env.term {
        Some(t) => spec_check_ansi_color(t@),
        None => false,
    })
    || spec_set_not_zero(env.clicolor)
    || is_ci
}

/// The whole decision procedure, top to bottom, first match wins.
pub open spec fn spec_detect(env: EnvSnapshot, is_tty: bool, is_ci: bool) -> ColorSupport {
    if spec_hard_disabled(env, is_tty) {
        ColorSupport::NoColor
    } else if env.os == HostOs::MacOs && spec_macos_apple_256(env) {
        ColorSupport::Ansi256
    } else if env.os == HostOs::MacOs && spec_macos_truecolor(env) {
        ColorSupport::Truecolor
    } else if env.os == HostOs::Linux && spec_opt_eq(env.colorterm, "truecolor"@) {
        ColorSupport::Truecolor
    } else if env.os == HostOs::Windows {
        ColorSupport::Truecolor
    } else if spec_generic_color(env, is_ci) {
        ColorSupport::Truecolor
    } else {
        ColorSupport::NoColor
    }
}

/// The variable is present and holds exactly the characters of `lit`.
fn opt_eq_lit(v: &Option<String>, lit: &str) -> (r: bool)
    ensures
        r == spec_opt_eq(*v, lit@),
{
    match v {
        Some(s) => str_eq(s.as_str(), lit),
        None => false,
    }
}

/// The variable is present and its value is not `"0"`.
fn set_not_zero(v: &Option<String>) -> (r: bool)
    ensures
        r == spec_set_not_zero(*v),
{
    match v {
        Some(s) => !str_eq(s.as_str(), "0"),
        None => false,
    }
}

/// Adapts a borrowed `Result<String, E>` — the shape in which an
/// environment read hands a variable over — to a borrowed string slice,
/// keeping the characters and the error exactly.
pub fn as_str<E>(option: &Result<String, E>) -> (r: Result<&str, &E>)
    ensures
        match *option {
            Ok(s) => (r matches Ok(t) && t@ == s@),
            Err(e) => (r matches Err(f) && *f == e),
        },
{
    match option {
        Ok(inner) => Ok(inner.as_str()),
        Err(e) => Err(e),
    }
}

/// `NO_COLOR` (here: its snapshot value) disables color: it is present with
/// any value other than the literal `"0"`.
pub fn env_no_color(no_color: &Option<String>) -> (r: bool)
    ensures
        r == spec_set_not_zero(*no_color),
{
    set_not_zero(no_color)
}

/// The terminal name reports a 256-color palette.
pub fn check_256_color(term: &str) -> (r: bool)
    ensures
        r == spec_check_256_color(term@),
{
    str_ends_with(term, "256") || str_ends_with(term, "256color")
}

/// The terminal name belongs to a known color-capable family.
pub fn check_ansi_color(term: &str) -> (r: bool)
    ensures
        r == spec_check_ansi_color(term@),
{
    str_starts_with(term, "screen")
        || str_starts_with(term, "xterm")
        || str_starts_with(term, "vt100")
        || str_starts_with(term, "vt220")
        || str_starts_with(term, "rxvt")
        || str_contains(term, "color")
        || str_contains(term, "ansi")
        || str_contains(term, "cygwin")
        || str_contains(term, "linux")
}

/// The decision procedure on explicit inputs: the environment snapshot,
/// whether the target stream is an interactive terminal, and whether a
/// continuous-integration environment was recognized.
pub fn detect(env: &EnvSnapshot, is_tty: bool, is_ci: bool) -> (r: ColorSupport)
    ensures
        r == spec_detect(*env, is_tty, is_ci),
{
    if env_no_color(&env.no_color)
        || opt_eq_lit(&env.term, "dumb")
        || !(is_tty || set_not_zero(&env.ignore_is_terminal))
    {
        return ColorSupport::NoColor;
    }

    match env.os {
        HostOs::MacOs => {
            let apple = opt_eq_lit(&env.term_program, "Apple_Terminal");
            let term_256 = match &env.term {
                Some(t) => check_256_color(t.as_str()),
                None => false,
            };
            if apple && term_256 {
                return ColorSupport::Ansi256;
            }
            if opt_eq_lit(&env.term_program, "iTerm.app")
                || opt_eq_lit(&env.colorterm, "truecolor")
            {
                return ColorSupport::Truecolor;
            }
        },
        HostOs::Linux => {
            if opt_eq_lit(&env.colorterm, "truecolor") {
                return ColorSupport::Truecolor;
            }
        },
        HostOs::Windows => {
            return ColorSupport::Truecolor;
        },
        HostOs::Other => {},
    }

    let colorterm_present = match &env.colorterm {
        Some(_) => true,
        None => false,
    };
    let term_ansi = match &env.term {
        Some(t) => check_ansi_color(t.as_str()),
        None => false,
    };
    if colorterm_present || term_ansi || set_not_zero(&env.clicolor) || is_ci {
        return ColorSupport::Truecolor;
    }

    ColorSupport::NoColor
}

/// Relies on `is_terminal::IsTerminal::is_terminal` for `std::io::Stdout`:
/// whether standard output is attached to an interactive terminal. The
/// answer depends on the ambient process state, so nothing is promised of it.
#[verifier::external_body]
fn stdout_is_terminal() -> bool {
    std::io::stdout().is_terminal()
}

/// Relies on `is_terminal::IsTerminal::is_terminal` for `std::io::Stderr`:
/// whether standard error is attached to an interactive terminal. The
/// answer depends on the ambient process state, so nothing is promised of it.
#[verifier::external_body]
fn stderr_is_terminal() -> bool {
    std::io::stderr().is_terminal()
}

/// Relies on `is_ci::uncached`: whether the environment looks like a
/// recognized continuous-integration service. The answer depends on the
/// ambient process environment, so nothing is promised of it.
#[verifier::external_body]
fn ci_uncached() -> bool {
    is_ci::uncached()
}

/// Whether the given stream is attached to an interactive terminal.
fn is_a_tty(stream: Stream) -> bool {
    match stream {
        Stream::Stdout => stdout_is_terminal(),
        Stream::Stderr => stderr_is_terminal(),
    }
}

/// The full detector: probes the ambient signals (terminal attachment of
/// `stream`, CI detection) and runs the decision procedure on them together
/// with the given snapshot. Whatever the probes answer, the result is the
/// decision procedure applied to that answer, and never the `NotSet`
/// sentinel; the hard disables that depend on the snapshot alone win
/// unconditionally.
pub fn supports_color(stream: Stream, env: &EnvSnapshot) -> (r: ColorSupport)
    ensures
        exists|is_tty: bool, is_ci: bool| r == spec_detect(*env, is_tty, is_ci),
        r != ColorSupport::NotSet,
        spec_set_not_zero(env.no_color) ==> r == ColorSupport::NoColor,
        spec_opt_eq(env.term, "dumb"@) ==> r == ColorSupport::NoColor,
        (env.os == HostOs::Windows && spec_set_not_zero(env.ignore_is_terminal)
            && !spec_set_not_zero(env.no_color) && !spec_opt_eq(env.term, "dumb"@))
            ==> r == ColorSupport::Truecolor,
{
    let is_tty = is_a_tty(stream);
    let is_ci = ci_uncached();
    let r = detect(env, is_tty, is_ci);
    proof {
        lemma_detect_never_not_set(*env, is_tty, is_ci);
        if env.os == HostOs::Windows && spec_set_not_zero(env.ignore_is_terminal)
            && !spec_set_not_zero(env.no_color) && !spec_opt_eq(env.term, "dumb"@) {
            lemma_windows_truecolor(*env, is_tty, is_ci);
        }
        assert(r == spec_detect(*env, is_tty, is_ci));
    }
    r
}

/// The detector always resolves to one of the three real capability levels,
/// never to the store-only `NotSet` sentinel.
pub proof fn lemma_detect_never_not_set(env: EnvSnapshot, is_tty: bool, is_ci: bool)
    ensures
        spec_detect(env, is_tty, is_ci) != ColorSupport::NotSet,
{
}

/// Priority of the hard disable: when `NO_COLOR` is present with any value
/// other than `"0"`, the detector answers `NoColor`, whatever every other
/// signal says.
pub proof fn lemma_no_color_priority(env: EnvSnapshot, is_tty: bool, is_ci: bool)
    requires
        spec_set_not_zero(env.no_color),
    ensures
        spec_detect(env, is_tty, is_ci) == ColorSupport::NoColor,
{
}

/// `TERM=dumb` dominance: when `TERM` is exactly `"dumb"`, the detector
/// answers `NoColor`, whatever every other signal says.
pub proof fn lemma_term_dumb_dominates(env: EnvSnapshot, is_tty: bool, is_ci: bool)
    requires
        spec_opt_eq(env.term, "dumb"@),
    ensures
        spec_detect(env, is_tty, is_ci) == ColorSupport::NoColor,
{
}

/// A stream that is not an interactive terminal yields `NoColor` when the
/// `IGNORE_IS_TERMINAL` escape hatch is absent or `"0"`.
pub proof fn lemma_not_a_tty_no_color(env: EnvSnapshot, is_ci: bool)
    requires
        !spec_set_not_zero(env.ignore_is_terminal),
    ensures
        spec_detect(env, false, is_ci) == ColorSupport::NoColor,
{
}

/// The escape hatch: when `IGNORE_IS_TERMINAL` is set to a value other than
/// `"0"`, the detector answers the same whether or not the stream is an
/// interactive terminal.
pub proof fn lemma_escape_hatch(env: EnvSnapshot, is_ci: bool)
    requires
        spec_set_not_zero(env.ignore_is_terminal),
    ensures
        spec_detect(env, false, is_ci) == spec_detect(env, true, is_ci),
{
}

/// The macOS Terminal.app path: with `TERM_PROGRAM=Apple_Terminal` and a
/// 256-color `TERM` name, and no hard disable, the detector answers
/// `Ansi256` — never `Truecolor`.
pub proof fn lemma_apple_terminal_ansi256(env: EnvSnapshot, is_tty: bool, is_ci: bool)
    requires
        env.os == HostOs::MacOs,
        spec_opt_eq(env.term_program, "Apple_Terminal"@),
        (match env.term {
            Some(t) => spec_check_256_color(t@),
            None => false,
        }),
        !spec_hard_disabled(env, is_tty),
    ensures
        spec_detect(env, is_tty, is_ci) == ColorSupport::Ansi256,
{
}

/// The macOS iTerm path: with `TERM_PROGRAM=iTerm.app` and no hard disable,
/// the detector answers `Truecolor`.
pub proof fn lemma_iterm_truecolor(env: EnvSnapshot, is_tty: bool, is_ci: bool)
    requires
        env.os == HostOs::MacOs,
        spec_opt_eq(env.term_program, "iTerm.app"@),
        !spec_hard_disabled(env, is_tty),
    ensures
        spec_detect(env, is_tty, is_ci) == ColorSupport::Truecolor,
{
    reveal_strlit("Apple_Terminal");
    reveal_strlit("iTerm.app");
    assert("Apple_Terminal"@.len() == 14);
    assert("iTerm.app"@.len() == 9);
    assert(!spec_opt_eq(env.term_program, "Apple_Terminal"@));
}

/// The Windows short-circuit: with no hard disable, the detector answers
/// `Truecolor` on Windows, independent of `TERM` and `COLORTERM`.
pub proof fn lemma_windows_truecolor(env: EnvSnapshot, is_tty: bool, is_ci: bool)
    requires
        env.os == HostOs::Windows,
        !spec_hard_disabled(env, is_tty),
    ensures
        spec_detect(env, is_tty, is_ci) == ColorSupport::Truecolor,
{
}

} // verus!
