use vstd::prelude::*;
use crate::error::{Error, error_code, same_kind};
use crate::hex::{hex_digits, push_hex, lemma_hex_injective};
use crate::text::{chars_of, contains_chars, contains_run};

verus! {

/// The reason code with which the loader notifies a library that it has just
/// been attached to a process.
pub const PROCESS_ATTACH: u32 = 1;

/// Whether a notification from the loader should start the initializer
/// thread: only the attach notification does.
pub fn should_start_initializer(reason: u32) -> (b: bool)
    ensures
        b <==> reason == PROCESS_ATTACH,
{
    reason == PROCESS_ATTACH
}

/// The executable name of the game the hooks are written for.
pub open spec fn target_executable() -> Seq<char> {
    "DOOMTheDarkAges.exe"@
}

/// Whether the path of the process's main module names the game: the hooks
/// are installed only then.
pub fn is_target_process(main_module_path: &str) -> (b: bool)
    ensures
        b <==> contains_run(main_module_path@, target_executable()),
{
    let hay = chars_of(main_module_path);
    let needle = chars_of("DOOMTheDarkAges.exe");
    contains_chars(&hay, &needle)
}

/// The text of the report shown when initialization fails with a given code.
pub open spec fn failure_report_text(code: u32) -> Seq<char> {
    "Failed to initialize maykr: 0x"@ + hex_digits(code as nat) + ". Please report this!"@
}

/// The report shown to the user when installing the hooks failed: the
/// error's code in lowercase hexadecimal, prefixed by `0x`.
pub fn failure_report(error: &Error) -> (s: String)
    ensures
        s@ == failure_report_text(error_code(*error)),
{
    let mut s = String::new();
    s.append("Failed to initialize maykr: 0x");
    push_hex(&mut s, error.discriminant());
    s.append(". Please report this!");
    s
}

/// The version label built from the package's major, minor and patch
/// numbers: `v`, the major number, a dot, then the minor and patch numbers
/// written one after the other.
pub open spec fn version_label_text(major: Seq<char>, minor: Seq<char>, patch: Seq<char>) -> Seq<char> {
    "v"@ + major + "."@ + minor + patch
}

/// Builds the version label.
pub fn version_label(major: &str, minor: &str, patch: &str) -> (s: String)
    ensures
        s@ == version_label_text(major@, minor@, patch@),
{
    let mut s = String::new();
    s.append("v");
    s.append(major);
    s.append(".");
    s.append(minor);
    s.append(patch);
    s
}

/// The title of the window that reports a failed initialization.
pub fn failure_dialog_title(major: &str, minor: &str, patch: &str) -> (s: String)
    ensures
        s@ == "Daisy "@ + version_label_text(major@, minor@, patch@),
{
    let mut s = String::new();
    s.append("Daisy ");
    let label = version_label(major, minor, patch);
    s.append(label.as_str());
    s
}

/// The line printed when the initializer starts.
pub fn startup_banner(major: &str, minor: &str, patch: &str) -> (s: String)
    ensures
        s@ == "Initializing maykr "@ + version_label_text(major@, minor@, patch@),
{
    let mut s = String::new();
    s.append("Initializing maykr ");
    let label = version_label(major, minor, patch);
    s.append(label.as_str());
    s
}

/// Failure reports of different kinds of error differ: the kind can be read
/// back from the text the user reports.
pub proof fn lemma_failure_report_identifies_kind(a: Error, b: Error)
    requires
        failure_report_text(error_code(a)) == failure_report_text(error_code(b)),
    ensures
        same_kind(a, b),
{
    let pre = "Failed to initialize maykr: 0x"@;
    let post = ". Please report this!"@;
    let ha = hex_digits(error_code(a) as nat);
    let hb = hex_digits(error_code(b) as nat);
    let ta = failure_report_text(error_code(a));
    assert(ta.len() == pre.len() + ha.len() + post.len());
    assert(ha.len() == hb.len());
    assert(ta.subrange(pre.len() as int, (pre.len() + ha.len()) as int) =~= ha);
    assert(failure_report_text(error_code(b)).subrange(pre.len() as int, (pre.len() + hb.len()) as int) =~= hb);
    lemma_hex_injective(error_code(a) as nat, error_code(b) as nat);
    crate::error::lemma_code_identifies_kind(a, b);
}

} // verus!
