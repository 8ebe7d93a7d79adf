use vstd::prelude::*;
use crate::catalog::{make_step, Step, StepSpec};

verus! {

/// The diagnostic that tells whether a reboot is needed: exit code 0 means
/// no, 1 means yes with the reason on standard output.
pub open spec fn diagnostic_spec() -> StepSpec {
    StepSpec {
        program: "dnf5"@,
        args: seq!["needs-restarting"@, "-r"@],
        prefix: "[DNF5]"@,
        failure_ignored: true,
        nothing_to_do: None,
    }
}

/// The command that reboots the machine.
pub open spec fn reboot_spec() -> StepSpec {
    StepSpec {
        program: "systemctl"@,
        args: seq!["reboot"@],
        prefix: "[Reboot]"@,
        failure_ignored: false,
        nothing_to_do: None,
    }
}

/// The reboot diagnostic.
pub fn diagnostic_step() -> (r: Step)
    ensures
        r@ == diagnostic_spec(),
{
    let r = make_step("dnf5", vec!["needs-restarting", "-r"], "[DNF5]", true, None);
    assert(r@.args =~= diagnostic_spec().args);
    r
}

/// The reboot command.
pub fn reboot_step() -> (r: Step)
    ensures
        r@ == reboot_spec(),
{
    let r = make_step("systemctl", vec!["reboot"], "[Reboot]", false, None);
    assert(r@.args =~= reboot_spec().args);
    r
}

/// Reads the diagnostic's exit: a reboot is advised, with the diagnostic's
/// output as the reason, only when its tool is present and it exited with
/// code 1. Code 0, any other code, or no code at all advise nothing.
pub fn reboot_advice(tool_present: bool, exit_code: Option<i32>, stdout: String) -> (r: Option<
    String,
>)
    ensures
        r == (if tool_present && exit_code == Some(1i32) {
            Some(stdout)
        } else {
            None
        }),
{
    if !tool_present {
        return None;
    }
    match exit_code {
        Some(1) => Some(stdout),
        _ => None,
    }
}

/// Whether a character is white space in Unicode's sense (the property
/// `White_Space`).
pub open spec fn is_white_space(c: char) -> bool {
    ('\u{9}' <= c && c <= '\u{d}') || c == ' ' || c == '\u{85}' || c == '\u{a0}' || c == '\u{1680}'
        || ('\u{2000}' <= c && c <= '\u{200a}') || c == '\u{2028}' || c == '\u{2029}' || c
        == '\u{202f}' || c == '\u{205f}' || c == '\u{3000}'
}

/// `t` is `s` without its leading and trailing white space.
pub open spec fn is_trimmed_of(s: Seq<char>, t: Seq<char>) -> bool {
    exists|a: int, b: int|
        #![trigger s.subrange(a, b)]
        0 <= a <= b <= s.len() && t == s.subrange(a, b) && (forall|i: int|
            0 <= i < a ==> is_white_space(#[trigger] s[i])) && (forall|i: int|
            b <= i < s.len() ==> is_white_space(#[trigger] s[i])) && (a < b ==> !is_white_space(
            s[a],
        ) && !is_white_space(s[b - 1]))
}

/// Relies on `str::trim`: the string with leading and trailing white space
/// (Unicode `White_Space`) removed.
#[verifier::external_body]
fn trim_text(s: &str) -> (r: &str)
    ensures
        is_trimmed_of(s@, r@),
{
    s.trim()
}

/// Whether an answer to the reboot question, once trimmed, chooses to
/// reboot: it must be exactly "1".
pub fn is_reboot_choice(answer: &str) -> (r: bool)
    ensures
        r == (answer@ == "1"@),
{
    proof {
        reveal_strlit("1");
    }
    if answer.unicode_len() != 1 {
        return false;
    }
    let c = answer.get_char(0);
    if c == '1' {
        assert(answer@ =~= "1"@);
        true
    } else {
        false
    }
}

/// Whether a typed line chooses to reboot: "1", with any white space around it.
pub fn wants_reboot(input: &str) -> (r: bool)
    ensures
        r == is_trimmed_of(input@, "1"@),
{
    let t = trim_text(input);
    let r = is_reboot_choice(t);
    proof {
        lemma_trim_unique(input@, t@);
    }
    r
}

/// The trimmed form of a string is unique.
proof fn lemma_trim_unique(s: Seq<char>, t: Seq<char>)
    requires
        is_trimmed_of(s, t),
    ensures
        forall|u: Seq<char>| is_trimmed_of(s, u) ==> u == t,
{
    let (a, b) = choose|a: int, b: int|
        #![trigger s.subrange(a, b)]
        0 <= a <= b <= s.len() && t == s.subrange(a, b) && (forall|i: int|
            0 <= i < a ==> is_white_space(#[trigger] s[i])) && (forall|i: int|
            b <= i < s.len() ==> is_white_space(#[trigger] s[i])) && (a < b ==> !is_white_space(
            s[a],
        ) && !is_white_space(s[b - 1]));
    assert forall|u: Seq<char>| is_trimmed_of(s, u) implies u == t by {
        let (c, d) = choose|c: int, d: int|
            #![trigger s.subrange(c, d)]
            0 <= c <= d <= s.len() && u == s.subrange(c, d) && (forall|i: int|
                0 <= i < c ==> is_white_space(#[trigger] s[i])) && (forall|i: int|
                d <= i < s.len() ==> is_white_space(#[trigger] s[i])) && (c < d
                ==> !is_white_space(s[c]) && !is_white_space(s[d - 1]));
        if a < b && c < d {
            assert(!(a < c) || is_white_space(s[a]));
            assert(!(c < a) || is_white_space(s[c]));
            assert(!(b < d) || is_white_space(s[d - 1]));
            assert(!(d < b) || is_white_space(s[b - 1]));
            assert(u =~= t);
        } else if a < b {
            // every character is white space for (c, d)
            assert(c >= d);
            assert(is_white_space(s[a]) || (c <= a < d));
            assert(false);
        } else if c < d {
            assert(is_white_space(s[c]) || (a <= c < b));
            assert(false);
        } else {
            assert(u =~= t);
        }
    }
}

} // verus!
