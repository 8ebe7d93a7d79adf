use vstd::prelude::*;
use crate::catalog::{make_step, OperationId, Step, StepSpec};
use crate::text::views;

verus! {

/// Updates that could be installed, one human-readable line per update,
/// for each kind of maintenance.
#[derive(Debug)]
pub struct AvailableUpdates {
    pub system: Vec<String>,
    pub flatpak: Vec<String>,
    pub firmware: Vec<String>,
}

impl AvailableUpdates {
    /// The number of listed updates.
    pub open spec fn total_spec(&self) -> nat {
        self.system@.len() + self.flatpak@.len() + self.firmware@.len()
    }

    /// Lists with nothing in them.
    pub fn new() -> (r: AvailableUpdates)
        ensures
            r.system@.len() == 0,
            r.flatpak@.len() == 0,
            r.firmware@.len() == 0,
    {
        AvailableUpdates { system: Vec::new(), flatpak: Vec::new(), firmware: Vec::new() }
    }

    /// The number of listed updates, over all three kinds.
    pub fn total_count(&self) -> (r: usize)
        requires
            self.total_spec() <= usize::MAX,
        ensures
            r == self.total_spec(),
    {
        self.system.len() + self.flatpak.len() + self.firmware.len()
    }

    /// Whether no update is listed.
    pub fn is_empty(&self) -> (r: bool)
        ensures
            r == (self.total_spec() == 0),
    {
        self.system.len() == 0 && self.flatpak.len() == 0 && self.firmware.len() == 0
    }
}

/// Whether `s` begins with `p`.
pub open spec fn has_prefix(s: Seq<char>, p: Seq<char>) -> bool {
    p.len() <= s.len() && s.subrange(0, p.len() as int) == p
}

/// Whether `p` occurs somewhere in `s`.
pub open spec fn has_infix(s: Seq<char>, p: Seq<char>) -> bool {
    exists|i: int| 0 <= i && i + p.len() <= s.len() && #[trigger] s.subrange(i, i + p.len()) == p
}

/// Relies on `str::starts_with` with a string pattern: true exactly when
/// the pattern is a prefix of the string.
#[verifier::external_body]
fn str_starts_with(s: &str, p: &str) -> (r: bool)
    ensures
        r == has_prefix(s@, p@),
{
    s.starts_with(p)
}

/// Relies on `str::contains` with a string pattern: true exactly when the
/// pattern occurs in the string.
#[verifier::external_body]
fn str_contains(s: &str, p: &str) -> (r: bool)
    ensures
        r == has_infix(s@, p@),
{
    s.contains(p)
}

/// A line of the package manager's upgrade listing that names an update:
/// not blank and not the metadata-age notice.
pub open spec fn system_entry(l: Seq<char>) -> bool {
    l.len() > 0 && !has_prefix(l, "Last metadata"@)
}

/// A line of the application remote's update listing that names an update.
pub open spec fn flatpak_entry(l: Seq<char>) -> bool {
    l.len() > 0
}

/// A line of the firmware listing that describes a version change.
pub open spec fn firmware_entry(l: Seq<char>) -> bool {
    has_infix(l, "\u{2192}"@) || has_infix(l, "New version"@)
}

/// Whether a listing line of the given kind names an update.
pub open spec fn entry_of(kind: OperationId, l: Seq<char>) -> bool {
    match kind {
        OperationId::System => system_entry(l),
        OperationId::Flatpak => flatpak_entry(l),
        OperationId::Firmware => firmware_entry(l),
    }
}

/// Decides whether a listing line of the given kind names an update.
pub fn is_entry(kind: OperationId, line: &str) -> (r: bool)
    ensures
        r == entry_of(kind, line@),
{
    match kind {
        OperationId::System => line.unicode_len() > 0 && !str_starts_with(line, "Last metadata"),
        OperationId::Flatpak => line.unicode_len() > 0,
        OperationId::Firmware => str_contains(line, "\u{2192}") || str_contains(line, "New version"),
    }
}

/// The lines of a listing that name updates, in their order.
pub open spec fn entries(kind: OperationId, lines: Seq<Seq<char>>) -> Seq<Seq<char>> {
    lines.filter(|l: Seq<char>| entry_of(kind, l))
}

/// Keeps the lines of a listing that name updates, in their order.
pub fn keep_entries(kind: OperationId, lines: Vec<String>) -> (r: Vec<String>)
    ensures
        views(r@) == entries(kind, views(lines@)),
{
    let mut r: Vec<String> = Vec::new();
    let mut i: usize = 0;
    while i < lines.len()
        invariant
            i <= lines@.len(),
            views(r@) == entries(kind, views(lines@.subrange(0, i as int))),
        decreases lines.len() - i,
    {
        proof {
            reveal(Seq::filter);
            let pre = views(lines@.subrange(0, i as int));
            let next = views(lines@.subrange(0, i + 1));
            assert(next.drop_last() =~= pre);
            assert(next.last() == lines@[i as int]@);
        }
        let ghost before = r@;
        if is_entry(kind, lines[i].as_str()) {
            r.push(lines[i].clone());
            assert(views(r@) =~= views(before).push(lines@[i as int]@));
        }
        i = i + 1;
    }
    assert(lines@.subrange(0, i as int) =~= lines@);
    r
}

/// The listing lines of a probe that ran, or nothing for one that could
/// not run.
pub open spec fn listed(kind: OperationId, probe: Option<Vec<String>>) -> Seq<Seq<char>> {
    match probe {
        Some(lines) => entries(kind, views(lines@)),
        None => Seq::empty(),
    }
}

fn entries_of(kind: OperationId, probe: Option<Vec<String>>) -> (r: Vec<String>)
    ensures
        views(r@) == listed(kind, probe),
{
    match probe {
        Some(lines) => keep_entries(kind, lines),
        None => {
            let r: Vec<String> = Vec::new();
            assert(views(r@) =~= Seq::<Seq<char>>::empty());
            r
        },
    }
}

/// Builds the lists of available updates from the output lines of each
/// listing probe (`None` where the tool is absent or the probe failed).
pub fn available_from_probes(
    system: Option<Vec<String>>,
    flatpak: Option<Vec<String>>,
    firmware: Option<Vec<String>>,
) -> (r: AvailableUpdates)
    ensures
        views(r.system@) == listed(OperationId::System, system),
        views(r.flatpak@) == listed(OperationId::Flatpak, flatpak),
        views(r.firmware@) == listed(OperationId::Firmware, firmware),
{
    AvailableUpdates {
        system: entries_of(OperationId::System, system),
        flatpak: entries_of(OperationId::Flatpak, flatpak),
        firmware: entries_of(OperationId::Firmware, firmware),
    }
}

/// The commands that list pending updates for each kind; for firmware the
/// metadata is refreshed first, and that command's outcome is ignored.
pub open spec fn probes(kind: OperationId) -> Seq<StepSpec> {
    match kind {
        OperationId::System => seq![
            StepSpec {
                program: "dnf5"@,
                args: seq!["check-upgrade"@, "--refresh"@, "-q"@],
                prefix: "[DNF5]"@,
                failure_ignored: false,
                nothing_to_do: None,
            },
        ],
        OperationId::Flatpak => seq![
            StepSpec {
                program: "flatpak"@,
                args: seq!["remote-ls"@, "--updates"@],
                prefix: "[Flatpak]"@,
                failure_ignored: false,
                nothing_to_do: None,
            },
        ],
        OperationId::Firmware => seq![
            StepSpec {
                program: "fwupdmgr"@,
                args: seq!["refresh"@, "--force"@],
                prefix: "[Firmware]"@,
                failure_ignored: true,
                nothing_to_do: None,
            },
            StepSpec {
                program: "fwupdmgr"@,
                args: seq!["get-updates"@, "-y"@],
                prefix: "[Firmware]"@,
                failure_ignored: false,
                nothing_to_do: None,
            },
        ],
    }
}

/// The commands that list pending updates of a kind; the output of the
/// last one is the listing.
pub fn probe_steps(kind: OperationId) -> (r: Vec<Step>)
    ensures
        r@.map_values(|s: Step| s@) =~= probes(kind),
{
    let ghost c = probes(kind);
    let r = match kind {
        OperationId::System => {
            let a = make_step("dnf5", vec!["check-upgrade", "--refresh", "-q"], "[DNF5]", false, None);
            assert(a@.args =~= c[0].args);
            vec![a]
        },
        OperationId::Flatpak => {
            let a = make_step("flatpak", vec!["remote-ls", "--updates"], "[Flatpak]", false, None);
            assert(a@.args =~= c[0].args);
            vec![a]
        },
        OperationId::Firmware => {
            let a = make_step("fwupdmgr", vec!["refresh", "--force"], "[Firmware]", true, None);
            let b = make_step("fwupdmgr", vec!["get-updates", "-y"], "[Firmware]", false, None);
            assert(a@.args =~= c[0].args);
            assert(b@.args =~= c[1].args);
            vec![a, b]
        },
    };
    assert(r@.map_values(|s: Step| s@) =~= c);
    r
}

/// The count of listed updates is the sum of the three list lengths, and
/// the lists are empty exactly when that count is zero.
pub proof fn total_is_sum_of_lists(u: &AvailableUpdates)
    ensures
        u.total_spec() == u.system@.len() + u.flatpak@.len() + u.firmware@.len(),
        (u.total_spec() == 0) <==> (u.system@.len() == 0 && u.flatpak@.len() == 0
            && u.firmware@.len() == 0),
{
}

} // verus!
