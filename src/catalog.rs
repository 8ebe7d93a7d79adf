use vstd::prelude::*;
use crate::text::views;

verus! {

/// The three kinds of maintenance this tool performs, in priority order.
#[derive(Debug, Clone, Copy, PartialEq, Eq, Structural)]
pub enum OperationId {
    /// Operating-system packages.
    System,
    /// Sandboxed applications.
    Flatpak,
    /// Device firmware.
    Firmware,
}

/// One external command of an operation.
#[derive(Debug)]
pub struct Step {
    /// The executable to run.
    pub program: String,
    /// Its arguments, in order.
    pub args: Vec<String>,
    /// The marker put before each line the command prints.
    pub prefix: String,
    /// Whether a failure of this step is of no consequence.
    pub failure_ignored: bool,
    /// An exit code that means "nothing to do" rather than failure.
    pub nothing_to_do: Option<i32>,
}

/// What a step is, as plain values.
pub ghost struct StepSpec {
    pub program: Seq<char>,
    pub args: Seq<Seq<char>>,
    pub prefix: Seq<char>,
    pub failure_ignored: bool,
    pub nothing_to_do: Option<i32>,
}

impl View for Step {
    type V = StepSpec;

    open spec fn view(&self) -> StepSpec {
        StepSpec {
            program: self.program@,
            args: views(self.args@),
            prefix: self.prefix@,
            failure_ignored: self.failure_ignored,
            nothing_to_do: self.nothing_to_do,
        }
    }
}

/// The tool whose presence decides whether an operation can run.
pub open spec fn tool_spec(op: OperationId) -> Seq<char> {
    match op {
        OperationId::System => "dnf5"@,
        OperationId::Flatpak => "flatpak"@,
        OperationId::Firmware => "fwupdmgr"@,
    }
}

/// A step that fails the operation on any unsuccessful exit.
pub open spec fn plain_step(program: Seq<char>, args: Seq<Seq<char>>, prefix: Seq<char>) -> StepSpec {
    StepSpec { program, args, prefix, failure_ignored: false, nothing_to_do: None }
}

/// The commands of each operation, in the order they run.
pub open spec fn catalog(op: OperationId) -> Seq<StepSpec> {
    match op {
        OperationId::System => seq![
            plain_step("dnf5"@, seq!["update"@, "--refresh"@, "-y"@], "[DNF5]"@),
            plain_step("dnf5"@, seq!["autoremove"@, "-y"@], "[DNF5]"@),
        ],
        OperationId::Flatpak => seq![
            plain_step("flatpak"@, seq!["update"@, "-y"@], "[Flatpak]"@),
            plain_step("flatpak"@, seq!["uninstall"@, "--unused"@, "-y"@], "[Flatpak]"@),
        ],
        OperationId::Firmware => seq![
            StepSpec {
                program: "fwupdmgr"@,
                args: seq!["refresh"@, "--force"@],
                prefix: "[Firmware]"@,
                failure_ignored: true,
                nothing_to_do: None,
            },
            StepSpec {
                program: "fwupdmgr"@,
                args: seq!["update"@, "-y"@],
                prefix: "[Firmware]"@,
                failure_ignored: false,
                nothing_to_do: Some(2),
            },
        ],
    }
}

/// The tool that an operation needs.
pub fn tool_for(op: OperationId) -> (r: String)
    ensures
        r@ == tool_spec(op),
{
    match op {
        OperationId::System => String::from_str("dnf5"),
        OperationId::Flatpak => String::from_str("flatpak"),
        OperationId::Firmware => String::from_str("fwupdmgr"),
    }
}

fn owned(items: &Vec<&str>) -> (r: Vec<String>)
    ensures
        r@.len() == items@.len(),
        forall|i: int| 0 <= i < items@.len() ==> #[trigger] r@[i]@ == items@[i]@,
{
    let mut r: Vec<String> = Vec::new();
    let mut i: usize = 0;
    while i < items.len()
        invariant
            i <= items@.len(),
            r@.len() == i,
            forall|j: int| 0 <= j < i ==> #[trigger] r@[j]@ == items@[j]@,
        decreases items.len() - i,
    {
        r.push(String::from_str(items[i]));
        i = i + 1;
    }
    r
}

pub(crate) fn make_step(
    program: &str,
    args: Vec<&str>,
    prefix: &str,
    failure_ignored: bool,
    nothing_to_do: Option<i32>,
) -> (r: Step)
    ensures
        r@.program == program@,
        r@.args =~= args@.map_values(|a: &str| a@),
        r@.prefix == prefix@,
        r@.failure_ignored == failure_ignored,
        r@.nothing_to_do == nothing_to_do,
{
    let args = owned(&args);
    Step {
        program: String::from_str(program),
        args,
        prefix: String::from_str(prefix),
        failure_ignored,
        nothing_to_do,
    }
}

/// The commands of an operation, in the order they run.
pub fn steps_for(op: OperationId) -> (r: Vec<Step>)
    ensures
        r@.map_values(|s: Step| s@) =~= catalog(op),
{
    let ghost c = catalog(op);
    let r = match op {
        OperationId::System => {
            let a = make_step("dnf5", vec!["update", "--refresh", "-y"], "[DNF5]", false, None);
            let b = make_step("dnf5", vec!["autoremove", "-y"], "[DNF5]", false, None);
            assert(a@.args =~= c[0].args);
            assert(b@.args =~= c[1].args);
            vec![a, b]
        },
        OperationId::Flatpak => {
            let a = make_step("flatpak", vec!["update", "-y"], "[Flatpak]", false, None);
            let b = make_step("flatpak", vec!["uninstall", "--unused", "-y"], "[Flatpak]", false, None);
            assert(a@.args =~= c[0].args);
            assert(b@.args =~= c[1].args);
            vec![a, b]
        },
        OperationId::Firmware => {
            let a = make_step("fwupdmgr", vec!["refresh", "--force"], "[Firmware]", true, None);
            let b = make_step("fwupdmgr", vec!["update", "-y"], "[Firmware]", false, Some(2));
            assert(a@.args =~= c[0].args);
            assert(b@.args =~= c[1].args);
            vec![a, b]
        },
    };
    assert(r@.map_values(|s: Step| s@) =~= c);
    r
}

} // verus!
