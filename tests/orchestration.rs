use sysupdater::catalog::{steps_for, tool_for, OperationId};
use sysupdater::error::UpdateError;
use sysupdater::operation::{OperationResult, OperationRun};
use sysupdater::orchestrator::{mode_of, plan_for, selected_operations, Mode, Next, Sequence};
use sysupdater::cli::Args;
use sysupdater::summary::{fold_concurrent, UpdateSummary};

fn failed(cmd: &str, code: i32, details: &str) -> UpdateError {
    UpdateError::CommandFailed { cmd: cmd.to_string(), code, details: details.to_string() }
}

fn no_args() -> Args {
    Args {
        refresh: false,
        update_all: false,
        update_system: false,
        update_flatpak: false,
        update_firmware: false,
        firmware: false,
        dry_run: false,
        no_reboot_prompt: false,
        no_network_check: false,
        parallel: false,
        config: None,
        verbose: 0,
        quiet: false,
    }
}

/// Runs an operation to its end, feeding the given step results in order.
fn drive(op: OperationId, tool_present: bool, results: Vec<Result<Vec<String>, UpdateError>>) -> (OperationResult, usize) {
    let mut run = OperationRun::new(op, tool_present);
    let mut ran = 0;
    let mut results = results.into_iter();
    while run.next_step().is_some() {
        let r = results.next().expect("a result for each step");
        run.record(r);
        ran += 1;
    }
    (run.into_result(), ran)
}

#[test]
fn catalog_lists_the_fixed_commands() {
    let sys = steps_for(OperationId::System);
    assert_eq!(sys.len(), 2);
    assert_eq!(sys[0].program, "dnf5");
    assert_eq!(sys[0].args, vec!["update", "--refresh", "-y"]);
    assert_eq!(sys[1].args, vec!["autoremove", "-y"]);
    assert_eq!(sys[0].prefix, "[DNF5]");
    let fp = steps_for(OperationId::Flatpak);
    assert_eq!(fp[0].args, vec!["update", "-y"]);
    assert_eq!(fp[1].args, vec!["uninstall", "--unused", "-y"]);
    let fw = steps_for(OperationId::Firmware);
    assert_eq!(fw[0].args, vec!["refresh", "--force"]);
    assert!(fw[0].failure_ignored);
    assert_eq!(fw[1].args, vec!["update", "-y"]);
    assert_eq!(fw[1].nothing_to_do, Some(2));
    assert_eq!(tool_for(OperationId::System), "dnf5");
    assert_eq!(tool_for(OperationId::Flatpak), "flatpak");
    assert_eq!(tool_for(OperationId::Firmware), "fwupdmgr");
}

#[test]
fn absent_tool_is_skipped_without_error() {
    for op in [OperationId::System, OperationId::Flatpak, OperationId::Firmware] {
        let (result, ran) = drive(op, false, vec![]);
        assert_eq!(ran, 0);
        assert!(matches!(result, OperationResult::Skipped));
        let mut s = UpdateSummary::new();
        s.record(op, &result);
        assert!(s.errors.is_empty());
        assert!(!s.updated(op));
    }
}

#[test]
fn all_steps_succeeding_completes_with_update() {
    let (result, ran) = drive(OperationId::System, true, vec![Ok(vec![]), Ok(vec!["done".to_string()])]);
    assert_eq!(ran, 2);
    assert!(matches!(result, OperationResult::Completed { updated: true }));
}

#[test]
fn first_failing_step_stops_the_operation() {
    let (result, ran) = drive(OperationId::Flatpak, true, vec![Err(failed("flatpak update -y", 1, "x"))]);
    assert_eq!(ran, 1);
    match result {
        OperationResult::Failed(UpdateError::CommandFailed { code, .. }) => assert_eq!(code, 1),
        other => panic!("unexpected {:?}", other),
    }
}

#[test]
fn firmware_exit_code_two_means_nothing_to_do() {
    let (result, ran) = drive(
        OperationId::Firmware,
        true,
        vec![Ok(vec![]), Err(failed("fwupdmgr update -y", 2, ""))],
    );
    assert_eq!(ran, 2);
    assert!(matches!(result, OperationResult::Completed { updated: false }));
    let mut s = UpdateSummary::new();
    s.record(OperationId::Firmware, &result);
    assert!(!s.firmware_updated);
    assert!(s.errors.is_empty());
}

#[test]
fn firmware_refresh_failure_is_ignored_but_other_codes_fail() {
    let (result, ran) = drive(
        OperationId::Firmware,
        true,
        vec![Err(UpdateError::CommandNotFound("fwupdmgr".to_string())), Err(failed("fwupdmgr update -y", 3, ""))],
    );
    assert_eq!(ran, 2);
    assert!(matches!(result, OperationResult::Failed(UpdateError::CommandFailed { code: 3, .. })));
}

#[test]
fn exit_code_two_fails_a_system_step() {
    let (result, _) = drive(OperationId::System, true, vec![Err(failed("dnf5 update --refresh -y", 2, ""))]);
    assert!(matches!(result, OperationResult::Failed(_)));
}

#[test]
fn plan_keeps_priority_order() {
    assert_eq!(plan_for(true, true, true), vec![OperationId::System, OperationId::Flatpak, OperationId::Firmware]);
    assert_eq!(plan_for(false, true, true), vec![OperationId::Flatpak, OperationId::Firmware]);
    assert_eq!(plan_for(false, false, false), vec![]);
}

#[test]
fn selection_follows_the_flags() {
    let mut a = no_args();
    assert!(a.is_default());
    assert!(selected_operations(&a).is_empty());
    a.update_all = true;
    assert!(!a.is_default());
    assert_eq!(selected_operations(&a), vec![OperationId::System, OperationId::Flatpak]);
    a.firmware = true;
    assert_eq!(
        selected_operations(&a),
        vec![OperationId::System, OperationId::Flatpak, OperationId::Firmware]
    );
    let mut b = no_args();
    b.update_firmware = true;
    assert_eq!(selected_operations(&b), vec![OperationId::Firmware]);
    assert_eq!(mode_of(&b), Mode::Sequential);
    b.parallel = true;
    assert_eq!(mode_of(&b), Mode::Concurrent);
    let mut c = no_args();
    c.parallel = true;
    assert_eq!(mode_of(&c), Mode::Sequential);
    let mut d = no_args();
    d.refresh = true;
    assert!(!d.is_default());
}

#[test]
fn sequential_cancellation_stops_before_next_operation() {
    let mut seq = Sequence::new(plan_for(true, true, true));
    assert_eq!(seq.advance(false), Next::Start(OperationId::System));
    seq.finish(&OperationResult::Failed(failed("dnf5 update --refresh -y", 1, "")));
    assert_eq!(seq.advance(true), Next::Cancelled);
    assert_eq!(seq.advance(false), Next::Cancelled);
    assert_eq!(seq.next, 1);
    assert!(!seq.summary.flatpak_updated);
    assert_eq!(seq.summary.errors.len(), 1);
}

#[test]
fn sequential_cancellation_before_first_operation() {
    let mut seq = Sequence::new(plan_for(true, false, false));
    assert_eq!(seq.advance(true), Next::Cancelled);
    assert_eq!(seq.next, 0);
}

#[test]
fn sequential_finishes_when_plan_is_done() {
    let mut seq = Sequence::new(plan_for(false, true, false));
    assert_eq!(seq.advance(false), Next::Start(OperationId::Flatpak));
    seq.finish(&OperationResult::Completed { updated: true });
    assert_eq!(seq.advance(true), Next::Finished);
    assert!(seq.summary.flatpak_updated);
}

#[test]
fn sequential_system_failure_then_flatpak_still_runs() {
    let mut seq = Sequence::new(plan_for(true, true, false));
    let mut started = Vec::new();
    loop {
        match seq.advance(false) {
            Next::Start(op) => {
                started.push(op);
                let results = match op {
                    OperationId::System => vec![Err(failed("dnf5 update --refresh -y", 1, "boom"))],
                    _ => vec![Ok(vec![]), Ok(vec![])],
                };
                let (result, _) = drive(op, true, results);
                seq.finish(&result);
            }
            Next::Cancelled => panic!("not cancelled"),
            Next::Finished => break,
        }
    }
    assert_eq!(started, vec![OperationId::System, OperationId::Flatpak]);
    assert!(!seq.summary.system_updated);
    assert!(seq.summary.flatpak_updated);
    assert_eq!(
        seq.summary.errors,
        vec!["Command failed: dnf5 update --refresh -y\n  Exit code: 1\n  Details: boom".to_string()]
    );
}

#[test]
fn concurrent_failure_does_not_hide_siblings() {
    let ops = plan_for(true, true, true);
    let results = vec![
        OperationResult::Completed { updated: true },
        OperationResult::Failed(failed("flatpak update -y", 1, "")),
        OperationResult::Completed { updated: true },
    ];
    let s = fold_concurrent(&ops, &results);
    assert!(s.system_updated);
    assert!(!s.flatpak_updated);
    assert!(s.firmware_updated);
    assert_eq!(s.errors.len(), 1);
    assert!(s.errors[0].starts_with("Command failed: flatpak update -y"));
}

#[test]
fn default_summary_is_empty() {
    let s = UpdateSummary::default();
    assert!(!s.system_updated && !s.flatpak_updated && !s.firmware_updated);
    assert!(s.errors.is_empty());
}
