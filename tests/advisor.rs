use sysupdater::config::Config;
use sysupdater::reboot::{diagnostic_step, reboot_advice, reboot_step, is_reboot_choice, wants_reboot};
use sysupdater::system::root_check;
use sysupdater::error::UpdateError;
use sysupdater::catalog::OperationId;
use sysupdater::updates::{available_from_probes, keep_entries, probe_steps, AvailableUpdates};

fn lines(v: &[&str]) -> Vec<String> {
    v.iter().map(|s| s.to_string()).collect()
}

#[test]
fn reboot_advice_reads_the_exit_code() {
    assert_eq!(reboot_advice(true, Some(0), "x".into()), None);
    assert_eq!(reboot_advice(true, Some(1), "kernel\n".into()), Some("kernel\n".to_string()));
    assert_eq!(reboot_advice(true, Some(137), "x".into()), None);
    assert_eq!(reboot_advice(true, None, "x".into()), None);
    assert_eq!(reboot_advice(false, Some(1), "kernel\n".into()), None);
}

#[test]
fn reboot_commands() {
    let d = diagnostic_step();
    assert_eq!(d.program, "dnf5");
    assert_eq!(d.args, vec!["needs-restarting", "-r"]);
    let r = reboot_step();
    assert_eq!(r.program, "systemctl");
    assert_eq!(r.args, vec!["reboot"]);
}

#[test]
fn reboot_choice_is_one() {
    assert!(wants_reboot("1"));
    assert!(wants_reboot("  1\n"));
    assert!(!wants_reboot("2\n"));
    assert!(!wants_reboot(""));
    assert!(!wants_reboot("11"));
    assert!(!wants_reboot("1 1"));
    assert!(is_reboot_choice("1"));
    assert!(!is_reboot_choice(" 1"));
}

#[test]
fn only_root_passes() {
    assert!(root_check(0).is_ok());
    assert!(matches!(root_check(1000), Err(UpdateError::NotRoot)));
}

#[test]
fn defaults_of_config() {
    let c = Config::default();
    assert!(c.system.enabled && c.system.auto_remove && c.system.refresh);
    assert!(c.flatpak.enabled && c.flatpak.remove_unused);
    assert!(!c.firmware.enabled);
    assert_eq!(c.logging.file, "/var/log/sysupdater.log");
    assert_eq!(c.logging.level, "info");
    assert_eq!(c.network.check_url, "https://fedoraproject.org");
    assert_eq!(c.network.timeout_secs, 10);
}

#[test]
fn counts_of_available_updates() {
    let empty = AvailableUpdates::new();
    assert_eq!(empty.total_count(), 0);
    assert!(empty.is_empty());
    let u = AvailableUpdates {
        system: lines(&["a 1", "b 2"]),
        flatpak: lines(&["org.x"]),
        firmware: lines(&["dev 1 \u{2192} 2", "d2", "d3"]),
    };
    assert_eq!(u.total_count(), 6);
    assert!(!u.is_empty());
    let only_fw = AvailableUpdates { system: vec![], flatpak: vec![], firmware: lines(&["x"]) };
    assert_eq!(only_fw.total_count(), 1);
    assert!(!only_fw.is_empty());
}

#[test]
fn listing_lines_are_filtered() {
    assert_eq!(
        keep_entries(OperationId::System, lines(&["", "Last metadata expiration check: 0:01:02 ago", "kernel.x86_64 6.9 updates", "Last"])),
        lines(&["kernel.x86_64 6.9 updates", "Last"])
    );
    assert_eq!(keep_entries(OperationId::Flatpak, lines(&["", "org.gimp.GIMP", ""])), lines(&["org.gimp.GIMP"]));
    assert_eq!(
        keep_entries(OperationId::Firmware, lines(&["Devices:", "  1.0 \u{2192} 1.2", "New version: 3", "new version"])),
        lines(&["  1.0 \u{2192} 1.2", "New version: 3"])
    );
}

#[test]
fn probes_build_the_lists() {
    let u = available_from_probes(Some(lines(&["pkg 1.0", ""])), None, Some(lines(&["x \u{2192} y", "z"])));
    assert_eq!(u.system, lines(&["pkg 1.0"]));
    assert!(u.flatpak.is_empty());
    assert_eq!(u.firmware, lines(&["x \u{2192} y"]));
    assert_eq!(u.total_count(), 2);
}

#[test]
fn probe_commands() {
    assert_eq!(probe_steps(OperationId::System)[0].args, vec!["check-upgrade", "--refresh", "-q"]);
    assert_eq!(probe_steps(OperationId::Flatpak)[0].args, vec!["remote-ls", "--updates"]);
    let fw = probe_steps(OperationId::Firmware);
    assert_eq!(fw.len(), 2);
    assert!(fw[0].failure_ignored);
    assert_eq!(fw[1].args, vec!["get-updates", "-y"]);
}
