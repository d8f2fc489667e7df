use std::cell::RefCell;
use qemu_gui::config::{Config, HostOs};
use qemu_gui::gui::{
    config_file_in, ChildStatus, QcowCreateState, QemuGui, QemuImgResult, SaveOutcome,
};
use qemu_gui::options::AccelKind;
use qemu_gui::presets::{custom_resolution, preset, preset_index, preset_label, watchdog_label, PRESET_COUNT};
use qemu_gui::options::WatchdogKind;

const MISSING: &str = "/nonexistent-dir-for-tests/nothing-here";

fn ready_gui() -> QemuGui {
    let mut g = QemuGui::new(HostOs::Linux, "", None);
    g.config.disk_path = "/vm/disk.qcow2".into();
    g
}

#[test]
fn start_with_defaults_or_loaded_config() {
    let g = QemuGui::new(HostOs::Linux, "", None);
    assert_eq!(g.config.qemu_path, "/usr/bin/qemu-system-x86_64");
    assert_eq!(g.config_path, "qemu-gui-config.ron");
    let g = QemuGui::new(HostOs::Linux, "/opt/qemu-gui", None);
    assert_eq!(g.config_path, "/opt/qemu-gui/qemu-gui-config.ron");
    assert_eq!(config_file_in("/opt/qemu-gui/"), "/opt/qemu-gui/qemu-gui-config.ron");
    assert!(g.log.is_empty());
    assert!(!g.running);
    assert_eq!(g.qcow_create.size_gb, 20);
    let mut c = Config::for_host(HostOs::Linux);
    c.accel = AccelKind::Tcg;
    let g = QemuGui::new(HostOs::Other, "", Some(c));
    assert_eq!(g.config.accel, AccelKind::Tcg);
}

#[test]
fn launch_checks_in_order() {
    let g = ready_gui();
    assert_eq!(g.validate_with(false, false, false, false), Err("QEMU binary not found at configured path".to_string()));
    assert_eq!(g.validate_with(false, true, false, false), Err("Disk image not found at configured path".to_string()));
    assert_eq!(g.validate_with(false, true, true, false), Ok(()));
    assert_eq!(g.validate_with(true, true, true, false), Err("ISO path is empty".to_string()));
    let mut g = g;
    g.config.iso_path = "x.iso".into();
    assert_eq!(g.validate_with(true, true, true, false), Err("ISO file not found at configured path".to_string()));
    assert_eq!(g.validate_with(true, true, true, true), Ok(()));
    g.config.smp = 0;
    assert_eq!(g.validate_with(true, true, true, true), Err("SMP must be > 0".to_string()));
}

#[test]
fn validate_asks_the_file_system() {
    let mut g = ready_gui();
    g.config.qemu_path = MISSING.into();
    assert_eq!(g.validate(false), Err("QEMU binary not found at configured path".to_string()));
    g.config.qemu_path = "/".into();
    g.config.disk_path = MISSING.into();
    assert_eq!(g.validate(false), Err("Disk image not found at configured path".to_string()));
    g.config.disk_path = "/".into();
    assert_eq!(g.validate(false), Ok(()));
    assert_eq!(g.validate(true), Err("ISO path is empty".to_string()));
}

#[test]
fn failed_check_is_logged_and_shown() {
    let mut g = ready_gui();
    g.child_exit_code = Some(3);
    let (line, args) = g.launch_with(false, Err("Disk image not found at configured path".into()));
    assert_eq!(line, "Validation failed: Disk image not found at configured path\n");
    assert!(args.is_none());
    assert_eq!(g.error.as_deref(), Some("Disk image not found at configured path"));
    assert_eq!(g.child_exit_code, None);
}

#[test]
fn passed_check_gives_the_command() {
    let mut g = ready_gui();
    g.error = Some("old".into());
    g.config.qemu_path = "/usr/bin/qemu".into();
    g.config.audio_dev = qemu_gui::options::AudioDev::Disabled;
    let (line, args) = g.launch_with(false, Ok(()));
    let args = args.unwrap();
    assert_eq!(args, g.build_args(false));
    assert_eq!(line, format!("Launching: /usr/bin/qemu {}\n", args.join(" ")));
    assert!(g.error.is_none());
}

#[test]
fn launch_qemu_with_missing_binary() {
    let mut g = ready_gui();
    g.config.qemu_path = MISSING.into();
    let (line, args) = g.launch_qemu(false);
    assert_eq!(line, "Validation failed: QEMU binary not found at configured path\n");
    assert!(args.is_none());
}

#[test]
fn start_outcome() {
    let mut g = ready_gui();
    assert_eq!(g.launch_finished(Ok(())), "QEMU started.\n");
    assert!(g.running);
    let mut g = ready_gui();
    assert_eq!(g.launch_finished(Err("no such file".into())), "Failed to launch QEMU: no such file\n");
    assert!(!g.running);
    assert_eq!(g.error.as_deref(), Some("Failed to launch QEMU: no such file"));
}

#[test]
fn kill_only_once() {
    let mut g = ready_gui();
    g.launch_finished(Ok(()));
    g.confirming_kill = true;
    assert_eq!(g.kill_qemu().as_deref(), Some("QEMU terminated.\n"));
    assert!(!g.running);
    assert!(!g.confirming_kill);
    assert_eq!(g.kill_qemu(), None);
}

#[test]
fn save_needs_basic_checks() {
    let g = QemuGui::new(HostOs::Linux, "", None);
    assert_eq!(g.save_config(), Err("Config not saved \u{2014} Disk image path is empty\n".to_string()));
    assert_eq!(ready_gui().save_config(), Ok(()));
    assert_eq!(QemuGui::save_outcome_line(SaveOutcome::Saved), "Config saved.\n");
    assert_eq!(QemuGui::save_outcome_line(SaveOutcome::WriteFailed("denied".into())), "Failed to write config: denied\n");
    assert_eq!(QemuGui::save_outcome_line(SaveOutcome::SerializeFailed("bad".into())), "Failed to serialize config: bad\n");
}

#[test]
fn qcow_checks_in_order() {
    let mut g = ready_gui();
    assert!(g.create_qcow_with("/usr/bin/qemu-img".into(), false, false, false).is_none());
    assert_eq!(g.qcow_create.error.as_deref(), Some("qemu-img not found at: /usr/bin/qemu-img"));
    assert!(g.create_qcow_with("qi".into(), true, false, false).is_none());
    assert_eq!(g.qcow_create.error.as_deref(), Some("Output path is empty"));
    g.qcow_create.path = " new.qcow2 ".into();
    assert!(g.create_qcow_with("qi".into(), true, true, false).is_none());
    assert_eq!(g.qcow_create.error.as_deref(), Some("File already exists"));
    g.qcow_create.size_gb = 0;
    assert!(g.create_qcow_with("qi".into(), true, false, false).is_none());
    assert_eq!(g.qcow_create.error.as_deref(), Some("Size must be > 0 GB"));
    g.qcow_create.size_gb = 8;
    g.qcow_create.backing_file = "base.qcow2".into();
    assert!(g.create_qcow_with("qi".into(), true, false, false).is_none());
    assert_eq!(g.qcow_create.error.as_deref(), Some("Backing file not found"));
    assert!(!g.qcow_create.running);
}

#[test]
fn qcow_job_and_line() {
    let mut g = ready_gui();
    g.qcow_create.path = " new.qcow2 ".into();
    g.qcow_create.backing_file = "\tbase.qcow2 ".into();
    g.qcow_create.error = Some("stale".into());
    let (line, job) = g.create_qcow_with("/usr/bin/qemu-img".into(), true, false, true).unwrap();
    assert_eq!(job.program, "/usr/bin/qemu-img");
    assert_eq!(job.args, vec!["create", "-f", "qcow2", "-b", "base.qcow2", "new.qcow2", "20G"]);
    assert_eq!(line, "Creating QCOW2: /usr/bin/qemu-img create -f qcow2 -b base.qcow2 new.qcow2 20G \u{2026}\n");
    assert!(g.qcow_create.running);
    assert!(g.qcow_create.error.is_none());
    let mut g = ready_gui();
    g.qcow_create.path = "a.qcow2".into();
    g.qcow_create.size_gb = 500;
    let (_, job) = g.create_qcow_with("q".into(), true, false, false).unwrap();
    assert_eq!(job.args, vec!["create", "-f", "qcow2", "a.qcow2", "500G"]);
}

#[test]
fn qemu_img_beside_qemu() {
    let g = QemuGui::new(HostOs::Linux, "", None);
    assert_eq!(g.derive_qemu_img_path(), "/usr/bin/qemu-img");
    let mut g = QemuGui::new(HostOs::Other, "", None);
    g.config.qemu_path = "/opt/q/qemu-system-x86_64.exe".into();
    assert_eq!(g.derive_qemu_img_path(), "/opt/q/qemu-img.exe");
    g.config.qemu_path = "/".into();
    assert_eq!(g.derive_qemu_img_path(), "./qemu-img.exe");
}

#[test]
fn create_qcow_without_qemu_img() {
    let mut g = ready_gui();
    g.config.qemu_path = format!("{MISSING}/qemu-system-x86_64");
    g.qcow_create.path = "n.qcow2".into();
    assert!(g.create_qcow().is_none());
    assert_eq!(g.qcow_create.error, Some(format!("qemu-img not found at: {MISSING}/qemu-img")));
}

#[test]
fn created_image_becomes_the_disk() {
    let mut g = ready_gui();
    g.qcow_create.open = true;
    g.qcow_create.path = "/vm/new.qcow2".into();
    g.qcow_create.running = true;
    let line = g.poll_qemu_img_result(Some(QemuImgResult { success: true, message: " Formatting ok \n".into() }));
    assert_eq!(line.as_deref(), Some("Created QCOW2 disk: /vm/new.qcow2 (Formatting ok)\n"));
    assert_eq!(g.config.disk_path, "/vm/new.qcow2");
    assert!(!g.qcow_create.open);
    assert!(g.qcow_create.path.is_empty());
    assert_eq!(g.qcow_create.size_gb, 20);
}

#[test]
fn failed_image_shows_message() {
    let mut g = ready_gui();
    g.qcow_create.path = "/vm/new.qcow2".into();
    g.qcow_create.running = true;
    let line = g.poll_qemu_img_result(Some(QemuImgResult { success: false, message: "denied".into() }));
    assert!(line.is_none());
    assert!(!g.qcow_create.running);
    assert_eq!(g.qcow_create.error.as_deref(), Some("denied"));
    assert_eq!(g.config.disk_path, "/vm/disk.qcow2");
}

#[test]
fn qemu_img_output_is_decoded_and_trimmed() {
    let r = QemuImgResult::from_output(true, b"  Formatting 'a'\n", b"ignored");
    assert!(r.success);
    assert_eq!(r.message, "Formatting 'a'");
    let r = QemuImgResult::from_output(false, b"ignored", b"\xffbad\n");
    assert!(!r.success);
    assert_eq!(r.message, "\u{fffd}bad");
    let r = QemuImgResult::spawn_failed("not found");
    assert_eq!(r.message, "Failed to spawn qemu-img: not found");
    assert!(!r.success);
}

#[test]
fn child_polls() {
    let mut g = ready_gui();
    assert_eq!(g.poll_child_exit(ChildStatus::Exited(Some(1))), None);
    assert_eq!(g.child_exit_code, None);
    g.launch_finished(Ok(()));
    assert_eq!(g.poll_child_exit(ChildStatus::Running), None);
    assert!(g.running);
    assert_eq!(g.poll_child_exit(ChildStatus::Exited(Some(-3))).as_deref(), Some("QEMU exited with code -3\n"));
    assert_eq!(g.child_exit_code, Some(-3));
    assert!(!g.running);
    g.launch_finished(Ok(()));
    assert_eq!(g.poll_child_exit(ChildStatus::Exited(None)).as_deref(), Some("QEMU terminated by signal\n"));
    assert_eq!(g.child_exit_code, None);
    g.launch_finished(Ok(()));
    assert_eq!(g.poll_child_exit(ChildStatus::Failed("gone".into())).as_deref(), Some("Error polling QEMU: gone\n"));
    assert!(!g.running);
}

#[test]
fn fresh_dialog() {
    let s = QcowCreateState::default();
    assert!(!s.open && !s.running && s.error.is_none());
    assert_eq!(s.size_gb, 20);
}

#[test]
fn resolution_presets() {
    assert_eq!(PRESET_COUNT, 9);
    assert_eq!(preset(0), ("Auto (default)", 0, 0));
    assert_eq!(preset(6), ("1920\u{d7}1080", 1920, 1080));
    assert_eq!(preset_index(0, 0), 0);
    assert_eq!(preset_index(1366, 768), 5);
    assert_eq!(preset_index(1000, 700), PRESET_COUNT);
    assert_eq!(preset_label(3), "1024\u{d7}768");
    assert_eq!(preset_label(PRESET_COUNT), "Custom");
    assert_eq!(custom_resolution(0, 0), (1024, 768));
    assert_eq!(custom_resolution(1000, 700), (1000, 700));
}

#[test]
fn watchdog_labels() {
    assert_eq!(watchdog_label(WatchdogKind::Off), "off");
    assert_eq!(watchdog_label(WatchdogKind::Ib700), "ib700");
}

#[test]
fn polls_after_the_end_change_nothing() {
    let mut g = ready_gui();
    g.launch_finished(Ok(()));
    assert!(g.poll_child_exit(ChildStatus::Exited(Some(0))).is_some());
    assert_eq!(g.poll_child_exit(ChildStatus::Exited(Some(5))), None);
    assert_eq!(g.poll_child_exit(ChildStatus::Failed("x".into())), None);
    assert_eq!(g.child_exit_code, Some(0));
    assert!(!g.running);
}

#[test]
fn no_qemu_img_result_yet() {
    let mut g = ready_gui();
    g.qcow_create.running = true;
    assert_eq!(g.poll_qemu_img_result(None), None);
    assert!(g.qcow_create.running);
}

#[test]
fn checks_ask_about_the_right_paths() {
    let mut g = ready_gui();
    g.config.qemu_path = "/q/qemu".into();
    g.config.iso_path = " /i.iso ".into();
    let asked = RefCell::new(Vec::new());
    let r = g.validate_by(true, |p: &String| {
        asked.borrow_mut().push(p.clone());
        true
    });
    assert_eq!(r, Ok(()));
    assert_eq!(*asked.borrow(), vec!["/q/qemu", "/vm/disk.qcow2", " /i.iso "]);

    let asked = RefCell::new(Vec::new());
    let r = g.validate_by(true, |p: &String| {
        asked.borrow_mut().push(p.clone());
        false
    });
    assert_eq!(r, Err("QEMU binary not found at configured path".to_string()));
    assert_eq!(*asked.borrow(), vec!["/q/qemu"]);

    g.qcow_create.path = " /vm/new.qcow2 ".into();
    g.qcow_create.backing_file = " /vm/base.qcow2".into();
    let asked = RefCell::new(Vec::new());
    let r = g.create_qcow_by(|p: &String| {
        asked.borrow_mut().push(p.clone());
        p != "/vm/new.qcow2"
    }, |p: &String| std::path::Path::new(p).parent().map(|q| q.display().to_string()));
    assert!(r.is_some());
    assert_eq!(*asked.borrow(), vec!["/q/qemu-img", "/vm/new.qcow2", "/vm/base.qcow2"]);
}

#[test]
fn qemu_img_without_parent_is_looked_for_here() {
    let mut g = QemuGui::new(HostOs::Linux, "", None);
    g.config.qemu_path = String::new();
    assert_eq!(g.derive_qemu_img_path(), "./qemu-img");
}

#[test]
fn qemu_img_beside_a_given_parent() {
    assert_eq!(QemuGui::qemu_img_path_beside(Some("/usr/bin".into()), HostOs::Linux), "/usr/bin/qemu-img");
    assert_eq!(QemuGui::qemu_img_path_beside(Some(String::new()), HostOs::Linux), "qemu-img");
    assert_eq!(QemuGui::qemu_img_path_beside(None, HostOs::Linux), "./qemu-img");
    assert_eq!(QemuGui::qemu_img_path_beside(Some("/opt/q/".into()), HostOs::Other), "/opt/q/qemu-img.exe");
}

#[test]
fn qemu_img_found_through_the_parent_lookup() {
    let mut g = ready_gui();
    g.config.qemu_path = "/q/qemu".into();
    let asked = RefCell::new(Vec::new());
    let img = g.derive_qemu_img_path_by(|p: &String| {
        asked.borrow_mut().push(p.clone());
        Some("/elsewhere".to_string())
    });
    assert_eq!(img, "/elsewhere/qemu-img");
    assert_eq!(*asked.borrow(), vec!["/q/qemu"]);
    g.qcow_create.path = "n.qcow2".into();
    let r = g.create_qcow_by(|p: &String| p == "/elsewhere/qemu-img", |_p: &String| Some("/elsewhere".to_string()));
    let (_, job) = r.unwrap();
    assert_eq!(job.program, "/elsewhere/qemu-img");
}

#[test]
fn launch_click_ignored_while_running() {
    let mut g = ready_gui();
    g.config.qemu_path = MISSING.into();
    g.confirming_kill = true;
    let r = g.launch_clicked(false);
    let (line, args) = r.unwrap();
    assert_eq!(line, "Validation failed: QEMU binary not found at configured path\n");
    assert!(args.is_none());
    assert!(!g.confirming_kill);
    g.launch_finished(Ok(()));
    let log_before = g.log.clone();
    assert!(g.launch_clicked(true).is_none());
    assert!(g.running);
    assert_eq!(g.log, log_before);
}

#[test]
fn kill_takes_two_clicks() {
    let mut g = ready_gui();
    assert_eq!(g.kill_clicked(), None);
    assert!(!g.confirming_kill);
    g.launch_finished(Ok(()));
    assert_eq!(g.kill_clicked(), None);
    assert!(g.confirming_kill);
    assert!(g.running);
    assert_eq!(g.kill_clicked().as_deref(), Some("QEMU terminated.\n"));
    assert!(!g.running);
    assert!(!g.confirming_kill);
}

#[test]
fn qemu_img_for_a_bare_binary_name() {
    let mut g = QemuGui::new(HostOs::Linux, "", None);
    g.config.qemu_path = "qemu-system-x86_64".into();
    assert_eq!(g.derive_qemu_img_path(), "qemu-img");
    assert_eq!(config_file_in(""), "qemu-gui-config.ron");
    assert_eq!(config_file_in("/opt/app"), "/opt/app/qemu-gui-config.ron");
}
