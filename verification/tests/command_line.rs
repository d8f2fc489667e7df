use qemu_gui::config::{Config, HostOs};
use qemu_gui::options::{
    AccelKind, AudioDev, BootMenu, BootStrict, DisplayKind, IrqChip, MachineType, OnOff, SoundHw,
    UsbDevice, VgaKind, VmPort, WatchdogAction, WatchdogKind,
};

fn strs(v: &[&str]) -> Vec<String> {
    v.iter().map(|s| s.to_string()).collect()
}

#[test]
fn fresh_config_on_linux() {
    let c = Config::for_host(HostOs::Linux);
    assert_eq!(c.qemu_path, "/usr/bin/qemu-system-x86_64");
    assert_eq!(c.accel, AccelKind::Kvm);
    assert_eq!(c.audio_dev, AudioDev::Pa);
    assert_eq!(c.ram_mb, 4096);
    assert_eq!(c.smp, 2);
    assert_eq!(c.boot_order, "c");
    assert_eq!(c.cpu_model, "host");
    assert_eq!(c.disk_path, "");
    assert_eq!(c.watchdog, WatchdogKind::Off);
    assert_eq!(c.monitor_width, 0);
}

#[test]
fn fresh_config_elsewhere() {
    let c = Config::for_host(HostOs::Other);
    assert_eq!(c.qemu_path, r"D:\qemu\qemu-system-x86_64.exe");
    assert_eq!(c.accel, AccelKind::Whpx);
    assert_eq!(c.audio_dev, AudioDev::Dsound);
}

#[test]
fn basic_checks_in_order() {
    let mut c = Config::for_host(HostOs::Linux);
    assert_eq!(c.validate_basic(), Err("Disk image path is empty".to_string()));
    c.disk_path = "  ".into();
    assert_eq!(c.validate_basic(), Err("Disk image path is empty".to_string()));
    c.disk_path = "disk.qcow2".into();
    assert_eq!(c.validate_basic(), Ok(()));
    c.ram_mb = 0;
    assert_eq!(c.validate_basic(), Err("RAM must be > 0".to_string()));
    c.ram_mb = 1;
    c.smp = 0;
    assert_eq!(c.validate_basic(), Err("SMP must be > 0".to_string()));
    c.qemu_path = "\t".into();
    assert_eq!(c.validate_basic(), Err("QEMU path is empty".to_string()));
}

#[test]
fn default_arguments_on_linux() {
    let mut c = Config::for_host(HostOs::Linux);
    c.disk_path = "/vm/disk.qcow2".into();
    assert_eq!(
        c.build_args(false),
        strs(&[
            "-machine", "pc,accel=kvm",
            "-cpu", "host",
            "-m", "4096M",
            "-smp", "2",
            "-drive", "file=/vm/disk.qcow2,if=virtio,format=qcow2,cache=writeback,aio=threads",
            "-boot", "order=c",
            "-netdev", "user,id=net0",
            "-device", "virtio-net,netdev=net0",
            "-device", "VGA",
            "-display", "gtk",
            "-usb", "-device", "usb-tablet",
            "-audiodev", "pa,id=audio0",
            "-rtc", "base=utc",
        ])
    );
}

#[test]
fn whpx_nixos_command() {
    let mut c = Config::for_host(HostOs::Other);
    c.vmport = VmPort::On;
    c.smp = 4;
    c.disk_path = r"D:\qemu\vms\nixos\nix.qcow2".into();
    c.vga = VgaKind::Virtio;
    c.display_gl = OnOff::On;
    c.audio_dev = AudioDev::Disabled;
    assert_eq!(
        c.build_args(false),
        strs(&[
            "-machine", "pc,accel=whpx,vmport=on",
            "-cpu", "host",
            "-m", "4096M",
            "-smp", "4",
            "-drive", r"file=D:\qemu\vms\nixos\nix.qcow2,if=virtio,format=qcow2,cache=writeback,aio=threads",
            "-boot", "order=c",
            "-netdev", "user,id=net0",
            "-device", "virtio-net,netdev=net0",
            "-device", "virtio-vga",
            "-display", "gtk,gl=on",
            "-usb", "-device", "usb-tablet",
            "-rtc", "base=utc",
        ])
    );
}

#[test]
fn install_adds_only_cdrom_after_drive() {
    let mut c = Config::for_host(HostOs::Linux);
    c.disk_path = "d.qcow2".into();
    c.iso_path = "nixos.iso".into();
    c.custom_args = "-no-hpet".into();
    let disk = c.build_args(false);
    let cd = c.build_args(true);
    assert_eq!(cd.len(), disk.len() + 2);
    let at = disk.iter().position(|a| a == "-drive").unwrap() + 2;
    assert_eq!(&cd[..at], &disk[..at]);
    assert_eq!(cd[at], "-cdrom");
    assert_eq!(cd[at + 1], "nixos.iso");
    assert_eq!(&cd[at + 2..], &disk[at..]);
}

#[test]
fn machine_settings_that_differ_from_default() {
    let mut c = Config::for_host(HostOs::Linux);
    c.machine_type = MachineType::Q35;
    c.accel = AccelKind::Tcg;
    c.kernel_irqchip = IrqChip::Split;
    c.vmport = VmPort::Off;
    c.dump_guest_core = OnOff::Off;
    let args = c.build_args(false);
    assert_eq!(args[0], "-machine");
    assert_eq!(args[1], "q35,accel=tcg,kernel-irqchip=split,vmport=off,dump-guest-core=off");
}

#[test]
fn optional_parts() {
    let mut c = Config::for_host(HostOs::Linux);
    c.cpu_model = String::new();
    c.boot_order = String::new();
    c.mem_slots = 4;
    c.mem_maxmb = 16384;
    c.vga = VgaKind::Qxl;
    c.monitor_width = 1920;
    c.monitor_height = 1080;
    c.display = DisplayKind::Disabled;
    c.display_gl = OnOff::On;
    c.usb_device = UsbDevice::Disabled;
    c.sound_hw = SoundHw::IntelHda;
    c.watchdog = WatchdogKind::I6300esb;
    c.watchdog_action = WatchdogAction::Poweroff;
    c.custom_args = " -msg timestamp=on  -no-hpet ".into();
    assert_eq!(
        c.build_args(false),
        strs(&[
            "-machine", "pc,accel=kvm",
            "-m", "4096M,slots=4,maxmem=16384M",
            "-smp", "2",
            "-drive", "file=,if=virtio,format=qcow2,cache=writeback,aio=threads",
            "-netdev", "user,id=net0",
            "-device", "virtio-net,netdev=net0",
            "-device", "qxl,xres=1920,yres=1080",
            "-display", "none",
            "-audiodev", "pa,id=audio0",
            "-device", "intel-hda,audiodev=audio0",
            "-rtc", "base=utc",
            "-watchdog", "i6300esb", "-watchdog-action", "poweroff",
            "-msg", "timestamp=on", "-no-hpet",
        ])
    );
}

#[test]
fn memory_needs_both_slots_and_maximum() {
    let mut c = Config::for_host(HostOs::Linux);
    c.mem_slots = 2;
    let args = c.build_args(false);
    let m = args.iter().position(|a| a == "-m").unwrap();
    assert_eq!(args[m + 1], "4096M");
}

#[test]
fn boot_menu_and_strict() {
    let mut c = Config::for_host(HostOs::Linux);
    c.boot_order = "dc".into();
    c.boot_menu = BootMenu::On;
    c.boot_strict = BootStrict::On;
    let args = c.build_args(false);
    let b = args.iter().position(|a| a == "-boot").unwrap();
    assert_eq!(args[b + 1], "order=dc,menu=on,strict=on");
}

#[test]
fn legacy_and_disabled_graphics() {
    let mut c = Config::for_host(HostOs::Linux);
    c.vga = VgaKind::Vmware;
    c.monitor_width = 800;
    c.monitor_height = 600;
    let args = c.build_args(false);
    let v = args.iter().position(|a| a == "-vga").unwrap();
    assert_eq!(args[v + 1], "vmware");
    c.vga = VgaKind::Disabled;
    let args = c.build_args(false);
    assert!(!args.iter().any(|a| a == "-vga"));
    assert!(!args.iter().any(|a| a == "VGA"));
    c.vga = VgaKind::Std;
    c.monitor_height = 0;
    let args = c.build_args(false);
    assert!(args.iter().any(|a| a == "VGA"));
}

#[test]
fn sound_card_needs_audio_backend() {
    let mut c = Config::for_host(HostOs::Linux);
    c.audio_dev = AudioDev::Disabled;
    c.sound_hw = SoundHw::Ac97;
    let args = c.build_args(false);
    assert!(!args.iter().any(|a| a.contains("audio")));
}

#[test]
fn extra_arguments_come_last() {
    let mut c = Config::for_host(HostOs::Linux);
    let plain = c.build_args(false);
    c.custom_args = "-S\n-s".into();
    let args = c.build_args(false);
    assert_eq!(&args[..plain.len()], &plain[..]);
    assert_eq!(&args[plain.len()..], &["-S".to_string(), "-s".to_string()]);
}
