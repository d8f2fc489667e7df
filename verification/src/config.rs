//! The virtual machine's configuration, its defaults, its basic checks and
//! the QEMU command line that it stands for.
use vstd::prelude::*;

use crate::options::{
    AccelKind, AudioDev, BootMenu, BootStrict, Choice, DisplayKind, DriveAio, DriveCache, DriveIf,
    IrqChip, MachineType, NetBackend, NicModel, OnOff, RtcBase, SoundHw, UsbDevice, VgaKind, VmPort,
    WatchdogAction, WatchdogKind,
};
use crate::text::{is_blank, is_blank_text};

verus! {

/// The operating system the program runs on, as far as its defaults differ.
#[derive(Debug, Clone, Copy, PartialEq, Eq, Structural)]
pub enum HostOs {
    Linux,
    Other,
}

/// Everything the user configures about the virtual machine.
#[derive(Debug, Clone)]
pub struct Config {
    pub qemu_path: String,
    pub disk_path: String,
    pub iso_path: String,
    pub ram_mb: u32,
    pub smp: u32,
    pub display: DisplayKind,
    pub boot_order: String,
    pub custom_args: String,
    pub machine_type: MachineType,
    pub cpu_model: String,
    pub accel: AccelKind,
    pub kernel_irqchip: IrqChip,
    pub vmport: VmPort,
    pub dump_guest_core: OnOff,
    pub vga: VgaKind,
    pub display_gl: OnOff,
    pub nic_model: NicModel,
    pub net_backend: NetBackend,
    pub audio_dev: AudioDev,
    pub sound_hw: SoundHw,
    pub usb_device: UsbDevice,
    pub boot_menu: BootMenu,
    pub boot_strict: BootStrict,
    pub drive_cache: DriveCache,
    pub drive_aio: DriveAio,
    pub drive_if: DriveIf,
    pub rtc_base: RtcBase,
    pub watchdog: WatchdogKind,
    pub watchdog_action: WatchdogAction,
    pub mem_slots: u32,
    pub mem_maxmb: u32,
    pub monitor_width: u32,
    pub monitor_height: u32,
}

/// The QEMU binary a fresh configuration points at on `host`.
pub open spec fn default_qemu_path(host: HostOs) -> Seq<char> {
    match host {
        HostOs::Linux => "/usr/bin/qemu-system-x86_64"@,
        HostOs::Other => "D:\\qemu\\qemu-system-x86_64.exe"@,
    }
}

/// The accelerator a fresh configuration uses on `host`.
pub open spec fn default_accel(host: HostOs) -> AccelKind {
    match host {
        HostOs::Linux => AccelKind::Kvm,
        HostOs::Other => AccelKind::Whpx,
    }
}

/// The audio back end a fresh configuration uses on `host`.
pub open spec fn default_audio(host: HostOs) -> AudioDev {
    match host {
        HostOs::Linux => AudioDev::Pa,
        HostOs::Other => AudioDev::Dsound,
    }
}

/// Whether `c` is the configuration a fresh start gives on `host`.
pub open spec fn is_default_config(c: Config, host: HostOs) -> bool {
    &&& c.qemu_path@ == default_qemu_path(host)
    &&& c.disk_path@ == Seq::<char>::empty()
    &&& c.iso_path@ == Seq::<char>::empty()
    &&& c.ram_mb == 4096
    &&& c.smp == 2
    &&& c.display == DisplayKind::Gtk
    &&& c.boot_order@ == "c"@
    &&& c.custom_args@ == Seq::<char>::empty()
    &&& c.machine_type == MachineType::Pc
    &&& c.cpu_model@ == "host"@
    &&& c.accel == default_accel(host)
    &&& c.kernel_irqchip == IrqChip::On
    &&& c.vmport == VmPort::Auto
    &&& c.dump_guest_core == OnOff::On
    &&& c.vga == VgaKind::Std
    &&& c.display_gl == OnOff::Off
    &&& c.nic_model == NicModel::VirtioNet
    &&& c.net_backend == NetBackend::User
    &&& c.audio_dev == default_audio(host)
    &&& c.sound_hw == SoundHw::Disabled
    &&& c.usb_device == UsbDevice::Tablet
    &&& c.boot_menu == BootMenu::Off
    &&& c.boot_strict == BootStrict::Off
    &&& c.drive_cache == DriveCache::Writeback
    &&& c.drive_aio == DriveAio::Threads
    &&& c.drive_if == DriveIf::Virtio
    &&& c.rtc_base == RtcBase::Utc
    &&& c.watchdog == WatchdogKind::Off
    &&& c.watchdog_action == WatchdogAction::Reset
    &&& c.mem_slots == 0
    &&& c.mem_maxmb == 0
    &&& c.monitor_width == 0
    &&& c.monitor_height == 0
}

/// The first problem that `validate_basic` finds in `c`, if any.
pub open spec fn basic_problem(c: Config) -> Option<Seq<char>> {
    if is_blank(c.qemu_path@) {
        Some("QEMU path is empty"@)
    } else if is_blank(c.disk_path@) {
        Some("Disk image path is empty"@)
    } else if c.ram_mb == 0 {
        Some("RAM must be > 0"@)
    } else if c.smp == 0 {
        Some("SMP must be > 0"@)
    } else {
        None
    }
}

impl Config {
    /// The configuration a fresh start uses on `host`.
    pub fn for_host(host: HostOs) -> (c: Config)
        ensures
            is_default_config(c, host),
    {
        let (qemu_path, accel, audio_dev) = match host {
            HostOs::Linux => (
                String::from_str("/usr/bin/qemu-system-x86_64"),
                AccelKind::Kvm,
                AudioDev::Pa,
            ),
            HostOs::Other => (
                String::from_str("D:\\qemu\\qemu-system-x86_64.exe"),
                AccelKind::Whpx,
                AudioDev::Dsound,
            ),
        };
        Config {
            qemu_path,
            disk_path: String::new(),
            iso_path: String::new(),
            ram_mb: 4096,
            smp: 2,
            display: DisplayKind::Gtk,
            boot_order: String::from_str("c"),
            custom_args: String::new(),
            machine_type: MachineType::Pc,
            cpu_model: String::from_str("host"),
            accel,
            kernel_irqchip: IrqChip::On,
            vmport: VmPort::Auto,
            dump_guest_core: OnOff::On,
            vga: VgaKind::Std,
            display_gl: OnOff::Off,
            nic_model: NicModel::VirtioNet,
            net_backend: NetBackend::User,
            audio_dev,
            sound_hw: SoundHw::Disabled,
            usb_device: UsbDevice::Tablet,
            boot_menu: BootMenu::Off,
            boot_strict: BootStrict::Off,
            drive_cache: DriveCache::Writeback,
            drive_aio: DriveAio::Threads,
            drive_if: DriveIf::Virtio,
            rtc_base: RtcBase::Utc,
            watchdog: WatchdogKind::Off,
            watchdog_action: WatchdogAction::Reset,
            mem_slots: 0,
            mem_maxmb: 0,
            monitor_width: 0,
            monitor_height: 0,
        }
    }

    /// The checks that need no file system: both paths set, RAM and CPU
    /// count above zero. The error is the first problem found.
    pub fn validate_basic(&self) -> (r: Result<(), String>)
        ensures
            r is Ok <==> basic_problem(*self) is None,
            r matches Err(e) ==> basic_problem(*self) == Some(e@),
    {
        if is_blank_text(self.qemu_path.as_str()) {
            return Err(String::from_str("QEMU path is empty"));
        }
        if is_blank_text(self.disk_path.as_str()) {
            return Err(String::from_str("Disk image path is empty"));
        }
        if self.ram_mb == 0 {
            return Err(String::from_str("RAM must be > 0"));
        }
        if self.smp == 0 {
            return Err(String::from_str("SMP must be > 0"));
        }
        Ok(())
    }
}

} // verus!
