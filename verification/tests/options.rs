use qemu_gui::options::{
    AccelKind, AudioDev, BootMenu, Choice, DisplayKind, DriveAio, DriveCache, NicModel, OnOff,
    SoundHw, UsbDevice, VgaKind, WatchdogAction, WatchdogKind,
};

fn round_trip<T: Choice + PartialEq + std::fmt::Debug>(values: &[T]) {
    for v in values {
        assert_eq!(T::from_name(v.as_str()), Some(*v));
        assert_eq!(T::from_name(&v.as_str().to_uppercase()), Some(*v));
    }
}

#[test]
fn names_of_options() {
    assert_eq!(DisplayKind::Disabled.as_str(), "none");
    assert_eq!(NicModel::Ne2kPci.as_str(), "ne2k_pci");
    assert_eq!(DriveAio::IoUring.as_str(), "io_uring");
    assert_eq!(WatchdogKind::Off.as_str(), "");
    assert_eq!(WatchdogAction::InjectNmi.as_str(), "inject-nmi");
    assert_eq!(SoundHw::IntelHda.as_str(), "intel-hda");
    assert_eq!(UsbDevice::Tablet.as_str(), "usb-tablet");
}

#[test]
fn every_name_reads_back() {
    round_trip(&[DisplayKind::Gtk, DisplayKind::Sdl, DisplayKind::Disabled]);
    round_trip(&[AccelKind::Kvm, AccelKind::Whpx, AccelKind::Tcg, AccelKind::Hax]);
    round_trip(&[
        VgaKind::Std,
        VgaKind::Virtio,
        VgaKind::Qxl,
        VgaKind::Vmware,
        VgaKind::Cirrus,
        VgaKind::Disabled,
    ]);
    round_trip(&[
        DriveCache::Writeback,
        DriveCache::Disabled,
        DriveCache::Writethrough,
        DriveCache::Unsafe,
        DriveCache::Directsync,
    ]);
    round_trip(&[WatchdogKind::Off, WatchdogKind::I6300esb, WatchdogKind::Ib700]);
    round_trip(&[
        WatchdogAction::Reset,
        WatchdogAction::Shutdown,
        WatchdogAction::Poweroff,
        WatchdogAction::InjectNmi,
        WatchdogAction::Disabled,
        WatchdogAction::Pause,
        WatchdogAction::Debug,
    ]);
    round_trip(&[AudioDev::Disabled, AudioDev::Pa, AudioDev::Alsa, AudioDev::Dsound]);
    round_trip(&[OnOff::On, OnOff::Off]);
    round_trip(&[BootMenu::On, BootMenu::Off]);
}

#[test]
fn names_read_ignoring_case() {
    assert_eq!(DisplayKind::from_name("GTK"), Some(DisplayKind::Gtk));
    assert_eq!(AccelKind::from_name("WhPx"), Some(AccelKind::Whpx));
    assert_eq!(WatchdogKind::from_name(""), Some(WatchdogKind::Off));
}

#[test]
fn unknown_names_are_refused() {
    assert_eq!(DisplayKind::from_name("vnc"), None);
    assert_eq!(AccelKind::from_name("kvm "), None);
    assert_eq!(WatchdogKind::from_name("off"), None);
}
