//! The named options of a virtual machine: each is an enum whose values
//! stand in QEMU's command line and in the saved configuration by a name,
//! and are read back from a name regardless of ASCII case.
use vstd::prelude::*;

use crate::text::{eq_ignore_case, eq_ignore_case_text, lemma_differs_at, lemma_eq_ignore_case_trans};

verus! {

/// A closed set of values, each known by a name.
pub trait Choice: Sized + Copy {
    /// The name of this value.
    spec fn name(self) -> Seq<char>;

    /// The first value, in declaration order, whose name equals `s` when
    /// ASCII case is ignored; `None` when there is none.
    spec fn named(s: Seq<char>) -> Option<Self>;

    /// The name of this value.
    fn as_str(&self) -> (r: &'static str)
        ensures
            r@ == self.name(),
    ;

    /// The value named `s`, ASCII case ignored.
    fn from_name(s: &str) -> (r: Option<Self>)
        ensures
            r == Self::named(s@),
    ;

    /// Reading back the name of a value gives that value.
    proof fn lemma_name_round_trip(v: Self)
        ensures
            Self::named(v.name()) == Some(v),
    ;
}

/// The display front end that shows the guest's screen (`-display`).
#[derive(Debug, Clone, Copy, PartialEq, Eq, Structural)]
pub enum DisplayKind {
    Gtk,
    Sdl,
    Disabled,
}

impl Choice for DisplayKind {
    open spec fn name(self) -> Seq<char> {
        match self {
            DisplayKind::Gtk => "gtk"@,
            DisplayKind::Sdl => "sdl"@,
            DisplayKind::Disabled => "none"@,
        }
    }

    open spec fn named(s: Seq<char>) -> Option<Self> {
        if eq_ignore_case(s, "gtk"@) {
            Some(DisplayKind::Gtk)
        } else if eq_ignore_case(s, "sdl"@) {
            Some(DisplayKind::Sdl)
        } else if eq_ignore_case(s, "none"@) {
            Some(DisplayKind::Disabled)
        } else {
            None
        }
    }

    fn as_str(&self) -> (r: &'static str) {
        match self {
            DisplayKind::Gtk => "gtk",
            DisplayKind::Sdl => "sdl",
            DisplayKind::Disabled => "none",
        }
    }

    fn from_name(s: &str) -> (r: Option<Self>) {
        if eq_ignore_case_text(s, "gtk") {
            return Some(DisplayKind::Gtk);
        }
        if eq_ignore_case_text(s, "sdl") {
            return Some(DisplayKind::Sdl);
        }
        if eq_ignore_case_text(s, "none") {
            return Some(DisplayKind::Disabled);
        }
        None
    }

    proof fn lemma_name_round_trip(v: Self) {
        reveal_strlit("gtk");
        reveal_strlit("sdl");
        reveal_strlit("none");
        match v {
            DisplayKind::Sdl => {
                lemma_differs_at("sdl"@, "gtk"@, 0);
            },
            _ => {},
        }
    }
}

/// The emulated chipset (`-machine`).
#[derive(Debug, Clone, Copy, PartialEq, Eq, Structural)]
pub enum MachineType {
    Pc,
    Q35,
}

impl Choice for MachineType {
    open spec fn name(self) -> Seq<char> {
        match self {
            MachineType::Pc => "pc"@,
            MachineType::Q35 => "q35"@,
        }
    }

    open spec fn named(s: Seq<char>) -> Option<Self> {
        if eq_ignore_case(s, "pc"@) {
            Some(MachineType::Pc)
        } else if eq_ignore_case(s, "q35"@) {
            Some(MachineType::Q35)
        } else {
            None
        }
    }

    fn as_str(&self) -> (r: &'static str) {
        match self {
            MachineType::Pc => "pc",
            MachineType::Q35 => "q35",
        }
    }

    fn from_name(s: &str) -> (r: Option<Self>) {
        if eq_ignore_case_text(s, "pc") {
            return Some(MachineType::Pc);
        }
        if eq_ignore_case_text(s, "q35") {
            return Some(MachineType::Q35);
        }
        None
    }

    proof fn lemma_name_round_trip(v: Self) {
        reveal_strlit("pc");
        reveal_strlit("q35");
    }
}

/// The VMware I/O port emulation of the machine.
#[derive(Debug, Clone, Copy, PartialEq, Eq, Structural)]
pub enum VmPort {
    Auto,
    On,
    Off,
}

impl Choice for VmPort {
    open spec fn name(self) -> Seq<char> {
        match self {
            VmPort::Auto => "auto"@,
            VmPort::On => "on"@,
            VmPort::Off => "off"@,
        }
    }

    open spec fn named(s: Seq<char>) -> Option<Self> {
        if eq_ignore_case(s, "auto"@) {
            Some(VmPort::Auto)
        } else if eq_ignore_case(s, "on"@) {
            Some(VmPort::On)
        } else if eq_ignore_case(s, "off"@) {
            Some(VmPort::Off)
        } else {
            None
        }
    }

    fn as_str(&self) -> (r: &'static str) {
        match self {
            VmPort::Auto => "auto",
            VmPort::On => "on",
            VmPort::Off => "off",
        }
    }

    fn from_name(s: &str) -> (r: Option<Self>) {
        if eq_ignore_case_text(s, "auto") {
            return Some(VmPort::Auto);
        }
        if eq_ignore_case_text(s, "on") {
            return Some(VmPort::On);
        }
        if eq_ignore_case_text(s, "off") {
            return Some(VmPort::Off);
        }
        None
    }

    proof fn lemma_name_round_trip(v: Self) {
        reveal_strlit("auto");
        reveal_strlit("on");
        reveal_strlit("off");
    }
}

/// A plain on/off switch.
#[derive(Debug, Clone, Copy, PartialEq, Eq, Structural)]
pub enum OnOff {
    On,
    Off,
}

impl Choice for OnOff {
    open spec fn name(self) -> Seq<char> {
        match self {
            OnOff::On => "on"@,
            OnOff::Off => "off"@,
        }
    }

    open spec fn named(s: Seq<char>) -> Option<Self> {
        if eq_ignore_case(s, "on"@) {
            Some(OnOff::On)
        } else if eq_ignore_case(s, "off"@) {
            Some(OnOff::Off)
        } else {
            None
        }
    }

    fn as_str(&self) -> (r: &'static str) {
        match self {
            OnOff::On => "on",
            OnOff::Off => "off",
        }
    }

    fn from_name(s: &str) -> (r: Option<Self>) {
        if eq_ignore_case_text(s, "on") {
            return Some(OnOff::On);
        }
        if eq_ignore_case_text(s, "off") {
            return Some(OnOff::Off);
        }
        None
    }

    proof fn lemma_name_round_trip(v: Self) {
        reveal_strlit("on");
        reveal_strlit("off");
    }
}

/// The accelerator that runs the guest.
#[derive(Debug, Clone, Copy, PartialEq, Eq, Structural)]
pub enum AccelKind {
    Kvm,
    Whpx,
    Tcg,
    Hax,
}

impl Choice for AccelKind {
    open spec fn name(self) -> Seq<char> {
        match self {
            AccelKind::Kvm => "kvm"@,
            AccelKind::Whpx => "whpx"@,
            AccelKind::Tcg => "tcg"@,
            AccelKind::Hax => "hax"@,
        }
    }

    open spec fn named(s: Seq<char>) -> Option<Self> {
        if eq_ignore_case(s, "kvm"@) {
            Some(AccelKind::Kvm)
        } else if eq_ignore_case(s, "whpx"@) {
            Some(AccelKind::Whpx)
        } else if eq_ignore_case(s, "tcg"@) {
            Some(AccelKind::Tcg)
        } else if eq_ignore_case(s, "hax"@) {
            Some(AccelKind::Hax)
        } else {
            None
        }
    }

    fn as_str(&self) -> (r: &'static str) {
        match self {
            AccelKind::Kvm => "kvm",
            AccelKind::Whpx => "whpx",
            AccelKind::Tcg => "tcg",
            AccelKind::Hax => "hax",
        }
    }

    fn from_name(s: &str) -> (r: Option<Self>) {
        if eq_ignore_case_text(s, "kvm") {
            return Some(AccelKind::Kvm);
        }
        if eq_ignore_case_text(s, "whpx") {
            return Some(AccelKind::Whpx);
        }
        if eq_ignore_case_text(s, "tcg") {
            return Some(AccelKind::Tcg);
        }
        if eq_ignore_case_text(s, "hax") {
            return Some(AccelKind::Hax);
        }
        None
    }

    proof fn lemma_name_round_trip(v: Self) {
        reveal_strlit("kvm");
        reveal_strlit("whpx");
        reveal_strlit("tcg");
        reveal_strlit("hax");
        match v {
            AccelKind::Tcg => {
                lemma_differs_at("tcg"@, "kvm"@, 0);
            },
            AccelKind::Hax => {
                lemma_differs_at("hax"@, "kvm"@, 0);
                lemma_differs_at("hax"@, "tcg"@, 0);
            },
            _ => {},
        }
    }
}

/// Where the interrupt controller is emulated.
#[derive(Debug, Clone, Copy, PartialEq, Eq, Structural)]
pub enum IrqChip {
    Off,
    Split,
    On,
}

impl Choice for IrqChip {
    open spec fn name(self) -> Seq<char> {
        match self {
            IrqChip::Off => "off"@,
            IrqChip::Split => "split"@,
            IrqChip::On => "on"@,
        }
    }

    open spec fn named(s: Seq<char>) -> Option<Self> {
        if eq_ignore_case(s, "off"@) {
            Some(IrqChip::Off)
        } else if eq_ignore_case(s, "split"@) {
            Some(IrqChip::Split)
        } else if eq_ignore_case(s, "on"@) {
            Some(IrqChip::On)
        } else {
            None
        }
    }

    fn as_str(&self) -> (r: &'static str) {
        match self {
            IrqChip::Off => "off",
            IrqChip::Split => "split",
            IrqChip::On => "on",
        }
    }

    fn from_name(s: &str) -> (r: Option<Self>) {
        if eq_ignore_case_text(s, "off") {
            return Some(IrqChip::Off);
        }
        if eq_ignore_case_text(s, "split") {
            return Some(IrqChip::Split);
        }
        if eq_ignore_case_text(s, "on") {
            return Some(IrqChip::On);
        }
        None
    }

    proof fn lemma_name_round_trip(v: Self) {
        reveal_strlit("off");
        reveal_strlit("split");
        reveal_strlit("on");
    }
}

/// The emulated graphics card.
#[derive(Debug, Clone, Copy, PartialEq, Eq, Structural)]
pub enum VgaKind {
    Std,
    Virtio,
    Qxl,
    Vmware,
    Cirrus,
    Disabled,
}

impl Choice for VgaKind {
    open spec fn name(self) -> Seq<char> {
        match self {
            VgaKind::Std => "std"@,
            VgaKind::Virtio => "virtio"@,
            VgaKind::Qxl => "qxl"@,
            VgaKind::Vmware => "vmware"@,
            VgaKind::Cirrus => "cirrus"@,
            VgaKind::Disabled => "none"@,
        }
    }

    open spec fn named(s: Seq<char>) -> Option<Self> {
        if eq_ignore_case(s, "std"@) {
            Some(VgaKind::Std)
        } else if eq_ignore_case(s, "virtio"@) {
            Some(VgaKind::Virtio)
        } else if eq_ignore_case(s, "qxl"@) {
            Some(VgaKind::Qxl)
        } else if eq_ignore_case(s, "vmware"@) {
            Some(VgaKind::Vmware)
        } else if eq_ignore_case(s, "cirrus"@) {
            Some(VgaKind::Cirrus)
        } else if eq_ignore_case(s, "none"@) {
            Some(VgaKind::Disabled)
        } else {
            None
        }
    }

    fn as_str(&self) -> (r: &'static str) {
        match self {
            VgaKind::Std => "std",
            VgaKind::Virtio => "virtio",
            VgaKind::Qxl => "qxl",
            VgaKind::Vmware => "vmware",
            VgaKind::Cirrus => "cirrus",
            VgaKind::Disabled => "none",
        }
    }

    fn from_name(s: &str) -> (r: Option<Self>) {
        if eq_ignore_case_text(s, "std") {
            return Some(VgaKind::Std);
        }
        if eq_ignore_case_text(s, "virtio") {
            return Some(VgaKind::Virtio);
        }
        if eq_ignore_case_text(s, "qxl") {
            return Some(VgaKind::Qxl);
        }
        if eq_ignore_case_text(s, "vmware") {
            return Some(VgaKind::Vmware);
        }
        if eq_ignore_case_text(s, "cirrus") {
            return Some(VgaKind::Cirrus);
        }
        if eq_ignore_case_text(s, "none") {
            return Some(VgaKind::Disabled);
        }
        None
    }

    proof fn lemma_name_round_trip(v: Self) {
        reveal_strlit("std");
        reveal_strlit("virtio");
        reveal_strlit("qxl");
        reveal_strlit("vmware");
        reveal_strlit("cirrus");
        reveal_strlit("none");
        match v {
            VgaKind::Qxl => {
                lemma_differs_at("qxl"@, "std"@, 0);
            },
            VgaKind::Vmware => {
                lemma_differs_at("vmware"@, "virtio"@, 1);
            },
            VgaKind::Cirrus => {
                lemma_differs_at("cirrus"@, "virtio"@, 0);
                lemma_differs_at("cirrus"@, "vmware"@, 0);
            },
            _ => {},
        }
    }
}

/// The emulated network card.
#[derive(Debug, Clone, Copy, PartialEq, Eq, Structural)]
pub enum NicModel {
    VirtioNet,
    E1000,
    Rtl8139,
    Ne2kPci,
    Pcnet,
}

impl Choice for NicModel {
    open spec fn name(self) -> Seq<char> {
        match self {
            NicModel::VirtioNet => "virtio-net"@,
            NicModel::E1000 => "e1000"@,
            NicModel::Rtl8139 => "rtl8139"@,
            NicModel::Ne2kPci => "ne2k_pci"@,
            NicModel::Pcnet => "pcnet"@,
        }
    }

    open spec fn named(s: Seq<char>) -> Option<Self> {
        if eq_ignore_case(s, "virtio-net"@) {
            Some(NicModel::VirtioNet)
        } else if eq_ignore_case(s, "e1000"@) {
            Some(NicModel::E1000)
        } else if eq_ignore_case(s, "rtl8139"@) {
            Some(NicModel::Rtl8139)
        } else if eq_ignore_case(s, "ne2k_pci"@) {
            Some(NicModel::Ne2kPci)
        } else if eq_ignore_case(s, "pcnet"@) {
            Some(NicModel::Pcnet)
        } else {
            None
        }
    }

    fn as_str(&self) -> (r: &'static str) {
        match self {
            NicModel::VirtioNet => "virtio-net",
            NicModel::E1000 => "e1000",
            NicModel::Rtl8139 => "rtl8139",
            NicModel::Ne2kPci => "ne2k_pci",
            NicModel::Pcnet => "pcnet",
        }
    }

    fn from_name(s: &str) -> (r: Option<Self>) {
        if eq_ignore_case_text(s, "virtio-net") {
            return Some(NicModel::VirtioNet);
        }
        if eq_ignore_case_text(s, "e1000") {
            return Some(NicModel::E1000);
        }
        if eq_ignore_case_text(s, "rtl8139") {
            return Some(NicModel::Rtl8139);
        }
        if eq_ignore_case_text(s, "ne2k_pci") {
            return Some(NicModel::Ne2kPci);
        }
        if eq_ignore_case_text(s, "pcnet") {
            return Some(NicModel::Pcnet);
        }
        None
    }

    proof fn lemma_name_round_trip(v: Self) {
        reveal_strlit("virtio-net");
        reveal_strlit("e1000");
        reveal_strlit("rtl8139");
        reveal_strlit("ne2k_pci");
        reveal_strlit("pcnet");
        match v {
            NicModel::Pcnet => {
                lemma_differs_at("pcnet"@, "e1000"@, 0);
            },
            _ => {},
        }
    }
}

/// How the guest's network reaches the host.
#[derive(Debug, Clone, Copy, PartialEq, Eq, Structural)]
pub enum NetBackend {
    User,
    Tap,
}

impl Choice for NetBackend {
    open spec fn name(self) -> Seq<char> {
        match self {
            NetBackend::User => "user"@,
            NetBackend::Tap => "tap"@,
        }
    }

    open spec fn named(s: Seq<char>) -> Option<Self> {
        if eq_ignore_case(s, "user"@) {
            Some(NetBackend::User)
        } else if eq_ignore_case(s, "tap"@) {
            Some(NetBackend::Tap)
        } else {
            None
        }
    }

    fn as_str(&self) -> (r: &'static str) {
        match self {
            NetBackend::User => "user",
            NetBackend::Tap => "tap",
        }
    }

    fn from_name(s: &str) -> (r: Option<Self>) {
        if eq_ignore_case_text(s, "user") {
            return Some(NetBackend::User);
        }
        if eq_ignore_case_text(s, "tap") {
            return Some(NetBackend::Tap);
        }
        None
    }

    proof fn lemma_name_round_trip(v: Self) {
        reveal_strlit("user");
        reveal_strlit("tap");
    }
}

/// The host audio back end.
#[derive(Debug, Clone, Copy, PartialEq, Eq, Structural)]
pub enum AudioDev {
    Disabled,
    Pa,
    Alsa,
    Dsound,
}

impl Choice for AudioDev {
    open spec fn name(self) -> Seq<char> {
        match self {
            AudioDev::Disabled => "none"@,
            AudioDev::Pa => "pa"@,
            AudioDev::Alsa => "alsa"@,
            AudioDev::Dsound => "dsound"@,
        }
    }

    open spec fn named(s: Seq<char>) -> Option<Self> {
        if eq_ignore_case(s, "none"@) {
            Some(AudioDev::Disabled)
        } else if eq_ignore_case(s, "pa"@) {
            Some(AudioDev::Pa)
        } else if eq_ignore_case(s, "alsa"@) {
            Some(AudioDev::Alsa)
        } else if eq_ignore_case(s, "dsound"@) {
            Some(AudioDev::Dsound)
        } else {
            None
        }
    }

    fn as_str(&self) -> (r: &'static str) {
        match self {
            AudioDev::Disabled => "none",
            AudioDev::Pa => "pa",
            AudioDev::Alsa => "alsa",
            AudioDev::Dsound => "dsound",
        }
    }

    fn from_name(s: &str) -> (r: Option<Self>) {
        if eq_ignore_case_text(s, "none") {
            return Some(AudioDev::Disabled);
        }
        if eq_ignore_case_text(s, "pa") {
            return Some(AudioDev::Pa);
        }
        if eq_ignore_case_text(s, "alsa") {
            return Some(AudioDev::Alsa);
        }
        if eq_ignore_case_text(s, "dsound") {
            return Some(AudioDev::Dsound);
        }
        None
    }

    proof fn lemma_name_round_trip(v: Self) {
        reveal_strlit("none");
        reveal_strlit("pa");
        reveal_strlit("alsa");
        reveal_strlit("dsound");
        match v {
            AudioDev::Alsa => {
                lemma_differs_at("alsa"@, "none"@, 0);
            },
            _ => {},
        }
    }
}

/// The emulated sound card.
#[derive(Debug, Clone, Copy, PartialEq, Eq, Structural)]
pub enum SoundHw {
    Disabled,
    IntelHda,
    Ac97,
    Sb16,
    Es1370,
}

impl Choice for SoundHw {
    open spec fn name(self) -> Seq<char> {
        match self {
            SoundHw::Disabled => "none"@,
            SoundHw::IntelHda => "intel-hda"@,
            SoundHw::Ac97 => "ac97"@,
            SoundHw::Sb16 => "sb16"@,
            SoundHw::Es1370 => "es1370"@,
        }
    }

    open spec fn named(s: Seq<char>) -> Option<Self> {
        if eq_ignore_case(s, "none"@) {
            Some(SoundHw::Disabled)
        } else if eq_ignore_case(s, "intel-hda"@) {
            Some(SoundHw::IntelHda)
        } else if eq_ignore_case(s, "ac97"@) {
            Some(SoundHw::Ac97)
        } else if eq_ignore_case(s, "sb16"@) {
            Some(SoundHw::Sb16)
        } else if eq_ignore_case(s, "es1370"@) {
            Some(SoundHw::Es1370)
        } else {
            None
        }
    }

    fn as_str(&self) -> (r: &'static str) {
        match self {
            SoundHw::Disabled => "none",
            SoundHw::IntelHda => "intel-hda",
            SoundHw::Ac97 => "ac97",
            SoundHw::Sb16 => "sb16",
            SoundHw::Es1370 => "es1370",
        }
    }

    fn from_name(s: &str) -> (r: Option<Self>) {
        if eq_ignore_case_text(s, "none") {
            return Some(SoundHw::Disabled);
        }
        if eq_ignore_case_text(s, "intel-hda") {
            return Some(SoundHw::IntelHda);
        }
        if eq_ignore_case_text(s, "ac97") {
            return Some(SoundHw::Ac97);
        }
        if eq_ignore_case_text(s, "sb16") {
            return Some(SoundHw::Sb16);
        }
        if eq_ignore_case_text(s, "es1370") {
            return Some(SoundHw::Es1370);
        }
        None
    }

    proof fn lemma_name_round_trip(v: Self) {
        reveal_strlit("none");
        reveal_strlit("intel-hda");
        reveal_strlit("ac97");
        reveal_strlit("sb16");
        reveal_strlit("es1370");
        match v {
            SoundHw::Ac97 => {
                lemma_differs_at("ac97"@, "none"@, 0);
            },
            SoundHw::Sb16 => {
                lemma_differs_at("sb16"@, "none"@, 0);
                lemma_differs_at("sb16"@, "ac97"@, 0);
            },
            _ => {},
        }
    }
}

/// The USB pointing device given to the guest.
#[derive(Debug, Clone, Copy, PartialEq, Eq, Structural)]
pub enum UsbDevice {
    Tablet,
    Mouse,
    Disabled,
}

impl Choice for UsbDevice {
    open spec fn name(self) -> Seq<char> {
        match self {
            UsbDevice::Tablet => "usb-tablet"@,
            UsbDevice::Mouse => "usb-mouse"@,
            UsbDevice::Disabled => "none"@,
        }
    }

    open spec fn named(s: Seq<char>) -> Option<Self> {
        if eq_ignore_case(s, "usb-tablet"@) {
            Some(UsbDevice::Tablet)
        } else if eq_ignore_case(s, "usb-mouse"@) {
            Some(UsbDevice::Mouse)
        } else if eq_ignore_case(s, "none"@) {
            Some(UsbDevice::Disabled)
        } else {
            None
        }
    }

    fn as_str(&self) -> (r: &'static str) {
        match self {
            UsbDevice::Tablet => "usb-tablet",
            UsbDevice::Mouse => "usb-mouse",
            UsbDevice::Disabled => "none",
        }
    }

    fn from_name(s: &str) -> (r: Option<Self>) {
        if eq_ignore_case_text(s, "usb-tablet") {
            return Some(UsbDevice::Tablet);
        }
        if eq_ignore_case_text(s, "usb-mouse") {
            return Some(UsbDevice::Mouse);
        }
        if eq_ignore_case_text(s, "none") {
            return Some(UsbDevice::Disabled);
        }
        None
    }

    proof fn lemma_name_round_trip(v: Self) {
        reveal_strlit("usb-tablet");
        reveal_strlit("usb-mouse");
        reveal_strlit("none");
    }
}

/// The cache mode of the disk drive.
#[derive(Debug, Clone, Copy, PartialEq, Eq, Structural)]
pub enum DriveCache {
    Writeback,
    Disabled,
    Writethrough,
    Unsafe,
    Directsync,
}

impl Choice for DriveCache {
    open spec fn name(self) -> Seq<char> {
        match self {
            DriveCache::Writeback => "writeback"@,
            DriveCache::Disabled => "none"@,
            DriveCache::Writethrough => "writethrough"@,
            DriveCache::Unsafe => "unsafe"@,
            DriveCache::Directsync => "directsync"@,
        }
    }

    open spec fn named(s: Seq<char>) -> Option<Self> {
        if eq_ignore_case(s, "writeback"@) {
            Some(DriveCache::Writeback)
        } else if eq_ignore_case(s, "none"@) {
            Some(DriveCache::Disabled)
        } else if eq_ignore_case(s, "writethrough"@) {
            Some(DriveCache::Writethrough)
        } else if eq_ignore_case(s, "unsafe"@) {
            Some(DriveCache::Unsafe)
        } else if eq_ignore_case(s, "directsync"@) {
            Some(DriveCache::Directsync)
        } else {
            None
        }
    }

    fn as_str(&self) -> (r: &'static str) {
        match self {
            DriveCache::Writeback => "writeback",
            DriveCache::Disabled => "none",
            DriveCache::Writethrough => "writethrough",
            DriveCache::Unsafe => "unsafe",
            DriveCache::Directsync => "directsync",
        }
    }

    fn from_name(s: &str) -> (r: Option<Self>) {
        if eq_ignore_case_text(s, "writeback") {
            return Some(DriveCache::Writeback);
        }
        if eq_ignore_case_text(s, "none") {
            return Some(DriveCache::Disabled);
        }
        if eq_ignore_case_text(s, "writethrough") {
            return Some(DriveCache::Writethrough);
        }
        if eq_ignore_case_text(s, "unsafe") {
            return Some(DriveCache::Unsafe);
        }
        if eq_ignore_case_text(s, "directsync") {
            return Some(DriveCache::Directsync);
        }
        None
    }

    proof fn lemma_name_round_trip(v: Self) {
        reveal_strlit("writeback");
        reveal_strlit("none");
        reveal_strlit("writethrough");
        reveal_strlit("unsafe");
        reveal_strlit("directsync");
    }
}

/// The asynchronous I/O engine of the disk drive.
#[derive(Debug, Clone, Copy, PartialEq, Eq, Structural)]
pub enum DriveAio {
    Threads,
    Native,
    IoUring,
}

impl Choice for DriveAio {
    open spec fn name(self) -> Seq<char> {
        match self {
            DriveAio::Threads => "threads"@,
            DriveAio::Native => "native"@,
            DriveAio::IoUring => "io_uring"@,
        }
    }

    open spec fn named(s: Seq<char>) -> Option<Self> {
        if eq_ignore_case(s, "threads"@) {
            Some(DriveAio::Threads)
        } else if eq_ignore_case(s, "native"@) {
            Some(DriveAio::Native)
        } else if eq_ignore_case(s, "io_uring"@) {
            Some(DriveAio::IoUring)
        } else {
            None
        }
    }

    fn as_str(&self) -> (r: &'static str) {
        match self {
            DriveAio::Threads => "threads",
            DriveAio::Native => "native",
            DriveAio::IoUring => "io_uring",
        }
    }

    fn from_name(s: &str) -> (r: Option<Self>) {
        if eq_ignore_case_text(s, "threads") {
            return Some(DriveAio::Threads);
        }
        if eq_ignore_case_text(s, "native") {
            return Some(DriveAio::Native);
        }
        if eq_ignore_case_text(s, "io_uring") {
            return Some(DriveAio::IoUring);
        }
        None
    }

    proof fn lemma_name_round_trip(v: Self) {
        reveal_strlit("threads");
        reveal_strlit("native");
        reveal_strlit("io_uring");
    }
}

/// The bus that the disk drive hangs on.
#[derive(Debug, Clone, Copy, PartialEq, Eq, Structural)]
pub enum DriveIf {
    Virtio,
    Ide,
    Sata,
    Sd,
}

impl Choice for DriveIf {
    open spec fn name(self) -> Seq<char> {
        match self {
            DriveIf::Virtio => "virtio"@,
            DriveIf::Ide => "ide"@,
            DriveIf::Sata => "sata"@,
            DriveIf::Sd => "sd"@,
        }
    }

    open spec fn named(s: Seq<char>) -> Option<Self> {
        if eq_ignore_case(s, "virtio"@) {
            Some(DriveIf::Virtio)
        } else if eq_ignore_case(s, "ide"@) {
            Some(DriveIf::Ide)
        } else if eq_ignore_case(s, "sata"@) {
            Some(DriveIf::Sata)
        } else if eq_ignore_case(s, "sd"@) {
            Some(DriveIf::Sd)
        } else {
            None
        }
    }

    fn as_str(&self) -> (r: &'static str) {
        match self {
            DriveIf::Virtio => "virtio",
            DriveIf::Ide => "ide",
            DriveIf::Sata => "sata",
            DriveIf::Sd => "sd",
        }
    }

    fn from_name(s: &str) -> (r: Option<Self>) {
        if eq_ignore_case_text(s, "virtio") {
            return Some(DriveIf::Virtio);
        }
        if eq_ignore_case_text(s, "ide") {
            return Some(DriveIf::Ide);
        }
        if eq_ignore_case_text(s, "sata") {
            return Some(DriveIf::Sata);
        }
        if eq_ignore_case_text(s, "sd") {
            return Some(DriveIf::Sd);
        }
        None
    }

    proof fn lemma_name_round_trip(v: Self) {
        reveal_strlit("virtio");
        reveal_strlit("ide");
        reveal_strlit("sata");
        reveal_strlit("sd");
    }
}

/// What the guest's real-time clock starts from.
#[derive(Debug, Clone, Copy, PartialEq, Eq, Structural)]
pub enum RtcBase {
    Utc,
    Localtime,
}

impl Choice for RtcBase {
    open spec fn name(self) -> Seq<char> {
        match self {
            RtcBase::Utc => "utc"@,
            RtcBase::Localtime => "localtime"@,
        }
    }

    open spec fn named(s: Seq<char>) -> Option<Self> {
        if eq_ignore_case(s, "utc"@) {
            Some(RtcBase::Utc)
        } else if eq_ignore_case(s, "localtime"@) {
            Some(RtcBase::Localtime)
        } else {
            None
        }
    }

    fn as_str(&self) -> (r: &'static str) {
        match self {
            RtcBase::Utc => "utc",
            RtcBase::Localtime => "localtime",
        }
    }

    fn from_name(s: &str) -> (r: Option<Self>) {
        if eq_ignore_case_text(s, "utc") {
            return Some(RtcBase::Utc);
        }
        if eq_ignore_case_text(s, "localtime") {
            return Some(RtcBase::Localtime);
        }
        None
    }

    proof fn lemma_name_round_trip(v: Self) {
        reveal_strlit("utc");
        reveal_strlit("localtime");
    }
}

/// The emulated watchdog device; `Off` has the empty name.
#[derive(Debug, Clone, Copy, PartialEq, Eq, Structural)]
pub enum WatchdogKind {
    Off,
    I6300esb,
    Ib700,
}

impl Choice for WatchdogKind {
    open spec fn name(self) -> Seq<char> {
        match self {
            WatchdogKind::Off => ""@,
            WatchdogKind::I6300esb => "i6300esb"@,
            WatchdogKind::Ib700 => "ib700"@,
        }
    }

    open spec fn named(s: Seq<char>) -> Option<Self> {
        if eq_ignore_case(s, ""@) {
            Some(WatchdogKind::Off)
        } else if eq_ignore_case(s, "i6300esb"@) {
            Some(WatchdogKind::I6300esb)
        } else if eq_ignore_case(s, "ib700"@) {
            Some(WatchdogKind::Ib700)
        } else {
            None
        }
    }

    fn as_str(&self) -> (r: &'static str) {
        match self {
            WatchdogKind::Off => "",
            WatchdogKind::I6300esb => "i6300esb",
            WatchdogKind::Ib700 => "ib700",
        }
    }

    fn from_name(s: &str) -> (r: Option<Self>) {
        if eq_ignore_case_text(s, "") {
            return Some(WatchdogKind::Off);
        }
        if eq_ignore_case_text(s, "i6300esb") {
            return Some(WatchdogKind::I6300esb);
        }
        if eq_ignore_case_text(s, "ib700") {
            return Some(WatchdogKind::Ib700);
        }
        None
    }

    proof fn lemma_name_round_trip(v: Self) {
        reveal_strlit("");
        reveal_strlit("i6300esb");
        reveal_strlit("ib700");
    }
}

/// What happens when the watchdog fires.
#[derive(Debug, Clone, Copy, PartialEq, Eq, Structural)]
pub enum WatchdogAction {
    Reset,
    Shutdown,
    Poweroff,
    InjectNmi,
    Disabled,
    Pause,
    Debug,
}

impl Choice for WatchdogAction {
    open spec fn name(self) -> Seq<char> {
        match self {
            WatchdogAction::Reset => "reset"@,
            WatchdogAction::Shutdown => "shutdown"@,
            WatchdogAction::Poweroff => "poweroff"@,
            WatchdogAction::InjectNmi => "inject-nmi"@,
            WatchdogAction::Disabled => "none"@,
            WatchdogAction::Pause => "pause"@,
            WatchdogAction::Debug => "debug"@,
        }
    }

    open spec fn named(s: Seq<char>) -> Option<Self> {
        if eq_ignore_case(s, "reset"@) {
            Some(WatchdogAction::Reset)
        } else if eq_ignore_case(s, "shutdown"@) {
            Some(WatchdogAction::Shutdown)
        } else if eq_ignore_case(s, "poweroff"@) {
            Some(WatchdogAction::Poweroff)
        } else if eq_ignore_case(s, "inject-nmi"@) {
            Some(WatchdogAction::InjectNmi)
        } else if eq_ignore_case(s, "none"@) {
            Some(WatchdogAction::Disabled)
        } else if eq_ignore_case(s, "pause"@) {
            Some(WatchdogAction::Pause)
        } else if eq_ignore_case(s, "debug"@) {
            Some(WatchdogAction::Debug)
        } else {
            None
        }
    }

    fn as_str(&self) -> (r: &'static str) {
        match self {
            WatchdogAction::Reset => "reset",
            WatchdogAction::Shutdown => "shutdown",
            WatchdogAction::Poweroff => "poweroff",
            WatchdogAction::InjectNmi => "inject-nmi",
            WatchdogAction::Disabled => "none",
            WatchdogAction::Pause => "pause",
            WatchdogAction::Debug => "debug",
        }
    }

    fn from_name(s: &str) -> (r: Option<Self>) {
        if eq_ignore_case_text(s, "reset") {
            return Some(WatchdogAction::Reset);
        }
        if eq_ignore_case_text(s, "shutdown") {
            return Some(WatchdogAction::Shutdown);
        }
        if eq_ignore_case_text(s, "poweroff") {
            return Some(WatchdogAction::Poweroff);
        }
        if eq_ignore_case_text(s, "inject-nmi") {
            return Some(WatchdogAction::InjectNmi);
        }
        if eq_ignore_case_text(s, "none") {
            return Some(WatchdogAction::Disabled);
        }
        if eq_ignore_case_text(s, "pause") {
            return Some(WatchdogAction::Pause);
        }
        if eq_ignore_case_text(s, "debug") {
            return Some(WatchdogAction::Debug);
        }
        None
    }

    proof fn lemma_name_round_trip(v: Self) {
        reveal_strlit("reset");
        reveal_strlit("shutdown");
        reveal_strlit("poweroff");
        reveal_strlit("inject-nmi");
        reveal_strlit("none");
        reveal_strlit("pause");
        reveal_strlit("debug");
        match v {
            WatchdogAction::Poweroff => {
                lemma_differs_at("poweroff"@, "shutdown"@, 0);
            },
            WatchdogAction::Pause => {
                lemma_differs_at("pause"@, "reset"@, 0);
            },
            WatchdogAction::Debug => {
                lemma_differs_at("debug"@, "reset"@, 0);
                lemma_differs_at("debug"@, "pause"@, 0);
            },
            _ => {},
        }
    }
}

/// Whether the firmware shows its boot menu.
#[derive(Debug, Clone, Copy, PartialEq, Eq, Structural)]
pub enum BootMenu {
    On,
    Off,
}

impl Choice for BootMenu {
    open spec fn name(self) -> Seq<char> {
        match self {
            BootMenu::On => "on"@,
            BootMenu::Off => "off"@,
        }
    }

    open spec fn named(s: Seq<char>) -> Option<Self> {
        if eq_ignore_case(s, "on"@) {
            Some(BootMenu::On)
        } else if eq_ignore_case(s, "off"@) {
            Some(BootMenu::Off)
        } else {
            None
        }
    }

    fn as_str(&self) -> (r: &'static str) {
        match self {
            BootMenu::On => "on",
            BootMenu::Off => "off",
        }
    }

    fn from_name(s: &str) -> (r: Option<Self>) {
        if eq_ignore_case_text(s, "on") {
            return Some(BootMenu::On);
        }
        if eq_ignore_case_text(s, "off") {
            return Some(BootMenu::Off);
        }
        None
    }

    proof fn lemma_name_round_trip(v: Self) {
        reveal_strlit("on");
        reveal_strlit("off");
    }
}

/// Whether the firmware boots only from the listed devices.
#[derive(Debug, Clone, Copy, PartialEq, Eq, Structural)]
pub enum BootStrict {
    On,
    Off,
}

impl Choice for BootStrict {
    open spec fn name(self) -> Seq<char> {
        match self {
            BootStrict::On => "on"@,
            BootStrict::Off => "off"@,
        }
    }

    open spec fn named(s: Seq<char>) -> Option<Self> {
        if eq_ignore_case(s, "on"@) {
            Some(BootStrict::On)
        } else if eq_ignore_case(s, "off"@) {
            Some(BootStrict::Off)
        } else {
            None
        }
    }

    fn as_str(&self) -> (r: &'static str) {
        match self {
            BootStrict::On => "on",
            BootStrict::Off => "off",
        }
    }

    fn from_name(s: &str) -> (r: Option<Self>) {
        if eq_ignore_case_text(s, "on") {
            return Some(BootStrict::On);
        }
        if eq_ignore_case_text(s, "off") {
            return Some(BootStrict::Off);
        }
        None
    }

    proof fn lemma_name_round_trip(v: Self) {
        reveal_strlit("on");
        reveal_strlit("off");
    }
}

/// The names of the `DisplayKind` values, fixed by QEMU and by saved
/// configurations: each value has its own, and any text equal to one of
/// them, ASCII case ignored, reads back as that value.
pub proof fn law_display_kind_names()
    ensures
        DisplayKind::Gtk.name() == "gtk"@,
        DisplayKind::Sdl.name() == "sdl"@,
        DisplayKind::Disabled.name() == "none"@,
        forall|s: Seq<char>| eq_ignore_case(s, "gtk"@) ==> #[trigger] DisplayKind::named(s) == Some(DisplayKind::Gtk),
        forall|s: Seq<char>| eq_ignore_case(s, "sdl"@) ==> #[trigger] DisplayKind::named(s) == Some(DisplayKind::Sdl),
        forall|s: Seq<char>| eq_ignore_case(s, "none"@) ==> #[trigger] DisplayKind::named(s) == Some(DisplayKind::Disabled),
{
    reveal_strlit("gtk");
    reveal_strlit("sdl");
    reveal_strlit("none");
    lemma_differs_at("sdl"@, "gtk"@, 0);
    assert forall|s: Seq<char>| eq_ignore_case(s, "gtk"@) implies #[trigger] DisplayKind::named(s) == Some(DisplayKind::Gtk) by {
    }
    assert forall|s: Seq<char>| eq_ignore_case(s, "sdl"@) implies #[trigger] DisplayKind::named(s) == Some(DisplayKind::Sdl) by {
        if eq_ignore_case(s, "gtk"@) {
            lemma_eq_ignore_case_trans(s, "sdl"@, "gtk"@);
        }
    }
    assert forall|s: Seq<char>| eq_ignore_case(s, "none"@) implies #[trigger] DisplayKind::named(s) == Some(DisplayKind::Disabled) by {
        if eq_ignore_case(s, "gtk"@) {
            lemma_eq_ignore_case_trans(s, "none"@, "gtk"@);
        }
        if eq_ignore_case(s, "sdl"@) {
            lemma_eq_ignore_case_trans(s, "none"@, "sdl"@);
        }
    }
}

/// The names of the `MachineType` values, fixed by QEMU and by saved
/// configurations: each value has its own, and any text equal to one of
/// them, ASCII case ignored, reads back as that value.
pub proof fn law_machine_type_names()
    ensures
        MachineType::Pc.name() == "pc"@,
        MachineType::Q35.name() == "q35"@,
        forall|s: Seq<char>| eq_ignore_case(s, "pc"@) ==> #[trigger] MachineType::named(s) == Some(MachineType::Pc),
        forall|s: Seq<char>| eq_ignore_case(s, "q35"@) ==> #[trigger] MachineType::named(s) == Some(MachineType::Q35),
{
    reveal_strlit("pc");
    reveal_strlit("q35");
    assert forall|s: Seq<char>| eq_ignore_case(s, "pc"@) implies #[trigger] MachineType::named(s) == Some(MachineType::Pc) by {
    }
    assert forall|s: Seq<char>| eq_ignore_case(s, "q35"@) implies #[trigger] MachineType::named(s) == Some(MachineType::Q35) by {
        if eq_ignore_case(s, "pc"@) {
            lemma_eq_ignore_case_trans(s, "q35"@, "pc"@);
        }
    }
}

/// The names of the `VmPort` values, fixed by QEMU and by saved
/// configurations: each value has its own, and any text equal to one of
/// them, ASCII case ignored, reads back as that value.
pub proof fn law_vm_port_names()
    ensures
        VmPort::Auto.name() == "auto"@,
        VmPort::On.name() == "on"@,
        VmPort::Off.name() == "off"@,
        forall|s: Seq<char>| eq_ignore_case(s, "auto"@) ==> #[trigger] VmPort::named(s) == Some(VmPort::Auto),
        forall|s: Seq<char>| eq_ignore_case(s, "on"@) ==> #[trigger] VmPort::named(s) == Some(VmPort::On),
        forall|s: Seq<char>| eq_ignore_case(s, "off"@) ==> #[trigger] VmPort::named(s) == Some(VmPort::Off),
{
    reveal_strlit("auto");
    reveal_strlit("on");
    reveal_strlit("off");
    assert forall|s: Seq<char>| eq_ignore_case(s, "auto"@) implies #[trigger] VmPort::named(s) == Some(VmPort::Auto) by {
    }
    assert forall|s: Seq<char>| eq_ignore_case(s, "on"@) implies #[trigger] VmPort::named(s) == Some(VmPort::On) by {
        if eq_ignore_case(s, "auto"@) {
            lemma_eq_ignore_case_trans(s, "on"@, "auto"@);
        }
    }
    assert forall|s: Seq<char>| eq_ignore_case(s, "off"@) implies #[trigger] VmPort::named(s) == Some(VmPort::Off) by {
        if eq_ignore_case(s, "auto"@) {
            lemma_eq_ignore_case_trans(s, "off"@, "auto"@);
        }
        if eq_ignore_case(s, "on"@) {
            lemma_eq_ignore_case_trans(s, "off"@, "on"@);
        }
    }
}

/// The names of the `OnOff` values, fixed by QEMU and by saved
/// configurations: each value has its own, and any text equal to one of
/// them, ASCII case ignored, reads back as that value.
pub proof fn law_on_off_names()
    ensures
        OnOff::On.name() == "on"@,
        OnOff::Off.name() == "off"@,
        forall|s: Seq<char>| eq_ignore_case(s, "on"@) ==> #[trigger] OnOff::named(s) == Some(OnOff::On),
        forall|s: Seq<char>| eq_ignore_case(s, "off"@) ==> #[trigger] OnOff::named(s) == Some(OnOff::Off),
{
    reveal_strlit("on");
    reveal_strlit("off");
    assert forall|s: Seq<char>| eq_ignore_case(s, "on"@) implies #[trigger] OnOff::named(s) == Some(OnOff::On) by {
    }
    assert forall|s: Seq<char>| eq_ignore_case(s, "off"@) implies #[trigger] OnOff::named(s) == Some(OnOff::Off) by {
        if eq_ignore_case(s, "on"@) {
            lemma_eq_ignore_case_trans(s, "off"@, "on"@);
        }
    }
}

/// The names of the `AccelKind` values, fixed by QEMU and by saved
/// configurations: each value has its own, and any text equal to one of
/// them, ASCII case ignored, reads back as that value.
pub proof fn law_accel_kind_names()
    ensures
        AccelKind::Kvm.name() == "kvm"@,
        AccelKind::Whpx.name() == "whpx"@,
        AccelKind::Tcg.name() == "tcg"@,
        AccelKind::Hax.name() == "hax"@,
        forall|s: Seq<char>| eq_ignore_case(s, "kvm"@) ==> #[trigger] AccelKind::named(s) == Some(AccelKind::Kvm),
        forall|s: Seq<char>| eq_ignore_case(s, "whpx"@) ==> #[trigger] AccelKind::named(s) == Some(AccelKind::Whpx),
        forall|s: Seq<char>| eq_ignore_case(s, "tcg"@) ==> #[trigger] AccelKind::named(s) == Some(AccelKind::Tcg),
        forall|s: Seq<char>| eq_ignore_case(s, "hax"@) ==> #[trigger] AccelKind::named(s) == Some(AccelKind::Hax),
{
    reveal_strlit("kvm");
    reveal_strlit("whpx");
    reveal_strlit("tcg");
    reveal_strlit("hax");
    lemma_differs_at("tcg"@, "kvm"@, 0);
    lemma_differs_at("hax"@, "kvm"@, 0);
    lemma_differs_at("hax"@, "tcg"@, 0);
    assert forall|s: Seq<char>| eq_ignore_case(s, "kvm"@) implies #[trigger] AccelKind::named(s) == Some(AccelKind::Kvm) by {
    }
    assert forall|s: Seq<char>| eq_ignore_case(s, "whpx"@) implies #[trigger] AccelKind::named(s) == Some(AccelKind::Whpx) by {
        if eq_ignore_case(s, "kvm"@) {
            lemma_eq_ignore_case_trans(s, "whpx"@, "kvm"@);
        }
    }
    assert forall|s: Seq<char>| eq_ignore_case(s, "tcg"@) implies #[trigger] AccelKind::named(s) == Some(AccelKind::Tcg) by {
        if eq_ignore_case(s, "kvm"@) {
            lemma_eq_ignore_case_trans(s, "tcg"@, "kvm"@);
        }
        if eq_ignore_case(s, "whpx"@) {
            lemma_eq_ignore_case_trans(s, "tcg"@, "whpx"@);
        }
    }
    assert forall|s: Seq<char>| eq_ignore_case(s, "hax"@) implies #[trigger] AccelKind::named(s) == Some(AccelKind::Hax) by {
        if eq_ignore_case(s, "kvm"@) {
            lemma_eq_ignore_case_trans(s, "hax"@, "kvm"@);
        }
        if eq_ignore_case(s, "whpx"@) {
            lemma_eq_ignore_case_trans(s, "hax"@, "whpx"@);
        }
        if eq_ignore_case(s, "tcg"@) {
            lemma_eq_ignore_case_trans(s, "hax"@, "tcg"@);
        }
    }
}

/// The names of the `IrqChip` values, fixed by QEMU and by saved
/// configurations: each value has its own, and any text equal to one of
/// them, ASCII case ignored, reads back as that value.
pub proof fn law_irq_chip_names()
    ensures
        IrqChip::Off.name() == "off"@,
        IrqChip::Split.name() == "split"@,
        IrqChip::On.name() == "on"@,
        forall|s: Seq<char>| eq_ignore_case(s, "off"@) ==> #[trigger] IrqChip::named(s) == Some(IrqChip::Off),
        forall|s: Seq<char>| eq_ignore_case(s, "split"@) ==> #[trigger] IrqChip::named(s) == Some(IrqChip::Split),
        forall|s: Seq<char>| eq_ignore_case(s, "on"@) ==> #[trigger] IrqChip::named(s) == Some(IrqChip::On),
{
    reveal_strlit("off");
    reveal_strlit("split");
    reveal_strlit("on");
    assert forall|s: Seq<char>| eq_ignore_case(s, "off"@) implies #[trigger] IrqChip::named(s) == Some(IrqChip::Off) by {
    }
    assert forall|s: Seq<char>| eq_ignore_case(s, "split"@) implies #[trigger] IrqChip::named(s) == Some(IrqChip::Split) by {
        if eq_ignore_case(s, "off"@) {
            lemma_eq_ignore_case_trans(s, "split"@, "off"@);
        }
    }
    assert forall|s: Seq<char>| eq_ignore_case(s, "on"@) implies #[trigger] IrqChip::named(s) == Some(IrqChip::On) by {
        if eq_ignore_case(s, "off"@) {
            lemma_eq_ignore_case_trans(s, "on"@, "off"@);
        }
        if eq_ignore_case(s, "split"@) {
            lemma_eq_ignore_case_trans(s, "on"@, "split"@);
        }
    }
}

/// The names of the `VgaKind` values, fixed by QEMU and by saved
/// configurations: each value has its own, and any text equal to one of
/// them, ASCII case ignored, reads back as that value.
pub proof fn law_vga_kind_names()
    ensures
        VgaKind::Std.name() == "std"@,
        VgaKind::Virtio.name() == "virtio"@,
        VgaKind::Qxl.name() == "qxl"@,
        VgaKind::Vmware.name() == "vmware"@,
        VgaKind::Cirrus.name() == "cirrus"@,
        VgaKind::Disabled.name() == "none"@,
        forall|s: Seq<char>| eq_ignore_case(s, "std"@) ==> #[trigger] VgaKind::named(s) == Some(VgaKind::Std),
        forall|s: Seq<char>| eq_ignore_case(s, "virtio"@) ==> #[trigger] VgaKind::named(s) == Some(VgaKind::Virtio),
        forall|s: Seq<char>| eq_ignore_case(s, "qxl"@) ==> #[trigger] VgaKind::named(s) == Some(VgaKind::Qxl),
        forall|s: Seq<char>| eq_ignore_case(s, "vmware"@) ==> #[trigger] VgaKind::named(s) == Some(VgaKind::Vmware),
        forall|s: Seq<char>| eq_ignore_case(s, "cirrus"@) ==> #[trigger] VgaKind::named(s) == Some(VgaKind::Cirrus),
        forall|s: Seq<char>| eq_ignore_case(s, "none"@) ==> #[trigger] VgaKind::named(s) == Some(VgaKind::Disabled),
{
    reveal_strlit("std");
    reveal_strlit("virtio");
    reveal_strlit("qxl");
    reveal_strlit("vmware");
    reveal_strlit("cirrus");
    reveal_strlit("none");
    lemma_differs_at("qxl"@, "std"@, 0);
    lemma_differs_at("vmware"@, "virtio"@, 1);
    lemma_differs_at("cirrus"@, "virtio"@, 0);
    lemma_differs_at("cirrus"@, "vmware"@, 0);
    assert forall|s: Seq<char>| eq_ignore_case(s, "std"@) implies #[trigger] VgaKind::named(s) == Some(VgaKind::Std) by {
    }
    assert forall|s: Seq<char>| eq_ignore_case(s, "virtio"@) implies #[trigger] VgaKind::named(s) == Some(VgaKind::Virtio) by {
        if eq_ignore_case(s, "std"@) {
            lemma_eq_ignore_case_trans(s, "virtio"@, "std"@);
        }
    }
    assert forall|s: Seq<char>| eq_ignore_case(s, "qxl"@) implies #[trigger] VgaKind::named(s) == Some(VgaKind::Qxl) by {
        if eq_ignore_case(s, "std"@) {
            lemma_eq_ignore_case_trans(s, "qxl"@, "std"@);
        }
        if eq_ignore_case(s, "virtio"@) {
            lemma_eq_ignore_case_trans(s, "qxl"@, "virtio"@);
        }
    }
    assert forall|s: Seq<char>| eq_ignore_case(s, "vmware"@) implies #[trigger] VgaKind::named(s) == Some(VgaKind::Vmware) by {
        if eq_ignore_case(s, "std"@) {
            lemma_eq_ignore_case_trans(s, "vmware"@, "std"@);
        }
        if eq_ignore_case(s, "virtio"@) {
            lemma_eq_ignore_case_trans(s, "vmware"@, "virtio"@);
        }
        if eq_ignore_case(s, "qxl"@) {
            lemma_eq_ignore_case_trans(s, "vmware"@, "qxl"@);
        }
    }
    assert forall|s: Seq<char>| eq_ignore_case(s, "cirrus"@) implies #[trigger] VgaKind::named(s) == Some(VgaKind::Cirrus) by {
        if eq_ignore_case(s, "std"@) {
            lemma_eq_ignore_case_trans(s, "cirrus"@, "std"@);
        }
        if eq_ignore_case(s, "virtio"@) {
            lemma_eq_ignore_case_trans(s, "cirrus"@, "virtio"@);
        }
        if eq_ignore_case(s, "qxl"@) {
            lemma_eq_ignore_case_trans(s, "cirrus"@, "qxl"@);
        }
        if eq_ignore_case(s, "vmware"@) {
            lemma_eq_ignore_case_trans(s, "cirrus"@, "vmware"@);
        }
    }
    assert forall|s: Seq<char>| eq_ignore_case(s, "none"@) implies #[trigger] VgaKind::named(s) == Some(VgaKind::Disabled) by {
        if eq_ignore_case(s, "std"@) {
            lemma_eq_ignore_case_trans(s, "none"@, "std"@);
        }
        if eq_ignore_case(s, "virtio"@) {
            lemma_eq_ignore_case_trans(s, "none"@, "virtio"@);
        }
        if eq_ignore_case(s, "qxl"@) {
            lemma_eq_ignore_case_trans(s, "none"@, "qxl"@);
        }
        if eq_ignore_case(s, "vmware"@) {
            lemma_eq_ignore_case_trans(s, "none"@, "vmware"@);
        }
        if eq_ignore_case(s, "cirrus"@) {
            lemma_eq_ignore_case_trans(s, "none"@, "cirrus"@);
        }
    }
}

/// The names of the `NicModel` values, fixed by QEMU and by saved
/// configurations: each value has its own, and any text equal to one of
/// them, ASCII case ignored, reads back as that value.
pub proof fn law_nic_model_names()
    ensures
        NicModel::VirtioNet.name() == "virtio-net"@,
        NicModel::E1000.name() == "e1000"@,
        NicModel::Rtl8139.name() == "rtl8139"@,
        NicModel::Ne2kPci.name() == "ne2k_pci"@,
        NicModel::Pcnet.name() == "pcnet"@,
        forall|s: Seq<char>| eq_ignore_case(s, "virtio-net"@) ==> #[trigger] NicModel::named(s) == Some(NicModel::VirtioNet),
        forall|s: Seq<char>| eq_ignore_case(s, "e1000"@) ==> #[trigger] NicModel::named(s) == Some(NicModel::E1000),
        forall|s: Seq<char>| eq_ignore_case(s, "rtl8139"@) ==> #[trigger] NicModel::named(s) == Some(NicModel::Rtl8139),
        forall|s: Seq<char>| eq_ignore_case(s, "ne2k_pci"@) ==> #[trigger] NicModel::named(s) == Some(NicModel::Ne2kPci),
        forall|s: Seq<char>| eq_ignore_case(s, "pcnet"@) ==> #[trigger] NicModel::named(s) == Some(NicModel::Pcnet),
{
    reveal_strlit("virtio-net");
    reveal_strlit("e1000");
    reveal_strlit("rtl8139");
    reveal_strlit("ne2k_pci");
    reveal_strlit("pcnet");
    lemma_differs_at("pcnet"@, "e1000"@, 0);
    assert forall|s: Seq<char>| eq_ignore_case(s, "virtio-net"@) implies #[trigger] NicModel::named(s) == Some(NicModel::VirtioNet) by {
    }
    assert forall|s: Seq<char>| eq_ignore_case(s, "e1000"@) implies #[trigger] NicModel::named(s) == Some(NicModel::E1000) by {
        if eq_ignore_case(s, "virtio-net"@) {
            lemma_eq_ignore_case_trans(s, "e1000"@, "virtio-net"@);
        }
    }
    assert forall|s: Seq<char>| eq_ignore_case(s, "rtl8139"@) implies #[trigger] NicModel::named(s) == Some(NicModel::Rtl8139) by {
        if eq_ignore_case(s, "virtio-net"@) {
            lemma_eq_ignore_case_trans(s, "rtl8139"@, "virtio-net"@);
        }
        if eq_ignore_case(s, "e1000"@) {
            lemma_eq_ignore_case_trans(s, "rtl8139"@, "e1000"@);
        }
    }
    assert forall|s: Seq<char>| eq_ignore_case(s, "ne2k_pci"@) implies #[trigger] NicModel::named(s) == Some(NicModel::Ne2kPci) by {
        if eq_ignore_case(s, "virtio-net"@) {
            lemma_eq_ignore_case_trans(s, "ne2k_pci"@, "virtio-net"@);
        }
        if eq_ignore_case(s, "e1000"@) {
            lemma_eq_ignore_case_trans(s, "ne2k_pci"@, "e1000"@);
        }
        if eq_ignore_case(s, "rtl8139"@) {
            lemma_eq_ignore_case_trans(s, "ne2k_pci"@, "rtl8139"@);
        }
    }
    assert forall|s: Seq<char>| eq_ignore_case(s, "pcnet"@) implies #[trigger] NicModel::named(s) == Some(NicModel::Pcnet) by {
        if eq_ignore_case(s, "virtio-net"@) {
            lemma_eq_ignore_case_trans(s, "pcnet"@, "virtio-net"@);
        }
        if eq_ignore_case(s, "e1000"@) {
            lemma_eq_ignore_case_trans(s, "pcnet"@, "e1000"@);
        }
        if eq_ignore_case(s, "rtl8139"@) {
            lemma_eq_ignore_case_trans(s, "pcnet"@, "rtl8139"@);
        }
        if eq_ignore_case(s, "ne2k_pci"@) {
            lemma_eq_ignore_case_trans(s, "pcnet"@, "ne2k_pci"@);
        }
    }
}

/// The names of the `NetBackend` values, fixed by QEMU and by saved
/// configurations: each value has its own, and any text equal to one of
/// them, ASCII case ignored, reads back as that value.
pub proof fn law_net_backend_names()
    ensures
        NetBackend::User.name() == "user"@,
        NetBackend::Tap.name() == "tap"@,
        forall|s: Seq<char>| eq_ignore_case(s, "user"@) ==> #[trigger] NetBackend::named(s) == Some(NetBackend::User),
        forall|s: Seq<char>| eq_ignore_case(s, "tap"@) ==> #[trigger] NetBackend::named(s) == Some(NetBackend::Tap),
{
    reveal_strlit("user");
    reveal_strlit("tap");
    assert forall|s: Seq<char>| eq_ignore_case(s, "user"@) implies #[trigger] NetBackend::named(s) == Some(NetBackend::User) by {
    }
    assert forall|s: Seq<char>| eq_ignore_case(s, "tap"@) implies #[trigger] NetBackend::named(s) == Some(NetBackend::Tap) by {
        if eq_ignore_case(s, "user"@) {
            lemma_eq_ignore_case_trans(s, "tap"@, "user"@);
        }
    }
}

/// The names of the `AudioDev` values, fixed by QEMU and by saved
/// configurations: each value has its own, and any text equal to one of
/// them, ASCII case ignored, reads back as that value.
pub proof fn law_audio_dev_names()
    ensures
        AudioDev::Disabled.name() == "none"@,
        AudioDev::Pa.name() == "pa"@,
        AudioDev::Alsa.name() == "alsa"@,
        AudioDev::Dsound.name() == "dsound"@,
        forall|s: Seq<char>| eq_ignore_case(s, "none"@) ==> #[trigger] AudioDev::named(s) == Some(AudioDev::Disabled),
        forall|s: Seq<char>| eq_ignore_case(s, "pa"@) ==> #[trigger] AudioDev::named(s) == Some(AudioDev::Pa),
        forall|s: Seq<char>| eq_ignore_case(s, "alsa"@) ==> #[trigger] AudioDev::named(s) == Some(AudioDev::Alsa),
        forall|s: Seq<char>| eq_ignore_case(s, "dsound"@) ==> #[trigger] AudioDev::named(s) == Some(AudioDev::Dsound),
{
    reveal_strlit("none");
    reveal_strlit("pa");
    reveal_strlit("alsa");
    reveal_strlit("dsound");
    lemma_differs_at("alsa"@, "none"@, 0);
    assert forall|s: Seq<char>| eq_ignore_case(s, "none"@) implies #[trigger] AudioDev::named(s) == Some(AudioDev::Disabled) by {
    }
    assert forall|s: Seq<char>| eq_ignore_case(s, "pa"@) implies #[trigger] AudioDev::named(s) == Some(AudioDev::Pa) by {
        if eq_ignore_case(s, "none"@) {
            lemma_eq_ignore_case_trans(s, "pa"@, "none"@);
        }
    }
    assert forall|s: Seq<char>| eq_ignore_case(s, "alsa"@) implies #[trigger] AudioDev::named(s) == Some(AudioDev::Alsa) by {
        if eq_ignore_case(s, "none"@) {
            lemma_eq_ignore_case_trans(s, "alsa"@, "none"@);
        }
        if eq_ignore_case(s, "pa"@) {
            lemma_eq_ignore_case_trans(s, "alsa"@, "pa"@);
        }
    }
    assert forall|s: Seq<char>| eq_ignore_case(s, "dsound"@) implies #[trigger] AudioDev::named(s) == Some(AudioDev::Dsound) by {
        if eq_ignore_case(s, "none"@) {
            lemma_eq_ignore_case_trans(s, "dsound"@, "none"@);
        }
        if eq_ignore_case(s, "pa"@) {
            lemma_eq_ignore_case_trans(s, "dsound"@, "pa"@);
        }
        if eq_ignore_case(s, "alsa"@) {
            lemma_eq_ignore_case_trans(s, "dsound"@, "alsa"@);
        }
    }
}

/// The names of the `SoundHw` values, fixed by QEMU and by saved
/// configurations: each value has its own, and any text equal to one of
/// them, ASCII case ignored, reads back as that value.
pub proof fn law_sound_hw_names()
    ensures
        SoundHw::Disabled.name() == "none"@,
        SoundHw::IntelHda.name() == "intel-hda"@,
        SoundHw::Ac97.name() == "ac97"@,
        SoundHw::Sb16.name() == "sb16"@,
        SoundHw::Es1370.name() == "es1370"@,
        forall|s: Seq<char>| eq_ignore_case(s, "none"@) ==> #[trigger] SoundHw::named(s) == Some(SoundHw::Disabled),
        forall|s: Seq<char>| eq_ignore_case(s, "intel-hda"@) ==> #[trigger] SoundHw::named(s) == Some(SoundHw::IntelHda),
        forall|s: Seq<char>| eq_ignore_case(s, "ac97"@) ==> #[trigger] SoundHw::named(s) == Some(SoundHw::Ac97),
        forall|s: Seq<char>| eq_ignore_case(s, "sb16"@) ==> #[trigger] SoundHw::named(s) == Some(SoundHw::Sb16),
        forall|s: Seq<char>| eq_ignore_case(s, "es1370"@) ==> #[trigger] SoundHw::named(s) == Some(SoundHw::Es1370),
{
    reveal_strlit("none");
    reveal_strlit("intel-hda");
    reveal_strlit("ac97");
    reveal_strlit("sb16");
    reveal_strlit("es1370");
    lemma_differs_at("ac97"@, "none"@, 0);
    lemma_differs_at("sb16"@, "none"@, 0);
    lemma_differs_at("sb16"@, "ac97"@, 0);
    assert forall|s: Seq<char>| eq_ignore_case(s, "none"@) implies #[trigger] SoundHw::named(s) == Some(SoundHw::Disabled) by {
    }
    assert forall|s: Seq<char>| eq_ignore_case(s, "intel-hda"@) implies #[trigger] SoundHw::named(s) == Some(SoundHw::IntelHda) by {
        if eq_ignore_case(s, "none"@) {
            lemma_eq_ignore_case_trans(s, "intel-hda"@, "none"@);
        }
    }
    assert forall|s: Seq<char>| eq_ignore_case(s, "ac97"@) implies #[trigger] SoundHw::named(s) == Some(SoundHw::Ac97) by {
        if eq_ignore_case(s, "none"@) {
            lemma_eq_ignore_case_trans(s, "ac97"@, "none"@);
        }
        if eq_ignore_case(s, "intel-hda"@) {
            lemma_eq_ignore_case_trans(s, "ac97"@, "intel-hda"@);
        }
    }
    assert forall|s: Seq<char>| eq_ignore_case(s, "sb16"@) implies #[trigger] SoundHw::named(s) == Some(SoundHw::Sb16) by {
        if eq_ignore_case(s, "none"@) {
            lemma_eq_ignore_case_trans(s, "sb16"@, "none"@);
        }
        if eq_ignore_case(s, "intel-hda"@) {
            lemma_eq_ignore_case_trans(s, "sb16"@, "intel-hda"@);
        }
        if eq_ignore_case(s, "ac97"@) {
            lemma_eq_ignore_case_trans(s, "sb16"@, "ac97"@);
        }
    }
    assert forall|s: Seq<char>| eq_ignore_case(s, "es1370"@) implies #[trigger] SoundHw::named(s) == Some(SoundHw::Es1370) by {
        if eq_ignore_case(s, "none"@) {
            lemma_eq_ignore_case_trans(s, "es1370"@, "none"@);
        }
        if eq_ignore_case(s, "intel-hda"@) {
            lemma_eq_ignore_case_trans(s, "es1370"@, "intel-hda"@);
        }
        if eq_ignore_case(s, "ac97"@) {
            lemma_eq_ignore_case_trans(s, "es1370"@, "ac97"@);
        }
        if eq_ignore_case(s, "sb16"@) {
            lemma_eq_ignore_case_trans(s, "es1370"@, "sb16"@);
        }
    }
}

/// The names of the `UsbDevice` values, fixed by QEMU and by saved
/// configurations: each value has its own, and any text equal to one of
/// them, ASCII case ignored, reads back as that value.
pub proof fn law_usb_device_names()
    ensures
        UsbDevice::Tablet.name() == "usb-tablet"@,
        UsbDevice::Mouse.name() == "usb-mouse"@,
        UsbDevice::Disabled.name() == "none"@,
        forall|s: Seq<char>| eq_ignore_case(s, "usb-tablet"@) ==> #[trigger] UsbDevice::named(s) == Some(UsbDevice::Tablet),
        forall|s: Seq<char>| eq_ignore_case(s, "usb-mouse"@) ==> #[trigger] UsbDevice::named(s) == Some(UsbDevice::Mouse),
        forall|s: Seq<char>| eq_ignore_case(s, "none"@) ==> #[trigger] UsbDevice::named(s) == Some(UsbDevice::Disabled),
{
    reveal_strlit("usb-tablet");
    reveal_strlit("usb-mouse");
    reveal_strlit("none");
    assert forall|s: Seq<char>| eq_ignore_case(s, "usb-tablet"@) implies #[trigger] UsbDevice::named(s) == Some(UsbDevice::Tablet) by {
    }
    assert forall|s: Seq<char>| eq_ignore_case(s, "usb-mouse"@) implies #[trigger] UsbDevice::named(s) == Some(UsbDevice::Mouse) by {
        if eq_ignore_case(s, "usb-tablet"@) {
            lemma_eq_ignore_case_trans(s, "usb-mouse"@, "usb-tablet"@);
        }
    }
    assert forall|s: Seq<char>| eq_ignore_case(s, "none"@) implies #[trigger] UsbDevice::named(s) == Some(UsbDevice::Disabled) by {
        if eq_ignore_case(s, "usb-tablet"@) {
            lemma_eq_ignore_case_trans(s, "none"@, "usb-tablet"@);
        }
        if eq_ignore_case(s, "usb-mouse"@) {
            lemma_eq_ignore_case_trans(s, "none"@, "usb-mouse"@);
        }
    }
}

/// The names of the `DriveCache` values, fixed by QEMU and by saved
/// configurations: each value has its own, and any text equal to one of
/// them, ASCII case ignored, reads back as that value.
pub proof fn law_drive_cache_names()
    ensures
        DriveCache::Writeback.name() == "writeback"@,
        DriveCache::Disabled.name() == "none"@,
        DriveCache::Writethrough.name() == "writethrough"@,
        DriveCache::Unsafe.name() == "unsafe"@,
        DriveCache::Directsync.name() == "directsync"@,
        forall|s: Seq<char>| eq_ignore_case(s, "writeback"@) ==> #[trigger] DriveCache::named(s) == Some(DriveCache::Writeback),
        forall|s: Seq<char>| eq_ignore_case(s, "none"@) ==> #[trigger] DriveCache::named(s) == Some(DriveCache::Disabled),
        forall|s: Seq<char>| eq_ignore_case(s, "writethrough"@) ==> #[trigger] DriveCache::named(s) == Some(DriveCache::Writethrough),
        forall|s: Seq<char>| eq_ignore_case(s, "unsafe"@) ==> #[trigger] DriveCache::named(s) == Some(DriveCache::Unsafe),
        forall|s: Seq<char>| eq_ignore_case(s, "directsync"@) ==> #[trigger] DriveCache::named(s) == Some(DriveCache::Directsync),
{
    reveal_strlit("writeback");
    reveal_strlit("none");
    reveal_strlit("writethrough");
    reveal_strlit("unsafe");
    reveal_strlit("directsync");
    assert forall|s: Seq<char>| eq_ignore_case(s, "writeback"@) implies #[trigger] DriveCache::named(s) == Some(DriveCache::Writeback) by {
    }
    assert forall|s: Seq<char>| eq_ignore_case(s, "none"@) implies #[trigger] DriveCache::named(s) == Some(DriveCache::Disabled) by {
        if eq_ignore_case(s, "writeback"@) {
            lemma_eq_ignore_case_trans(s, "none"@, "writeback"@);
        }
    }
    assert forall|s: Seq<char>| eq_ignore_case(s, "writethrough"@) implies #[trigger] DriveCache::named(s) == Some(DriveCache::Writethrough) by {
        if eq_ignore_case(s, "writeback"@) {
            lemma_eq_ignore_case_trans(s, "writethrough"@, "writeback"@);
        }
        if eq_ignore_case(s, "none"@) {
            lemma_eq_ignore_case_trans(s, "writethrough"@, "none"@);
        }
    }
    assert forall|s: Seq<char>| eq_ignore_case(s, "unsafe"@) implies #[trigger] DriveCache::named(s) == Some(DriveCache::Unsafe) by {
        if eq_ignore_case(s, "writeback"@) {
            lemma_eq_ignore_case_trans(s, "unsafe"@, "writeback"@);
        }
        if eq_ignore_case(s, "none"@) {
            lemma_eq_ignore_case_trans(s, "unsafe"@, "none"@);
        }
        if eq_ignore_case(s, "writethrough"@) {
            lemma_eq_ignore_case_trans(s, "unsafe"@, "writethrough"@);
        }
    }
    assert forall|s: Seq<char>| eq_ignore_case(s, "directsync"@) implies #[trigger] DriveCache::named(s) == Some(DriveCache::Directsync) by {
        if eq_ignore_case(s, "writeback"@) {
            lemma_eq_ignore_case_trans(s, "directsync"@, "writeback"@);
        }
        if eq_ignore_case(s, "none"@) {
            lemma_eq_ignore_case_trans(s, "directsync"@, "none"@);
        }
        if eq_ignore_case(s, "writethrough"@) {
            lemma_eq_ignore_case_trans(s, "directsync"@, "writethrough"@);
        }
        if eq_ignore_case(s, "unsafe"@) {
            lemma_eq_ignore_case_trans(s, "directsync"@, "unsafe"@);
        }
    }
}

/// The names of the `DriveAio` values, fixed by QEMU and by saved
/// configurations: each value has its own, and any text equal to one of
/// them, ASCII case ignored, reads back as that value.
pub proof fn law_drive_aio_names()
    ensures
        DriveAio::Threads.name() == "threads"@,
        DriveAio::Native.name() == "native"@,
        DriveAio::IoUring.name() == "io_uring"@,
        forall|s: Seq<char>| eq_ignore_case(s, "threads"@) ==> #[trigger] DriveAio::named(s) == Some(DriveAio::Threads),
        forall|s: Seq<char>| eq_ignore_case(s, "native"@) ==> #[trigger] DriveAio::named(s) == Some(DriveAio::Native),
        forall|s: Seq<char>| eq_ignore_case(s, "io_uring"@) ==> #[trigger] DriveAio::named(s) == Some(DriveAio::IoUring),
{
    reveal_strlit("threads");
    reveal_strlit("native");
    reveal_strlit("io_uring");
    assert forall|s: Seq<char>| eq_ignore_case(s, "threads"@) implies #[trigger] DriveAio::named(s) == Some(DriveAio::Threads) by {
    }
    assert forall|s: Seq<char>| eq_ignore_case(s, "native"@) implies #[trigger] DriveAio::named(s) == Some(DriveAio::Native) by {
        if eq_ignore_case(s, "threads"@) {
            lemma_eq_ignore_case_trans(s, "native"@, "threads"@);
        }
    }
    assert forall|s: Seq<char>| eq_ignore_case(s, "io_uring"@) implies #[trigger] DriveAio::named(s) == Some(DriveAio::IoUring) by {
        if eq_ignore_case(s, "threads"@) {
            lemma_eq_ignore_case_trans(s, "io_uring"@, "threads"@);
        }
        if eq_ignore_case(s, "native"@) {
            lemma_eq_ignore_case_trans(s, "io_uring"@, "native"@);
        }
    }
}

/// The names of the `DriveIf` values, fixed by QEMU and by saved
/// configurations: each value has its own, and any text equal to one of
/// them, ASCII case ignored, reads back as that value.
pub proof fn law_drive_if_names()
    ensures
        DriveIf::Virtio.name() == "virtio"@,
        DriveIf::Ide.name() == "ide"@,
        DriveIf::Sata.name() == "sata"@,
        DriveIf::Sd.name() == "sd"@,
        forall|s: Seq<char>| eq_ignore_case(s, "virtio"@) ==> #[trigger] DriveIf::named(s) == Some(DriveIf::Virtio),
        forall|s: Seq<char>| eq_ignore_case(s, "ide"@) ==> #[trigger] DriveIf::named(s) == Some(DriveIf::Ide),
        forall|s: Seq<char>| eq_ignore_case(s, "sata"@) ==> #[trigger] DriveIf::named(s) == Some(DriveIf::Sata),
        forall|s: Seq<char>| eq_ignore_case(s, "sd"@) ==> #[trigger] DriveIf::named(s) == Some(DriveIf::Sd),
{
    reveal_strlit("virtio");
    reveal_strlit("ide");
    reveal_strlit("sata");
    reveal_strlit("sd");
    assert forall|s: Seq<char>| eq_ignore_case(s, "virtio"@) implies #[trigger] DriveIf::named(s) == Some(DriveIf::Virtio) by {
    }
    assert forall|s: Seq<char>| eq_ignore_case(s, "ide"@) implies #[trigger] DriveIf::named(s) == Some(DriveIf::Ide) by {
        if eq_ignore_case(s, "virtio"@) {
            lemma_eq_ignore_case_trans(s, "ide"@, "virtio"@);
        }
    }
    assert forall|s: Seq<char>| eq_ignore_case(s, "sata"@) implies #[trigger] DriveIf::named(s) == Some(DriveIf::Sata) by {
        if eq_ignore_case(s, "virtio"@) {
            lemma_eq_ignore_case_trans(s, "sata"@, "virtio"@);
        }
        if eq_ignore_case(s, "ide"@) {
            lemma_eq_ignore_case_trans(s, "sata"@, "ide"@);
        }
    }
    assert forall|s: Seq<char>| eq_ignore_case(s, "sd"@) implies #[trigger] DriveIf::named(s) == Some(DriveIf::Sd) by {
        if eq_ignore_case(s, "virtio"@) {
            lemma_eq_ignore_case_trans(s, "sd"@, "virtio"@);
        }
        if eq_ignore_case(s, "ide"@) {
            lemma_eq_ignore_case_trans(s, "sd"@, "ide"@);
        }
        if eq_ignore_case(s, "sata"@) {
            lemma_eq_ignore_case_trans(s, "sd"@, "sata"@);
        }
    }
}

/// The names of the `RtcBase` values, fixed by QEMU and by saved
/// configurations: each value has its own, and any text equal to one of
/// them, ASCII case ignored, reads back as that value.
pub proof fn law_rtc_base_names()
    ensures
        RtcBase::Utc.name() == "utc"@,
        RtcBase::Localtime.name() == "localtime"@,
        forall|s: Seq<char>| eq_ignore_case(s, "utc"@) ==> #[trigger] RtcBase::named(s) == Some(RtcBase::Utc),
        forall|s: Seq<char>| eq_ignore_case(s, "localtime"@) ==> #[trigger] RtcBase::named(s) == Some(RtcBase::Localtime),
{
    reveal_strlit("utc");
    reveal_strlit("localtime");
    assert forall|s: Seq<char>| eq_ignore_case(s, "utc"@) implies #[trigger] RtcBase::named(s) == Some(RtcBase::Utc) by {
    }
    assert forall|s: Seq<char>| eq_ignore_case(s, "localtime"@) implies #[trigger] RtcBase::named(s) == Some(RtcBase::Localtime) by {
        if eq_ignore_case(s, "utc"@) {
            lemma_eq_ignore_case_trans(s, "localtime"@, "utc"@);
        }
    }
}

/// The names of the `WatchdogKind` values, fixed by QEMU and by saved
/// configurations: each value has its own, and any text equal to one of
/// them, ASCII case ignored, reads back as that value.
pub proof fn law_watchdog_kind_names()
    ensures
        WatchdogKind::Off.name() == ""@,
        WatchdogKind::I6300esb.name() == "i6300esb"@,
        WatchdogKind::Ib700.name() == "ib700"@,
        forall|s: Seq<char>| eq_ignore_case(s, ""@) ==> #[trigger] WatchdogKind::named(s) == Some(WatchdogKind::Off),
        forall|s: Seq<char>| eq_ignore_case(s, "i6300esb"@) ==> #[trigger] WatchdogKind::named(s) == Some(WatchdogKind::I6300esb),
        forall|s: Seq<char>| eq_ignore_case(s, "ib700"@) ==> #[trigger] WatchdogKind::named(s) == Some(WatchdogKind::Ib700),
{
    reveal_strlit("");
    reveal_strlit("i6300esb");
    reveal_strlit("ib700");
    assert forall|s: Seq<char>| eq_ignore_case(s, ""@) implies #[trigger] WatchdogKind::named(s) == Some(WatchdogKind::Off) by {
    }
    assert forall|s: Seq<char>| eq_ignore_case(s, "i6300esb"@) implies #[trigger] WatchdogKind::named(s) == Some(WatchdogKind::I6300esb) by {
        if eq_ignore_case(s, ""@) {
            lemma_eq_ignore_case_trans(s, "i6300esb"@, ""@);
        }
    }
    assert forall|s: Seq<char>| eq_ignore_case(s, "ib700"@) implies #[trigger] WatchdogKind::named(s) == Some(WatchdogKind::Ib700) by {
        if eq_ignore_case(s, ""@) {
            lemma_eq_ignore_case_trans(s, "ib700"@, ""@);
        }
        if eq_ignore_case(s, "i6300esb"@) {
            lemma_eq_ignore_case_trans(s, "ib700"@, "i6300esb"@);
        }
    }
}

/// The names of the `WatchdogAction` values, fixed by QEMU and by saved
/// configurations: each value has its own, and any text equal to one of
/// them, ASCII case ignored, reads back as that value.
pub proof fn law_watchdog_action_names()
    ensures
        WatchdogAction::Reset.name() == "reset"@,
        WatchdogAction::Shutdown.name() == "shutdown"@,
        WatchdogAction::Poweroff.name() == "poweroff"@,
        WatchdogAction::InjectNmi.name() == "inject-nmi"@,
        WatchdogAction::Disabled.name() == "none"@,
        WatchdogAction::Pause.name() == "pause"@,
        WatchdogAction::Debug.name() == "debug"@,
        forall|s: Seq<char>| eq_ignore_case(s, "reset"@) ==> #[trigger] WatchdogAction::named(s) == Some(WatchdogAction::Reset),
        forall|s: Seq<char>| eq_ignore_case(s, "shutdown"@) ==> #[trigger] WatchdogAction::named(s) == Some(WatchdogAction::Shutdown),
        forall|s: Seq<char>| eq_ignore_case(s, "poweroff"@) ==> #[trigger] WatchdogAction::named(s) == Some(WatchdogAction::Poweroff),
        forall|s: Seq<char>| eq_ignore_case(s, "inject-nmi"@) ==> #[trigger] WatchdogAction::named(s) == Some(WatchdogAction::InjectNmi),
        forall|s: Seq<char>| eq_ignore_case(s, "none"@) ==> #[trigger] WatchdogAction::named(s) == Some(WatchdogAction::Disabled),
        forall|s: Seq<char>| eq_ignore_case(s, "pause"@) ==> #[trigger] WatchdogAction::named(s) == Some(WatchdogAction::Pause),
        forall|s: Seq<char>| eq_ignore_case(s, "debug"@) ==> #[trigger] WatchdogAction::named(s) == Some(WatchdogAction::Debug),
{
    reveal_strlit("reset");
    reveal_strlit("shutdown");
    reveal_strlit("poweroff");
    reveal_strlit("inject-nmi");
    reveal_strlit("none");
    reveal_strlit("pause");
    reveal_strlit("debug");
    lemma_differs_at("poweroff"@, "shutdown"@, 0);
    lemma_differs_at("pause"@, "reset"@, 0);
    lemma_differs_at("debug"@, "reset"@, 0);
    lemma_differs_at("debug"@, "pause"@, 0);
    assert forall|s: Seq<char>| eq_ignore_case(s, "reset"@) implies #[trigger] WatchdogAction::named(s) == Some(WatchdogAction::Reset) by {
    }
    assert forall|s: Seq<char>| eq_ignore_case(s, "shutdown"@) implies #[trigger] WatchdogAction::named(s) == Some(WatchdogAction::Shutdown) by {
        if eq_ignore_case(s, "reset"@) {
            lemma_eq_ignore_case_trans(s, "shutdown"@, "reset"@);
        }
    }
    assert forall|s: Seq<char>| eq_ignore_case(s, "poweroff"@) implies #[trigger] WatchdogAction::named(s) == Some(WatchdogAction::Poweroff) by {
        if eq_ignore_case(s, "reset"@) {
            lemma_eq_ignore_case_trans(s, "poweroff"@, "reset"@);
        }
        if eq_ignore_case(s, "shutdown"@) {
            lemma_eq_ignore_case_trans(s, "poweroff"@, "shutdown"@);
        }
    }
    assert forall|s: Seq<char>| eq_ignore_case(s, "inject-nmi"@) implies #[trigger] WatchdogAction::named(s) == Some(WatchdogAction::InjectNmi) by {
        if eq_ignore_case(s, "reset"@) {
            lemma_eq_ignore_case_trans(s, "inject-nmi"@, "reset"@);
        }
        if eq_ignore_case(s, "shutdown"@) {
            lemma_eq_ignore_case_trans(s, "inject-nmi"@, "shutdown"@);
        }
        if eq_ignore_case(s, "poweroff"@) {
            lemma_eq_ignore_case_trans(s, "inject-nmi"@, "poweroff"@);
        }
    }
    assert forall|s: Seq<char>| eq_ignore_case(s, "none"@) implies #[trigger] WatchdogAction::named(s) == Some(WatchdogAction::Disabled) by {
        if eq_ignore_case(s, "reset"@) {
            lemma_eq_ignore_case_trans(s, "none"@, "reset"@);
        }
        if eq_ignore_case(s, "shutdown"@) {
            lemma_eq_ignore_case_trans(s, "none"@, "shutdown"@);
        }
        if eq_ignore_case(s, "poweroff"@) {
            lemma_eq_ignore_case_trans(s, "none"@, "poweroff"@);
        }
        if eq_ignore_case(s, "inject-nmi"@) {
            lemma_eq_ignore_case_trans(s, "none"@, "inject-nmi"@);
        }
    }
    assert forall|s: Seq<char>| eq_ignore_case(s, "pause"@) implies #[trigger] WatchdogAction::named(s) == Some(WatchdogAction::Pause) by {
        if eq_ignore_case(s, "reset"@) {
            lemma_eq_ignore_case_trans(s, "pause"@, "reset"@);
        }
        if eq_ignore_case(s, "shutdown"@) {
            lemma_eq_ignore_case_trans(s, "pause"@, "shutdown"@);
        }
        if eq_ignore_case(s, "poweroff"@) {
            lemma_eq_ignore_case_trans(s, "pause"@, "poweroff"@);
        }
        if eq_ignore_case(s, "inject-nmi"@) {
            lemma_eq_ignore_case_trans(s, "pause"@, "inject-nmi"@);
        }
        if eq_ignore_case(s, "none"@) {
            lemma_eq_ignore_case_trans(s, "pause"@, "none"@);
        }
    }
    assert forall|s: Seq<char>| eq_ignore_case(s, "debug"@) implies #[trigger] WatchdogAction::named(s) == Some(WatchdogAction::Debug) by {
        if eq_ignore_case(s, "reset"@) {
            lemma_eq_ignore_case_trans(s, "debug"@, "reset"@);
        }
        if eq_ignore_case(s, "shutdown"@) {
            lemma_eq_ignore_case_trans(s, "debug"@, "shutdown"@);
        }
        if eq_ignore_case(s, "poweroff"@) {
            lemma_eq_ignore_case_trans(s, "debug"@, "poweroff"@);
        }
        if eq_ignore_case(s, "inject-nmi"@) {
            lemma_eq_ignore_case_trans(s, "debug"@, "inject-nmi"@);
        }
        if eq_ignore_case(s, "none"@) {
            lemma_eq_ignore_case_trans(s, "debug"@, "none"@);
        }
        if eq_ignore_case(s, "pause"@) {
            lemma_eq_ignore_case_trans(s, "debug"@, "pause"@);
        }
    }
}

/// The names of the `BootMenu` values, fixed by QEMU and by saved
/// configurations: each value has its own, and any text equal to one of
/// them, ASCII case ignored, reads back as that value.
pub proof fn law_boot_menu_names()
    ensures
        BootMenu::On.name() == "on"@,
        BootMenu::Off.name() == "off"@,
        forall|s: Seq<char>| eq_ignore_case(s, "on"@) ==> #[trigger] BootMenu::named(s) == Some(BootMenu::On),
        forall|s: Seq<char>| eq_ignore_case(s, "off"@) ==> #[trigger] BootMenu::named(s) == Some(BootMenu::Off),
{
    reveal_strlit("on");
    reveal_strlit("off");
    assert forall|s: Seq<char>| eq_ignore_case(s, "on"@) implies #[trigger] BootMenu::named(s) == Some(BootMenu::On) by {
    }
    assert forall|s: Seq<char>| eq_ignore_case(s, "off"@) implies #[trigger] BootMenu::named(s) == Some(BootMenu::Off) by {
        if eq_ignore_case(s, "on"@) {
            lemma_eq_ignore_case_trans(s, "off"@, "on"@);
        }
    }
}

/// The names of the `BootStrict` values, fixed by QEMU and by saved
/// configurations: each value has its own, and any text equal to one of
/// them, ASCII case ignored, reads back as that value.
pub proof fn law_boot_strict_names()
    ensures
        BootStrict::On.name() == "on"@,
        BootStrict::Off.name() == "off"@,
        forall|s: Seq<char>| eq_ignore_case(s, "on"@) ==> #[trigger] BootStrict::named(s) == Some(BootStrict::On),
        forall|s: Seq<char>| eq_ignore_case(s, "off"@) ==> #[trigger] BootStrict::named(s) == Some(BootStrict::Off),
{
    reveal_strlit("on");
    reveal_strlit("off");
    assert forall|s: Seq<char>| eq_ignore_case(s, "on"@) implies #[trigger] BootStrict::named(s) == Some(BootStrict::On) by {
    }
    assert forall|s: Seq<char>| eq_ignore_case(s, "off"@) implies #[trigger] BootStrict::named(s) == Some(BootStrict::Off) by {
        if eq_ignore_case(s, "on"@) {
            lemma_eq_ignore_case_trans(s, "off"@, "on"@);
        }
    }
}

} // verus!
