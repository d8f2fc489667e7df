//! The QEMU command line that a configuration stands for.
use vstd::prelude::*;
use vstd::seq_lib::lemma_concat_associative;

use crate::config::Config;
use crate::options::{
    AudioDev, BootMenu, BootStrict, Choice, DisplayKind, IrqChip, OnOff, SoundHw, UsbDevice,
    VgaKind, VmPort,
};
use crate::text::{
    decimal, join, join_text, lemma_views_push, split_words, u32_text, views, words,
};

verus! {

/// A single-element sequence when `b` holds, else the empty one.
pub open spec fn opt(b: bool, x: Seq<char>) -> Seq<Seq<char>> {
    if b {
        seq![x]
    } else {
        seq![]
    }
}

/// `x` when `b` holds, else the empty text.
pub open spec fn opt_text(b: bool, x: Seq<char>) -> Seq<char> {
    if b {
        x
    } else {
        seq![]
    }
}

/// The comma-separated items of `-machine`: type, accelerator, then each
/// setting that differs from QEMU's own default.
pub open spec fn machine_items(c: Config) -> Seq<Seq<char>> {
    seq![c.machine_type.name(), "accel="@ + c.accel.name()] + opt(
        c.kernel_irqchip != IrqChip::On,
        "kernel-irqchip="@ + c.kernel_irqchip.name(),
    ) + opt(c.vmport != VmPort::Auto, "vmport="@ + c.vmport.name()) + opt(
        c.dump_guest_core != OnOff::On,
        "dump-guest-core="@ + c.dump_guest_core.name(),
    )
}

/// `-machine <items>`.
pub open spec fn machine_args(c: Config) -> Seq<Seq<char>> {
    seq!["-machine"@, join(machine_items(c), ","@)]
}

/// `-cpu <model>`, left out when no model is set.
pub open spec fn cpu_args(c: Config) -> Seq<Seq<char>> {
    if c.cpu_model@.len() > 0 {
        seq!["-cpu"@, c.cpu_model@]
    } else {
        seq![]
    }
}

/// The value of `-m`: the RAM size, with hotplug slots and the maximum when
/// both are set.
pub open spec fn memory_value(c: Config) -> Seq<char> {
    if c.mem_slots > 0 && c.mem_maxmb > 0 {
        decimal(c.ram_mb as nat) + "M,slots="@ + decimal(c.mem_slots as nat) + ",maxmem="@
            + decimal(c.mem_maxmb as nat) + "M"@
    } else {
        decimal(c.ram_mb as nat) + "M"@
    }
}

/// `-m <memory> -smp <cpus>`.
pub open spec fn cpu_memory_args(c: Config) -> Seq<Seq<char>> {
    seq!["-m"@, memory_value(c), "-smp"@, decimal(c.smp as nat)]
}

/// The value of `-drive` for the disk image.
pub open spec fn drive_value(c: Config) -> Seq<char> {
    "file="@ + c.disk_path@ + ",if="@ + c.drive_if.name() + ",format=qcow2,cache="@
        + c.drive_cache.name() + ",aio="@ + c.drive_aio.name()
}

/// `-drive <disk>`, then `-cdrom <iso>` when booting from the ISO.
pub open spec fn drive_args(c: Config, boot_from_cd: bool) -> Seq<Seq<char>> {
    seq!["-drive"@, drive_value(c)] + (if boot_from_cd {
        seq!["-cdrom"@, c.iso_path@]
    } else {
        seq![]
    })
}

/// `-boot order=<order>[,menu=on][,strict=on]`, left out without a boot order.
pub open spec fn boot_args(c: Config) -> Seq<Seq<char>> {
    if c.boot_order@.len() > 0 {
        seq![
            "-boot"@,
            "order="@ + c.boot_order@ + opt_text(c.boot_menu == BootMenu::On, ",menu=on"@)
                + opt_text(c.boot_strict == BootStrict::On, ",strict=on"@),
        ]
    } else {
        seq![]
    }
}

/// The network back end and card, joined by the id `net0`.
pub open spec fn net_args(c: Config) -> Seq<Seq<char>> {
    seq![
        "-netdev"@,
        c.net_backend.name() + ",id=net0"@,
        "-device"@,
        c.nic_model.name() + ",netdev=net0"@,
    ]
}

/// The QEMU device that stands for a graphics card given as `-device`.
pub open spec fn vga_device(v: VgaKind) -> Seq<char> {
    match v {
        VgaKind::Std => "VGA"@,
        VgaKind::Virtio => "virtio-vga"@,
        _ => "qxl"@,
    }
}

/// The graphics card: `-vga` for the legacy cards, nothing when disabled,
/// else `-device` with the monitor resolution when both sides are set.
pub open spec fn vga_args(c: Config) -> Seq<Seq<char>> {
    match c.vga {
        VgaKind::Vmware | VgaKind::Cirrus => seq!["-vga"@, c.vga.name()],
        VgaKind::Disabled => seq![],
        _ => seq![
            "-device"@,
            vga_device(c.vga) + opt_text(
                c.monitor_width > 0 && c.monitor_height > 0,
                ",xres="@ + decimal(c.monitor_width as nat) + ",yres="@ + decimal(
                    c.monitor_height as nat,
                ),
            ),
        ],
    }
}

/// `-display <kind>[,gl=on]`; GL only for an enabled display.
pub open spec fn display_args(c: Config) -> Seq<Seq<char>> {
    seq![
        "-display"@,
        c.display.name() + opt_text(
            c.display != DisplayKind::Disabled && c.display_gl == OnOff::On,
            ",gl=on"@,
        ),
    ]
}

/// `-usb -device <device>` unless USB is disabled.
pub open spec fn usb_args(c: Config) -> Seq<Seq<char>> {
    if c.usb_device != UsbDevice::Disabled {
        seq!["-usb"@, "-device"@, c.usb_device.name()]
    } else {
        seq![]
    }
}

/// The audio back end `audio0`, and the sound card on it; nothing without
/// a back end.
pub open spec fn audio_args(c: Config) -> Seq<Seq<char>> {
    if c.audio_dev != AudioDev::Disabled {
        seq!["-audiodev"@, c.audio_dev.name() + ",id=audio0"@] + (if c.sound_hw
            != SoundHw::Disabled {
            seq!["-device"@, c.sound_hw.name() + ",audiodev=audio0"@]
        } else {
            seq![]
        })
    } else {
        seq![]
    }
}

/// `-rtc base=<base>`, then the watchdog and its action when one is chosen.
pub open spec fn clock_watchdog_args(c: Config) -> Seq<Seq<char>> {
    seq!["-rtc"@, "base="@ + c.rtc_base.name()] + (if c.watchdog.name().len() > 0 {
        seq!["-watchdog"@, c.watchdog.name(), "-watchdog-action"@, c.watchdog_action.name()]
    } else {
        seq![]
    })
}

/// The whole argument list for QEMU, in order, ending with the user's extra
/// arguments split at whitespace.
pub open spec fn qemu_args(c: Config, boot_from_cd: bool) -> Seq<Seq<char>> {
    machine_args(c) + cpu_args(c) + cpu_memory_args(c) + drive_args(c, boot_from_cd) + boot_args(
        c,
    ) + net_args(c) + vga_args(c) + display_args(c) + usb_args(c) + audio_args(c)
        + clock_watchdog_args(c) + words(c.custom_args@)
}

/// The arguments before the ISO's place in the command line.
pub open spec fn args_before_cdrom(c: Config) -> Seq<Seq<char>> {
    machine_args(c) + cpu_args(c) + cpu_memory_args(c) + seq!["-drive"@, drive_value(c)]
}

/// The arguments after the ISO's place in the command line.
pub open spec fn args_after_cdrom(c: Config) -> Seq<Seq<char>> {
    boot_args(c) + net_args(c) + vga_args(c) + display_args(c) + usb_args(c) + audio_args(c)
        + clock_watchdog_args(c) + words(c.custom_args@)
}

proof fn lemma_regroup(
    p: Seq<Seq<char>>,
    x1: Seq<Seq<char>>,
    x2: Seq<Seq<char>>,
    x3: Seq<Seq<char>>,
    x4: Seq<Seq<char>>,
    x5: Seq<Seq<char>>,
    x6: Seq<Seq<char>>,
    x7: Seq<Seq<char>>,
    x8: Seq<Seq<char>>,
)
    ensures
        p + x1 + x2 + x3 + x4 + x5 + x6 + x7 + x8 == p + (x1 + x2 + x3 + x4 + x5 + x6 + x7 + x8),
{
    let y2 = x1 + x2;
    let y3 = y2 + x3;
    let y4 = y3 + x4;
    let y5 = y4 + x5;
    let y6 = y5 + x6;
    let y7 = y6 + x7;
    let y8 = y7 + x8;
    lemma_concat_associative(p, x1, x2);
    lemma_concat_associative(p, y2, x3);
    lemma_concat_associative(p, y3, x4);
    lemma_concat_associative(p, y4, x5);
    lemma_concat_associative(p, y5, x6);
    lemma_concat_associative(p, y6, x7);
    lemma_concat_associative(p, y7, x8);
}

/// Booting from the ISO changes the command line only by `-cdrom <iso>`
/// right after the disk drive; everything else is the same as booting from
/// the disk.
pub proof fn law_cdrom_only_difference(c: Config)
    ensures
        qemu_args(c, false) == args_before_cdrom(c) + args_after_cdrom(c),
        qemu_args(c, true) == args_before_cdrom(c) + seq!["-cdrom"@, c.iso_path@]
            + args_after_cdrom(c),
{
    let head = machine_args(c) + cpu_args(c) + cpu_memory_args(c);
    let drive = seq!["-drive"@, drive_value(c)];
    let cd = seq!["-cdrom"@, c.iso_path@];
    assert(drive_args(c, false) =~= drive);
    assert(drive_args(c, true) == drive + cd);
    lemma_concat_associative(head, drive, cd);
    lemma_regroup(
        head + drive,
        boot_args(c),
        net_args(c),
        vga_args(c),
        display_args(c),
        usb_args(c),
        audio_args(c),
        clock_watchdog_args(c),
        words(c.custom_args@),
    );
    lemma_regroup(
        head + drive + cd,
        boot_args(c),
        net_args(c),
        vga_args(c),
        display_args(c),
        usb_args(c),
        audio_args(c),
        clock_watchdog_args(c),
        words(c.custom_args@),
    );
}

proof fn lemma_regroup_tail(
    p: Seq<Seq<char>>,
    x1: Seq<Seq<char>>,
    x2: Seq<Seq<char>>,
    x3: Seq<Seq<char>>,
    x4: Seq<Seq<char>>,
    x5: Seq<Seq<char>>,
)
    ensures
        p + x1 + x2 + x3 + x4 + x5 == p + (x1 + x2 + x3 + x4 + x5),
{
    let y2 = x1 + x2;
    let y3 = y2 + x3;
    let y4 = y3 + x4;
    lemma_concat_associative(p, x1, x2);
    lemma_concat_associative(p, y2, x3);
    lemma_concat_associative(p, y3, x4);
    lemma_concat_associative(p, y4, x5);
}

/// The monitor resolution suffix of a graphics device: `,xres=W,yres=H`
/// when both sides are set, else nothing.
pub open spec fn resolution_suffix(width: u32, height: u32) -> Seq<char> {
    if width > 0 && height > 0 {
        ",xres="@ + decimal(width as nat) + ",yres="@ + decimal(height as nat)
    } else {
        seq![]
    }
}

/// The arguments before the graphics card's place in the command line.
pub open spec fn args_before_graphics(c: Config, boot_from_cd: bool) -> Seq<Seq<char>> {
    machine_args(c) + cpu_args(c) + cpu_memory_args(c) + drive_args(c, boot_from_cd) + boot_args(
        c,
    ) + net_args(c)
}

/// The arguments after the graphics card's place in the command line.
pub open spec fn args_after_graphics(c: Config) -> Seq<Seq<char>> {
    display_args(c) + usb_args(c) + audio_args(c) + clock_watchdog_args(c) + words(c.custom_args@)
}

proof fn lemma_graphics_place(c: Config, boot_from_cd: bool)
    ensures
        qemu_args(c, boot_from_cd) == args_before_graphics(c, boot_from_cd) + vga_args(c)
            + args_after_graphics(c),
{
    lemma_regroup_tail(
        args_before_graphics(c, boot_from_cd) + vga_args(c),
        display_args(c),
        usb_args(c),
        audio_args(c),
        clock_watchdog_args(c),
        words(c.custom_args@),
    );
}

proof fn lemma_graphics_only(c: Config, boot_from_cd: bool)
    ensures
        args_before_graphics(Config { vga: VgaKind::Disabled, ..c }, boot_from_cd)
            == args_before_graphics(c, boot_from_cd),
        args_after_graphics(Config { vga: VgaKind::Disabled, ..c }) == args_after_graphics(c),
        vga_args(Config { vga: VgaKind::Disabled, ..c }) == Seq::<Seq<char>>::empty(),
{
    let d = Config { vga: VgaKind::Disabled, ..c };
    assert(machine_args(d) == machine_args(c));
    assert(cpu_args(d) == cpu_args(c));
    assert(cpu_memory_args(d) == cpu_memory_args(c));
    assert(drive_args(d, boot_from_cd) == drive_args(c, boot_from_cd));
    assert(boot_args(d) == boot_args(c));
    assert(net_args(d) == net_args(c));
    assert(display_args(d) == display_args(c));
    assert(usb_args(d) == usb_args(c));
    assert(audio_args(d) == audio_args(c));
    assert(clock_watchdog_args(d) == clock_watchdog_args(c));
    assert(vga_args(d) =~= Seq::<Seq<char>>::empty());
}

/// The graphics card makes the only difference between a configuration and
/// the same one with graphics disabled: two arguments right after the
/// network device. The legacy cards are given as `-vga cirrus` and
/// `-vga vmware`; the others as `-device VGA`, `-device virtio-vga` and
/// `-device qxl`, with the monitor resolution when both sides are set.
pub proof fn law_graphics_args(c: Config, boot_from_cd: bool, n: int)
    requires
        n == args_before_graphics(c, boot_from_cd).len(),
    ensures
        ({
            let base = qemu_args(Config { vga: VgaKind::Disabled, ..c }, boot_from_cd);
            let args = qemu_args(c, boot_from_cd);
            let res = resolution_suffix(c.monitor_width, c.monitor_height);
            &&& 0 <= n <= base.len()
            &&& c.vga == VgaKind::Cirrus ==> args == base.take(n) + seq!["-vga"@, "cirrus"@]
                + base.skip(n)
            &&& c.vga == VgaKind::Vmware ==> args == base.take(n) + seq!["-vga"@, "vmware"@]
                + base.skip(n)
            &&& c.vga == VgaKind::Std ==> args == base.take(n) + seq!["-device"@, "VGA"@ + res]
                + base.skip(n)
            &&& c.vga == VgaKind::Virtio ==> args == base.take(n) + seq![
                "-device"@,
                "virtio-vga"@ + res,
            ] + base.skip(n)
            &&& c.vga == VgaKind::Qxl ==> args == base.take(n) + seq!["-device"@, "qxl"@ + res]
                + base.skip(n)
            &&& c.vga == VgaKind::Disabled ==> args == base
        }),
{
    let d = Config { vga: VgaKind::Disabled, ..c };
    lemma_graphics_place(c, boot_from_cd);
    lemma_graphics_place(d, boot_from_cd);
    lemma_graphics_only(c, boot_from_cd);
    let pre = args_before_graphics(c, boot_from_cd);
    let post = args_after_graphics(c);
    let base = qemu_args(d, boot_from_cd);
    assert(pre + Seq::<Seq<char>>::empty() =~= pre);
    assert(base == pre + post);
    assert(base.take(n) =~= pre);
    assert(base.skip(n) =~= post);
    let res = resolution_suffix(c.monitor_width, c.monitor_height);
    if c.vga == VgaKind::Std || c.vga == VgaKind::Virtio || c.vga == VgaKind::Qxl {
        assert(vga_args(c) == seq!["-device"@, vga_device(c.vga) + res]);
    }
}

/// Everything of the command line before the user's extra arguments.
pub open spec fn args_before_extra(c: Config, boot_from_cd: bool) -> Seq<Seq<char>> {
    machine_args(c) + cpu_args(c) + cpu_memory_args(c) + drive_args(c, boot_from_cd) + boot_args(
        c,
    ) + net_args(c) + vga_args(c) + display_args(c) + usb_args(c) + audio_args(c)
        + clock_watchdog_args(c)
}

/// The user's extra arguments come last, word by word, and they change
/// nothing before them: two configurations that differ only there give
/// the same command line up to them.
pub proof fn law_extra_args_last(c: Config, d: Config, boot_from_cd: bool)
    requires
        d == (Config { custom_args: d.custom_args, ..c }),
    ensures
        qemu_args(c, boot_from_cd) == args_before_extra(c, boot_from_cd) + words(c.custom_args@),
        qemu_args(d, boot_from_cd) == args_before_extra(c, boot_from_cd) + words(d.custom_args@),
{
    assert(qemu_args(c, boot_from_cd) == args_before_extra(c, boot_from_cd) + words(
        c.custom_args@,
    ));
    assert(qemu_args(d, boot_from_cd) == args_before_extra(d, boot_from_cd) + words(
        d.custom_args@,
    ));
    assert(machine_args(d) == machine_args(c));
    assert(cpu_args(d) == cpu_args(c));
    assert(cpu_memory_args(d) == cpu_memory_args(c));
    assert(drive_args(d, boot_from_cd) == drive_args(c, boot_from_cd));
    assert(boot_args(d) == boot_args(c));
    assert(net_args(d) == net_args(c));
    assert(vga_args(d) == vga_args(c));
    assert(display_args(d) == display_args(c));
    assert(usb_args(d) == usb_args(c));
    assert(audio_args(d) == audio_args(c));
    assert(clock_watchdog_args(d) == clock_watchdog_args(c));
}

/// `a` followed by `b`.
pub fn concat_text(a: &str, b: &str) -> (r: String)
    ensures
        r@ == a@ + b@,
{
    let mut s = String::from_str(a);
    s.append(b);
    s
}

pub(crate) fn push_text(v: &mut Vec<String>, s: String)
    ensures
        views(final(v)@) == views(old(v)@).push(s@),
{
    proof {
        lemma_views_push(v@, s);
    }
    v.push(s);
}

fn push_lit(v: &mut Vec<String>, s: &str)
    ensures
        views(final(v)@) == views(old(v)@).push(s@),
{
    push_text(v, String::from_str(s));
}

fn push_all(v: &mut Vec<String>, w: Vec<String>)
    ensures
        views(final(v)@) == views(old(v)@) + views(w@),
{
    let ghost start = views(v@);
    let n = w.len();
    let mut i: usize = 0;
    while i < n
        invariant
            n == w@.len(),
            i <= n,
            views(v@) == start + views(w@).take(i as int),
        decreases n - i,
    {
        let s = w[i].clone();
        push_text(v, s);
        assert(views(w@).take(i + 1) =~= views(w@).take(i as int).push(w@[i as int]@));
        assert(start + views(w@).take(i + 1) =~= (start + views(w@).take(i as int)).push(
            w@[i as int]@,
        ));
        i = i + 1;
    }
    assert(views(w@).take(n as int) =~= views(w@));
}

fn machine_value(c: &Config) -> (r: String)
    ensures
        r@ == join(machine_items(*c), ","@),
{
    let mut items: Vec<String> = Vec::new();
    push_lit(&mut items, c.machine_type.as_str());
    push_text(&mut items, concat_text("accel=", c.accel.as_str()));
    if c.kernel_irqchip != IrqChip::On {
        push_text(&mut items, concat_text("kernel-irqchip=", c.kernel_irqchip.as_str()));
    }
    if c.vmport != VmPort::Auto {
        push_text(&mut items, concat_text("vmport=", c.vmport.as_str()));
    }
    if c.dump_guest_core != OnOff::On {
        push_text(&mut items, concat_text("dump-guest-core=", c.dump_guest_core.as_str()));
    }
    assert(views(items@) =~= machine_items(*c));
    join_text(&items, ",")
}

fn memory_text(c: &Config) -> (r: String)
    ensures
        r@ == memory_value(*c),
{
    let mut s = u32_text(c.ram_mb);
    if c.mem_slots > 0 && c.mem_maxmb > 0 {
        s.append("M,slots=");
        let slots = u32_text(c.mem_slots);
        s.append(slots.as_str());
        s.append(",maxmem=");
        let max = u32_text(c.mem_maxmb);
        s.append(max.as_str());
        s.append("M");
    } else {
        s.append("M");
    }
    s
}

fn drive_text(c: &Config) -> (r: String)
    ensures
        r@ == drive_value(*c),
{
    let mut s = concat_text("file=", c.disk_path.as_str());
    s.append(",if=");
    s.append(c.drive_if.as_str());
    s.append(",format=qcow2,cache=");
    s.append(c.drive_cache.as_str());
    s.append(",aio=");
    s.append(c.drive_aio.as_str());
    s
}

fn vga_device_text(v: VgaKind) -> (r: &'static str)
    ensures
        r@ == vga_device(v),
{
    match v {
        VgaKind::Std => "VGA",
        VgaKind::Virtio => "virtio-vga",
        _ => "qxl",
    }
}

fn push_vga(v: &mut Vec<String>, c: &Config)
    ensures
        views(final(v)@) == views(old(v)@) + vga_args(*c),
{
    let ghost start = views(v@);
    match c.vga {
        VgaKind::Vmware | VgaKind::Cirrus => {
            push_lit(v, "-vga");
            push_lit(v, c.vga.as_str());
            assert(views(v@) =~= start + vga_args(*c));
        },
        VgaKind::Disabled => {
            assert(views(v@) =~= start + vga_args(*c));
        },
        _ => {
            let mut dev = String::from_str(vga_device_text(c.vga));
            if c.monitor_width > 0 && c.monitor_height > 0 {
                dev.append(",xres=");
                let w = u32_text(c.monitor_width);
                dev.append(w.as_str());
                dev.append(",yres=");
                let h = u32_text(c.monitor_height);
                dev.append(h.as_str());
                assert(dev@ =~= vga_device(c.vga) + (",xres="@ + decimal(c.monitor_width as nat)
                    + ",yres="@ + decimal(c.monitor_height as nat)));
            } else {
                assert(dev@ =~= vga_device(c.vga) + Seq::<char>::empty());
            }
            push_lit(v, "-device");
            push_text(v, dev);
            assert(views(v@) =~= start + vga_args(*c));
        },
    }
}

fn push_machine(v: &mut Vec<String>, c: &Config)
    ensures
        views(final(v)@) == views(old(v)@) + machine_args(*c),
{
    let ghost start = views(v@);
    push_lit(v, "-machine");
    push_text(v, machine_value(c));
    assert(views(v@) =~= start + machine_args(*c));
}

fn push_cpu(v: &mut Vec<String>, c: &Config)
    ensures
        views(final(v)@) == views(old(v)@) + cpu_args(*c),
{
    let ghost start = views(v@);
    if !c.cpu_model.as_str().is_empty() {
        push_lit(v, "-cpu");
        push_text(v, c.cpu_model.clone());
    }
    assert(views(v@) =~= start + cpu_args(*c));
}

fn push_cpu_memory(v: &mut Vec<String>, c: &Config)
    ensures
        views(final(v)@) == views(old(v)@) + cpu_memory_args(*c),
{
    let ghost start = views(v@);
    push_lit(v, "-m");
    push_text(v, memory_text(c));
    push_lit(v, "-smp");
    push_text(v, u32_text(c.smp));
    assert(views(v@) =~= start + cpu_memory_args(*c));
}

fn push_drive(v: &mut Vec<String>, c: &Config, boot_from_cd: bool)
    ensures
        views(final(v)@) == views(old(v)@) + drive_args(*c, boot_from_cd),
{
    let ghost start = views(v@);
    push_lit(v, "-drive");
    push_text(v, drive_text(c));
    if boot_from_cd {
        push_lit(v, "-cdrom");
        push_text(v, c.iso_path.clone());
    }
    assert(views(v@) =~= start + drive_args(*c, boot_from_cd));
}

fn push_boot(v: &mut Vec<String>, c: &Config)
    ensures
        views(final(v)@) == views(old(v)@) + boot_args(*c),
{
    let ghost start = views(v@);
    if !c.boot_order.as_str().is_empty() {
        let mut boot = concat_text("order=", c.boot_order.as_str());
        let ghost b0 = boot@;
        if c.boot_menu == BootMenu::On {
            boot.append(",menu=on");
        }
        let ghost b1 = boot@;
        assert(b1 =~= b0 + opt_text(c.boot_menu == BootMenu::On, ",menu=on"@));
        if c.boot_strict == BootStrict::On {
            boot.append(",strict=on");
        }
        assert(boot@ =~= b1 + opt_text(c.boot_strict == BootStrict::On, ",strict=on"@));
        push_lit(v, "-boot");
        push_text(v, boot);
    }
    assert(views(v@) =~= start + boot_args(*c));
}

fn push_net(v: &mut Vec<String>, c: &Config)
    ensures
        views(final(v)@) == views(old(v)@) + net_args(*c),
{
    let ghost start = views(v@);
    push_lit(v, "-netdev");
    push_text(v, concat_text(c.net_backend.as_str(), ",id=net0"));
    push_lit(v, "-device");
    push_text(v, concat_text(c.nic_model.as_str(), ",netdev=net0"));
    assert(views(v@) =~= start + net_args(*c));
}

fn push_display(v: &mut Vec<String>, c: &Config)
    ensures
        views(final(v)@) == views(old(v)@) + display_args(*c),
{
    let ghost start = views(v@);
    let mut display = String::from_str(c.display.as_str());
    if c.display != DisplayKind::Disabled && c.display_gl == OnOff::On {
        display.append(",gl=on");
    }
    assert(display@ =~= c.display.name() + opt_text(
        c.display != DisplayKind::Disabled && c.display_gl == OnOff::On,
        ",gl=on"@,
    ));
    push_lit(v, "-display");
    push_text(v, display);
    assert(views(v@) =~= start + display_args(*c));
}

fn push_usb(v: &mut Vec<String>, c: &Config)
    ensures
        views(final(v)@) == views(old(v)@) + usb_args(*c),
{
    let ghost start = views(v@);
    if c.usb_device != UsbDevice::Disabled {
        push_lit(v, "-usb");
        push_lit(v, "-device");
        push_lit(v, c.usb_device.as_str());
    }
    assert(views(v@) =~= start + usb_args(*c));
}

fn push_audio(v: &mut Vec<String>, c: &Config)
    ensures
        views(final(v)@) == views(old(v)@) + audio_args(*c),
{
    let ghost start = views(v@);
    if c.audio_dev != AudioDev::Disabled {
        push_lit(v, "-audiodev");
        push_text(v, concat_text(c.audio_dev.as_str(), ",id=audio0"));
        if c.sound_hw != SoundHw::Disabled {
            push_lit(v, "-device");
            push_text(v, concat_text(c.sound_hw.as_str(), ",audiodev=audio0"));
        }
    }
    assert(views(v@) =~= start + audio_args(*c));
}

fn push_clock_watchdog(v: &mut Vec<String>, c: &Config)
    ensures
        views(final(v)@) == views(old(v)@) + clock_watchdog_args(*c),
{
    let ghost start = views(v@);
    push_lit(v, "-rtc");
    push_text(v, concat_text("base=", c.rtc_base.as_str()));
    if !c.watchdog.as_str().is_empty() {
        push_lit(v, "-watchdog");
        push_lit(v, c.watchdog.as_str());
        push_lit(v, "-watchdog-action");
        push_lit(v, c.watchdog_action.as_str());
    }
    assert(views(v@) =~= start + clock_watchdog_args(*c));
}

impl Config {
    /// The argument list QEMU is started with for this configuration,
    /// booting from the ISO when `boot_from_cd` holds.
    pub fn build_args(&self, boot_from_cd: bool) -> (args: Vec<String>)
        ensures
            views(args@) == qemu_args(*self, boot_from_cd),
    {
        let c = self;
        let mut args: Vec<String> = Vec::new();
        push_machine(&mut args, c);
        push_cpu(&mut args, c);
        push_cpu_memory(&mut args, c);
        push_drive(&mut args, c, boot_from_cd);
        push_boot(&mut args, c);
        push_net(&mut args, c);
        push_vga(&mut args, c);
        push_display(&mut args, c);
        push_usb(&mut args, c);
        push_audio(&mut args, c);
        push_clock_watchdog(&mut args, c);
        let extra = split_words(c.custom_args.as_str());
        push_all(&mut args, extra);
        assert(views(args@) =~= qemu_args(*self, boot_from_cd));
        args
    }
}

} // verus!
