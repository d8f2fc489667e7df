//! The state of the QEMU front end and the decisions it takes: checking a
//! launch, building the command, reacting to the emulator's start, exit or
//! kill, creating a disk image with `qemu-img`, and keeping the log. The
//! program around it runs the processes and shows the window; each step
//! here hands back the log line it produced and what is to be run.
use vstd::prelude::*;
use vstd::utf8::encode_utf8;

use crate::cmdline::{concat_text, push_text, qemu_args};
use crate::config::{basic_problem, is_default_config, Config, HostOs};
use crate::host::{
    ends_with, is_path_join, is_plain_name, is_prefix, is_simple_path, simple_parent, lossy_text, path_exists, path_join, path_parent,
    starts_with_backslash, utf8_lossy,
};
use crate::log::{accepts, log_accepts, push_bounded, pushed_bytes, byte_len, MAX_LOG};
use crate::text::{
    all_digits, decimal, digits_value, i32_text, is_blank, law_decimal_reads_back,
    law_signed_decimal_reads_back, is_blank_text, join, join_text, signed_decimal,
    trim, trim_text, u32_text, views,
};

verus! {

/// The outcome of one run of `qemu-img`: whether it succeeded, and what it
/// said (its standard output on success, its error output otherwise).
#[derive(Debug, Clone)]
pub struct QemuImgResult {
    pub success: bool,
    pub message: String,
}

impl QemuImgResult {
    /// The result of a run that exited with `success`, from the bytes it
    /// wrote: the stream that goes with the outcome, decoded and trimmed.
    pub fn from_output(success: bool, stdout: &[u8], stderr: &[u8]) -> (r: QemuImgResult)
        ensures
            r.success == success,
            r.message@ == trim(lossy_text(if success { stdout@ } else { stderr@ })),
    {
        let text = if success {
            utf8_lossy(stdout)
        } else {
            utf8_lossy(stderr)
        };
        QemuImgResult { success, message: trim_text(text.as_str()) }
    }

    /// The result when `qemu-img` could not be started at all.
    pub fn spawn_failed(err: &str) -> (r: QemuImgResult)
        ensures
            !r.success,
            r.message@ == "Failed to spawn qemu-img: "@ + err@,
    {
        QemuImgResult { success: false, message: concat_text("Failed to spawn qemu-img: ", err) }
    }
}

/// The fields of the "create disk image" dialog.
#[derive(Debug, Clone)]
pub struct QcowCreateState {
    pub open: bool,
    pub path: String,
    pub size_gb: u32,
    pub backing_file: String,
    pub error: Option<String>,
    pub running: bool,
}

/// Whether `s` is the dialog as it first opens: closed, empty, 20 GB.
pub open spec fn is_fresh_qcow(s: QcowCreateState) -> bool {
    &&& !s.open
    &&& s.path@ == Seq::<char>::empty()
    &&& s.size_gb == 20
    &&& s.backing_file@ == Seq::<char>::empty()
    &&& s.error is None
    &&& !s.running
}

impl Default for QcowCreateState {
    fn default() -> (s: QcowCreateState)
        ensures
            is_fresh_qcow(s),
    {
        QcowCreateState {
            open: false,
            path: String::new(),
            size_gb: 20,
            backing_file: String::new(),
            error: None,
            running: false,
        }
    }
}

/// A `qemu-img` run to start: the program and its arguments.
#[derive(Debug, Clone)]
pub struct QcowJob {
    pub program: String,
    pub args: Vec<String>,
}

/// What a poll of the running emulator found.
#[derive(Debug, Clone)]
pub enum ChildStatus {
    /// Still running.
    Running,
    /// Exited, with its exit code, or `None` when a signal ended it.
    Exited(Option<i32>),
    /// The poll itself failed, with the error's text.
    Failed(String),
}

/// How writing the configuration file went.
#[derive(Debug, Clone)]
pub enum SaveOutcome {
    Saved,
    SerializeFailed(String),
    WriteFailed(String),
}

/// The front end's state, apart from the processes that the program holds.
#[derive(Debug)]
pub struct QemuGui {
    pub host: HostOs,
    pub config: Config,
    pub config_path: String,
    pub log: String,
    pub error: Option<String>,
    pub confirming_kill: bool,
    /// Whether an emulator that this front end started is running.
    pub running: bool,
    pub qcow_create: QcowCreateState,
    pub child_exit_code: Option<i32>,
}

/// The name of the file the configuration is kept in, next to the program.
pub open spec fn config_file_name() -> Seq<char> {
    "qemu-gui-config.ron"@
}

/// Whether `path` is the configuration file in the directory `dir`: the
/// file name joined onto `dir` (see `is_path_join`).
pub open spec fn is_config_file_in(path: Seq<char>, dir: Seq<char>) -> bool {
    is_path_join(path, dir, config_file_name())
}

/// The first problem that keeps QEMU from being launched, given whether
/// the QEMU binary, the disk image and the ISO were found on disk.
pub open spec fn launch_problem(
    c: Config,
    boot_from_cd: bool,
    qemu_found: bool,
    disk_found: bool,
    iso_found: bool,
) -> Option<Seq<char>> {
    if basic_problem(c) is Some {
        basic_problem(c)
    } else if !qemu_found {
        Some("QEMU binary not found at configured path"@)
    } else if !disk_found {
        Some("Disk image not found at configured path"@)
    } else if boot_from_cd && is_blank(c.iso_path@) {
        Some("ISO path is empty"@)
    } else if boot_from_cd && !iso_found {
        Some("ISO file not found at configured path"@)
    } else {
        None
    }
}

/// A confirmed kill from `a` to `b` with the log line `r`: the
/// confirmation ends, the emulator stops, and the line is there exactly
/// when an emulator was running.
pub open spec fn kill_step(a: QemuGui, b: QemuGui, r: Option<String>) -> bool {
    &&& same_setup(a, b)
    &&& b.error == a.error
    &&& b.child_exit_code == a.child_exit_code
    &&& !b.confirming_kill
    &&& !b.running
    &&& (r is Some <==> a.running)
    &&& r matches Some(line) ==> line@ == "QEMU terminated.\n"@
}

/// A poll of the emulator from `a` to `b` that found `status`, with the log
/// line `r`.
pub open spec fn poll_step(a: QemuGui, b: QemuGui, status: ChildStatus, r: Option<String>) -> bool {
    &&& same_but_process(a, b)
    &&& !a.running ==> b == a && r is None
    &&& a.running ==> match status {
        ChildStatus::Running => b == a && r is None,
        ChildStatus::Exited(code) => {
            &&& !b.running
            &&& b.child_exit_code == code
            &&& r matches Some(line) && line@ == match code {
                Some(c) => "QEMU exited with code "@ + signed_decimal(c as int) + "\n"@,
                None => "QEMU terminated by signal\n"@,
            }
        },
        ChildStatus::Failed(e) => {
            &&& !b.running
            &&& b.child_exit_code == a.child_exit_code
            &&& r matches Some(line) && line@ == "Error polling QEMU: "@ + e@ + "\n"@
        },
    }
}

/// A finished `qemu-img` run with `result`, from `a` to `b`, with the log
/// line `r`: the dialog stops running; on success it is reset, the new
/// image becomes the disk and the line announces it; on failure the dialog
/// shows the message.
pub open spec fn image_step(a: QemuGui, b: QemuGui, result: QemuImgResult, r: Option<String>) -> bool {
    &&& b.host == a.host
    &&& b.config_path == a.config_path
    &&& b.log == a.log
    &&& b.error == a.error
    &&& b.confirming_kill == a.confirming_kill
    &&& b.running == a.running
    &&& b.child_exit_code == a.child_exit_code
    &&& result.success ==> {
        &&& is_fresh_qcow(b.qcow_create)
        &&& b.config == (Config { disk_path: a.qcow_create.path, ..a.config })
        &&& r matches Some(line) && line@ == "Created QCOW2 disk: "@ + a.qcow_create.path@ + " ("@
            + trim(result.message@) + ")\n"@
    }
    &&& !result.success ==> {
        &&& b.config == a.config
        &&& b.qcow_create == (QcowCreateState {
            running: false,
            error: Some(result.message),
            ..a.qcow_create
        })
        &&& r is None
    }
}

/// A click on "Boot from Disk" or "Install" from `a` to `b`: ignored while
/// an emulator runs (the buttons are disabled then); otherwise the kill
/// confirmation ends and the launch step follows, for some answers of the
/// file system.
pub open spec fn launch_click_step(
    a: QemuGui,
    b: QemuGui,
    boot_from_cd: bool,
    r: Option<(String, Option<Vec<String>>)>,
) -> bool {
    &&& a.running ==> b == a && r is None
    &&& !a.running ==> (r matches Some(step) && exists|q: bool, d: bool, i: bool|
        launch_step(
            QemuGui { confirming_kill: false, ..a },
            b,
            boot_from_cd,
            #[trigger] launch_problem(a.config, boot_from_cd, q, d, i),
            step,
        ))
}

/// A click on the kill button from `a` to `b`: ignored unless an emulator
/// runs; the first click only asks for confirmation; the confirming click
/// kills.
pub open spec fn kill_click_step(a: QemuGui, b: QemuGui, r: Option<String>) -> bool {
    &&& !a.running ==> b == a && r is None
    &&& a.running && !a.confirming_kill ==> b == (QemuGui { confirming_kill: true, ..a }) && r is None
    &&& a.running && a.confirming_kill ==> kill_step(a, b, r)
}

/// No second emulator is launched while one runs: the click changes
/// nothing and starts nothing.
pub proof fn law_no_launch_while_running(
    a: QemuGui,
    b: QemuGui,
    boot_from_cd: bool,
    r: Option<(String, Option<Vec<String>>)>,
)
    requires
        launch_click_step(a, b, boot_from_cd, r),
        a.running,
    ensures
        b == a,
        r is None,
{
}

/// Killing takes two clicks: a click that is not confirming kills nothing,
/// and the next click does kill.
pub proof fn law_kill_takes_two_clicks(
    a: QemuGui,
    b: QemuGui,
    c: QemuGui,
    r1: Option<String>,
    r2: Option<String>,
)
    requires
        a.running,
        !a.confirming_kill,
        kill_click_step(a, b, r1),
        kill_click_step(b, c, r2),
    ensures
        b.running,
        r1 is None,
        !c.running,
        r2 matches Some(line) && line@ == "QEMU terminated.\n"@,
{
}

/// Booting from the disk never looks at the ISO: the launch check passes
/// exactly when the basic checks pass and the QEMU binary and the disk
/// image are found, whatever the ISO path is and whether it is found.
/// Installing also needs a non-blank ISO path whose file is found.
pub proof fn law_iso_only_for_install(
    c: Config,
    d: Config,
    qemu_found: bool,
    disk_found: bool,
    iso_found: bool,
    other_iso_found: bool,
)
    requires
        d == (Config { iso_path: d.iso_path, ..c }),
    ensures
        launch_problem(c, false, qemu_found, disk_found, iso_found) == launch_problem(
            d,
            false,
            qemu_found,
            disk_found,
            other_iso_found,
        ),
        launch_problem(c, false, qemu_found, disk_found, iso_found) is None <==> (basic_problem(c) is None
            && qemu_found && disk_found),
        launch_problem(c, true, qemu_found, disk_found, iso_found) is None <==> (basic_problem(c) is None
            && qemu_found && disk_found && !is_blank(c.iso_path@) && iso_found),
{
    assert(basic_problem(d) == basic_problem(c));
}

/// An existing output file is never overwritten: when `qemu-img` is found
/// and the output path is set and found on disk, the create step starts no
/// job, leaves the dialog's running state as it was, and shows "File
/// already exists", whatever the backing file is. A job is started only
/// for an output path that is set and not found, with `qemu-img` found and
/// a size above zero.
pub proof fn law_existing_output_refused(
    a: QemuGui,
    b: QemuGui,
    qemu_img: Seq<char>,
    img_found: bool,
    output_found: bool,
    backing_found: bool,
    r: Option<(String, QcowJob)>,
)
    requires
        qcow_step(a, b, qemu_img, img_found, output_found, backing_found, r),
    ensures
        img_found && output_found && !is_blank(a.qcow_create.path@) ==> {
            &&& r is None
            &&& b.qcow_create.running == a.qcow_create.running
            &&& b.qcow_create.error matches Some(m) && m@ == "File already exists"@
        },
        r is Some ==> img_found && !output_found && !is_blank(a.qcow_create.path@)
            && a.qcow_create.size_gb != 0 && b.qcow_create.running,
{
}

/// A poll of a running emulator that found an exit logs the exit: for an
/// exit code, "QEMU exited with code " followed by the code's decimal
/// digits (with `-` for a negative code), which read back as the code; the
/// signal line only when there is no code.
pub proof fn law_exit_line(a: QemuGui, b: QemuGui, code: Option<i32>, r: Option<String>)
    requires
        a.running,
        poll_step(a, b, ChildStatus::Exited(code), r),
    ensures
        r is Some,
        !b.running,
        b.child_exit_code == code,
        code is None ==> r->0@ == "QEMU terminated by signal\n"@,
        code matches Some(c) ==> ({
            let line = r->0@;
            let n = line.len() - 23;
            &&& line.len() >= 24
            &&& line.take(22) == "QEMU exited with code "@
            &&& line.last() == '\n'
            &&& c >= 0 ==> all_digits(line.subrange(22, line.len() - 1)) && digits_value(
                line.subrange(22, line.len() - 1),
            ) == c
            &&& c < 0 ==> line[22] == '-' && all_digits(line.subrange(23, line.len() - 1))
                && -digits_value(line.subrange(23, line.len() - 1)) == c
        }),
{
    if let Some(c) = code {
        reveal_strlit("QEMU exited with code ");
        reveal_strlit("\n");
        let line = r->0@;
        let d = signed_decimal(c as int);
        law_signed_decimal_reads_back(c as int);
        law_decimal_reads_back(if c < 0 { (-c) as nat } else { c as nat });
        assert(line == "QEMU exited with code "@ + d + "\n"@);
        assert(line.take(22) =~= "QEMU exited with code "@);
        assert(line.subrange(22, line.len() - 1) =~= d);
        if c < 0 {
            assert(line.subrange(23, line.len() - 1) =~= d.drop_first());
            assert(line[22] == d[0]);
        }
    } else {
    }
}

/// Killing twice kills once: the second kill finds nothing running,
/// returns no line and changes nothing.
pub proof fn law_kill_once(a: QemuGui, b: QemuGui, c: QemuGui, r1: Option<String>, r2: Option<String>)
    requires
        kill_step(a, b, r1),
        kill_step(b, c, r2),
    ensures
        r2 is None,
        c == b,
{
}

/// Once a poll has seen the emulator end, later polls change nothing and
/// log nothing, whatever they find.
pub proof fn law_no_poll_after_end(
    a: QemuGui,
    b: QemuGui,
    c: QemuGui,
    first: ChildStatus,
    second: ChildStatus,
    r1: Option<String>,
    r2: Option<String>,
)
    requires
        poll_step(a, b, first, r1),
        !(first is Running),
        poll_step(b, c, second, r2),
    ensures
        r2 is None,
        c == b,
{
}

/// QEMU is launched only when the basic checks pass and, for an install,
/// an ISO is set and found.
pub proof fn law_launch_needs_checks(
    c: Config,
    boot_from_cd: bool,
    qemu_found: bool,
    disk_found: bool,
    iso_found: bool,
)
    ensures
        launch_problem(c, boot_from_cd, qemu_found, disk_found, iso_found) is None ==> {
            &&& basic_problem(c) is None
            &&& qemu_found
            &&& disk_found
            &&& boot_from_cd ==> !is_blank(c.iso_path@) && iso_found
        },
{
}

/// `r` reports `p`: `Ok` for no problem, else the problem's text.
pub open spec fn reports(p: Option<Seq<char>>, r: Result<(), String>) -> bool {
    match r {
        Ok(_) => p is None,
        Err(e) => p == Some(e@),
    }
}

/// The problem a check result stands for.
pub open spec fn problem_of(r: Result<(), String>) -> Option<Seq<char>> {
    match r {
        Ok(_) => None,
        Err(e) => Some(e@),
    }
}

/// The log line announcing a launch: the program and its arguments.
pub open spec fn launching_line(c: Config, boot_from_cd: bool) -> Seq<char> {
    "Launching: "@ + c.qemu_path@ + " "@ + join(qemu_args(c, boot_from_cd), " "@) + "\n"@
}

/// The parts of the state that only the user and the dialogs change.
pub open spec fn same_setup(a: QemuGui, b: QemuGui) -> bool {
    &&& a.host == b.host
    &&& a.config == b.config
    &&& a.config_path == b.config_path
    &&& a.log == b.log
    &&& a.qcow_create == b.qcow_create
}

/// One launch step from `a` to `b`, given the problem `p` that checking
/// found, with the log line and the arguments in `r`.
pub open spec fn launch_step(
    a: QemuGui,
    b: QemuGui,
    boot_from_cd: bool,
    p: Option<Seq<char>>,
    r: (String, Option<Vec<String>>),
) -> bool {
    &&& same_setup(a, b)
    &&& b.confirming_kill == a.confirming_kill
    &&& b.running == a.running
    &&& b.child_exit_code is None
    &&& match p {
        Some(e) => {
            &&& b.error matches Some(m) && m@ == e
            &&& r.1 is None
            &&& r.0@ == "Validation failed: "@ + e + "\n"@
        },
        None => {
            &&& b.error is None
            &&& r.1 matches Some(args) && views(args@) == qemu_args(a.config, boot_from_cd)
            &&& r.0@ == launching_line(a.config, boot_from_cd)
        },
    }
}

/// The file name of `qemu-img` on `host`.
pub open spec fn qemu_img_name(host: HostOs) -> Seq<char> {
    match host {
        HostOs::Linux => "qemu-img"@,
        HostOs::Other => "qemu-img.exe"@,
    }
}

/// The directory `qemu-img` is looked for in, given what the parent lookup
/// of the QEMU binary's path answered: that parent, or `.` without one.
pub open spec fn img_dir_of(parent: Option<String>) -> Seq<char> {
    match parent {
        Some(p) => p@,
        None => "."@,
    }
}

/// Whether `img` is the host's `qemu-img` file name joined onto the
/// directory for `parent` (see `img_dir_of` and `is_path_join`).
pub open spec fn is_img_beside(img: Seq<char>, parent: Option<String>, host: HostOs) -> bool {
    is_path_join(img, img_dir_of(parent), qemu_img_name(host))
}

/// What the parent lookup promises for the path `p`: an answer is a prefix
/// of `p`; the empty path has none; a simple path has its text up to the
/// last `/` (see `simple_parent`).
pub open spec fn is_parent_answer(a: Option<String>, p: Seq<char>) -> bool {
    &&& a matches Some(q) ==> is_prefix(q@, p)
    &&& p.len() == 0 ==> a is None
    &&& is_simple_path(p) ==> (a matches Some(q) && q@ == simple_parent(p))
}

/// `parent_of` answered `a` when asked for the parent of the path `p`.
pub open spec fn parent_asked<P: Fn(&String) -> Option<String>>(
    parent_of: P,
    p: Seq<char>,
    a: Option<String>,
) -> bool {
    exists|s: String| s@ == p && #[trigger] call_ensures(parent_of, (&s,), a)
}

/// `found` answered `b` when asked about the path `p`.
pub open spec fn asked<F: Fn(&String) -> bool>(found: F, p: Seq<char>, b: bool) -> bool {
    exists|s: String| s@ == p && #[trigger] call_ensures(found, (&s,), b)
}

/// The answers `q`, `d`, `i` are what `found` said of the QEMU binary, the
/// disk image and the ISO of `c`, for each that the launch check asks
/// about.
pub open spec fn launch_answers<F: Fn(&String) -> bool>(
    found: F,
    c: Config,
    boot_from_cd: bool,
    q: bool,
    d: bool,
    i: bool,
) -> bool {
    &&& basic_problem(c) is None ==> asked(found, c.qemu_path@, q)
    &&& basic_problem(c) is None && q ==> asked(found, c.disk_path@, d)
    &&& basic_problem(c) is None && q && d && boot_from_cd && !is_blank(c.iso_path@) ==> asked(
        found,
        c.iso_path@,
        i,
    )
}

/// The answers `f`, `o`, `b` are what `found` said of `qemu-img` at `img`,
/// of the trimmed output path and of the trimmed backing file of `s`, for
/// each that the disk image checks ask about.
pub open spec fn qcow_answers<F: Fn(&String) -> bool>(
    found: F,
    img: Seq<char>,
    s: QcowCreateState,
    f: bool,
    o: bool,
    b: bool,
) -> bool {
    &&& asked(found, img, f)
    &&& f && !is_blank(s.path@) ==> asked(found, trim(s.path@), o)
    &&& f && !is_blank(s.path@) && !o && s.size_gb != 0 && !is_blank(s.backing_file@) ==> asked(
        found,
        trim(s.backing_file@),
        b,
    )
}

/// The first problem that keeps a disk image from being created, given the
/// path of `qemu-img` and whether it, the output and the backing file were
/// found on disk.
pub open spec fn qcow_problem(
    qemu_img: Seq<char>,
    s: QcowCreateState,
    img_found: bool,
    output_found: bool,
    backing_found: bool,
) -> Option<Seq<char>> {
    if !img_found {
        Some("qemu-img not found at: "@ + qemu_img)
    } else if is_blank(s.path@) {
        Some("Output path is empty"@)
    } else if output_found {
        Some("File already exists"@)
    } else if s.size_gb == 0 {
        Some("Size must be > 0 GB"@)
    } else if !is_blank(s.backing_file@) && !backing_found {
        Some("Backing file not found"@)
    } else {
        None
    }
}

/// The arguments of `qemu-img` for the dialog `s`.
pub open spec fn qcow_args(s: QcowCreateState) -> Seq<Seq<char>> {
    seq!["create"@, "-f"@, "qcow2"@] + (if !is_blank(s.backing_file@) {
        seq!["-b"@, trim(s.backing_file@)]
    } else {
        seq![]
    }) + seq![trim(s.path@), decimal(s.size_gb as nat) + "G"@]
}

/// The log line announcing a disk image creation.
pub open spec fn creating_line(qemu_img: Seq<char>, s: QcowCreateState) -> Seq<char> {
    "Creating QCOW2: "@ + qemu_img + " "@ + join(qcow_args(s), " "@) + " \u{2026}\n"@
}

/// One "create disk image" step from `a` to `b`, given the path of
/// `qemu-img` and what was found on disk, with the log line and the job in
/// `r`.
pub open spec fn qcow_step(
    a: QemuGui,
    b: QemuGui,
    qemu_img: Seq<char>,
    img_found: bool,
    output_found: bool,
    backing_found: bool,
    r: Option<(String, QcowJob)>,
) -> bool {
    let s = a.qcow_create;
    let t = b.qcow_create;
    &&& b.host == a.host
    &&& b.config == a.config
    &&& b.config_path == a.config_path
    &&& b.log == a.log
    &&& b.error == a.error
    &&& b.confirming_kill == a.confirming_kill
    &&& b.running == a.running
    &&& b.child_exit_code == a.child_exit_code
    &&& t.open == s.open
    &&& t.path == s.path
    &&& t.size_gb == s.size_gb
    &&& t.backing_file == s.backing_file
    &&& match qcow_problem(qemu_img, s, img_found, output_found, backing_found) {
        Some(e) => {
            &&& t.error matches Some(m) && m@ == e
            &&& t.running == s.running
            &&& r is None
        },
        None => {
            &&& t.error is None
            &&& t.running
            &&& r matches Some((line, job)) && {
                &&& job.program@ == qemu_img
                &&& views(job.args@) == qcow_args(s)
                &&& line@ == creating_line(qemu_img, s)
            }
        },
    }
}

/// `a` and `b` differ at most in the emulator's process state: running flag
/// and last exit code.
pub open spec fn same_but_process(a: QemuGui, b: QemuGui) -> bool {
    &&& same_setup(a, b)
    &&& b.error == a.error
    &&& b.confirming_kill == a.confirming_kill
}

/// The path of the configuration file in the directory `dir`, the one the
/// program's executable is in.
pub fn config_file_in(dir: &str) -> (r: String)
    ensures
        is_config_file_in(r@, dir@),
{
    let name = "qemu-gui-config.ron";
    proof {
        reveal_strlit("qemu-gui-config.ron");
        assert(name@[0] != '.');
        assert(is_plain_name(name@));
    }
    path_join(dir, name)
}

/// The parent directory of `p`, by `Path::parent`.
fn parent_dir(p: &String) -> (a: Option<String>)
    ensures
        is_parent_answer(a, p@),
{
    path_parent(p.as_str())
}

fn text_of(s: &str) -> (r: String)
    ensures
        r@ == s@,
{
    String::from_str(s)
}

impl QemuGui {
    /// The front end as it starts on `host`, from a program whose executable
    /// is in the directory `exe_dir`, with the configuration that was loaded
    /// from the configuration file, or the default one. The configuration
    /// file is kept next to the executable.
    pub fn new(host: HostOs, exe_dir: &str, loaded: Option<Config>) -> (g: QemuGui)
        ensures
            g.host == host,
            loaded matches Some(c) ==> g.config == c,
            loaded is None ==> is_default_config(g.config, host),
            is_config_file_in(g.config_path@, exe_dir@),
            g.log@ == Seq::<char>::empty(),
            g.error is None,
            !g.confirming_kill,
            !g.running,
            is_fresh_qcow(g.qcow_create),
            g.child_exit_code is None,
    {
        let config = match loaded {
            Some(c) => c,
            None => Config::for_host(host),
        };
        QemuGui {
            host,
            config,
            config_path: config_file_in(exe_dir),
            log: String::new(),
            error: None,
            confirming_kill: false,
            running: false,
            qcow_create: QcowCreateState::default(),
            child_exit_code: None,
        }
    }

    /// Whether `msg` can be added to the log (see `log_accepts`).
    pub fn log_accepts(&self, msg: &str) -> (r: bool)
        ensures
            r == log_accepts(self.log@, msg@),
    {
        accepts(self.log.as_str(), msg)
    }

    /// Adds `msg` to the log, dropping the oldest bytes beyond `MAX_LOG`.
    pub fn log_push(&mut self, msg: &str)
        requires
            log_accepts(old(self).log@, msg@),
        ensures
            encode_utf8(final(self).log@) == pushed_bytes(old(self).log@, msg@),
            byte_len(final(self).log@) <= MAX_LOG,
            final(self).host == old(self).host,
            final(self).config == old(self).config,
            final(self).config_path == old(self).config_path,
            final(self).error == old(self).error,
            final(self).confirming_kill == old(self).confirming_kill,
            final(self).running == old(self).running,
            final(self).qcow_create == old(self).qcow_create,
            final(self).child_exit_code == old(self).child_exit_code,
    {
        push_bounded(&mut self.log, msg);
    }

    /// The checks that need no file system (see `Config::validate_basic`).
    pub fn validate_basic(&self) -> (r: Result<(), String>)
        ensures
            reports(basic_problem(self.config), r),
    {
        self.config.validate_basic()
    }

    /// The launch check, given whether the QEMU binary, the disk image and
    /// the ISO are on disk.
    pub fn validate_with(
        &self,
        boot_from_cd: bool,
        qemu_found: bool,
        disk_found: bool,
        iso_found: bool,
    ) -> (r: Result<(), String>)
        ensures
            reports(launch_problem(self.config, boot_from_cd, qemu_found, disk_found, iso_found), r),
    {
        let basic = self.validate_basic();
        if basic.is_err() {
            return basic;
        }
        if !qemu_found {
            return Err(text_of("QEMU binary not found at configured path"));
        }
        if !disk_found {
            return Err(text_of("Disk image not found at configured path"));
        }
        if boot_from_cd {
            if is_blank_text(self.config.iso_path.as_str()) {
                return Err(text_of("ISO path is empty"));
            }
            if !iso_found {
                return Err(text_of("ISO file not found at configured path"));
            }
        }
        Ok(())
    }

    /// The launch check, asking `found` whether a path is on disk: the
    /// basic checks, then the QEMU binary, the disk image and (when booting
    /// from it) the ISO, each asked only when the checks before it passed.
    pub fn validate_by<F: Fn(&String) -> bool>(&self, boot_from_cd: bool, found: F) -> (r: Result<
        (),
        String,
    >)
        requires
            forall|p: &String| #[trigger] call_requires(found, (p,)),
        ensures
            exists|q: bool, d: bool, i: bool|
                #[trigger] launch_answers(found, self.config, boot_from_cd, q, d, i) && reports(
                    launch_problem(self.config, boot_from_cd, q, d, i),
                    r,
                ),
    {
        let basic_ok = self.validate_basic().is_ok();
        let qemu_found = basic_ok && found(&self.config.qemu_path);
        let disk_found = qemu_found && found(&self.config.disk_path);
        let iso_found = disk_found && boot_from_cd && !is_blank_text(self.config.iso_path.as_str())
            && found(&self.config.iso_path);
        let r = self.validate_with(boot_from_cd, qemu_found, disk_found, iso_found);
        assert(launch_answers(found, self.config, boot_from_cd, qemu_found, disk_found, iso_found));
        r
    }

    /// The launch check against the file system (see `validate_by`). What
    /// the file system answers is up to it at the time of the call.
    pub fn validate(&self, boot_from_cd: bool) -> (r: Result<(), String>)
        ensures
            exists|q: bool, d: bool, i: bool|
                reports(#[trigger] launch_problem(self.config, boot_from_cd, q, d, i), r),
    {
        self.validate_by(boot_from_cd, |p: &String| path_exists(p.as_str()))
    }

    /// The QEMU arguments for the current configuration.
    pub fn build_args(&self, boot_from_cd: bool) -> (args: Vec<String>)
        ensures
            views(args@) == qemu_args(self.config, boot_from_cd),
    {
        self.config.build_args(boot_from_cd)
    }

    /// The launch step for a check result: clears the last exit code and
    /// error; on a failed check records the error and returns its log line;
    /// otherwise returns the "Launching" line and the arguments to start
    /// QEMU with.
    pub fn launch_with(&mut self, boot_from_cd: bool, check: Result<(), String>) -> (r: (
        String,
        Option<Vec<String>>,
    ))
        ensures
            launch_step(*old(self), *final(self), boot_from_cd, problem_of(check), r),
    {
        self.child_exit_code = None;
        self.error = None;
        match check {
            Err(e) => {
                let mut line = concat_text("Validation failed: ", e.as_str());
                line.append("\n");
                self.error = Some(e);
                (line, None)
            },
            Ok(()) => {
                let args = self.build_args(boot_from_cd);
                let mut line = concat_text("Launching: ", self.config.qemu_path.as_str());
                line.append(" ");
                let joined = join_text(&args, " ");
                line.append(joined.as_str());
                line.append("\n");
                (line, Some(args))
            },
        }
    }

    /// "Boot from Disk" (`boot_from_cd` false) or "Install" (true): checks
    /// the configuration and the files, then takes the launch step.
    pub fn launch_qemu(&mut self, boot_from_cd: bool) -> (r: (String, Option<Vec<String>>))
        ensures
            exists|q: bool, d: bool, i: bool|
                launch_step(
                    *old(self),
                    *final(self),
                    boot_from_cd,
                    #[trigger] launch_problem(old(self).config, boot_from_cd, q, d, i),
                    r,
                ),
    {
        let check = self.validate(boot_from_cd);
        let ghost (q, d, i) = choose|q: bool, d: bool, i: bool|
            reports(#[trigger] launch_problem(self.config, boot_from_cd, q, d, i), check);
        let ghost p = launch_problem(self.config, boot_from_cd, q, d, i);
        assert(problem_of(check) == p);
        let r = self.launch_with(boot_from_cd, check);
        assert(launch_step(*old(self), *self, boot_from_cd, p, r));
        r
    }

    /// A click on "Boot from Disk" (`boot_from_cd` false) or "Install"
    /// (true). While an emulator runs the buttons are disabled and the
    /// click does nothing; otherwise the kill confirmation ends and QEMU is
    /// launched as `launch_qemu` does.
    pub fn launch_clicked(&mut self, boot_from_cd: bool) -> (r: Option<(String, Option<Vec<String>>)>)
        ensures
            launch_click_step(*old(self), *final(self), boot_from_cd, r),
    {
        if self.running {
            return None;
        }
        self.confirming_kill = false;
        Some(self.launch_qemu(boot_from_cd))
    }

    /// A click on the kill button: disabled (no effect) without a running
    /// emulator; the first click asks for confirmation, the confirming click
    /// kills as `kill_qemu` does.
    pub fn kill_clicked(&mut self) -> (r: Option<String>)
        ensures
            kill_click_step(*old(self), *final(self), r),
    {
        if !self.running {
            return None;
        }
        if self.confirming_kill {
            self.kill_qemu()
        } else {
            self.confirming_kill = true;
            None
        }
    }

    /// What follows the attempt to start QEMU: on success the emulator is
    /// running and "QEMU started." is logged; on failure the error is
    /// recorded and logged.
    pub fn launch_finished(&mut self, started: Result<(), String>) -> (line: String)
        ensures
            same_setup(*old(self), *final(self)),
            final(self).confirming_kill == old(self).confirming_kill,
            final(self).child_exit_code == old(self).child_exit_code,
            started is Ok ==> final(self).running && final(self).error == old(self).error
                && line@ == "QEMU started.\n"@,
            started matches Err(e) ==> {
                &&& final(self).running == old(self).running
                &&& final(self).error matches Some(m) && m@ == "Failed to launch QEMU: "@ + e@
                &&& line@ == "Failed to launch QEMU: "@ + e@ + "\n"@
            },
    {
        match started {
            Ok(()) => {
                self.running = true;
                text_of("QEMU started.\n")
            },
            Err(e) => {
                let msg = concat_text("Failed to launch QEMU: ", e.as_str());
                let line = concat_text(msg.as_str(), "\n");
                self.error = Some(msg);
                line
            },
        }
    }

    /// "Kill QEMU" confirmed: leaves the confirmation; when an emulator is
    /// running it is to be killed, and the line to log is returned.
    pub fn kill_qemu(&mut self) -> (r: Option<String>)
        ensures
            kill_step(*old(self), *final(self), r),
    {
        self.confirming_kill = false;
        if self.running {
            self.running = false;
            Some(text_of("QEMU terminated.\n"))
        } else {
            None
        }
    }

    /// The check before saving the configuration: when the basic checks
    /// fail, the line to log instead of saving.
    pub fn save_config(&self) -> (r: Result<(), String>)
        ensures
            r is Ok <==> basic_problem(self.config) is None,
            r matches Err(line) ==> (basic_problem(self.config) matches Some(e) && line@
                == "Config not saved \u{2014} "@ + e + "\n"@),
    {
        match self.validate_basic() {
            Ok(()) => Ok(()),
            Err(e) => {
                let mut line = concat_text("Config not saved \u{2014} ", e.as_str());
                line.append("\n");
                Err(line)
            },
        }
    }

    /// The log line for how writing the configuration went.
    pub fn save_outcome_line(outcome: SaveOutcome) -> (line: String)
        ensures
            outcome is Saved ==> line@ == "Config saved.\n"@,
            outcome matches SaveOutcome::SerializeFailed(e) ==> line@
                == "Failed to serialize config: "@ + e@ + "\n"@,
            outcome matches SaveOutcome::WriteFailed(e) ==> line@ == "Failed to write config: "@
                + e@ + "\n"@,
    {
        match outcome {
            SaveOutcome::Saved => text_of("Config saved.\n"),
            SaveOutcome::SerializeFailed(e) => {
                let mut line = concat_text("Failed to serialize config: ", e.as_str());
                line.append("\n");
                line
            },
            SaveOutcome::WriteFailed(e) => {
                let mut line = concat_text("Failed to write config: ", e.as_str());
                line.append("\n");
                line
            },
        }
    }

    /// Where `qemu-img` is expected on `host`, given the parent directory of
    /// the QEMU binary: its file name joined onto that directory, or onto
    /// `.` when the binary's path has no parent.
    pub fn qemu_img_path_beside(parent: Option<String>, host: HostOs) -> (r: String)
        ensures
            is_img_beside(r@, parent, host),
    {
        let dir = match parent {
            Some(p) => p,
            None => text_of("."),
        };
        let name = match host {
            HostOs::Linux => "qemu-img",
            HostOs::Other => "qemu-img.exe",
        };
        proof {
            reveal_strlit("qemu-img");
            reveal_strlit("qemu-img.exe");
            assert(name@ == qemu_img_name(host));
            assert(name@[0] != '.');
            assert(is_plain_name(name@));
        }
        path_join(dir.as_str(), name)
    }

    /// Where `qemu-img` is expected, asking `parent_of` for the parent
    /// directory of the configured QEMU binary (see `qemu_img_path_beside`).
    pub fn derive_qemu_img_path_by<P: Fn(&String) -> Option<String>>(&self, parent_of: P) -> (r:
        String)
        requires
            forall|p: &String| #[trigger] call_requires(parent_of, (p,)),
        ensures
            exists|a: Option<String>|
                parent_asked(parent_of, self.config.qemu_path@, a) && #[trigger] is_img_beside(
                    r@,
                    a,
                    self.host,
                ),
    {
        let parent = parent_of(&self.config.qemu_path);
        let r = Self::qemu_img_path_beside(parent, self.host);
        assert(parent_asked(parent_of, self.config.qemu_path@, parent));
        r
    }

    /// Where `qemu-img` is expected: beside the configured QEMU binary (or
    /// in the current directory when its path has no parent), under the
    /// host's file name for it. The parent directory comes from
    /// `Path::parent`, whose exact answer depends on the platform.
    pub fn derive_qemu_img_path(&self) -> (r: String)
        ensures
            exists|a: Option<String>|
                is_parent_answer(a, self.config.qemu_path@) && #[trigger] is_img_beside(
                    r@,
                    a,
                    self.host,
                ),
    {
        self.derive_qemu_img_path_by(parent_dir)
    }

    /// The "Create" button of the disk image dialog, given the path of
    /// `qemu-img` and whether it, the (trimmed) output path and the
    /// (trimmed) backing file are on disk: records the first problem in the
    /// dialog, or marks the dialog running and returns the log line and
    /// the `qemu-img` run to start.
    pub fn create_qcow_with(
        &mut self,
        qemu_img: String,
        img_found: bool,
        output_found: bool,
        backing_found: bool,
    ) -> (r: Option<(String, QcowJob)>)
        ensures
            qcow_step(*old(self), *final(self), qemu_img@, img_found, output_found, backing_found, r),
    {
        self.qcow_create.error = None;
        if !img_found {
            self.qcow_create.error = Some(concat_text("qemu-img not found at: ", qemu_img.as_str()));
            return None;
        }
        if is_blank_text(self.qcow_create.path.as_str()) {
            self.qcow_create.error = Some(text_of("Output path is empty"));
            return None;
        }
        if output_found {
            self.qcow_create.error = Some(text_of("File already exists"));
            return None;
        }
        if self.qcow_create.size_gb == 0 {
            self.qcow_create.error = Some(text_of("Size must be > 0 GB"));
            return None;
        }
        let has_backing = !is_blank_text(self.qcow_create.backing_file.as_str());
        if has_backing && !backing_found {
            self.qcow_create.error = Some(text_of("Backing file not found"));
            return None;
        }
        let ghost s = self.qcow_create;
        let mut args: Vec<String> = Vec::new();
        push_text(&mut args, text_of("create"));
        push_text(&mut args, text_of("-f"));
        push_text(&mut args, text_of("qcow2"));
        if has_backing {
            push_text(&mut args, text_of("-b"));
            push_text(&mut args, trim_text(self.qcow_create.backing_file.as_str()));
        }
        push_text(&mut args, trim_text(self.qcow_create.path.as_str()));
        let mut size = u32_text(self.qcow_create.size_gb);
        size.append("G");
        push_text(&mut args, size);
        assert(views(args@) =~= qcow_args(s));
        self.qcow_create.running = true;
        let mut line = concat_text("Creating QCOW2: ", qemu_img.as_str());
        line.append(" ");
        let joined = join_text(&args, " ");
        line.append(joined.as_str());
        line.append(" \u{2026}\n");
        Some((line, QcowJob { program: qemu_img, args }))
    }

    /// The "Create" button of the disk image dialog, asking `parent_of` for
    /// the QEMU binary's parent directory and `found` whether a path is on
    /// disk: finds `qemu-img` (see `derive_qemu_img_path_by`), asks about
    /// it, the trimmed output path and the trimmed backing file (each only
    /// when the checks before it passed), then takes the step of
    /// `create_qcow_with`.
    pub fn create_qcow_by<F: Fn(&String) -> bool, P: Fn(&String) -> Option<String>>(
        &mut self,
        found: F,
        parent_of: P,
    ) -> (r: Option<(String, QcowJob)>)
        requires
            forall|p: &String| #[trigger] call_requires(found, (p,)),
            forall|p: &String| #[trigger] call_requires(parent_of, (p,)),
        ensures
            exists|img: Seq<char>, a: Option<String>, f: bool, o: bool, b: bool|
                #![trigger qcow_step(*old(self), *final(self), img, f, o, b, r), is_img_beside(img, a, old(self).host)]
                qcow_step(*old(self), *final(self), img, f, o, b, r)
                && parent_asked(parent_of, old(self).config.qemu_path@, a)
                && is_img_beside(img, a, old(self).host)
                && qcow_answers(found, img, old(self).qcow_create, f, o, b),
    {
        let qemu_img = self.derive_qemu_img_path_by(parent_of);
        let ghost a = choose|a: Option<String>|
            parent_asked(parent_of, self.config.qemu_path@, a) && #[trigger] is_img_beside(
                qemu_img@,
                a,
                self.host,
            );
        let img_found = found(&qemu_img);
        let out_path = trim_text(self.qcow_create.path.as_str());
        let output_found = img_found && !is_blank_text(self.qcow_create.path.as_str()) && found(
            &out_path,
        );
        let backing = trim_text(self.qcow_create.backing_file.as_str());
        let backing_found = img_found && !is_blank_text(self.qcow_create.path.as_str())
            && !output_found && self.qcow_create.size_gb != 0 && !is_blank_text(
            self.qcow_create.backing_file.as_str(),
        ) && found(&backing);
        let ghost img = qemu_img@;
        let ghost before = *self;
        assert(qcow_answers(found, img, before.qcow_create, img_found, output_found, backing_found));
        let r = self.create_qcow_with(qemu_img, img_found, output_found, backing_found);
        assert(qcow_step(before, *self, img, img_found, output_found, backing_found, r));
        assert(is_img_beside(img, a, before.host));
        r
    }

    /// The "Create" button against the file system (see `create_qcow_by`),
    /// with the parent directory from `Path::parent`. What the file system
    /// answers, and exactly where `Path::parent` cuts, are up to the
    /// machine.
    pub fn create_qcow(&mut self) -> (r: Option<(String, QcowJob)>)
        ensures
            exists|img: Seq<char>, a: Option<String>, f: bool, o: bool, b: bool|
                #![trigger qcow_step(*old(self), *final(self), img, f, o, b, r), is_img_beside(img, a, old(self).host)]
                qcow_step(*old(self), *final(self), img, f, o, b, r)
                && is_parent_answer(a, old(self).config.qemu_path@)
                && is_img_beside(img, a, old(self).host),
    {
        self.create_qcow_by(|p: &String| path_exists(p.as_str()), parent_dir)
    }

    /// What a check for a finished `qemu-img` run found. Without a result
    /// nothing changes. Otherwise the dialog stops running; on success the
    /// dialog is reset, the new image becomes the disk, and the line to log
    /// is returned; on failure the dialog shows the message.
    pub fn poll_qemu_img_result(&mut self, taken: Option<QemuImgResult>) -> (r: Option<String>)
        ensures
            taken is None ==> *final(self) == *old(self) && r is None,
            taken matches Some(result) ==> image_step(*old(self), *final(self), result, r),
    {
        match taken {
            Some(result) => {
                if result.success {
                    self.image_created(result)
                } else {
                    self.image_failed(result);
                    None
                }
            },
            None => None,
        }
    }

    fn image_created(&mut self, result: QemuImgResult) -> (r: Option<String>)
        requires
            result.success,
        ensures
            image_step(*old(self), *final(self), result, r),
    {
        let path = self.qcow_create.path.clone();
        self.qcow_create = QcowCreateState::default();
        let mut line = concat_text("Created QCOW2 disk: ", path.as_str());
        line.append(" (");
        let msg = trim_text(result.message.as_str());
        line.append(msg.as_str());
        line.append(")\n");
        self.config.disk_path = path;
        Some(line)
    }

    fn image_failed(&mut self, result: QemuImgResult)
        requires
            !result.success,
        ensures
            image_step(*old(self), *final(self), result, None),
    {
        self.qcow_create.running = false;
        self.qcow_create.error = Some(result.message);
    }

    /// What a poll of the emulator found. Without a running emulator
    /// nothing changes. An exit records the exit code, stops the emulator
    /// and returns the line to log; a failed poll also stops it.
    pub fn poll_child_exit(&mut self, status: ChildStatus) -> (r: Option<String>)
        ensures
            poll_step(*old(self), *final(self), status, r),
    {
        if !self.running {
            return None;
        }
        match status {
            ChildStatus::Running => None,
            ChildStatus::Exited(code) => {
                self.child_exit_code = code;
                self.running = false;
                match code {
                    Some(c) => {
                        let mut line = text_of("QEMU exited with code ");
                        let n = i32_text(c);
                        line.append(n.as_str());
                        line.append("\n");
                        Some(line)
                    },
                    None => Some(text_of("QEMU terminated by signal\n")),
                }
            },
            ChildStatus::Failed(e) => {
                let mut line = concat_text("Error polling QEMU: ", e.as_str());
                line.append("\n");
                self.running = false;
                Some(line)
            },
        }
    }
}

} // verus!
