# qemu_gui

A small front end for QEMU. The library under `src/` holds its logic,
verified with Verus:

- `text`: whitespace (Unicode `White_Space`), trimming, splitting into
  words, joining, decimal rendering and ASCII case-insensitive comparison,
  each stated over `Seq<char>`.
- `options`: the named options of a virtual machine (display, machine type,
  accelerator, graphics, network, audio, drive, clock, watchdog, boot) and
  the `Choice` trait: a value's name, and reading it back ignoring ASCII
  case.
- `config`: the configuration, its per-host defaults and the basic checks.
- `cmdline`: the QEMU argument list a configuration stands for.
- `log`: the activity log, bounded to 10240 bytes.
- `host`: the standard-library calls without a Verus specification (file
  existence, path parent and join, lossy UTF-8 decoding).
- `gui`: the front end's state and its steps: launching, start, kill,
  polling the emulator, saving the configuration, creating a disk image.
- `presets`: monitor resolution presets and the watchdog label.

`app/` is the program: the egui window, the RON configuration file
(`qemu-gui-config.ron`, next to the executable), and the
QEMU and `qemu-img` processes. `tests/` exercises the library.
