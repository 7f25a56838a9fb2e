# os_gaming

A gaming-oriented kernel's core logic, written in Verus: each function carries
a `requires`/`ensures` contract that Verus proves.

## Layout

- `src/` — the verified library.
  - `boot/`, `bootloader_custom.rs` — boot information and the preferred boot
    configuration.
  - `kernel/boot.rs` — the boot sequence as a state machine.
  - `kernel/cpu/` — CPU identification, features, power and performance
    profiles (CPUID is read through `raw_cpuid` behind trusted wrappers).
  - `kernel/drivers/` — display, HDMI, DisplayPort, keyboard, mouse, raw input
    tracking, gamepads, the RAM filesystem and its laws across operations
    (`ram_laws.rs`), and the GPU subsystem (PCI enumeration, detection, the
    VESA, NVIDIA, AMD and Intel drivers).
  - `gui/` — renderer, themes, window layout and management, input, fonts,
    console, and the set-up and event step of the main loop.
  - `config/` — the system configuration and its tuning rules.
  - `text.rs`, `scan.rs`, `clock.rs` — text helpers, parsing, and the clock.
- `tests/` — tests of the library on concrete values.
- `app/` — the parts that touch the machine or need floating point: port
  and MSR access, the time-stamp counter, the main loop, software drawing,
  the host's graphics tools for the display set-up, and the encoded
  configuration file.
