# xzram

Cross-distro Linux swap management: zram through systemd-zram-generator,
swapfiles in `/etc/fstab`, sysctl tuning, staged configuration with apply
and rollback, configuration snapshots, and hardware-aware recommended
defaults.

## Layout

- `src/` — the library, verified with Verus. Parsers (os-release, fstab,
  /proc/swaps, /proc/meminfo, zram-generator.conf, the zram-tools config,
  sysctl drop-ins), the staging and apply engine, snapshot records and the
  restore plan, the doctor checks, the recommendation engine and the linked
  optimizer, and the decisions of the command line and the privileged
  helper. Host facts come in as plain values; host work goes out as plans
  (lists of steps) that the caller carries out.
- `app/` — the `xzram` command and the `xzram-helper` it doubles as: argument
  parsing, file and process I/O, the D-Bus client, JSON forms of the
  library's values, and execution of the library's plans.
- `tests/` — tests of the library.

Laws of the library (round trips of the config and drop-in formats, what a
read gives back after a write, what merging staged configuration keeps,
what an apply or a recommendation stages) are public proof functions next
to the code they speak of.
