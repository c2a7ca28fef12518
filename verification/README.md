# patina_components

Verified storage helpers for Patina UEFI firmware: NVMe boot-partition write
protection and updates, raw BlockIo partition writes, SimpleFileSystem file
reads, RAM disk installation, and USB HID descriptor definitions.

## Layout

- `src/` — the library, checked by Verus. Every firmware operation is a state
  machine: `start` names the first firmware call, and `step` takes the
  firmware's answer and names the next call or finishes with a result. The
  contracts state each step exactly; proof functions state what whole runs do
  (call order, chunk tiling, handle closing, success only after the final
  acknowledgement).
  - `status.rs` — raw EFI status codes and their mapping to `patina`'s `EfiError`.
  - `pass_thru.rs` — NVMe admin commands, completions and outcome checks.
  - `nvme.rs` — boot-partition write protection (Set Features, BPWPS).
  - `boot_partition.rs` — boot-partition writes (Identify, Firmware Image
    Download chunks, Firmware Commit).
  - `block_io.rs` — raw writes at LBA 0 with zero padding and flush.
  - `file_system.rs` — UTF-16 path encoding and whole-file reads.
  - `ram_disk.rs` — RAM disk registration.
  - `usb_hid_defs.rs` — USB HID constants and descriptors with their wire layout.
- `app/` — the firmware-facing side: UEFI bindings, the boot-service and
  protocol calls, and the loops that drive the state machines.
- `tests/` — tests of the library.
