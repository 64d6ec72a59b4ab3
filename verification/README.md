# virtual_yubihsm

A virtual YubiHSM 2: the device with its objects, sessions, audit log and options, the host's side
of its protocol, a qualification of devices that speak it, and front ends over USB and I2C.

The library in `src/` is written in Verus. Every function states what it returns and changes, and
Verus proves it. What it takes from other crates goes through the few trusted functions of
`src/outside.rs`.

## How it is laid out

- `src/device.rs` is the state of a device, `src/channel.rs` the sessions and their messages,
  `src/execute.rs` the commands inside them. The commands themselves are in `store`, `usage`,
  `transfer`, `attestation`, `volatile` and `settings`; what they need of the objects that they name
  is in `access` and `authorization`.
- `src/persistence.rs` is what a device keeps over a power cycle.
- `src/host.rs`, `in_process`, `scenario`, `cases` and `qualification` are the host's side.
- `src/supervision.rs`, `control`, `display`, `buttons`, `usb`, `worker`, `i2c`, `observation` and
  `qualifier` are the decisions of the front ends.
- `src/guarantees.rs`, `agreement` and `durability` hold what spans all of it: what every request
  keeps, that both sides of a session read what the other sends, and that a device can always be
  stored and comes back as it was.
- `app/` is what touches the world: files, descriptors, threads, the key engine, certificates.
- `tests/` runs the library over a key engine of its own.

## The key engine

The device computes nothing with keys by itself. A call that needs a computation returns the
question and leaves the device as it was; the caller makes the call again with the answer added to
those before it. So what a device does is a function of its state, the frame, the time and the
answers, and every contract says which.

## Firmware profiles

A device has a firmware profile, which says which algorithms and commands it knows beyond those of
the device that it stands for. `FirmwareProfile::compiled` is the plain device; `Full` has every
extension.
