//! A virtual YubiHSM 2: the device, its front ends and its qualification.
//!
//! A [`device::Device`] holds objects and sessions and answers frames. What it
//! computes with keys it asks of a key engine: a call that needs an answer
//! leaves the device as it was and returns the question, and is made again with
//! the answer added to those before it. So everything that the device decides is
//! a function of its state, the frame, the time and the answers.

// Bytes, numbers and texts.
pub mod bytes;
pub mod numbers;
pub mod text;
pub mod wire;

// What the protocol speaks of.
pub mod algorithm;
pub mod capability;
pub mod error;
pub mod firmware;
pub mod frame;
pub mod keys;
pub mod object;
pub mod protocol;
pub mod request;

// What a device is made of.
pub mod audit;
pub mod authorization;
pub mod device;
pub mod engine;
pub mod history;
pub mod options;
pub mod outside;
pub mod session;
pub mod session_object;

// What a device does.
pub mod access;
pub mod attestation;
pub mod channel;
pub mod execute;
pub mod persistence;
pub mod settings;
pub mod store;
pub mod transfer;
pub mod usage;
pub mod volatile;
pub mod wrapped;

// What every device keeps to.
pub mod agreement;
pub mod consultation;
pub mod durability;
pub mod guarantees;
pub mod promises;

// The host's side and the qualification of a device.
pub mod cases;
pub mod connector;
pub mod host;
pub mod in_process;
pub mod qualification;
pub mod scenario;

// The front ends.
pub mod arguments;
pub mod buttons;
pub mod control;
pub mod display;
pub mod i2c;
pub mod observation;
pub mod qualifier;
pub mod supervision;
pub mod usb;
pub mod worker;
