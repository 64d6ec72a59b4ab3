//! The transport to a device in the same process.
use crate::channel::{open_model, random_answered};
use crate::device::{factory_run, ConfigModel, Device, DeviceConfig, DeviceModel};
use crate::engine::{settled, stopped, EngineReply, EngineRequest, Halt};
use crate::firmware::FirmwareProfile;
use vstd::prelude::*;

verus! {

/// Carries frames to a device of its own.
#[derive(Clone, Debug)]
pub struct InProcessTransport {
    device: Device,
}

impl View for InProcessTransport {
    type V = DeviceModel;

    closed spec fn view(&self) -> DeviceModel {
        self.device@
    }
}

impl InProcessTransport {
    /// Whether the device is a valid one.
    pub closed spec fn valid(self) -> bool {
        self.device.valid()
    }

    /// Carries frames to a device.
    pub fn new(device: Device) -> (transport: InProcessTransport)
        requires
            device.valid(),
        ensures
            transport.valid(),
            transport@ == device@,
    {
        InProcessTransport { device }
    }

    /// Carries frames to a device that was never used.
    pub fn factory_default(replies: &[EngineReply]) -> (transport: core::result::Result<
        InProcessTransport,
        Halt,
    >)
        ensures
            stopped(transport) == settled(
                factory_run(
                    ConfigModel::factory(FirmwareProfile::YubiHsm2),
                    FirmwareProfile::YubiHsm2,
                    replies@,
                ),
            ),
            transport matches Ok(transport) ==> transport.valid(),
    {
        let config = DeviceConfig::default();
        match Device::factory_default(config, FirmwareProfile::compiled(), replies) {
            Ok(device) => Ok(InProcessTransport::new(device)),
            Err(halt) => Err(halt),
        }
    }

    /// Returns the device.
    pub fn device(&self) -> (device: &Device)
        requires
            self.valid(),
        ensures
            device.valid(),
            device@ == self@,
    {
        &self.device
    }

    /// Sends an encoded frame to the device and returns the response to it, or
    /// the question of the device that an answer is missing to.
    pub fn exchange(
        &mut self,
        request: &[u8],
        now: u64,
        replies: &mut Vec<EngineReply>,
    ) -> (response: core::result::Result<Vec<u8>, EngineRequest>)
        requires
            old(self).valid(),
        ensures
            final(self).valid(),
            random_answered(old(self)@, request@, now, false, old(replies)@, final(replies)@),
            ({
                let (after, answer) = old(self)@.handles_encoded(
                    request@,
                    now,
                    false,
                    final(replies)@,
                );
                final(self)@ == after && open_model(response) == (match answer {
                    Ok(answer) => Ok(answer.response),
                    Err(question) => Err(question),
                })
            }),
            response matches Err(question) ==> !(question is Random),
    {
        self.device.handle_encoded(request, now, replies)
    }

    /// Says in words where the frames go.
    pub fn description(&self) -> (text: String)
        ensures
            text@ == "in-process virtual-yubihsm-core"@,
    {
        "in-process virtual-yubihsm-core".to_owned()
    }
}

} // verus!
