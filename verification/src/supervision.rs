//! What a worker does under its supervisor: when it shows itself on the bus, when
//! it serves, and when it leaves, by the records that it receives and by the
//! button that ejects it.
use crate::control::{
    endpoint_map, place_endpoints, ControlModel, EndpointError, EndpointPlaces, Kind, Record,
};
use crate::display::Command;
use crate::outside::{lossy, lossy_text};
use vstd::prelude::*;
use vstd::string::*;

verus! {

/// What happens on the bus.
#[derive(Clone, Copy, Debug, PartialEq, Eq, Structural)]
pub enum BusEvent {
    Bind,
    Unbind,
    Enable,
    Disable,
    Suspend,
    Resume,
}

/// Where a worker stands.
#[derive(Clone, Copy, Debug, PartialEq, Eq, Structural)]
pub enum Phase {
    /// It asked to be shown on the bus, and waits for its endpoints.
    Configured,
    /// It serves endpoints of a generation, and may have asked to be ejected.
    Serving { generation: u32, ejecting: bool },
    /// It is off the bus while the button is held.
    Ejected { generation: u32 },
    Ended,
}

/// Why a worker failed.
#[derive(Clone, Copy, Debug, PartialEq, Eq, Structural)]
pub enum WorkerError {
    /// The supervisor did not show the worker on the bus.
    Rejected,
    /// Something other than the endpoints asked for.
    NotEndpoints,
    Endpoints(EndpointError),
    /// A record of another generation, or with descriptors.
    Mismatched,
    /// A bus event that cannot be read.
    Event,
    /// A quiesce for a request that the worker did not make.
    UnknownRequest,
    /// A record that has no place where the worker stands.
    Unexpected(Kind),
    /// No number is left for another request.
    Overflow,
    /// The supervisor is gone before it gave endpoints.
    Closed,
    /// The worker was told to stop while it served.
    Interrupted,
}

/// What a worker does next.
#[derive(Clone, Copy, Debug, PartialEq, Eq, Structural)]
pub enum Action {
    /// Nothing.
    Wait,
    /// Asks to be shown on the bus, or to be taken off it.
    Publish { generation: u32, request_id: u32, present: bool },
    /// Starts to serve the endpoints.
    Serve { places: EndpointPlaces, generation: u32, request_id: u32 },
    /// Follows the bus: may let the endpoints run, drop all sessions, and tell the
    /// display.
    Follow { activate: bool, clear_sessions: bool, display: Option<Command> },
    /// Answers a control request with a refusal.
    Refuse { generation: u32, request_id: u32 },
    /// Stops serving, and either waits off the bus or ends.
    Quiesce { generation: u32, request_id: u32, again: bool },
    /// Ends.
    Leave,
    Fail(WorkerError),
}

/// A worker.
#[derive(Clone, Copy, Debug, PartialEq, Eq, Structural)]
pub struct Worker {
    pub phase: Phase,
    /// The number of the last request to be shown or taken off.
    pub request: u32,
}

impl Worker {
    /// A worker that has failed.
    pub open spec fn failed(self, error: WorkerError) -> (Worker, Action) {
        (Worker { phase: Phase::Ended, ..self }, Action::Fail(error))
    }

    /// A worker that ends.
    pub open spec fn left(self) -> (Worker, Action) {
        (Worker { phase: Phase::Ended, ..self }, Action::Leave)
    }

    /// A worker at its start, with the button held or not.
    pub open spec fn begun(pressed: bool) -> (Worker, Action) {
        (
            Worker {
                phase: if pressed {
                    Phase::Ejected { generation: 0 }
                } else {
                    Phase::Configured
                },
                request: 1,
            },
            Action::Publish { generation: 0, request_id: 1, present: !pressed },
        )
    }

    /// What the worker does on a bus event.
    pub open spec fn following(event: BusEvent) -> Action {
        Action::Follow {
            activate: event is Enable,
            clear_sessions: event is Bind || event is Unbind || event is Disable,
            display: match event {
                BusEvent::Bind => Some(Command::Bind),
                BusEvent::Unbind => Some(Command::Unbind),
                BusEvent::Suspend => Some(Command::Suspend),
                BusEvent::Resume => Some(Command::Resume),
                _ => None,
            },
        }
    }

    /// What a record makes of a worker that serves.
    pub open spec fn served(
        self,
        generation: u32,
        ejecting: bool,
        record: ControlModel,
        event: Option<BusEvent>,
    ) -> (Worker, Action) {
        if record.generation != generation || record.files != 0 {
            self.failed(WorkerError::Mismatched)
        } else if record.kind == Kind::UsbBusEvent && record.request_id == 0 {
            match event {
                None => self.failed(WorkerError::Event),
                Some(event) => (self, Worker::following(event)),
            }
        } else if record.kind == Kind::UsbControlRequest && record.request_id != 0 {
            (self, Action::Refuse { generation, request_id: record.request_id })
        } else if record.kind == Kind::Quiesce && record.body.len() == 0 {
            if record.request_id == 0 {
                (
                    Worker { phase: Phase::Ended, ..self },
                    Action::Quiesce { generation, request_id: 0, again: false },
                )
            } else if ejecting && record.request_id == self.request {
                (
                    Worker { phase: Phase::Ejected { generation }, ..self },
                    Action::Quiesce { generation, request_id: record.request_id, again: true },
                )
            } else {
                self.failed(WorkerError::UnknownRequest)
            }
        } else {
            self.failed(WorkerError::Unexpected(record.kind))
        }
    }

    /// What a record makes of a worker, together with the bus event in it, where
    /// it holds one that can be read.
    pub open spec fn received(self, record: ControlModel, event: Option<BusEvent>) -> (
        Worker,
        Action,
    ) {
        match self.phase {
            Phase::Configured => if record.kind == Kind::ConfigurationRejected {
                self.failed(WorkerError::Rejected)
            } else if record.kind != Kind::UsbEndpoints || record.generation == 0
                || record.request_id != self.request {
                self.failed(WorkerError::NotEndpoints)
            } else {
                match endpoint_map(record.body, record.files) {
                    Err(error) => self.failed(WorkerError::Endpoints(error)),
                    Ok(places) => (
                        Worker {
                            phase: Phase::Serving {
                                generation: record.generation,
                                ejecting: false,
                            },
                            ..self
                        },
                        Action::Serve {
                            places,
                            generation: record.generation,
                            request_id: self.request,
                        },
                    ),
                }
            },
            Phase::Serving { generation, ejecting } => self.served(
                generation,
                ejecting,
                record,
                event,
            ),
            Phase::Ejected { .. } => self.failed(WorkerError::Unexpected(record.kind)),
            Phase::Ended => (self, Action::Wait),
        }
    }

    /// Whether the worker looks at the button.
    pub open spec fn heeds_button(self) -> bool {
        match self.phase {
            Phase::Serving { ejecting, .. } => !ejecting,
            Phase::Ejected { .. } => true,
            _ => false,
        }
    }

    /// What the button makes of the worker: held, it ejects the one that serves;
    /// released, it brings back the one that is off the bus.
    pub open spec fn pushed(self, pressed: bool) -> (Worker, Action) {
        match self.phase {
            Phase::Serving { generation, ejecting } => if ejecting || !pressed {
                (self, Action::Wait)
            } else if self.request == u32::MAX {
                self.failed(WorkerError::Overflow)
            } else {
                (
                    Worker {
                        phase: Phase::Serving { generation, ejecting: true },
                        request: (self.request + 1) as u32,
                    },
                    Action::Publish {
                        generation,
                        request_id: (self.request + 1) as u32,
                        present: false,
                    },
                )
            },
            Phase::Ejected { generation } => if pressed {
                (self, Action::Wait)
            } else if self.request == u32::MAX {
                self.failed(WorkerError::Overflow)
            } else {
                (
                    Worker { phase: Phase::Configured, request: (self.request + 1) as u32 },
                    Action::Publish {
                        generation,
                        request_id: (self.request + 1) as u32,
                        present: true,
                    },
                )
            },
            _ => (self, Action::Wait),
        }
    }

    /// What it makes of the worker that the supervisor is gone.
    pub open spec fn abandoned(self) -> (Worker, Action) {
        match self.phase {
            Phase::Configured => self.failed(WorkerError::Closed),
            Phase::Ended => (self, Action::Wait),
            _ => self.left(),
        }
    }

    /// What it makes of the worker to be told to stop.
    pub open spec fn interrupted(self) -> (Worker, Action) {
        match self.phase {
            Phase::Ejected { .. } => self.left(),
            Phase::Ended => (self, Action::Wait),
            _ => self.failed(WorkerError::Interrupted),
        }
    }

    /// Starts a worker, with the button held or not.
    pub fn start(pressed: bool) -> (started: (Worker, Action))
        ensures
            started == Worker::begun(pressed),
    {
        let phase: Phase = if pressed {
            Phase::Ejected { generation: 0 }
        } else {
            Phase::Configured
        };
        (
            Worker { phase, request: 1 },
            Action::Publish { generation: 0, request_id: 1, present: !pressed },
        )
    }

    /// Ends the worker with a failure.
    fn fail(&mut self, error: WorkerError) -> (action: Action)
        ensures
            (*final(self), action) == old(self).failed(error),
    {
        self.phase = Phase::Ended;
        Action::Fail(error)
    }

    /// Takes a record while the worker serves.
    fn serve(
        &mut self,
        generation: u32,
        ejecting: bool,
        record: &Record,
        event: Option<BusEvent>,
    ) -> (action: Action)
        ensures
            (*final(self), action) == old(self).served(generation, ejecting, record@, event),
    {
        if record.generation != generation || record.files != 0 {
            return self.fail(WorkerError::Mismatched);
        }
        if record.kind == Kind::UsbBusEvent && record.request_id == 0 {
            return match event {
                None => self.fail(WorkerError::Event),
                Some(event) => follow(event),
            };
        }
        if record.kind == Kind::UsbControlRequest && record.request_id != 0 {
            return Action::Refuse { generation, request_id: record.request_id };
        }
        if record.kind == Kind::Quiesce && record.body.len() == 0 {
            if record.request_id == 0 {
                self.phase = Phase::Ended;
                return Action::Quiesce { generation, request_id: 0, again: false };
            }
            if ejecting && record.request_id == self.request {
                self.phase = Phase::Ejected { generation };
                return Action::Quiesce { generation, request_id: record.request_id, again: true };
            }
            return self.fail(WorkerError::UnknownRequest);
        }
        self.fail(WorkerError::Unexpected(record.kind))
    }

    /// Takes a record, with the bus event in it, where it holds one that can be
    /// read.
    pub fn receive(&mut self, record: &Record, event: Option<BusEvent>) -> (action: Action)
        ensures
            (*final(self), action) == old(self).received(record@, event),
    {
        match self.phase {
            Phase::Configured => {
                if record.kind == Kind::ConfigurationRejected {
                    return self.fail(WorkerError::Rejected);
                }
                if record.kind != Kind::UsbEndpoints || record.generation == 0 || record.request_id
                    != self.request {
                    return self.fail(WorkerError::NotEndpoints);
                }
                match place_endpoints(record.body.as_slice(), record.files) {
                    Err(error) => self.fail(WorkerError::Endpoints(error)),
                    Ok(places) => {
                        self.phase = Phase::Serving {
                            generation: record.generation,
                            ejecting: false,
                        };
                        Action::Serve {
                            places,
                            generation: record.generation,
                            request_id: self.request,
                        }
                    },
                }
            },
            Phase::Serving { generation, ejecting } => self.serve(
                generation,
                ejecting,
                record,
                event,
            ),
            Phase::Ejected { .. } => self.fail(WorkerError::Unexpected(record.kind)),
            Phase::Ended => Action::Wait,
        }
    }

    /// Tells whether the worker looks at the button.
    pub fn wants_button(&self) -> (wanted: bool)
        ensures
            wanted == self.heeds_button(),
    {
        match self.phase {
            Phase::Serving { ejecting, .. } => !ejecting,
            Phase::Ejected { .. } => true,
            _ => false,
        }
    }

    /// Takes how the button stands.
    pub fn push(&mut self, pressed: bool) -> (action: Action)
        ensures
            (*final(self), action) == old(self).pushed(pressed),
    {
        match self.phase {
            Phase::Serving { generation, ejecting } => {
                if ejecting || !pressed {
                    return Action::Wait;
                }
                if self.request == u32::MAX {
                    return self.fail(WorkerError::Overflow);
                }
                self.request = self.request + 1;
                self.phase = Phase::Serving { generation, ejecting: true };
                Action::Publish { generation, request_id: self.request, present: false }
            },
            Phase::Ejected { generation } => {
                if pressed {
                    return Action::Wait;
                }
                if self.request == u32::MAX {
                    return self.fail(WorkerError::Overflow);
                }
                self.request = self.request + 1;
                self.phase = Phase::Configured;
                Action::Publish { generation, request_id: self.request, present: true }
            },
            _ => Action::Wait,
        }
    }

    /// Takes notice that the supervisor is gone.
    pub fn abandon(&mut self) -> (action: Action)
        ensures
            (*final(self), action) == old(self).abandoned(),
    {
        match self.phase {
            Phase::Configured => self.fail(WorkerError::Closed),
            Phase::Ended => Action::Wait,
            _ => {
                self.phase = Phase::Ended;
                Action::Leave
            },
        }
    }

    /// Takes the order to stop.
    pub fn interrupt(&mut self) -> (action: Action)
        ensures
            (*final(self), action) == old(self).interrupted(),
    {
        match self.phase {
            Phase::Ejected { .. } => {
                self.phase = Phase::Ended;
                Action::Leave
            },
            Phase::Ended => Action::Wait,
            _ => self.fail(WorkerError::Interrupted),
        }
    }
}

/// Follows a bus event.
fn follow(event: BusEvent) -> (action: Action)
    ensures
        action == Worker::following(event),
{
    match event {
        BusEvent::Bind => Action::Follow {
            activate: false,
            clear_sessions: true,
            display: Some(Command::Bind),
        },
        BusEvent::Unbind => Action::Follow {
            activate: false,
            clear_sessions: true,
            display: Some(Command::Unbind),
        },
        BusEvent::Enable => Action::Follow {
            activate: true,
            clear_sessions: false,
            display: None,
        },
        BusEvent::Disable => Action::Follow {
            activate: false,
            clear_sessions: true,
            display: None,
        },
        BusEvent::Suspend => Action::Follow {
            activate: false,
            clear_sessions: false,
            display: Some(Command::Suspend),
        },
        BusEvent::Resume => Action::Follow {
            activate: false,
            clear_sessions: false,
            display: Some(Command::Resume),
        },
    }
}

impl Action {
    /// The record that goes to the supervisor with an action, where one does; the
    /// body of a publication is the personality, empty to be taken off the bus.
    pub open spec fn sends(self, personality: Seq<u8>) -> Option<ControlModel> {
        match self {
            Action::Publish { generation, request_id, present } => Some(
                ControlModel::plain(
                    Kind::Configure,
                    generation,
                    request_id,
                    if present {
                        personality
                    } else {
                        Seq::empty()
                    },
                ),
            ),
            Action::Serve { generation, request_id, .. } => Some(
                ControlModel::plain(Kind::Serving, generation, request_id, Seq::empty()),
            ),
            Action::Refuse { generation, request_id } => Some(
                ControlModel::plain(Kind::UsbControlResponse, generation, request_id, seq![0u8]),
            ),
            Action::Quiesce { generation, request_id, .. } => Some(
                ControlModel::plain(Kind::Quiesced, generation, request_id, Seq::empty()),
            ),
            _ => None,
        }
    }

    /// Makes the record that goes to the supervisor with the action, where one
    /// does.
    pub fn record(self, personality: Vec<u8>) -> (record: Option<Record>)
        ensures
            match record {
                Some(record) => self.sends(personality@) == Some(record@),
                None => self.sends(personality@) is None,
            },
    {
        let none: Vec<u8> = Vec::new();
        assert(none@ =~= Seq::<u8>::empty());
        match self {
            Action::Publish { generation, request_id, present } => {
                let body: Vec<u8> = if present {
                    personality
                } else {
                    none
                };
                Some(Record::new(Kind::Configure, generation, request_id, body))
            },
            Action::Serve { generation, request_id, .. } => Some(
                Record::new(Kind::Serving, generation, request_id, none),
            ),
            Action::Refuse { generation, request_id } => {
                let body: Vec<u8> = vec![0];
                assert(body@ =~= seq![0u8]);
                Some(Record::new(Kind::UsbControlResponse, generation, request_id, body))
            },
            Action::Quiesce { generation, request_id, .. } => Some(
                Record::new(Kind::Quiesced, generation, request_id, none),
            ),
            _ => None,
        }
    }
}

/// Reads why a supervisor did not show the worker on the bus.
pub fn rejection(record: &Record) -> (reason: String)
    ensures
        reason@ == lossy(record@.body),
{
    lossy_text(record.body.as_slice())
}

/// A record, a push of the button, a lost supervisor and an order to stop change
/// the number of the last request only where a new request goes out, and then by
/// one; so no two requests of a worker have the same number.
pub proof fn requests_are_numbered(
    worker: Worker,
    record: ControlModel,
    event: Option<BusEvent>,
    pressed: bool,
)
    ensures
        worker.received(record, event).0.request == worker.request,
        worker.received(record, event).1 !is Publish,
        worker.abandoned().0.request == worker.request,
        worker.interrupted().0.request == worker.request,
        match worker.pushed(pressed) {
            (after, Action::Publish { request_id, .. }) => request_id == worker.request + 1
                && after.request == request_id,
            (after, _) => after.request == worker.request,
        },
{
}

/// A worker serves only what came for its last request, of a generation other
/// than zero.
pub proof fn endpoints_answer_the_last_request(
    worker: Worker,
    record: ControlModel,
    event: Option<BusEvent>,
)
    requires
        worker.phase is Configured,
        worker.received(record, event).1 is Serve,
    ensures
        record.kind == Kind::UsbEndpoints,
        record.request_id == worker.request,
        record.generation != 0,
        worker.received(record, event).0.phase == (Phase::Serving {
            generation: record.generation,
            ejecting: false,
        }),
{
}

/// A worker goes off the bus to come back only where it asked for that itself,
/// and comes back when the button is let go.
pub proof fn ejection_needs_the_button(
    worker: Worker,
    record: ControlModel,
    event: Option<BusEvent>,
)
    requires
        worker.received(record, event).1 matches Action::Quiesce { again, .. } && again,
        worker.request < u32::MAX,
    ensures
        worker.phase matches Phase::Serving { ejecting, .. } && ejecting,
        record.request_id == worker.request,
        worker.received(record, event).0.pushed(true).1 is Wait,
        worker.received(record, event).0.pushed(false).1 matches Action::Publish { present, .. }
            && present,
        worker.received(record, event).0.pushed(false).0.phase is Configured,
{
}

/// A worker that ended does nothing more.
pub proof fn ended_workers_rest(
    worker: Worker,
    record: ControlModel,
    event: Option<BusEvent>,
    pressed: bool,
)
    requires
        worker.phase is Ended,
    ensures
        worker.received(record, event) == (worker, Action::Wait),
        worker.pushed(pressed) == (worker, Action::Wait),
        worker.abandoned() == (worker, Action::Wait),
        worker.interrupted() == (worker, Action::Wait),
{
}

} // verus!
