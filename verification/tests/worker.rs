//! The front ends: command lines, records, descriptors, display and button.
use virtual_yubihsm::arguments::ArgumentError;
use virtual_yubihsm::authorization::SessionAuthorization;
use virtual_yubihsm::buttons::{check_notice, read_event, Button, ButtonError};
use virtual_yubihsm::capability::CapabilitySet;
use virtual_yubihsm::control::{
    place_endpoints, place_resources, validate_initial_resources, EndpointError, EndpointPlaces,
    Kind, Record, RecordError, ResourceError, ResourcePlaces, MAX_BODY_LENGTH,
};
use virtual_yubihsm::display::{
    indicator_policy, Attention, Blinking, Cadence, Command, DisplayKind, DisplayState, Panel,
    Picture, COLOR_FRAME_SIZE, OLED_FRAME_SIZE,
};
use virtual_yubihsm::error::DeviceError;
use virtual_yubihsm::frame::{Frame, MAX_FRAME_LENGTH};
use virtual_yubihsm::i2c;
use virtual_yubihsm::i2c::{
    validate_state_directory, validate_target_info, DirectoryError, Persistence, TargetError,
};
use virtual_yubihsm::observation::{
    authenticated_failure, command_name, endpoint_is_unavailable, identification, outer_failure,
    response_error, session_id, LoggedFailure,
};
use virtual_yubihsm::protocol::CommandCode;
use virtual_yubihsm::supervision::{rejection, Action, BusEvent, Phase, Worker, WorkerError};
use virtual_yubihsm::usb::{personality, string_descriptor, BULK_IN, BULK_OUT};
use virtual_yubihsm::worker;

fn texts(arguments: &[&str]) -> Vec<String> {
    arguments.iter().map(|value| (*value).to_owned()).collect()
}

fn parse(arguments: &[&str]) -> Result<Option<i2c::Options>, ArgumentError> {
    i2c::parse_arguments(&texts(arguments))
}

#[test]
fn parses_required_options_and_device_override() {
    assert_eq!(
        parse(&[
            "--serial",
            "12345678",
            "--state-directory",
            "/var/lib/virtual-yubihsm-i2c/one",
            "--device",
            "/dev/test-target",
        ])
        .unwrap(),
        Some(i2c::Options {
            serial: 12_345_678,
            state_directory: "/var/lib/virtual-yubihsm-i2c/one".to_owned(),
            device: "/dev/test-target".to_owned(),
            inherited_device: false,
            persistence: Persistence::Batched,
        })
    );
}

#[test]
fn inherited_device_excludes_a_device_path() {
    let base = [
        "--serial",
        "1",
        "--state-directory",
        "/state",
        "--inherited-device",
    ];
    assert!(parse(&base).unwrap().unwrap().inherited_device);
    let mut both = base.to_vec();
    both.extend(["--device", "/dev/bsc-target0"]);
    assert!(parse(&both).is_err());
}

#[test]
fn parses_immediate_persistence() {
    assert_eq!(
        parse(&[
            "--serial",
            "1",
            "--state-directory",
            "/state",
            "--persistence=immediate",
        ])
        .unwrap()
        .unwrap()
        .persistence,
        Persistence::Immediate
    );
}

#[test]
fn requires_nonzero_serial_and_absolute_paths() {
    assert!(parse(&["--state-directory", "/state"]).is_err());
    assert!(parse(&["--serial", "0", "--state-directory", "/state"]).is_err());
    assert!(parse(&["--serial", "1", "--state-directory", "state"]).is_err());
    assert!(
        parse(&[
            "--serial",
            "1",
            "--state-directory",
            "/state",
            "--device",
            "target",
        ])
        .is_err()
    );
}

#[test]
fn wrong_command_lines_name_their_error() {
    let base = ["--serial", "1", "--state-directory", "/state"];
    let with = |more: &[&str]| {
        let mut all = base.to_vec();
        all.extend_from_slice(more);
        parse(&all)
    };
    assert_eq!(with(&[]).unwrap().unwrap().device, "/dev/bsc-target0");
    assert!(parse(&["--help"]).unwrap().is_none());
    assert!(parse(&["-h"]).unwrap().is_none());
    assert!(matches!(parse(&[]), Err(ArgumentError::SerialRequired)));
    assert!(matches!(
        parse(&["--serial", "1"]),
        Err(ArgumentError::StateDirectoryRequired)
    ));
    assert!(matches!(
        parse(&["--serial", "0"]),
        Err(ArgumentError::ZeroSerial)
    ));
    assert!(matches!(
        parse(&["--serial", "4294967296"]),
        Err(ArgumentError::InvalidSerial)
    ));
    assert_eq!(with(&["--serial", "+7"]).unwrap().unwrap().serial, 7);
    assert!(matches!(
        with(&["--serial"]),
        Err(ArgumentError::NeedsValue(option)) if option == "--serial"
    ));
    assert!(matches!(
        with(&["--persistence", "never"]),
        Err(ArgumentError::InvalidPersistence(value)) if value == "never"
    ));
    assert!(matches!(
        with(&["--state-directory", "state"]),
        Err(ArgumentError::RelativeStateDirectory)
    ));
    assert!(matches!(
        with(&["--device", "target"]),
        Err(ArgumentError::RelativeDevice)
    ));
    assert!(matches!(
        with(&["--inherited-device", "--device", "/dev/x"]),
        Err(ArgumentError::ExclusiveDevices)
    ));
    assert!(matches!(
        with(&["--what"]),
        Err(ArgumentError::Unknown(argument)) if argument == "--what"
    ));
}

#[test]
fn target_info_requires_ready_abi_and_full_frame_capacity() {
    let mut info = [0_u32; 8];
    info[0] = 3;
    info[3] = MAX_FRAME_LENGTH as u32;
    info[5] = 1;
    assert!(validate_target_info(&info).is_ok());

    info[3] = MAX_FRAME_LENGTH as u32 - 1;
    assert_eq!(
        validate_target_info(&info),
        Err(TargetError::Transfer(MAX_FRAME_LENGTH as u32 - 1))
    );

    info[3] = MAX_FRAME_LENGTH as u32;
    info[5] = 0;
    assert_eq!(validate_target_info(&info), Err(TargetError::Interface));
}

#[test]
fn state_directories_are_private() {
    assert!(validate_state_directory(true, 0o40700).is_ok());
    assert_eq!(
        validate_state_directory(true, 0o40750),
        Err(DirectoryError::Shared(0o750))
    );
    assert_eq!(
        validate_state_directory(false, 0o100600),
        Err(DirectoryError::NotADirectory)
    );
}

#[test]
fn parses_serial_and_rejects_unknown_arguments() {
    assert_eq!(
        worker::parse_arguments(&texts(&["--serial", "42"])).unwrap(),
        Some(worker::Options {
            serial: 42,
            display: DisplayKind::St7789Spi,
        })
    );
    assert!(worker::parse_arguments(&texts(&["--unknown"])).is_err());
}

#[test]
fn parses_oled_display() {
    assert_eq!(
        worker::parse_arguments(&texts(&["--display=sh1106-spi"])).unwrap(),
        Some(worker::Options {
            serial: 12_345_678,
            display: DisplayKind::Sh1106Spi,
        })
    );
    assert_eq!(
        worker::parse_arguments(&texts(&["--display", "st7789-spi", "--help"])).unwrap(),
        None
    );
    assert!(matches!(
        worker::parse_arguments(&texts(&["--display=crt"])),
        Err(ArgumentError::InvalidDisplay(value)) if value == "crt"
    ));
}

#[test]
fn publishes_the_yubihsm_bulk_personality() {
    let personality = personality(87_654_321);
    assert_eq!(
        &personality.device_descriptor[8..12],
        &[0x50, 0x10, 0x30, 0x00]
    );
    assert_eq!(personality.configuration_descriptor[4], 1);
    assert_eq!(personality.configuration_descriptor.len(), 32);
    assert_eq!(personality.device_descriptor[16], 3);
    assert_eq!(personality.vendor_code, 0x27);
    assert_eq!(personality.compatible_ids.len(), 1);
    assert_eq!(personality.compatible_ids[0].interface, 0);
    assert_eq!(personality.compatible_ids[0].compatible_id, "WINUSB");
    assert_eq!(personality.compatible_ids[0].sub_compatible_id, "");
    assert!(personality.strings.iter().any(|descriptor| {
        descriptor.index == 3
            && descriptor.language_id == 0x0409
            && descriptor.descriptor == string_descriptor("87654321")
    }));
    for address in [BULK_OUT, BULK_IN] {
        assert!(
            personality
                .configuration_descriptor
                .windows(3)
                .any(|bytes| bytes == [7, 5, address])
        );
    }
}

#[test]
fn texts_are_described_in_utf_16() {
    assert_eq!(string_descriptor("A"), [4, 3, 0x41, 0]);
    assert_eq!(string_descriptor("\u{20ac}"), [4, 3, 0xac, 0x20]);
    assert_eq!(
        string_descriptor("\u{1f600}"),
        [6, 3, 0x3d, 0xd8, 0x00, 0xde]
    );
}

#[test]
fn indicator_policy_preserves_yubihsm_cadences() {
    let policy = indicator_policy();
    assert_eq!(policy.busy.on, 67);
    assert_eq!(policy.busy.off, 33);
    assert_eq!(
        policy.idle,
        Cadence {
            on: 1_500,
            off: 1_500
        }
    );
    assert_eq!(policy.minimum_edge, 8);
}

#[test]
fn pictures_fill_their_display() {
    assert_eq!(DisplayKind::St7789Spi.frame_size(), COLOR_FRAME_SIZE);
    assert_eq!(COLOR_FRAME_SIZE, 240 * 240 * 2);
    assert_eq!(DisplayKind::Sh1106Spi.frame_size(), OLED_FRAME_SIZE);
    assert_eq!(OLED_FRAME_SIZE, 128 * 64 / 8);
}

#[test]
fn displays_follow_the_bus() {
    let mut state = DisplayState::new();
    assert_eq!(
        state.react(Command::Identify(5)).attention,
        Attention::Keep
    );
    let shown = state.react(Command::PersonalityPresent);
    assert_eq!(shown.picture, Picture::Dark);
    assert_eq!(shown.blinking, Blinking::Disable);
    assert_eq!(state.react(Command::Bind).blinking, Blinking::Enable);
    assert_eq!(
        state.react(Command::Identify(5)).attention,
        Attention::Begin(5)
    );
    assert!(state.identifying);
    assert_eq!(state.react(Command::Timeout).attention, Attention::End);
    assert_eq!(
        state.react(Command::Identify(0)).attention,
        Attention::Keep
    );
    assert_eq!(state.react(Command::Suspend).blinking, Blinking::Disable);
    assert_eq!(
        state.react(Command::Identify(5)).attention,
        Attention::Keep
    );
    assert_eq!(state.react(Command::Resume).blinking, Blinking::Enable);
    assert_eq!(state.react(Command::Resume).blinking, Blinking::Keep);
    assert_eq!(state.react(Command::Unbind).picture, Picture::Dark);
    assert_eq!(
        state.react(Command::PersonalityAbsent).picture,
        Picture::Off
    );
    assert_eq!(state.react(Command::Unbind).picture, Picture::Keep);
    assert_eq!(state.react(Command::Shutdown).blinking, Blinking::End);
}

#[test]
fn panels_report_a_failure_once() {
    let mut panel = Panel::new();
    assert!(panel.failed());
    assert!(!panel.failed());
    panel.opened();
    assert!(panel.failed());
    panel.opened();
    assert!(panel.closed());
    assert!(!panel.closed());
}

#[test]
fn buttons_tell_changes() {
    assert_eq!(read_event(48, 1), Ok(true));
    assert_eq!(read_event(48, 2), Ok(true));
    assert_eq!(read_event(48, 3), Ok(false));
    assert_eq!(read_event(0, 1), Err(ButtonError::Closed));
    assert_eq!(read_event(47, 1), Err(ButtonError::Partial(47)));
    let mut button = Button { pressed: false };
    assert!(button.observe(true));
    assert!(!button.observe(true));
    assert!(button.observe(false));
    assert_eq!(check_notice(1, 0), Ok(()));
    assert_eq!(check_notice(1, 1), Err(ButtonError::Notice(1)));
    assert_eq!(check_notice(2, 0), Err(ButtonError::Notice(2)));
}

#[test]
fn records_read_back_as_they_were_sent() {
    let record = Record::new(Kind::Configure, 7, 0x0102_0304, b"body".to_vec());
    let packet = record.encode().unwrap();
    assert_eq!(
        packet,
        [
            b'U', b'G', b'S', b'P', 1, 0x80, 0, 0, 0, 0, 0, 7, 1, 2, 3, 4, 0, 0, 0, 4, b'b', b'o',
            b'd', b'y',
        ]
    );
    assert_eq!(Record::parse(&packet, false, 0).unwrap(), record);

    let long = Record::new(Kind::Configure, 0, 0, vec![0; MAX_BODY_LENGTH + 1]);
    assert_eq!(long.encode(), Err(RecordError::Outbound));
    assert_eq!(
        Record::parse(&packet, true, 0),
        Err(RecordError::Truncated)
    );
    assert_eq!(
        Record::parse(&packet[..19], false, 0),
        Err(RecordError::Truncated)
    );
    assert_eq!(
        Record::parse(&packet[..23], false, 0),
        Err(RecordError::BodyLength)
    );
    assert_eq!(
        Record::parse(&packet, false, 1),
        Err(RecordError::Descriptors)
    );
    let mut other = packet.clone();
    other[4] = 2;
    assert_eq!(Record::parse(&other, false, 0), Err(RecordError::Header));
    other[4] = 1;
    other[5] = 0x83;
    assert_eq!(
        Record::parse(&other, false, 0),
        Err(RecordError::UnknownKind(0x83))
    );
}

fn resources(names: &[&[u8]]) -> Record {
    let mut body = (names.len() as u16).to_be_bytes().to_vec();
    for name in names {
        body.extend_from_slice(&(name.len() as u16).to_be_bytes());
        body.extend_from_slice(name);
    }
    let mut record = Record::new(Kind::InitialResources, 0, 0, body);
    record.files = names.len();
    record
}

#[test]
fn initial_resources_are_named_once_each() {
    let all: [&[u8]; 3] = [b"reconnect-button", b"display-spi", b"display-control"];
    let names = validate_initial_resources(&resources(&all)).unwrap();
    assert_eq!(names, ["reconnect-button", "display-spi", "display-control"]);
    assert_eq!(
        place_resources(&names).unwrap(),
        ResourcePlaces {
            display_spi: 1,
            display_control: 2,
            reconnect_button: 0,
        }
    );
    assert_eq!(
        place_resources(&names[1..]),
        Err(ResourceError::MissingButton)
    );
    assert_eq!(
        place_resources(&names[..2]),
        Err(ResourceError::MissingControl)
    );
    assert_eq!(
        place_resources(&names[..1]),
        Err(ResourceError::MissingDisplay)
    );
    assert_eq!(
        place_resources(&texts(&["display-spi", "display-spi"])),
        Err(ResourceError::DuplicateName("display-spi".to_owned()))
    );
    assert_eq!(
        place_resources(&texts(&["modem"])),
        Err(ResourceError::UnknownName("modem".to_owned()))
    );

    let mut record = resources(&all);
    record.request_id = 1;
    assert_eq!(
        validate_initial_resources(&record),
        Err(ResourceError::Unexpected)
    );
    record = resources(&all);
    record.files = 2;
    assert_eq!(
        validate_initial_resources(&record),
        Err(ResourceError::Differ)
    );
    record = resources(&all);
    record.body.push(0);
    assert_eq!(
        validate_initial_resources(&record),
        Err(ResourceError::Trailing)
    );
    record = resources(&all);
    record.body.pop();
    assert_eq!(
        validate_initial_resources(&record),
        Err(ResourceError::Truncated)
    );
    record = resources(&all);
    record.body.truncate(1);
    assert_eq!(
        validate_initial_resources(&record),
        Err(ResourceError::Table)
    );
    assert_eq!(
        validate_initial_resources(&resources(&[&[0xff]])),
        Err(ResourceError::NotText)
    );
}

#[test]
fn endpoint_maps_give_one_endpoint_for_each_direction() {
    let both = [0, 2, 0x81, 2, 0, 64, 0x01, 2, 0, 64];
    assert_eq!(
        place_endpoints(&both, 2),
        Ok(EndpointPlaces {
            output: 1,
            input: 0
        })
    );
    assert_eq!(place_endpoints(&[0], 0), Err(EndpointError::Truncated));
    assert_eq!(place_endpoints(&both, 1), Err(EndpointError::Differ));
    assert_eq!(
        place_endpoints(&[0, 1, 0x81, 2, 0, 64], 1),
        Err(EndpointError::MissingOutput)
    );
    assert_eq!(
        place_endpoints(&[0, 1, 0x01, 2, 0, 64], 1),
        Err(EndpointError::MissingInput)
    );
    assert_eq!(
        place_endpoints(&[0, 1, 0x01, 3, 0, 64], 1),
        Err(EndpointError::NotBulk)
    );
    assert_eq!(
        place_endpoints(&[0, 1, 0x02, 2, 0, 64], 1),
        Err(EndpointError::UnknownAddress(2))
    );
    assert_eq!(
        place_endpoints(&[0, 2, 0x01, 2, 0, 64, 0x01, 2, 0, 64], 2),
        Err(EndpointError::DuplicateAddress(1))
    );
}

fn endpoints(generation: u32, request_id: u32) -> Record {
    let body = vec![0, 2, 0x81, 2, 0, 64, 0x01, 2, 0, 64];
    let mut record = Record::new(Kind::UsbEndpoints, generation, request_id, body);
    record.files = 2;
    record
}

#[test]
fn workers_are_ejected_and_come_back() {
    let (mut worker, action) = Worker::start(false);
    let personality = b"personality".to_vec();
    assert_eq!(
        action.record(personality.clone()).unwrap(),
        Record::new(Kind::Configure, 0, 1, personality.clone())
    );
    assert!(!worker.wants_button());
    let action = worker.receive(&endpoints(9, 1), None);
    assert_eq!(
        action.record(Vec::new()).unwrap(),
        Record::new(Kind::Serving, 9, 1, Vec::new())
    );
    assert!(worker.wants_button());

    let bus = Record::new(Kind::UsbBusEvent, 9, 0, vec![1]);
    assert_eq!(
        worker.receive(&bus, Some(BusEvent::Bind)),
        Action::Follow {
            activate: false,
            clear_sessions: true,
            display: Some(Command::Bind),
        }
    );
    assert_eq!(
        worker.receive(&bus, Some(BusEvent::Enable)),
        Action::Follow {
            activate: true,
            clear_sessions: false,
            display: None,
        }
    );
    let request = Record::new(Kind::UsbControlRequest, 9, 5, vec![1]);
    assert_eq!(
        worker.receive(&request, None).record(Vec::new()).unwrap(),
        Record::new(Kind::UsbControlResponse, 9, 5, vec![0])
    );

    assert_eq!(worker.push(false), Action::Wait);
    let action = worker.push(true);
    assert_eq!(
        action.record(personality.clone()).unwrap(),
        Record::new(Kind::Configure, 9, 2, Vec::new())
    );
    assert!(!worker.wants_button());
    let quiesce = Record::new(Kind::Quiesce, 9, 2, Vec::new());
    let action = worker.receive(&quiesce, None);
    assert_eq!(
        action,
        Action::Quiesce {
            generation: 9,
            request_id: 2,
            again: true,
        }
    );
    assert_eq!(worker.push(true), Action::Wait);
    let action = worker.push(false);
    assert_eq!(
        action.record(personality.clone()).unwrap(),
        Record::new(Kind::Configure, 9, 3, personality)
    );
    assert_eq!(worker.phase, Phase::Configured);
    worker.receive(&endpoints(10, 3), None);
    assert_eq!(worker.abandon(), Action::Leave);
    assert_eq!(worker.abandon(), Action::Wait);
}

#[test]
fn workers_fail_on_what_they_did_not_ask_for() {
    let failure = |record: &Record, event| {
        let (mut worker, _) = Worker::start(false);
        worker.receive(&endpoints(9, 1), None);
        worker.receive(record, event)
    };
    assert_eq!(
        failure(&Record::new(Kind::Quiesce, 9, 4, Vec::new()), None),
        Action::Fail(WorkerError::UnknownRequest)
    );
    assert_eq!(
        failure(&Record::new(Kind::Quiesce, 8, 0, Vec::new()), None),
        Action::Fail(WorkerError::Mismatched)
    );
    assert_eq!(
        failure(&Record::new(Kind::UsbBusEvent, 9, 0, Vec::new()), None),
        Action::Fail(WorkerError::Event)
    );
    assert_eq!(
        failure(&Record::new(Kind::Serving, 9, 0, Vec::new()), None),
        Action::Fail(WorkerError::Unexpected(Kind::Serving))
    );
    assert_eq!(
        failure(&Record::new(Kind::Quiesce, 9, 0, Vec::new()), None),
        Action::Quiesce {
            generation: 9,
            request_id: 0,
            again: false,
        }
    );

    let (mut worker, _) = Worker::start(false);
    assert_eq!(
        worker.receive(&endpoints(9, 2), None),
        Action::Fail(WorkerError::NotEndpoints)
    );
    let (mut worker, _) = Worker::start(false);
    let rejected = Record::new(Kind::ConfigurationRejected, 0, 1, b"no \xff".to_vec());
    assert_eq!(
        worker.receive(&rejected, None),
        Action::Fail(WorkerError::Rejected)
    );
    assert_eq!(rejection(&rejected), "no \u{fffd}");
    let (mut worker, _) = Worker::start(false);
    let mut table = endpoints(9, 1);
    table.body[3] = 3;
    assert_eq!(
        worker.receive(&table, None),
        Action::Fail(WorkerError::Endpoints(EndpointError::NotBulk))
    );
    let (mut worker, _) = Worker::start(false);
    assert_eq!(worker.abandon(), Action::Fail(WorkerError::Closed));
    let (mut worker, action) = Worker::start(true);
    assert_eq!(
        action,
        Action::Publish {
            generation: 0,
            request_id: 1,
            present: false,
        }
    );
    assert_eq!(worker.interrupt(), Action::Leave);
    let mut worker = Worker {
        phase: Phase::Ejected { generation: 1 },
        request: u32::MAX,
    };
    assert_eq!(worker.push(false), Action::Fail(WorkerError::Overflow));
    let mut worker = Worker {
        phase: Phase::Serving {
            generation: 1,
            ejecting: false,
        },
        request: 1,
    };
    assert_eq!(
        worker.interrupt(),
        Action::Fail(WorkerError::Interrupted)
    );
}

#[test]
fn failures_are_logged_with_what_is_known() {
    let request = Frame::new(CommandCode::SessionMessage.to_byte(), vec![3, 1, 2]).unwrap();
    assert_eq!(session_id(&request), Some(3));
    let error = Frame::error(DeviceError::InvalidSession);
    assert_eq!(
        outer_failure(&request.encode(), &error.encode()),
        Some(LoggedFailure::Envelope {
            code: DeviceError::InvalidSession.to_byte(),
            session: Some(3),
        })
    );
    let echo = Frame::new(CommandCode::Echo.to_byte(), vec![3]).unwrap();
    assert_eq!(session_id(&echo), None);
    assert_eq!(
        outer_failure(&echo.encode(), &error.encode()),
        Some(LoggedFailure::Plain {
            command: CommandCode::Echo.to_byte(),
            code: DeviceError::InvalidSession.to_byte(),
            session: None,
        })
    );
    assert_eq!(
        outer_failure(&[1], &error.encode()),
        Some(LoggedFailure::Transfer(DeviceError::WrongLength))
    );
    assert_eq!(
        outer_failure(&echo.encode(), &[1]),
        Some(LoggedFailure::Unreadable)
    );
    let answer = Frame::response(CommandCode::Echo.to_byte(), vec![3]);
    assert_eq!(outer_failure(&echo.encode(), &answer.encode()), None);

    let authorization = SessionAuthorization {
        authentication_key_id: 7,
        capabilities: CapabilitySet::none(),
        delegated_capabilities: CapabilitySet::none(),
        domains: 1,
    };
    assert_eq!(
        authenticated_failure(Some(2), authorization, &echo, &error),
        Some(LoggedFailure::Authenticated {
            command: CommandCode::Echo.to_byte(),
            code: DeviceError::InvalidSession.to_byte(),
            session: Some(2),
            authentication_key_id: 7,
        })
    );
    assert_eq!(
        authenticated_failure(None, authorization, &echo, &answer),
        None
    );
    assert_eq!(
        response_error(&Frame::new(0x7f, Vec::new()).unwrap()),
        Some((0xff, "unknown device error"))
    );
    assert_eq!(
        response_error(&Frame::error(DeviceError::LogFull)),
        Some((DeviceError::LogFull.to_byte(), "log full"))
    );
    assert_eq!(command_name(CommandCode::Echo.to_byte()), "Echo");
    assert_eq!(command_name(0), "Unknown");
}

#[test]
fn blinking_calls_attention() {
    let blink = Frame::new(CommandCode::BlinkDevice.to_byte(), vec![10]).unwrap();
    let done = Frame::response(CommandCode::BlinkDevice.to_byte(), Vec::new());
    assert_eq!(identification(&blink, &done), Some(10));
    assert_eq!(
        identification(&blink, &Frame::error(DeviceError::WrongLength)),
        None
    );
    for code in [11, 19, 32, 108] {
        assert!(endpoint_is_unavailable(code));
    }
    assert!(!endpoint_is_unavailable(5));
}
