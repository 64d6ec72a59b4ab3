//! Options: which algorithms are enabled, and what is set and told.
use crate::algorithm::Algorithm;
use crate::bytes::{u16_at, u16_be, u16_round_trip};
use crate::capability::bit;
use crate::device::{factory_key, factory_record, DeviceModel, EffectModel};
use crate::error::DeviceError;
use crate::firmware::FirmwareProfile;
use crate::keys::SigningKeyModel;
use crate::object::{MaterialModel, ObjectType};
use crate::options::{option_value, set_pairs, OptionsModel};
use crate::promises::computing::place;
use crate::protocol::CommandCode;
use crate::request::SetOptionRequest;
use crate::settings::{algorithm_settings, audit_settings};
use crate::wire::decoded;
use vstd::prelude::*;

verus! {

/// An algorithm is enabled where the firmware knows it, the device offers it, it
/// has not been switched off, and the FIPS mode, where that is on, does not rule
/// it out: SHA-1 signatures, the curve secp256k1 and PKCS #1 v1.5 decryption.
pub proof fn algorithms_are_enabled(device: DeviceModel, algorithm: u8)
    ensures
        device.enabled(algorithm) <==> {
            &&& 1 <= algorithm <= 57
            &&& algorithm == 56 ==> device.firmware == FirmwareProfile::Full
            &&& algorithm == 57 ==> device.firmware == FirmwareProfile::Full || device.firmware
                == FirmwareProfile::SecureChannel || device.firmware
                == FirmwareProfile::TestPrefixedEcdh
            &&& device.config.algorithms.contains(algorithm)
            &&& device.options.algorithm_toggle.contains_key(algorithm)
                ==> device.options.algorithm_toggle[algorithm] != 0
            &&& device.options.fips_mode != 0 ==> algorithm != 1 && algorithm != 5 && algorithm
                != 15 && algorithm != 23 && algorithm != 48
        },
{
}

/// What a device has of options after a request to set one, where it grants it.
pub open spec fn set(device: DeviceModel, option: u8, values: Seq<u8>) -> core::result::Result<
    OptionsModel,
    DeviceError,
> {
    device.changed_options(seq![option] + u16_be(values.len() as u16) + values)
}

proof fn lemma_set(option: u8, values: Seq<u8>)
    requires
        values.len() <= 0xffff,
    ensures
        ({
            let data = seq![option] + u16_be(values.len() as u16) + values;
            let request = decoded::<SetOptionRequest>(data);
            request is Ok && request->Ok_0.option == option && request->Ok_0.values == values
        }),
{
    let length = values.len() as u16;
    let data = seq![option] + u16_be(length) + values;
    u16_round_trip(length);
    assert(data[0] == option);
    assert(data[1] == u16_be(length)[0] && data[2] == u16_be(length)[1]);
    assert(u16_at(data, 1) == length);
    assert(data.subrange(3, 3 + values.len() as int) =~= values);
}

/// Forced auditing is switched to off, on or fixed, and never back from fixed;
/// nothing else changes.
pub proof fn audits_are_forced(device: DeviceModel, value: u8)
    ensures
        set(device, 1, seq![value]) == (if value > 2 {
            Err(DeviceError::InvalidData)
        } else if device.options.force_audit == 2 && value != 2 {
            Err(DeviceError::InsufficientPermissions)
        } else {
            Ok(OptionsModel { force_audit: value, ..device.options })
        }),
{
    lemma_set(1, seq![value]);
}

/// The FIPS mode is switched only on a device with nothing but its first key.
pub proof fn modes_are_switched_on_fresh_devices(device: DeviceModel, value: u8)
    ensures
        set(device, 5, seq![value]) == (if !(device.objects.len() == 1
            && device.objects.contains_key(place(2, 1))) {
            Err(DeviceError::InsufficientPermissions)
        } else if value > 2 {
            Err(DeviceError::InvalidData)
        } else if device.options.fips_mode == 2 && value != 2 {
            Err(DeviceError::InsufficientPermissions)
        } else {
            Ok(OptionsModel { fips_mode: value, ..device.options })
        }),
{
    lemma_set(5, seq![value]);
}

/// Whether a firmware knows a command.
pub open spec fn knows_command(firmware: FirmwareProfile, command: u8) -> bool {
    &&& CommandCode::of_byte(command) is Some
    &&& command == 0x78 ==> firmware == FirmwareProfile::Full || firmware
        == FirmwareProfile::SecureChannel || firmware == FirmwareProfile::TestPrefixedEcdh
    &&& command == 0x79 ==> firmware == FirmwareProfile::Full || firmware
        == FirmwareProfile::SecureChannel || firmware == FirmwareProfile::TestSessionObjects
}

/// The audit of a command is switched for that command alone: to off, on or fixed,
/// and never back from fixed. That of session messages stays off.
pub proof fn audits_are_switched_by_command(device: DeviceModel, command: u8, value: u8)
    ensures
        set(device, 3, seq![command, value]) == (if !knows_command(device.firmware, command)
            || value > 2 || (command == 5 && value != 0) {
            Err(DeviceError::InvalidData)
        } else if device.options.command_audit.contains_key(command)
            && device.options.command_audit[command] == 2 && value != 2 {
            Err(DeviceError::InsufficientPermissions)
        } else {
            Ok(
                OptionsModel {
                    command_audit: device.options.command_audit.insert(command, value),
                    ..device.options
                },
            )
        }),
{
    let pairs = seq![command, value];
    lemma_set(3, pairs);
    reveal_with_fuel(set_pairs, 2);
    assert(pairs.subrange(2, 2) =~= Seq::empty());
}

/// An algorithm is switched for itself alone, and only on a device with nothing
/// but its first key.
pub proof fn algorithms_are_switched_on_fresh_devices(device: DeviceModel, algorithm: u8, value: u8)
    ensures
        set(device, 4, seq![algorithm, value]) == (if !(device.objects.len() == 1
            && device.objects.contains_key(place(2, 1))) {
            Err(DeviceError::InsufficientPermissions)
        } else if value > 2 || !device.config.algorithms.contains(algorithm) || !(1 <= algorithm
            <= 57) || (algorithm == 56 && device.firmware != FirmwareProfile::Full) || (algorithm
            == 57 && device.firmware != FirmwareProfile::Full && device.firmware
            != FirmwareProfile::SecureChannel && device.firmware
            != FirmwareProfile::TestPrefixedEcdh) {
            Err(DeviceError::InvalidData)
        } else if device.options.algorithm_toggle.contains_key(algorithm)
            && device.options.algorithm_toggle[algorithm] == 2 && value != 2 {
            Err(DeviceError::InsufficientPermissions)
        } else {
            Ok(
                OptionsModel {
                    algorithm_toggle: device.options.algorithm_toggle.insert(algorithm, value),
                    ..device.options
                },
            )
        }),
{
    let pairs = seq![algorithm, value];
    lemma_set(4, pairs);
    reveal_with_fuel(set_pairs, 2);
    assert(pairs.subrange(2, 2) =~= Seq::empty());
}

/// Several settings in one request are the same as one after the other, and where
/// one of them is refused, so is the request.
pub proof fn settings_follow_each_other(
    values: Map<u8, u8>,
    first: Seq<u8>,
    second: Seq<u8>,
    settable: spec_fn(u8, u8) -> bool,
)
    requires
        first.len() % 2 == 0,
    ensures
        set_pairs(values, first + second, settable) == (match set_pairs(values, first, settable) {
            Ok(between) => set_pairs(between, second, settable),
            Err(error) => Err(error),
        }),
    decreases first.len(),
{
    let both = first + second;
    if first.len() == 0 {
        assert(both =~= second);
    } else {
        let rest = first.subrange(2, first.len() as int);
        assert(both[0] == first[0] && both[1] == first[1]);
        assert(both.subrange(2, both.len() as int) =~= rest + second);
        settings_follow_each_other(values.insert(first[0], first[1]), rest, second, settable);
    }
}

/// Whether a list of pairs has a pair.
pub open spec fn has_pair(pairs: Seq<u8>, item: u8, value: u8) -> bool {
    exists|i: int|
        0 <= i && 2 * i + 1 < pairs.len() && #[trigger] pairs[2 * i] == item && pairs[2 * i + 1]
            == value
}

proof fn lemma_more(pairs: Seq<u8>, last: u8, setting: u8, item: u8, value: u8)
    requires
        pairs.len() % 2 == 0,
    ensures
        has_pair(pairs + seq![last, setting], item, value) <==> has_pair(pairs, item, value) || (
        last == item && setting == value),
{
    let more = pairs + seq![last, setting];
    if has_pair(pairs, item, value) {
        let i = choose|i: int|
            0 <= i && 2 * i + 1 < pairs.len() && #[trigger] pairs[2 * i] == item && pairs[2 * i + 1]
                == value;
        assert(more[2 * i] == item && more[2 * i + 1] == value);
    }
    if last == item && setting == value {
        let i = pairs.len() as int / 2;
        assert(more[2 * i] == item && more[2 * i + 1] == value);
    }
    if has_pair(more, item, value) {
        let i = choose|i: int|
            0 <= i && 2 * i + 1 < more.len() && #[trigger] more[2 * i] == item && more[2 * i + 1]
                == value;
        if 2 * i + 1 < pairs.len() {
            assert(pairs[2 * i] == item && pairs[2 * i + 1] == value);
        }
    }
}

proof fn lemma_audits(
    values: Map<u8, u8>,
    firmware: FirmwareProfile,
    bound: nat,
    item: u8,
    value: u8,
)
    requires
        bound <= 256,
    ensures
        audit_settings(values, firmware, bound).len() % 2 == 0,
        has_pair(audit_settings(values, firmware, bound), item, value) <==> item < bound
            && knows_command(firmware, item) && value == option_value(values, item, 0),
    decreases bound,
{
    if bound > 0 {
        let byte = (bound - 1) as u8;
        let before = audit_settings(values, firmware, (bound - 1) as nat);
        lemma_audits(values, firmware, (bound - 1) as nat, item, value);
        lemma_more(before, byte, option_value(values, byte, 0), item, value);
    }
}

/// GetOption tells of each command that the firmware knows whether it is audited,
/// off where nothing was set, and of no other; and how auditing is forced and
/// which mode the device is in.
pub proof fn audit_options_are_told(device: DeviceModel, command: u8, value: u8)
    ensures
        device.tells_option(seq![3u8]) matches Ok(told) && (has_pair(told, command, value)
            <==> knows_command(device.firmware, command) && value == (
        if device.options.command_audit.contains_key(command) {
            device.options.command_audit[command]
        } else {
            0
        })),
        device.tells_option(seq![1u8]) == Ok::<_, DeviceError>(seq![device.options.force_audit]),
        device.tells_option(seq![5u8]) == Ok::<_, DeviceError>(seq![device.options.fips_mode]),
{
    lemma_audits(device.options.command_audit, device.firmware, 256, command, value);
}

proof fn lemma_toggles(
    values: Map<u8, u8>,
    firmware: FirmwareProfile,
    algorithms: Seq<u8>,
    item: u8,
    value: u8,
)
    ensures
        algorithm_settings(values, firmware, algorithms).len() % 2 == 0,
        has_pair(algorithm_settings(values, firmware, algorithms), item, value) <==> (
        algorithms.contains(item) && Algorithm::of_byte(item) is Some && (Algorithm::of_byte(
            item,
        )->0).available(firmware) && value == option_value(values, item, 1)),
    decreases algorithms.len(),
{
    if algorithms.len() > 0 {
        let shorter = algorithms.drop_last();
        let byte = algorithms.last();
        let before = algorithm_settings(values, firmware, shorter);
        lemma_toggles(values, firmware, shorter, item, value);
        lemma_more(before, byte, option_value(values, byte, 1), item, value);
        assert(algorithms =~= shorter.push(byte));
        if shorter.contains(item) {
            let i = choose|i: int| 0 <= i < shorter.len() && shorter[i] == item;
            assert(algorithms[i] == item);
        }
        if byte == item {
            assert(algorithms[algorithms.len() - 1] == item);
        }
        if algorithms.contains(item) && byte != item {
            let i = choose|i: int| 0 <= i < algorithms.len() && algorithms[i] == item;
            assert(shorter[i] == item);
        }
    }
}

/// GetOption tells of each algorithm that the device offers whether it is switched
/// on, on where nothing was set, and of no other.
pub proof fn algorithm_options_are_told(device: DeviceModel, algorithm: u8, value: u8)
    ensures
        device.tells_option(seq![4u8]) matches Ok(told) && (has_pair(told, algorithm, value)
            <==> device.config.algorithms.contains(algorithm) && 1 <= algorithm <= 57 && (algorithm
            == 56 ==> device.firmware == FirmwareProfile::Full) && (algorithm == 57
            ==> device.firmware == FirmwareProfile::Full || device.firmware
            == FirmwareProfile::SecureChannel || device.firmware
            == FirmwareProfile::TestPrefixedEcdh) && value == (
        if device.options.algorithm_toggle.contains_key(algorithm) {
            device.options.algorithm_toggle[algorithm]
        } else {
            1
        })),
{
    lemma_toggles(
        device.options.algorithm_toggle,
        device.firmware,
        device.config.algorithms,
        algorithm,
        value,
    );
}

/// A reset leaves one object, the first authentication key with every capability
/// in every domain, no session, no entry in the log, no option set, and a new key
/// of the device's own; what it is and how far it counted stay.
pub proof fn resets_bring_the_first_key_back(device: DeviceModel, key: SigningKeyModel)
    ensures
        ({
            let after = device.applied(EffectModel::Reset(key));
            let first = after.objects[place(2, 1)];
            &&& after.objects.dom() == set![place(2, 1)]
            &&& first.info.id == 1
            &&& first.info.object_type == ObjectType::AuthenticationKey
            &&& first.info.algorithm == 38
            &&& first.info.domains == 0xffff
            &&& first.info.length == 40
            &&& first.info.origin == 2
            &&& forall|number: u8|
                number < 64 ==> #[trigger] bit(first.info.capabilities.word(), number) && bit(
                    first.info.delegated_capabilities.word(),
                    number,
                )
            &&& first.material matches MaterialModel::Symmetric(keys) && keys.len() == 32
            &&& after.sessions.dom() == Set::<u8>::empty()
            &&& after.audit.entries.len() == 0
            &&& after.audit.next_number == 1
            &&& after.options.force_audit == 0
            &&& after.options.fips_mode == 0
            &&& after.options.command_audit.dom() == Set::<u8>::empty()
            &&& after.options.algorithm_toggle.dom() == Set::<u8>::empty()
            &&& after.key == key
            &&& after.config == device.config
            &&& after.firmware == device.firmware
            &&& after.epoch == device.epoch
        }),
{
    let after = device.applied(EffectModel::Reset(key));
    assert(factory_key().number() == place(2, 1));
    assert(after.objects.dom() =~= set![place(2, 1)]);
    assert(after.sessions.dom() =~= Set::<u8>::empty());
    assert(after.options.command_audit.dom() =~= Set::<u8>::empty());
    assert(after.options.algorithm_toggle.dom() =~= Set::<u8>::empty());
    let first = factory_record();
    assert forall|number: u8| number < 64 implies #[trigger] bit(
        first.info.capabilities.word(),
        number,
    ) && bit(first.info.delegated_capabilities.word(), number) by {
        crate::capability::empty_and_full_sets(first.info.capabilities, number);
        assert(first.info.capabilities.has(number));
    }
}

} // verus!
