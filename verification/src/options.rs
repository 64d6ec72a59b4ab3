//! Device options.
use crate::algorithm::Algorithm;
use crate::error::{DeviceError, Result};
use crate::firmware::FirmwareProfile;
use crate::protocol::CommandCode;
use std::collections::BTreeMap;
use vstd::prelude::*;

verus! {

/// Whether ordinary commands are rejected while the audit log is full.
pub const OPTION_FORCE_AUDIT: u8 = 0x01;

/// Which commands are audited.
pub const OPTION_COMMAND_AUDIT: u8 = 0x03;

/// Which algorithms are enabled.
pub const OPTION_ALGORITHM_TOGGLE: u8 = 0x04;

/// Whether algorithms outside FIPS are disabled.
pub const OPTION_FIPS_MODE: u8 = 0x05;

/// An option that is off.
pub const OPTION_OFF: u8 = 0;

/// An option that is on.
pub const OPTION_ON: u8 = 1;

/// An option that is on and stays on.
pub const OPTION_FIX: u8 = 2;

/// The options of a device.
#[derive(Clone, Debug)]
pub struct DeviceOptions {
    pub force_audit: u8,
    pub command_audit: BTreeMap<u8, u8>,
    pub algorithm_toggle: BTreeMap<u8, u8>,
    pub fips_mode: u8,
}

/// What options say.
#[verifier::ext_equal]
pub struct OptionsModel {
    pub force_audit: u8,
    pub command_audit: Map<u8, u8>,
    pub algorithm_toggle: Map<u8, u8>,
    pub fips_mode: u8,
}

impl View for DeviceOptions {
    type V = OptionsModel;

    open spec fn view(&self) -> OptionsModel {
        OptionsModel {
            force_audit: self.force_audit,
            command_audit: self.command_audit@,
            algorithm_toggle: self.algorithm_toggle@,
            fips_mode: self.fips_mode,
        }
    }
}

/// The value of an option that is set per command or algorithm.
pub open spec fn option_value(values: Map<u8, u8>, item: u8, otherwise: u8) -> u8 {
    if values.contains_key(item) {
        values[item]
    } else {
        otherwise
    }
}

impl OptionsModel {
    /// The options of a device that was never configured.
    pub open spec fn factory() -> OptionsModel {
        OptionsModel {
            force_audit: OPTION_OFF,
            command_audit: Map::empty(),
            algorithm_toggle: Map::empty(),
            fips_mode: OPTION_OFF,
        }
    }

    /// Whether every value is one that an option can have.
    pub open spec fn valid(self) -> bool {
        &&& is_option_value(self.force_audit)
        &&& is_option_value(self.fips_mode)
        &&& forall|item: u8| #[trigger]
            self.command_audit.contains_key(item) ==> is_option_value(self.command_audit[item])
        &&& forall|item: u8| #[trigger]
            self.algorithm_toggle.contains_key(item) ==> is_option_value(
                self.algorithm_toggle[item],
            )
    }
}

impl Default for DeviceOptions {
    fn default() -> (options: DeviceOptions)
        ensures
            options@ == OptionsModel::factory(),
    {
        DeviceOptions {
            force_audit: OPTION_OFF,
            command_audit: BTreeMap::new(),
            algorithm_toggle: BTreeMap::new(),
            fips_mode: OPTION_OFF,
        }
    }
}

/// Whether an option can have a value.
pub open spec fn is_option_value(value: u8) -> bool {
    value == OPTION_OFF || value == OPTION_ON || value == OPTION_FIX
}

/// Tells whether an option can have a value.
pub fn valid_option_value(value: u8) -> (valid: bool)
    ensures
        valid == is_option_value(value),
{
    value == OPTION_OFF || value == OPTION_ON || value == OPTION_FIX
}

/// Looks up the value of an option that is set per command or algorithm.
pub fn lookup_option(values: &BTreeMap<u8, u8>, item: u8, otherwise: u8) -> (value: u8)
    ensures
        value == option_value(values@, item, otherwise),
{
    match values.get(&item) {
        Some(value) => *value,
        None => otherwise,
    }
}

/// Whether an option may change to a value: what is fixed stays fixed.
pub open spec fn option_change(current: u8, requested: u8) -> core::result::Result<
    (),
    DeviceError,
> {
    if !is_option_value(requested) {
        Err(DeviceError::InvalidData)
    } else if current == OPTION_FIX && requested != OPTION_FIX {
        Err(DeviceError::InsufficientPermissions)
    } else {
        Ok(())
    }
}

/// Changes an option, unless it is fixed.
pub fn set_option_value(current: &mut u8, requested: u8) -> (done: Result<()>)
    ensures
        done == option_change(*old(current), requested),
        *final(current) == (if done is Ok {
            requested
        } else {
            *old(current)
        }),
{
    if !valid_option_value(requested) {
        return Err(DeviceError::InvalidData);
    }
    if *current == OPTION_FIX && requested != OPTION_FIX {
        return Err(DeviceError::InsufficientPermissions);
    }
    *current = requested;
    Ok(())
}

/// What pairs of items and values set, one after the other.
///
/// An item that `settable` excludes and a value that is none are invalid, and
/// what is fixed stays fixed.
pub open spec fn set_pairs(
    values: Map<u8, u8>,
    pairs: Seq<u8>,
    settable: spec_fn(u8, u8) -> bool,
) -> core::result::Result<Map<u8, u8>, DeviceError>
    decreases pairs.len(),
{
    if pairs.len() < 2 {
        Ok(values)
    } else if !settable(pairs[0], pairs[1]) || !is_option_value(pairs[1]) {
        Err(DeviceError::InvalidData)
    } else if values.contains_key(pairs[0]) && values[pairs[0]] == OPTION_FIX && pairs[1]
        != OPTION_FIX {
        Err(DeviceError::InsufficientPermissions)
    } else {
        set_pairs(
            values.insert(pairs[0], pairs[1]),
            pairs.subrange(2, pairs.len() as int),
            settable,
        )
    }
}

/// Whether the audit of a command can be set to a value. The session envelope
/// is never audited.
pub open spec fn audit_settable(firmware: FirmwareProfile, item: u8, value: u8) -> bool {
    match CommandCode::of_byte(item) {
        Some(command) => command.available(firmware) && (command == CommandCode::SessionMessage
            ==> value == OPTION_OFF),
        None => false,
    }
}

/// Whether an algorithm can be toggled.
pub open spec fn algorithm_settable(
    firmware: FirmwareProfile,
    algorithms: Seq<u8>,
    item: u8,
) -> bool {
    match Algorithm::of_byte(item) {
        Some(algorithm) => algorithm.available(firmware) && algorithms.contains(item),
        None => false,
    }
}

/// What pairs of commands and values set.
pub open spec fn set_audit_pairs(
    values: Map<u8, u8>,
    pairs: Seq<u8>,
    firmware: FirmwareProfile,
) -> core::result::Result<Map<u8, u8>, DeviceError> {
    set_pairs(values, pairs, |item: u8, value: u8| audit_settable(firmware, item, value))
}

/// What pairs of algorithms and values set.
pub open spec fn set_algorithm_pairs(
    values: Map<u8, u8>,
    pairs: Seq<u8>,
    firmware: FirmwareProfile,
    algorithms: Seq<u8>,
) -> core::result::Result<Map<u8, u8>, DeviceError> {
    set_pairs(values, pairs, |item: u8, value: u8| algorithm_settable(firmware, algorithms, item))
}

/// Sets the audit of commands.
pub fn set_command_audit(
    values: &BTreeMap<u8, u8>,
    pairs: &[u8],
    firmware: FirmwareProfile,
) -> (updated: Result<BTreeMap<u8, u8>>)
    requires
        pairs@.len() % 2 == 0,
    ensures
        match updated {
            Ok(updated) => set_audit_pairs(values@, pairs@, firmware) == Ok::<
                Map<u8, u8>,
                DeviceError,
            >(updated@),
            Err(error) => set_audit_pairs(values@, pairs@, firmware) == Err::<
                Map<u8, u8>,
                DeviceError,
            >(error),
        },
{
    let mut updated: BTreeMap<u8, u8> = values.clone();
    let ghost settable = |item: u8, value: u8| audit_settable(firmware, item, value);
    let mut index: usize = 0;
    assert(pairs@.subrange(0, pairs@.len() as int) =~= pairs@);
    while index < pairs.len()
        invariant
            pairs@.len() % 2 == 0,
            index % 2 == 0,
            index <= pairs@.len(),
            settable == (|item: u8, value: u8| audit_settable(firmware, item, value)),
            set_pairs(values@, pairs@, settable) == set_pairs(
                updated@,
                pairs@.subrange(index as int, pairs@.len() as int),
                settable,
            ),
        decreases pairs@.len() - index,
    {
        let item: u8 = pairs[index];
        let value: u8 = pairs[index + 1];
        let ghost rest = pairs@.subrange(index as int, pairs@.len() as int);
        assert(rest[0] == item && rest[1] == value);
        assert(settable(item, value) == audit_settable(firmware, item, value));
        match CommandCode::from_byte(item) {
            Some(command) => {
                if !command.supported_by_firmware(firmware) {
                    return Err(DeviceError::InvalidData);
                }
                if !valid_option_value(value) {
                    return Err(DeviceError::InvalidData);
                }
                if matches!(command, CommandCode::SessionMessage) && value != OPTION_OFF {
                    return Err(DeviceError::InvalidData);
                }
            },
            None => {
                return Err(DeviceError::InvalidData);
            },
        }
        if let Some(current) = updated.get(&item) {
            if *current == OPTION_FIX && value != OPTION_FIX {
                return Err(DeviceError::InsufficientPermissions);
            }
        }
        updated.insert(item, value);
        assert(rest.subrange(2, rest.len() as int) =~= pairs@.subrange(
            index + 2,
            pairs@.len() as int,
        ));
        index = index + 2;
    }
    Ok(updated)
}

/// Sets which algorithms are enabled.
pub fn set_algorithm_toggle(
    values: &BTreeMap<u8, u8>,
    pairs: &[u8],
    firmware: FirmwareProfile,
    algorithms: &[u8],
) -> (updated: Result<BTreeMap<u8, u8>>)
    requires
        pairs@.len() % 2 == 0,
    ensures
        match updated {
            Ok(updated) => set_algorithm_pairs(values@, pairs@, firmware, algorithms@) == Ok::<
                Map<u8, u8>,
                DeviceError,
            >(updated@),
            Err(error) => set_algorithm_pairs(values@, pairs@, firmware, algorithms@) == Err::<
                Map<u8, u8>,
                DeviceError,
            >(error),
        },
{
    let mut updated: BTreeMap<u8, u8> = values.clone();
    let ghost settable = |item: u8, value: u8| algorithm_settable(firmware, algorithms@, item);
    let mut index: usize = 0;
    assert(pairs@.subrange(0, pairs@.len() as int) =~= pairs@);
    while index < pairs.len()
        invariant
            pairs@.len() % 2 == 0,
            index % 2 == 0,
            index <= pairs@.len(),
            settable == (|item: u8, value: u8| algorithm_settable(firmware, algorithms@, item)),
            set_pairs(values@, pairs@, settable) == set_pairs(
                updated@,
                pairs@.subrange(index as int, pairs@.len() as int),
                settable,
            ),
        decreases pairs@.len() - index,
    {
        let item: u8 = pairs[index];
        let value: u8 = pairs[index + 1];
        let ghost rest = pairs@.subrange(index as int, pairs@.len() as int);
        assert(rest[0] == item && rest[1] == value);
        assert(settable(item, value) == algorithm_settable(firmware, algorithms@, item));
        let known = match Algorithm::from_byte(item) {
            Some(algorithm) => algorithm.supported_by_firmware(firmware),
            None => false,
        };
        if !crate::bytes::contains(algorithms, item) || !known || !valid_option_value(value) {
            return Err(DeviceError::InvalidData);
        }
        if let Some(current) = updated.get(&item) {
            if *current == OPTION_FIX && value != OPTION_FIX {
                return Err(DeviceError::InsufficientPermissions);
            }
        }
        updated.insert(item, value);
        assert(rest.subrange(2, rest.len() as int) =~= pairs@.subrange(
            index + 2,
            pairs@.len() as int,
        ));
        index = index + 2;
    }
    Ok(updated)
}

/// Whether FIPS mode disables an algorithm.
pub open spec fn outside_fips(algorithm: u8) -> bool {
    match Algorithm::of_byte(algorithm) {
        Some(Algorithm::RsaPkcs1Sha1)
        | Some(Algorithm::RsaPssSha1)
        | Some(Algorithm::EcdsaSha1)
        | Some(Algorithm::EcK256)
        | Some(Algorithm::RsaPkcs1Decrypt) => true,
        _ => false,
    }
}

/// Tells whether FIPS mode disables an algorithm.
pub fn fips_disallowed_algorithm(algorithm: u8) -> (disallowed: bool)
    ensures
        disallowed == outside_fips(algorithm),
{
    match Algorithm::from_byte(algorithm) {
        Some(Algorithm::RsaPkcs1Sha1)
        | Some(Algorithm::RsaPssSha1)
        | Some(Algorithm::EcdsaSha1)
        | Some(Algorithm::EcK256)
        | Some(Algorithm::RsaPkcs1Decrypt) => true,
        _ => false,
    }
}

impl DeviceOptions {
    /// Checks that every value is one that an option can have.
    pub fn valid(&self) -> (valid: bool)
        ensures
            valid == self@.valid(),
    {
        if !valid_option_value(self.force_audit) || !valid_option_value(self.fips_mode) {
            return false;
        }
        let mut item: u16 = 0;
        while item < 256
            invariant
                item <= 256,
                forall|i: u8|
                    i < item && #[trigger] self.command_audit@.contains_key(i)
                        ==> is_option_value(self.command_audit@[i]),
                forall|i: u8|
                    i < item && #[trigger] self.algorithm_toggle@.contains_key(i)
                        ==> is_option_value(self.algorithm_toggle@[i]),
            decreases 256 - item,
        {
            let byte: u8 = item as u8;
            if !valid_option_value(lookup_option(&self.command_audit, byte, OPTION_OFF))
                || !valid_option_value(lookup_option(&self.algorithm_toggle, byte, OPTION_OFF)) {
                assert(!self@.valid()) by {
                    let options = self@;
                    if options.valid() {
                        if options.command_audit.contains_key(byte) {
                            assert(is_option_value(options.command_audit[byte]));
                        }
                        if options.algorithm_toggle.contains_key(byte) {
                            assert(is_option_value(options.algorithm_toggle[byte]));
                        }
                    }
                }
                return false;
            }
            item = item + 1;
        }
        true
    }

    /// Copies the options.
    pub fn copied(&self) -> (options: DeviceOptions)
        ensures
            options@ == self@,
    {
        DeviceOptions {
            force_audit: self.force_audit,
            command_audit: self.command_audit.clone(),
            algorithm_toggle: self.algorithm_toggle.clone(),
            fips_mode: self.fips_mode,
        }
    }
}

/// What is fixed stays fixed, whatever pairs are set after it.
pub proof fn fixed_options_stay_fixed(
    values: Map<u8, u8>,
    pairs: Seq<u8>,
    settable: spec_fn(u8, u8) -> bool,
    item: u8,
)
    requires
        values.contains_key(item),
        values[item] == OPTION_FIX,
        set_pairs(values, pairs, settable) is Ok,
    ensures
        set_pairs(values, pairs, settable)->Ok_0.contains_key(item),
        set_pairs(values, pairs, settable)->Ok_0[item] == OPTION_FIX,
    decreases pairs.len(),
{
    if pairs.len() >= 2 {
        fixed_options_stay_fixed(
            values.insert(pairs[0], pairs[1]),
            pairs.subrange(2, pairs.len() as int),
            settable,
            item,
        );
    }
}

/// Setting pairs keeps every value one that an option can have.
pub proof fn set_pairs_keep_values_valid(
    values: Map<u8, u8>,
    pairs: Seq<u8>,
    settable: spec_fn(u8, u8) -> bool,
)
    requires
        forall|item: u8| #[trigger] values.contains_key(item) ==> is_option_value(values[item]),
    ensures
        set_pairs(values, pairs, settable) matches Ok(updated) ==> forall|item: u8| #[trigger]
            updated.contains_key(item) ==> is_option_value(updated[item]),
    decreases pairs.len(),
{
    if pairs.len() >= 2 && is_option_value(pairs[1]) {
        set_pairs_keep_values_valid(
            values.insert(pairs[0], pairs[1]),
            pairs.subrange(2, pairs.len() as int),
            settable,
        );
    }
}

/// The session envelope can never be audited: no pairs turn its audit on.
pub proof fn session_message_is_never_audited(
    values: Map<u8, u8>,
    pairs: Seq<u8>,
    firmware: FirmwareProfile,
)
    requires
        option_value(values, CommandCode::SessionMessage.byte(), OPTION_OFF) == OPTION_OFF,
        set_pairs(
            values,
            pairs,
            |item: u8, value: u8| audit_settable(firmware, item, value),
        ) is Ok,
    ensures
        option_value(
            set_pairs(
                values,
                pairs,
                |item: u8, value: u8| audit_settable(firmware, item, value),
            )->Ok_0,
            CommandCode::SessionMessage.byte(),
            OPTION_OFF,
        ) == OPTION_OFF,
    decreases pairs.len(),
{
    if pairs.len() >= 2 {
        session_message_is_never_audited(
            values.insert(pairs[0], pairs[1]),
            pairs.subrange(2, pairs.len() as int),
            firmware,
        );
    }
}

} // verus!
