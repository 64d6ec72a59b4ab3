//! Commands on the device itself: what it is, what it holds, its log and its
//! options.
use crate::algorithm::Algorithm;
use crate::audit::{entries_encoded, entries_model};
use crate::authorization::SessionAuthorization;
use crate::bytes::{
    append, copied, copied_range, joined, single, u16_be, u32_be, write_u16, write_u32,
};
use crate::device::{
    factory_key, viewed, Device, DeviceModel, Effect, EffectModel, Outcome, OutcomeModel,
    MAX_OBJECTS,
};
use crate::error::{DeviceError, Result};
use crate::firmware::FirmwareProfile;
use crate::keys::KeyKind;
use crate::numbers::{ascends, numbers};
use crate::object::{InfoModel, MaterialModel, ObjectKey, ObjectMaterial, ObjectType, RecordModel};
use crate::options::{
    algorithm_settable, audit_settable, lookup_option, option_change, option_value,
    set_algorithm_pairs, set_algorithm_toggle, set_audit_pairs, set_command_audit, set_option_value,
    set_pairs_keep_values_valid, OptionsModel, OPTION_ALGORITHM_TOGGLE, OPTION_COMMAND_AUDIT,
    OPTION_FIPS_MODE, OPTION_FORCE_AUDIT, OPTION_OFF, OPTION_ON,
};
use crate::protocol::CommandCode;
use crate::request::{
    ByteRequest, EmptyRequest, GetDeviceInfoRequest, NumberRequest, ObjectFilters,
    ObjectFiltersModel, ObjectKeyRequest, SetOptionRequest,
};
use crate::session::AUTHENTICATION_ALGORITHM_EC_P256;
use crate::wire::{decode, decoded, Decode};
use vstd::prelude::*;

verus! {

/// A count in one byte; more than a byte holds counts as the most it holds.
pub open spec fn count_byte(count: int) -> u8 {
    if count <= 255 {
        count as u8
    } else {
        255
    }
}

/// An object in a list of objects.
pub open spec fn list_entry(info: InfoModel) -> Seq<u8> {
    u16_be(info.id) + seq![info.object_type.byte(), info.sequence]
}

/// The objects below a number that a session sees and that pass the filters, in
/// ascending order.
pub open spec fn listed_below(
    objects: Map<u32, RecordModel>,
    authorization: SessionAuthorization,
    filters: ObjectFiltersModel,
    bound: nat,
) -> Seq<u8>
    decreases bound,
{
    if bound == 0 {
        Seq::empty()
    } else {
        let number = (bound - 1) as u32;
        let before = listed_below(objects, authorization, filters, (bound - 1) as nat);
        if objects.contains_key(number) && authorization.sees(objects[number].info) && filters.pass(
            objects[number].info,
        ) {
            before + list_entry(objects[number].info)
        } else {
            before
        }
    }
}

/// Numbers without objects add nothing to a list.
proof fn gaps_list_nothing(
    objects: Map<u32, RecordModel>,
    authorization: SessionAuthorization,
    filters: ObjectFiltersModel,
    from: nat,
    to: nat,
)
    requires
        from <= to <= 0x1_0000_0000,
        forall|number: u32| from <= number < to ==> !objects.contains_key(number),
    ensures
        listed_below(objects, authorization, filters, from) == listed_below(
            objects,
            authorization,
            filters,
            to,
        ),
    decreases to - from,
{
    if from < to {
        gaps_list_nothing(objects, authorization, filters, from, (to - 1) as nat);
    }
}

/// The settings of command audits, one pair for each command that the firmware
/// knows, below a command byte.
pub open spec fn audit_settings(
    values: Map<u8, u8>,
    firmware: FirmwareProfile,
    bound: nat,
) -> Seq<u8>
    decreases bound,
{
    if bound == 0 {
        Seq::empty()
    } else {
        let byte = (bound - 1) as u8;
        let before = audit_settings(values, firmware, (bound - 1) as nat);
        match CommandCode::of_byte(byte) {
            Some(command) => if command.available(firmware) {
                before + seq![byte, option_value(values, byte, OPTION_OFF)]
            } else {
                before
            },
            None => before,
        }
    }
}

/// The settings of algorithms, one pair for each that the firmware knows.
pub open spec fn algorithm_settings(
    values: Map<u8, u8>,
    firmware: FirmwareProfile,
    algorithms: Seq<u8>,
) -> Seq<u8>
    decreases algorithms.len(),
{
    if algorithms.len() == 0 {
        Seq::empty()
    } else {
        let byte = algorithms.last();
        let before = algorithm_settings(values, firmware, algorithms.drop_last());
        match Algorithm::of_byte(byte) {
            Some(algorithm) => if algorithm.available(firmware) {
                before + seq![byte, option_value(values, byte, OPTION_ON)]
            } else {
                before
            },
            None => before,
        }
    }
}

/// What is left of some room when so much of it is used.
pub open spec fn left_of(room: u16, used: nat) -> u16 {
    if used <= room {
        (room - used) as u16
    } else {
        0
    }
}

/// Tells what is left of some room.
fn what_is_left(room: u16, used: usize) -> (left: u16)
    ensures
        left == left_of(room, used as nat),
{
    if used <= room as usize {
        room - used as u16
    } else {
        0
    }
}

impl DeviceModel {
    /// What the device says of itself.
    pub open spec fn tells_device_info(self, data: Seq<u8>) -> core::result::Result<
        Seq<u8>,
        DeviceError,
    > {
        match decoded::<GetDeviceInfoRequest>(data) {
            Err(error) => Err(error),
            Ok(request) => match request.selector {
                None => Ok(
                    self.config.version + u32_be(self.config.serial) + seq![
                        self.config.log_capacity,
                        count_byte(self.audit.entries.len() as int),
                    ] + self.config.algorithms.filter(|algorithm: u8| self.enabled(algorithm)),
                ),
                Some(1) => Ok(self.config.part_number),
                Some(_) => Err(DeviceError::InvalidData),
            },
        }
    }

    /// The device's own public key, with the algorithm in the marker's place.
    pub open spec fn tells_public_key(self, data: Seq<u8>) -> core::result::Result<
        Seq<u8>,
        DeviceError,
    > {
        match decoded::<EmptyRequest>(data) {
            Err(error) => Err(error),
            Ok(_) => if !(self.key.kind is Ec) || self.key.public.len() == 0 {
                Err(DeviceError::StorageFailed)
            } else {
                Ok(
                    seq![AUTHENTICATION_ALGORITHM_EC_P256] + self.key.public.subrange(
                        1,
                        self.key.public.len() as int,
                    ),
                )
            },
        }
    }

    /// How much room the device has: the objects that it has room for and those
    /// that are left of them, the same for pages, of which each object takes one,
    /// and the bytes of a page.
    pub open spec fn tells_storage(self, data: Seq<u8>) -> core::result::Result<
        Seq<u8>,
        DeviceError,
    > {
        let count = self.objects.len();
        match decoded::<EmptyRequest>(data) {
            Err(error) => Err(error),
            Ok(_) => Ok(
                u16_be(256) + u16_be(left_of(256, count)) + u16_be(1024) + u16_be(
                    left_of(1024, count),
                ) + u16_be(126),
            ),
        }
    }

    /// The objects that a session sees and that pass the filters, ordered by
    /// type and number.
    pub open spec fn lists(
        self,
        authorization: SessionAuthorization,
        data: Seq<u8>,
    ) -> core::result::Result<
        Seq<u8>,
        DeviceError,
    > {
        match decoded::<ObjectFilters>(data) {
            Err(error) => Err(error),
            Ok(filters) => Ok(
                listed_below(self.objects, authorization, filters, 0x1_0000_0000),
            ),
        }
    }

    /// What is known of an object, without the capabilities that the firmware
    /// does not know.
    pub open spec fn tells_object(
        self,
        authorization: SessionAuthorization,
        data: Seq<u8>,
    ) -> core::result::Result<
        Seq<u8>,
        DeviceError,
    > {
        match decoded::<ObjectKeyRequest>(data) {
            Err(error) => Err(error),
            Ok(request) => match self.found(authorization, request.target()) {
                Err(error) => Err(error),
                Ok(record) => Ok(
                    (InfoModel {
                        capabilities: record.info.capabilities.retained(self.firmware),
                        delegated_capabilities: record.info.delegated_capabilities.retained(
                            self.firmware,
                        ),
                        ..record.info
                    }).encoded(),
                ),
            },
        }
    }

    /// The audit log: what it does not tell, and its entries.
    pub open spec fn tells_log(self, data: Seq<u8>) -> core::result::Result<Seq<u8>, DeviceError> {
        match decoded::<EmptyRequest>(data) {
            Err(error) => Err(error),
            Ok(_) => Ok(
                u16_be(self.audit.unlogged_boot) + u16_be(self.audit.unlogged_authentication)
                    + seq![count_byte(self.audit.entries.len() as int)] + entries_encoded(
                    self.audit.entries,
                ),
            ),
        }
    }

    /// The value of an option.
    pub open spec fn tells_option(self, data: Seq<u8>) -> core::result::Result<
        Seq<u8>,
        DeviceError,
    > {
        match decoded::<ByteRequest>(data) {
            Err(error) => Err(error),
            Ok(request) => if request.value == OPTION_FORCE_AUDIT {
                Ok(seq![self.options.force_audit])
            } else if request.value == OPTION_COMMAND_AUDIT {
                Ok(audit_settings(self.options.command_audit, self.firmware, 256))
            } else if request.value == OPTION_ALGORITHM_TOGGLE {
                Ok(
                    algorithm_settings(
                        self.options.algorithm_toggle,
                        self.firmware,
                        self.config.algorithms,
                    ),
                )
            } else if request.value == OPTION_FIPS_MODE {
                Ok(seq![self.options.fips_mode])
            } else {
                Err(DeviceError::InvalidData)
            },
        }
    }

    /// Whether the factory authentication key is all that the device holds.
    pub open spec fn is_fresh(self) -> bool {
        self.objects.len() == 1 && self.objects.contains_key(factory_key().number())
    }

    /// The options after one of them is set. What decides on algorithms is set
    /// only while the device holds nothing but its factory key.
    pub open spec fn changed_options(self, data: Seq<u8>) -> core::result::Result<
        OptionsModel,
        DeviceError,
    > {
        match decoded::<SetOptionRequest>(data) {
            Err(error) => Err(error),
            Ok(request) => {
                let values = request.values;
                if request.option == OPTION_FORCE_AUDIT {
                    if values.len() != 1 {
                        Err(DeviceError::WrongLength)
                    } else {
                        match option_change(self.options.force_audit, values[0]) {
                            Ok(()) => Ok(OptionsModel { force_audit: values[0], ..self.options }),
                            Err(error) => Err(error),
                        }
                    }
                } else if request.option == OPTION_COMMAND_AUDIT {
                    if values.len() == 0 || values.len() % 2 != 0 {
                        Err(DeviceError::WrongLength)
                    } else {
                        match set_audit_pairs(self.options.command_audit, values, self.firmware) {
                            Ok(updated) => Ok(
                                OptionsModel { command_audit: updated, ..self.options },
                            ),
                            Err(error) => Err(error),
                        }
                    }
                } else if request.option == OPTION_ALGORITHM_TOGGLE {
                    if !self.is_fresh() {
                        Err(DeviceError::InsufficientPermissions)
                    } else if values.len() == 0 || values.len() % 2 != 0 {
                        Err(DeviceError::WrongLength)
                    } else {
                        match set_algorithm_pairs(
                            self.options.algorithm_toggle,
                            values,
                            self.firmware,
                            self.config.algorithms,
                        ) {
                            Ok(updated) => Ok(
                                OptionsModel { algorithm_toggle: updated, ..self.options },
                            ),
                            Err(error) => Err(error),
                        }
                    }
                } else if request.option == OPTION_FIPS_MODE {
                    if !self.is_fresh() {
                        Err(DeviceError::InsufficientPermissions)
                    } else if values.len() != 1 {
                        Err(DeviceError::WrongLength)
                    } else {
                        match option_change(self.options.fips_mode, values[0]) {
                            Ok(()) => Ok(OptionsModel { fips_mode: values[0], ..self.options }),
                            Err(error) => Err(error),
                        }
                    }
                } else {
                    Err(DeviceError::InvalidData)
                }
            },
        }
    }

    /// The contents of an opaque object or a template.
    pub open spec fn opens(self, object_type: ObjectType, data: Seq<u8>) -> core::result::Result<
        Seq<u8>,
        DeviceError,
    > {
        match decoded::<NumberRequest>(data) {
            Err(error) => Err(error),
            Ok(request) => match self.get(ObjectKey { object_type, id: request.value }) {
                Err(error) => Err(error),
                Ok(record) => match record.material {
                    MaterialModel::Opaque(contents) => Ok(contents),
                    _ => Err(DeviceError::InvalidData),
                },
            },
        }
    }
}

/// Makes a count in one byte.
fn make_count(count: usize) -> (byte: u8)
    ensures
        byte == count_byte(count as int),
{
    if count <= 255 {
        count as u8
    } else {
        255
    }
}

impl Device {
    /// Returns the enabled algorithms.
    pub fn enabled_algorithms(&self) -> (algorithms: Vec<u8>)
        ensures
            algorithms@ == self@.config.algorithms.filter(
                |algorithm: u8| self@.enabled(algorithm),
            ),
    {
        let mut algorithms: Vec<u8> = Vec::new();
        let ghost all = self@.config.algorithms;
        let ghost keep = |algorithm: u8| self@.enabled(algorithm);
        let mut index: usize = 0;
        proof {
            reveal(Seq::filter);
        }
        assert(all.subrange(0, 0).filter(keep) =~= Seq::<u8>::empty());
        while index < self.config.algorithms.len()
            invariant
                index <= self.config.algorithms@.len(),
                all == self.config.algorithms@,
                keep == (|algorithm: u8| self@.enabled(algorithm)),
                algorithms@ == all.subrange(0, index as int).filter(keep),
            decreases self.config.algorithms@.len() - index,
        {
            let algorithm: u8 = self.config.algorithms[index];
            proof {
                let longer = all.subrange(0, index + 1);
                assert(longer.drop_last() =~= all.subrange(0, index as int));
                assert(longer.last() == algorithm);
                reveal(Seq::filter);
            }
            if self.algorithm_enabled(algorithm) {
                algorithms.push(algorithm);
            }
            index = index + 1;
        }
        assert(all.subrange(0, all.len() as int) =~= all);
        algorithms
    }

    /// Tells what the device is.
    pub fn get_device_info(&self, data: &[u8]) -> (output: Result<Vec<u8>>)
        ensures
            viewed(output) == self@.tells_device_info(data@),
    {
        let request = decode::<GetDeviceInfoRequest>(data)?;
        match request.selector {
            None => {
                let algorithms: Vec<u8> = self.enabled_algorithms();
                let mut output: Vec<u8> = copied(&self.config.version);
                write_u32(&mut output, self.config.serial);
                output.push(self.config.log_capacity);
                output.push(make_count(self.audit.entries.len()));
                append(&mut output, &algorithms);
                assert(output@ =~= self@.tells_device_info(data@)->Ok_0);
                Ok(output)
            },
            Some(1) => Ok(copied(&self.config.part_number)),
            Some(_) => Err(DeviceError::InvalidData),
        }
    }

    /// Tells the device's own public key.
    pub fn get_device_public_key(&self, data: &[u8]) -> (output: Result<Vec<u8>>)
        ensures
            viewed(output) == self@.tells_public_key(data@),
    {
        decode::<EmptyRequest>(data)?;
        let key = &self.device_static_private;
        if !matches!(key.kind, KeyKind::Ec(_)) || key.public.len() == 0 {
            return Err(DeviceError::StorageFailed);
        }
        Ok(
            joined(
                &single(AUTHENTICATION_ALGORITHM_EC_P256),
                &copied_range(&key.public, 1, key.public.len()),
            ),
        )
    }

    /// Tells how much room the device has.
    pub fn get_storage_info(&self, data: &[u8]) -> (output: Result<Vec<u8>>)
        ensures
            viewed(output) == self@.tells_storage(data@),
    {
        decode::<EmptyRequest>(data)?;
        assert(self@.objects.dom() =~= self.objects@.dom());
        let count: usize = self.objects.len();
        let mut output: Vec<u8> = Vec::new();
        write_u16(&mut output, 256);
        write_u16(&mut output, what_is_left(MAX_OBJECTS as u16, count));
        write_u16(&mut output, 1024);
        write_u16(&mut output, what_is_left(1024, count));
        write_u16(&mut output, 126);
        assert(output@ =~= self@.tells_storage(data@)->Ok_0);
        Ok(output)
    }

    /// Lists the objects that a session sees and that pass the filters.
    pub fn list_objects(&self, authorization: SessionAuthorization, data: &[u8]) -> (output: Result<
        Vec<u8>,
    >)
        ensures
            viewed(output) == self@.lists(authorization, data@),
    {
        let filters = decode::<ObjectFilters>(data)?;
        let ghost objects = self@.objects;
        let ghost model = filters.model();
        let mut output: Vec<u8> = Vec::new();
        let ghost mut bound: nat = 0;
        let all: Vec<u32> = numbers(&self.objects);
        let mut index: usize = 0;
        assert(objects.dom() =~= self.objects@.dom());
        assert(output@ =~= listed_below(objects, authorization, model, 0));
        while index < all.len()
            invariant
                objects == self@.objects,
                model == filters.model(),
                ascends(all@, objects.dom()),
                index <= all@.len(),
                bound <= 0x1_0000_0000,
                output@ == listed_below(objects, authorization, model, bound),
                bound == (if index == 0 {
                    0
                } else {
                    all@[index - 1] + 1
                }),
            decreases all@.len() - index,
        {
            let number: u32 = all[index];
            assert forall|other: u32| bound <= other < number implies !objects.contains_key(
                other,
            ) by {
                if objects.dom().contains(other) {
                    let place = choose|place: int| 0 <= place < all@.len() && all@[place] == other;
                    assert(all@[place] == other);
                }
            }
            proof {
                gaps_list_nothing(objects, authorization, model, bound, number as nat);
                bound = (number + 1) as nat;
            }
            if let Some(record) = self.objects.get(&number) {
                if authorization.can_see(&record.info) && filters.matches(&record.info) {
                    write_u16(&mut output, record.info.id);
                    output.push(record.info.object_type.to_byte());
                    output.push(record.info.sequence);
                }
            }
            index = index + 1;
            assert(output@ =~= listed_below(objects, authorization, model, bound));
        }
        assert forall|other: u32| bound <= other < 0x1_0000_0000 implies !objects.contains_key(
            other,
        ) by {
            if objects.dom().contains(other) {
                let place = choose|place: int| 0 <= place < all@.len() && all@[place] == other;
                assert(all@[place] == other);
            }
        }
        proof {
            gaps_list_nothing(objects, authorization, model, bound, 0x1_0000_0000);
        }
        Ok(output)
    }

    /// Tells what is known of an object.
    pub fn get_object_info(
        &self,
        authorization: SessionAuthorization,
        data: &[u8],
    ) -> (output: Result<
        Vec<u8>,
    >)
        requires
            self.valid(),
        ensures
            viewed(output) == self@.tells_object(authorization, data@),
    {
        let request = decode::<ObjectKeyRequest>(data)?;
        let record = self.find_visible(authorization, request.key())?;
        let mut info = record.info.copied();
        info.capabilities.retain_firmware_supported(self.firmware);
        info.delegated_capabilities.retain_firmware_supported(self.firmware);
        assert(self@.objects[request.model().target().number()].validated() is Ok);
        Ok(info.encode())
    }

    /// Tells the audit log.
    pub fn get_log_entries(&self, data: &[u8]) -> (output: Result<Vec<u8>>)
        ensures
            viewed(output) == self@.tells_log(data@),
    {
        decode::<EmptyRequest>(data)?;
        let mut output: Vec<u8> = Vec::new();
        write_u16(&mut output, self.audit.unlogged_boot);
        write_u16(&mut output, self.audit.unlogged_authentication);
        output.push(make_count(self.audit.entries.len()));
        let ghost head = output@;
        let ghost models = self@.audit.entries;
        assert(head =~= u16_be(self@.audit.unlogged_boot) + u16_be(
            self@.audit.unlogged_authentication,
        ) + seq![count_byte(models.len() as int)]);
        let mut index: usize = 0;
        assert(head =~= head + entries_encoded(models.subrange(0, 0)));
        while index < self.audit.entries.len()
            invariant
                index <= self.audit.entries@.len(),
                models == entries_model(self.audit.entries@),
                output@ == head + entries_encoded(models.subrange(0, index as int)),
            decreases self.audit.entries@.len() - index,
        {
            proof {
                let longer = models.subrange(0, index + 1);
                assert(longer.drop_last() =~= models.subrange(0, index as int));
            }
            let entry = self.audit.entries[index];
            entry.encode(&mut output);
            index = index + 1;
            assert(output@ =~= head + entries_encoded(models.subrange(0, index as int)));
        }
        assert(models.subrange(0, models.len() as int) =~= models);
        Ok(output)
    }

    /// Forgets the log up to an index.
    pub fn set_log_index(&self, data: &[u8]) -> (outcome: Result<Outcome>)
        ensures
            viewed(outcome) == (match decoded::<NumberRequest>(data@) {
                Ok(request) => Ok(
                    OutcomeModel {
                        data: Seq::empty(),
                        effect: EffectModel::TrimLog(request.value),
                    },
                ),
                Err(error) => Err(error),
            }),
    {
        let request = decode::<NumberRequest>(data)?;
        let data: Vec<u8> = Vec::new();
        assert(data@ =~= Seq::<u8>::empty());
        Ok(Outcome { data, effect: Effect::TrimLog(request.value) })
    }

    /// Tells the value of an option.
    pub fn get_option(&self, data: &[u8]) -> (output: Result<Vec<u8>>)
        ensures
            viewed(output) == self@.tells_option(data@),
    {
        let request = decode::<ByteRequest>(data)?;
        if request.value == OPTION_FORCE_AUDIT {
            Ok(single(self.options.force_audit))
        } else if request.value == OPTION_COMMAND_AUDIT {
            Ok(self.list_command_audit())
        } else if request.value == OPTION_ALGORITHM_TOGGLE {
            Ok(self.list_algorithm_toggle())
        } else if request.value == OPTION_FIPS_MODE {
            Ok(single(self.options.fips_mode))
        } else {
            Err(DeviceError::InvalidData)
        }
    }

    /// Lists the settings of command audits.
    fn list_command_audit(&self) -> (output: Vec<u8>)
        ensures
            output@ == audit_settings(self@.options.command_audit, self@.firmware, 256),
    {
        let mut output: Vec<u8> = Vec::new();
        let mut index: u16 = 0;
        assert(output@ =~= audit_settings(self@.options.command_audit, self@.firmware, 0));
        while index < 256
            invariant
                index <= 256,
                output@ == audit_settings(
                    self@.options.command_audit,
                    self@.firmware,
                    index as nat,
                ),
            decreases 256 - index,
        {
            let byte: u8 = index as u8;
            if let Some(command) = CommandCode::from_byte(byte) {
                if command.supported_by_firmware(self.firmware) {
                    output.push(byte);
                    output.push(lookup_option(&self.options.command_audit, byte, OPTION_OFF));
                }
            }
            index = index + 1;
            assert(output@ =~= audit_settings(
                self@.options.command_audit,
                self@.firmware,
                index as nat,
            ));
        }
        output
    }

    /// Lists the settings of algorithms.
    fn list_algorithm_toggle(&self) -> (output: Vec<u8>)
        ensures
            output@ == algorithm_settings(
                self@.options.algorithm_toggle,
                self@.firmware,
                self@.config.algorithms,
            ),
    {
        let mut output: Vec<u8> = Vec::new();
        let mut index: usize = 0;
        let ghost all = self@.config.algorithms;
        assert(output@ =~= algorithm_settings(
            self@.options.algorithm_toggle,
            self@.firmware,
            all.subrange(0, 0),
        ));
        while index < self.config.algorithms.len()
            invariant
                index <= self.config.algorithms@.len(),
                all == self.config.algorithms@,
                output@ == algorithm_settings(
                    self@.options.algorithm_toggle,
                    self@.firmware,
                    all.subrange(0, index as int),
                ),
            decreases self.config.algorithms@.len() - index,
        {
            let byte: u8 = self.config.algorithms[index];
            proof {
                let longer = all.subrange(0, index + 1);
                assert(longer.drop_last() =~= all.subrange(0, index as int));
                assert(longer.last() == byte);
            }
            if let Some(algorithm) = Algorithm::from_byte(byte) {
                if algorithm.supported_by_firmware(self.firmware) {
                    output.push(byte);
                    output.push(lookup_option(&self.options.algorithm_toggle, byte, OPTION_ON));
                }
            }
            index = index + 1;
            assert(output@ =~= algorithm_settings(
                self@.options.algorithm_toggle,
                self@.firmware,
                all.subrange(0, index as int),
            ));
        }
        assert(all.subrange(0, all.len() as int) =~= all);
        output
    }

    /// Checks that the factory authentication key is all that the device holds.
    fn require_fresh_device_for_algorithm_options(&self) -> (fresh: Result<()>)
        ensures
            fresh == (if self@.is_fresh() {
                Ok(())
            } else {
                Err(DeviceError::InsufficientPermissions)
            }),
    {
        assert(self@.objects.dom() =~= self.objects@.dom());
        let key = ObjectKey { object_type: ObjectType::AuthenticationKey, id: 1 };
        if self.objects.len() == 1 && self.holds(key) {
            Ok(())
        } else {
            Err(DeviceError::InsufficientPermissions)
        }
    }

    /// Sets an option.
    pub fn set_option(&self, data: &[u8]) -> (outcome: Result<Outcome>)
        ensures
            viewed(outcome) == (match self@.changed_options(data@) {
                Ok(options) => Ok(
                    OutcomeModel { data: Seq::empty(), effect: EffectModel::SetOptions(options) },
                ),
                Err(error) => Err(error),
            }),
    {
        let request = decode::<SetOptionRequest>(data)?;
        let values: &[u8] = request.values;
        let mut options = self.options.copied();
        if request.option == OPTION_FORCE_AUDIT {
            if values.len() != 1 {
                return Err(DeviceError::WrongLength);
            }
            set_option_value(&mut options.force_audit, values[0])?;
        } else if request.option == OPTION_COMMAND_AUDIT {
            if values.len() == 0 || values.len() % 2 != 0 {
                return Err(DeviceError::WrongLength);
            }
            options.command_audit = set_command_audit(
                &self.options.command_audit,
                values,
                self.firmware,
            )?;
        } else if request.option == OPTION_ALGORITHM_TOGGLE {
            self.require_fresh_device_for_algorithm_options()?;
            if values.len() == 0 || values.len() % 2 != 0 {
                return Err(DeviceError::WrongLength);
            }
            options.algorithm_toggle = set_algorithm_toggle(
                &self.options.algorithm_toggle,
                values,
                self.firmware,
                &self.config.algorithms,
            )?;
        } else if request.option == OPTION_FIPS_MODE {
            self.require_fresh_device_for_algorithm_options()?;
            if values.len() != 1 {
                return Err(DeviceError::WrongLength);
            }
            set_option_value(&mut options.fips_mode, values[0])?;
        } else {
            return Err(DeviceError::InvalidData);
        }
        let data: Vec<u8> = Vec::new();
        assert(data@ =~= Seq::<u8>::empty());
        Ok(Outcome { data, effect: Effect::SetOptions(options) })
    }

    /// Returns the contents of an opaque object or a template.
    pub fn get_contents(&self, object_type: ObjectType, data: &[u8]) -> (output: Result<Vec<u8>>)
        ensures
            viewed(output) == self@.opens(object_type, data@),
    {
        let request = decode::<NumberRequest>(data)?;
        let record = self.find(ObjectKey { object_type, id: request.value })?;
        match &record.material {
            ObjectMaterial::Opaque(contents) => Ok(copied(contents)),
            _ => Err(DeviceError::InvalidData),
        }
    }
}

/// Options that were valid stay valid, whichever of them is set, and those that
/// decide on algorithms change only on a fresh device.
pub proof fn changed_options_stay_valid(device: DeviceModel, data: Seq<u8>)
    requires
        device.options.valid(),
    ensures
        device.changed_options(data) matches Ok(options) ==> options.valid() && (device.is_fresh()
            || (options.algorithm_toggle == device.options.algorithm_toggle && options.fips_mode
            == device.options.fips_mode)),
{
    if let Ok(request) = decoded::<SetOptionRequest>(data) {
        let firmware = device.firmware;
        let algorithms = device.config.algorithms;
        set_pairs_keep_values_valid(
            device.options.command_audit,
            request.values,
            |item: u8, value: u8| audit_settable(firmware, item, value),
        );
        set_pairs_keep_values_valid(
            device.options.algorithm_toggle,
            request.values,
            |item: u8, value: u8| algorithm_settable(firmware, algorithms, item),
        );
    }
}

/// A list holds nothing of an object that the session does not see: it is the
/// list of a device without that object.
pub proof fn lists_hide_other_domains(
    device: DeviceModel,
    authorization: SessionAuthorization,
    key: ObjectKey,
    data: Seq<u8>,
)
    requires
        device.get(key) matches Ok(record) ==> !authorization.sees(record.info),
    ensures
        device.lists(authorization, data) == device.applied(EffectModel::Remove(key)).lists(
            authorization,
            data,
        ),
{
    if let Ok(filters) = decoded::<ObjectFilters>(data) {
        hidden_objects_are_unlisted(
            device.objects,
            authorization,
            filters,
            key.number(),
            0x1_0000_0000,
        );
    }
}

/// An object that the session does not see adds nothing to a list.
proof fn hidden_objects_are_unlisted(
    objects: Map<u32, RecordModel>,
    authorization: SessionAuthorization,
    filters: ObjectFiltersModel,
    number: u32,
    bound: nat,
)
    requires
        bound <= 0x1_0000_0000,
        objects.contains_key(number) ==> !authorization.sees(objects[number].info),
    ensures
        listed_below(objects, authorization, filters, bound) == listed_below(
            objects.remove(number),
            authorization,
            filters,
            bound,
        ),
    decreases bound,
{
    if bound > 0 {
        hidden_objects_are_unlisted(objects, authorization, filters, number, (bound - 1) as nat);
    }
}

} // verus!
