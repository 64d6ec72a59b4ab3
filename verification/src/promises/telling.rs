//! What a device tells: of itself, of its objects, of its log and of its options.
use crate::audit::{entries_encoded, EntryModel};
use crate::authorization::SessionAuthorization;
use crate::bytes::{
    u16_at, u16_be, u16_round_trip, u32_at, u32_be, u32_round_trip, u64_at, u64_be, u64_round_trip,
};
use crate::capability::{bit, retained_capabilities};
use crate::device::DeviceModel;
use crate::error::DeviceError;
use crate::firmware::FirmwareProfile;
use crate::object::{InfoModel, MaterialModel, ObjectType};
use crate::promises::computing::{curve_of, place};
use crate::promises::listing::type_number;
use vstd::prelude::*;

verus! {

/// Whether bytes hold a capability set but for what a firmware does not know: the
/// derivation with a prefix, and objects of a session.
pub open spec fn tells_capabilities(
    bytes: Seq<u8>,
    at: int,
    word: u64,
    firmware: FirmwareProfile,
) -> bool {
    forall|number: u8|
        number < 64 ==> (#[trigger] bit(u64_at(bytes, at), number) <==> bit(word, number) && (number
            == 0x38 ==> firmware.has_prefixed_ecdh()) && (number == 0x39
            ==> firmware.has_session_objects()))
}

proof fn lemma_capabilities(
    set: crate::capability::CapabilitySet,
    firmware: FirmwareProfile,
    bytes: Seq<u8>,
    at: int,
)
    requires
        u64_at(bytes, at) == set.retained(firmware).word(),
    ensures
        tells_capabilities(bytes, at, set.word(), firmware),
{
    assert forall|number: u8| number < 64 implies (#[trigger] bit(u64_at(bytes, at), number)
        <==> bit(set.word(), number) && (number == 0x38 ==> firmware.has_prefixed_ecdh()) && (number
        == 0x39 ==> firmware.has_session_objects())) by {
        retained_capabilities(set, firmware, number);
        assert(set.retained(firmware).has(number) == bit(u64_at(bytes, at), number));
        assert(set.has(number) == bit(set.word(), number));
    }
}

/// The bytes of an object's description, field by field.
pub open spec fn describes_object(
    bytes: Seq<u8>,
    object: InfoModel,
    firmware: FirmwareProfile,
) -> bool {
    &&& bytes.len() == 66
    &&& tells_capabilities(bytes, 0, object.capabilities.word(), firmware)
    &&& u16_at(bytes, 8) == object.id
    &&& u16_at(bytes, 10) == object.length
    &&& u16_at(bytes, 12) == object.domains
    &&& bytes[14] == type_number(object.object_type)
    &&& bytes[15] == object.algorithm
    &&& bytes[16] == object.sequence
    &&& bytes[17] == object.origin
    &&& forall|i: int|
        18 <= i < 58 ==> #[trigger] bytes[i] == (if i - 18 < object.label.len() {
            object.label[i - 18]
        } else {
            0
        })
    &&& tells_capabilities(bytes, 58, object.delegated_capabilities.word(), firmware)
}

/// GetObjectInfo tells of an object that the session sees what the device holds of
/// it, each field in its place, and of any other that it is missing.
pub proof fn objects_are_described(
    device: DeviceModel,
    authorization: SessionAuthorization,
    id: u16,
    object_type: ObjectType,
)
    requires
        device.valid(),
    ensures
        ({
            let number = place(type_number(object_type), id);
            let told = device.tells_object(
                authorization,
                u16_be(id) + seq![type_number(object_type) as u8],
            );
            if device.objects.contains_key(number) && authorization.domains
                & device.objects[number].info.domains != 0 {
                told is Ok && describes_object(
                    told->Ok_0,
                    device.objects[number].info,
                    device.firmware,
                )
            } else {
                told == Err::<Seq<u8>, _>(DeviceError::ObjectNotFound)
            }
        }),
{
    let number = place(type_number(object_type), id);
    let data = u16_be(id) + seq![type_number(object_type) as u8];
    u16_round_trip(id);
    assert(u16_at(data, 0) == id);
    assert(data[2] == type_number(object_type));
    if device.objects.contains_key(number) && authorization.domains
        & device.objects[number].info.domains != 0 {
        let object = device.objects[number].info;
        let capabilities = object.capabilities.retained(device.firmware);
        let delegated = object.delegated_capabilities.retained(device.firmware);
        assert(device.objects[number].validated() is Ok);
        assert(object.label.len() <= 40);
        let bytes = device.tells_object(authorization, data)->Ok_0;
        let (a, b, c, d) = (
            u64_be(capabilities.word()),
            u16_be(object.id),
            u16_be(object.length),
            u16_be(object.domains),
        );
        let e = seq![
            object.object_type.byte(),
            object.algorithm,
            object.sequence,
            object.origin,
        ];
        let f = object.label + Seq::new((40 - object.label.len()) as nat, |i: int| 0u8);
        let g = u64_be(delegated.word());
        assert(bytes =~= a + b + c + d + e + f + g);
        u64_round_trip(capabilities.word());
        u64_round_trip(delegated.word());
        u16_round_trip(object.id);
        u16_round_trip(object.length);
        u16_round_trip(object.domains);
        assert(forall|i: int| 0 <= i < 8 ==> bytes[i] == #[trigger] a[i]);
        assert(u64_at(bytes, 0) == u64_at(a, 0));
        assert(bytes[8] == b[0] && bytes[9] == b[1]);
        assert(bytes[10] == c[0] && bytes[11] == c[1]);
        assert(bytes[12] == d[0] && bytes[13] == d[1]);
        assert(forall|i: int| 0 <= i < 4 ==> bytes[14 + i] == #[trigger] e[i]);
        assert(bytes[14] == e[0] && bytes[15] == e[1] && bytes[16] == e[2] && bytes[17] == e[3]);
        assert(forall|i: int| 0 <= i < 40 ==> bytes[18 + i] == #[trigger] f[i]);
        assert forall|i: int| 18 <= i < 58 implies #[trigger] bytes[i] == (if i - 18
            < object.label.len() {
            object.label[i - 18]
        } else {
            0
        }) by {
            assert(bytes[18 + (i - 18)] == f[i - 18]);
        }
        assert(forall|i: int| 0 <= i < 8 ==> bytes[58 + i] == #[trigger] g[i]);
        assert(bytes[58] == g[0] && bytes[59] == g[1] && bytes[60] == g[2] && bytes[61] == g[3]);
        assert(bytes[62] == g[4] && bytes[63] == g[5] && bytes[64] == g[6] && bytes[65] == g[7]);
        assert(u64_at(bytes, 58) == u64_at(g, 0));
        lemma_capabilities(object.capabilities, device.firmware, bytes, 0);
        lemma_capabilities(object.delegated_capabilities, device.firmware, bytes, 58);
    }
}

/// The bytes of an entry of the log, field by field.
pub open spec fn describes_entry(bytes: Seq<u8>, at: int, entry: EntryModel) -> bool {
    &&& at + 32 <= bytes.len()
    &&& u16_at(bytes, at) == entry.number
    &&& bytes[at + 2] == entry.command
    &&& u16_at(bytes, at + 3) == entry.length
    &&& u16_at(bytes, at + 5) == entry.session_key
    &&& u16_at(bytes, at + 7) == entry.target_key
    &&& u16_at(bytes, at + 9) == entry.second_key
    &&& bytes[at + 11] == entry.result
    &&& u32_at(bytes, at + 12) == entry.systick
    &&& bytes.subrange(at + 16, at + 32) == entry.digest
}

proof fn lemma_entry(entry: EntryModel)
    requires
        entry.digest.len() == 16,
    ensures
        entry.encoded().len() == 32,
        describes_entry(entry.encoded(), 0, entry),
{
    u16_round_trip(entry.number);
    u16_round_trip(entry.length);
    u16_round_trip(entry.session_key);
    u16_round_trip(entry.target_key);
    u16_round_trip(entry.second_key);
    u32_round_trip(entry.systick);
    let bytes = entry.encoded();
    let (a, b, c) = (u16_be(entry.number), u16_be(entry.length), u16_be(entry.session_key));
    let (d, e, f) = (u16_be(entry.target_key), u16_be(entry.second_key), u32_be(entry.systick));
    assert(bytes[0] == a[0] && bytes[1] == a[1]);
    assert(bytes[2] == entry.command);
    assert(bytes[3] == b[0] && bytes[4] == b[1]);
    assert(bytes[5] == c[0] && bytes[6] == c[1]);
    assert(bytes[7] == d[0] && bytes[8] == d[1]);
    assert(bytes[9] == e[0] && bytes[10] == e[1]);
    assert(bytes[11] == entry.result);
    assert(bytes[12] == f[0] && bytes[13] == f[1] && bytes[14] == f[2] && bytes[15] == f[3]);
    assert(bytes.subrange(16, 32) =~= entry.digest);
}

/// An entry that is described within a part is described within the whole.
proof fn lemma_moved(bytes: Seq<u8>, part: Seq<u8>, offset: int, at: int, entry: EntryModel)
    requires
        0 <= offset,
        0 <= at,
        offset + part.len() <= bytes.len(),
        bytes.subrange(offset, offset + part.len()) == part,
        describes_entry(part, at, entry),
    ensures
        describes_entry(bytes, offset + at, entry),
{
    let whole = offset + at;
    assert(forall|j: int| 0 <= j < part.len() ==> #[trigger] part[j] == bytes[offset + j]);
    assert(part[at] == bytes[whole] && part[at + 1] == bytes[whole + 1]);
    assert(part[at + 2] == bytes[whole + 2] && part[at + 3] == bytes[whole + 3]);
    assert(part[at + 4] == bytes[whole + 4] && part[at + 5] == bytes[whole + 5]);
    assert(part[at + 6] == bytes[whole + 6] && part[at + 7] == bytes[whole + 7]);
    assert(part[at + 8] == bytes[whole + 8] && part[at + 9] == bytes[whole + 9]);
    assert(part[at + 10] == bytes[whole + 10] && part[at + 11] == bytes[whole + 11]);
    assert(part[at + 12] == bytes[whole + 12] && part[at + 13] == bytes[whole + 13]);
    assert(part[at + 14] == bytes[whole + 14] && part[at + 15] == bytes[whole + 15]);
    assert(part.subrange(at + 16, at + 32) =~= bytes.subrange(whole + 16, whole + 32));
}

#[verifier::spinoff_prover]
#[verifier::rlimit(40)]
proof fn lemma_entries(entries: Seq<EntryModel>, i: int)
    requires
        0 <= i < entries.len(),
        forall|j: int| 0 <= j < entries.len() ==> (#[trigger] entries[j]).digest.len() == 16,
    ensures
        entries_encoded(entries).len() == 32 * entries.len(),
        describes_entry(entries_encoded(entries), 32 * i, entries[i]),
    decreases entries.len(),
{
    let shorter = entries.drop_last();
    let before = entries_encoded(shorter);
    let bytes = entries_encoded(entries);
    let last = entries.last();
    lemma_entry(last);
    if shorter.len() > 0 {
        lemma_entries(shorter, if i < shorter.len() { i } else { 0 });
    } else {
        assert(before =~= Seq::empty());
    }
    assert(bytes =~= before + last.encoded());
    if i < shorter.len() {
        assert(bytes.subrange(0, before.len() as int) =~= before);
        lemma_moved(bytes, before, 0, 32 * i, entries[i]);
    } else {
        assert(bytes.subrange(32 * i, 32 * i + 32) =~= last.encoded());
        lemma_moved(bytes, last.encoded(), 32 * i, 0, entries[i]);
    }
}

/// GetLogEntries tells how many boots and authentications went unlogged, how many
/// entries there are, and the entries in their order, each field in its place.
pub proof fn logs_are_told(device: DeviceModel, i: int)
    requires
        device.audit.entries.len() <= 255,
        forall|j: int|
            0 <= j < device.audit.entries.len() ==> (
            #[trigger] device.audit.entries[j]).digest.len() == 16,
    ensures
        ({
            let told = device.tells_log(Seq::empty());
            &&& told matches Ok(bytes)
            &&& u16_at(bytes, 0) == device.audit.unlogged_boot
            &&& u16_at(bytes, 2) == device.audit.unlogged_authentication
            &&& bytes[4] == device.audit.entries.len()
            &&& bytes.len() == 5 + 32 * device.audit.entries.len()
            &&& 0 <= i < device.audit.entries.len() ==> describes_entry(
                bytes,
                5 + 32 * i,
                device.audit.entries[i],
            )
        }),
{
    let entries = device.audit.entries;
    let bytes = device.tells_log(Seq::empty())->Ok_0;
    let (a, b) = (u16_be(device.audit.unlogged_boot), u16_be(device.audit.unlogged_authentication));
    u16_round_trip(device.audit.unlogged_boot);
    u16_round_trip(device.audit.unlogged_authentication);
    let rest = entries_encoded(entries);
    assert(bytes[0] == a[0] && bytes[1] == a[1]);
    assert(bytes[2] == b[0] && bytes[3] == b[1]);
    if entries.len() > 0 {
        lemma_entries(entries, if 0 <= i < entries.len() { i } else { 0 });
        if 0 <= i < entries.len() {
            assert(bytes.subrange(5, 5 + rest.len() as int) =~= rest);
            lemma_moved(bytes, rest, 5, 32 * i, entries[i]);
        }
    } else {
        assert(rest =~= Seq::empty());
    }
}

/// GetPublicKey tells the algorithm of a key, then its public part: of a curve
/// without the byte that marks an uncompressed point, and else as it is.
pub proof fn public_keys_are_told(
    device: DeviceModel,
    authorization: SessionAuthorization,
    id: u16,
)
    requires
        device.objects.contains_key(place(3, id)),
        device.objects[place(3, id)].info.object_type == ObjectType::AsymmetricKey,
        authorization.domains & device.objects[place(3, id)].info.domains != 0,
    ensures
        ({
            let key = device.objects[place(3, id)];
            let told = device.gets_public_key(authorization, u16_be(id));
            &&& (key.material matches MaterialModel::SigningKey(held) && held.kind is Ec
                && held.public.len() > 0 && curve_of(key.info.algorithm) is Some) ==> told == Ok::<
                _,
                DeviceError,
            >(
                seq![key.info.algorithm] + key.material->SigningKey_0.public.subrange(
                    1,
                    key.material->SigningKey_0.public.len() as int,
                ),
            )
            &&& (key.material matches MaterialModel::SigningKey(held) && held.kind is Rsa && 9
                <= key.info.algorithm <= 11) || (key.material matches MaterialModel::SigningKey(
                held,
            ) && held.kind is Ed25519 && key.info.algorithm == 46) ==> told == Ok::<
                _,
                DeviceError,
            >(seq![key.info.algorithm] + key.material->SigningKey_0.public)
            &&& key.info.algorithm == 56 && key.material is X25519Key ==> told == Ok::<
                _,
                DeviceError,
            >(seq![56u8] + key.material->X25519Key_0.public)
        }),
{
    u16_round_trip(id);
    assert(u16_at(u16_be(id), 0) == id);
}

proof fn lemma_filtered(values: Seq<u8>, keeps: spec_fn(u8) -> bool, value: u8)
    ensures
        values.filter(keeps).contains(value) <==> values.contains(value) && keeps(value),
    decreases values.len(),
{
    reveal(Seq::filter);
    if values.len() > 0 {
        let shorter = values.drop_last();
        let kept = shorter.filter(keeps);
        lemma_filtered(shorter, keeps, value);
        assert(values =~= shorter.push(values.last()));
        if values.contains(value) && values.last() != value {
            let i = choose|i: int| 0 <= i < values.len() && values[i] == value;
            assert(shorter[i] == value);
        }
        if shorter.contains(value) {
            let i = choose|i: int| 0 <= i < shorter.len() && shorter[i] == value;
            assert(values[i] == value);
        }
        if values.last() == value {
            assert(values[values.len() - 1] == value);
        }
        if keeps(values.last()) {
            let whole = kept.push(values.last());
            if kept.contains(value) {
                let i = choose|i: int| 0 <= i < kept.len() && kept[i] == value;
                assert(whole[i] == value);
            }
            if values.last() == value {
                assert(whole[kept.len() as int] == value);
            }
            if whole.contains(value) && values.last() != value {
                let i = choose|i: int| 0 <= i < whole.len() && whole[i] == value;
                assert(kept[i] == value);
            }
        }
    }
}

/// GetDeviceInfo tells the version, the serial number, how many entries the log
/// has room for and how many it has, and then the algorithms that are enabled;
/// asked for its part number, it tells that.
pub proof fn devices_tell_of_themselves(device: DeviceModel, algorithm: u8)
    requires
        device.config.version.len() == 3,
        device.audit.entries.len() <= 255,
    ensures
        device.tells_device_info(Seq::empty()) matches Ok(told) && {
            &&& told.len() >= 9
            &&& told.subrange(0, 3) == device.config.version
            &&& u32_at(told, 3) == device.config.serial
            &&& told[7] == device.config.log_capacity
            &&& told[8] == device.audit.entries.len()
            &&& told.subrange(9, told.len() as int).contains(
                algorithm,
            ) <==> device.config.algorithms.contains(
                algorithm,
            ) && device.enabled(algorithm)
        },
        device.tells_device_info(seq![1u8]) == Ok::<_, DeviceError>(device.config.part_number),
{
    let is_enabled = |algorithm: u8| device.enabled(algorithm);
    let enabled = device.config.algorithms.filter(is_enabled);
    let told = device.tells_device_info(Seq::empty())->Ok_0;
    let serial = u32_be(device.config.serial);
    u32_round_trip(device.config.serial);
    assert(told.subrange(0, 3) =~= device.config.version);
    assert(told[3] == serial[0] && told[4] == serial[1] && told[5] == serial[2] && told[6]
        == serial[3]);
    assert(told.subrange(9, told.len() as int) =~= enabled);
    lemma_filtered(device.config.algorithms, is_enabled, algorithm);
}

/// GetStorageInfo tells the room for objects and how much of it is left, the same
/// of pages, and the size of a page; GetDevicePublicKey tells the device's own key
/// as one for authentication; GetOpaque and GetTemplate tell contents as they are;
/// and GetPseudoRandom draws as many bytes as it is asked for.
pub proof fn other_things_are_told(device: DeviceModel, id: u16, count: u16)
    requires
        device.objects.dom().finite(),
        device.objects.len() <= 256,
    ensures
        device.tells_storage(Seq::empty()) matches Ok(told) && told.len() == 10 && u16_at(told, 0)
            == 256 && u16_at(told, 2) == 256 - device.objects.len() && u16_at(told, 4) == 1024
            && u16_at(told, 6) == 1024 - device.objects.len() && u16_at(told, 8) == 126,
        device.key.kind is Ec && device.key.public.len() > 0 ==> device.tells_public_key(
            Seq::empty(),
        ) == Ok::<_, DeviceError>(
            seq![49u8] + device.key.public.subrange(1, device.key.public.len() as int),
        ),
        device.opens(ObjectType::Opaque, u16_be(id)) matches Ok(
            told,
        ) ==> device.objects.contains_key(
            place(1, id),
        ) && device.objects[place(1, id)].material == MaterialModel::Opaque(told),
        device.opens(ObjectType::Template, u16_be(id)) matches Ok(told)
            ==> device.objects.contains_key(place(6, id)) && device.objects[place(6, id)].material
            == MaterialModel::Opaque(told),
        crate::execute::pseudo_random(u16_be(count), Seq::empty(), 0) == Err::<(Seq<u8>, nat), _>(
            crate::engine::HaltModel::Ask(crate::engine::RequestModel::Random(count as usize)),
        ),
{
    u16_round_trip(id);
    u16_round_trip(count);
    assert(u16_at(u16_be(id), 0) == id);
    assert(u16_at(u16_be(count), 0) == count);
    let left = (256 - device.objects.len()) as u16;
    let pages = (1024 - device.objects.len()) as u16;
    u16_round_trip(256);
    u16_round_trip(left);
    u16_round_trip(1024);
    u16_round_trip(pages);
    u16_round_trip(126);
    let told = device.tells_storage(Seq::empty())->Ok_0;
    let (a, b, c) = (u16_be(256), u16_be(left), u16_be(1024));
    let (d, e) = (u16_be(pages), u16_be(126));
    assert(told[0] == a[0] && told[1] == a[1]);
    assert(told[2] == b[0] && told[3] == b[1]);
    assert(told[4] == c[0] && told[5] == c[1]);
    assert(told[6] == d[0] && told[7] == d[1]);
    assert(told[8] == e[0] && told[9] == e[1]);
}

} // verus!
