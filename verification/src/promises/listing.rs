//! Lists of objects: what is in them and what each filter asks for.
use crate::authorization::SessionAuthorization;
use crate::bytes::{before_zero_of_prefix, u16_be, u16_round_trip, u64_at, u64_be, u64_round_trip};
use crate::capability::{bit, capability_words_round_trip, CapabilitySet};
use crate::device::DeviceModel;
use crate::error::DeviceError;
use crate::object::{InfoModel, ObjectType, RecordModel};
use crate::request::{ObjectFilters, ObjectFiltersModel};
use crate::settings::{list_entry, listed_below};
use crate::wire::decoded;
use vstd::prelude::*;

verus! {

/// The number of a type of objects.
pub open spec fn type_number(object_type: ObjectType) -> int {
    match object_type {
        ObjectType::Opaque => 1,
        ObjectType::AuthenticationKey => 2,
        ObjectType::AsymmetricKey => 3,
        ObjectType::WrapKey => 4,
        ObjectType::HmacKey => 5,
        ObjectType::Template => 6,
        ObjectType::OtpAeadKey => 7,
        ObjectType::SymmetricKey => 8,
        ObjectType::PublicWrapKey => 9,
    }
}

/// What a list can be asked for.
pub struct Wanted {
    pub id: Option<u16>,
    pub object_type: Option<ObjectType>,
    pub domains: Option<u16>,
    pub capabilities: Option<u64>,
    pub algorithm: Option<u8>,
    pub label: Option<Seq<u8>>,
}

/// A label in its forty bytes.
pub open spec fn padded(label: Seq<u8>) -> Seq<u8> {
    label + Seq::new((40 - label.len()) as nat, |i: int| 0u8)
}

impl Wanted {
    /// Whether the label, where one is asked for, is one that objects have.
    pub open spec fn valid(self) -> bool {
        self.label matches Some(label) ==> label.len() <= 40 && forall|i: int|
            0 <= i < label.len() ==> label[i] != 0
    }

    /// Whether an object is what is asked for.
    pub open spec fn fits(self, object: InfoModel) -> bool {
        &&& self.id matches Some(id) ==> object.id == id
        &&& self.object_type matches Some(object_type) ==> object.object_type == object_type
        &&& self.domains matches Some(domains) ==> object.domains & domains != 0
        &&& self.capabilities matches Some(word) ==> forall|number: u8|
            number < 64 && #[trigger] bit(word, number) ==> bit(object.capabilities.word(), number)
        &&& self.algorithm matches Some(algorithm) ==> object.algorithm == algorithm
        &&& self.label matches Some(label) ==> object.label == label
    }

    /// The bytes that ask for a number.
    pub open spec fn id_part(self) -> Seq<u8> {
        match self.id {
            Some(id) => seq![1u8] + u16_be(id),
            None => Seq::empty(),
        }
    }

    /// The bytes that ask for a type.
    pub open spec fn object_type_part(self) -> Seq<u8> {
        match self.object_type {
            Some(object_type) => seq![2u8, type_number(object_type) as u8],
            None => Seq::empty(),
        }
    }

    /// The bytes that ask for some domains.
    pub open spec fn domains_part(self) -> Seq<u8> {
        match self.domains {
            Some(domains) => seq![3u8] + u16_be(domains),
            None => Seq::empty(),
        }
    }

    /// The bytes that ask for some capabilities.
    pub open spec fn capabilities_part(self) -> Seq<u8> {
        match self.capabilities {
            Some(word) => seq![4u8] + u64_be(word),
            None => Seq::empty(),
        }
    }

    /// The bytes that ask for an algorithm.
    pub open spec fn algorithm_part(self) -> Seq<u8> {
        match self.algorithm {
            Some(algorithm) => seq![5u8, algorithm],
            None => Seq::empty(),
        }
    }

    /// The bytes that ask for a label.
    pub open spec fn label_part(self) -> Seq<u8> {
        match self.label {
            Some(label) => seq![6u8] + padded(label),
            None => Seq::empty(),
        }
    }

    /// The bytes that ask for it all.
    pub open spec fn request(self) -> Seq<u8> {
        self.id_part() + self.object_type_part() + self.domains_part() + self.capabilities_part()
            + self.algorithm_part() + self.label_part()
    }

    /// The filters that come of it.
    spec fn filters(self) -> ObjectFiltersModel {
        ObjectFiltersModel {
            id: self.id,
            object_type: self.object_type,
            domains: self.domains,
            capabilities: match self.capabilities {
                Some(word) => Some(CapabilitySet::of_word(word)),
                None => None,
            },
            algorithm: self.algorithm,
            label: self.label,
        }
    }
}

/// Whether an entry of a list stands for an object: its number, its type and its
/// generation.
pub open spec fn stands_for(list: Seq<u8>, entry: int, object: InfoModel) -> bool {
    &&& 0 <= entry
    &&& 4 * entry + 4 <= list.len()
    &&& list[4 * entry] * 256 + list[4 * entry + 1] == object.id
    &&& list[4 * entry + 2] == type_number(object.object_type)
    &&& list[4 * entry + 3] == object.sequence
}

/// Whether a list is of exactly the objects that are chosen, in their order.
pub open spec fn lists_exactly(
    list: Seq<u8>,
    objects: Map<u32, RecordModel>,
    chosen: Seq<u32>,
    is_chosen: spec_fn(InfoModel) -> bool,
) -> bool {
    &&& list.len() == 4 * chosen.len()
    &&& forall|i: int|
        0 <= i < chosen.len() ==> objects.contains_key(#[trigger] chosen[i]) && is_chosen(
            objects[chosen[i]].info,
        ) && stands_for(list, i, objects[chosen[i]].info)
    &&& forall|number: u32| #[trigger]
        objects.contains_key(number) && is_chosen(objects[number].info) ==> chosen.contains(number)
    &&& forall|i: int, j: int|
        0 <= i < j < chosen.len() ==> #[trigger] chosen[i] < #[trigger] chosen[j]
}

/// Reading goes on behind a filter, with the filter in place.
proof fn lemma_filters(filters: ObjectFiltersModel, wanted: Wanted, input: Seq<u8>, at: int)
    requires
        wanted.valid(),
        0 <= at <= input.len(),
    ensures
        wanted.id matches Some(id) ==> at + 3 <= input.len() && input.subrange(at, at + 3)
            == seq![1u8] + u16_be(id) ==> filters.read(input, at) == (ObjectFiltersModel {
            id: Some(id),
            ..filters
        }).read(input, at + 3),
        wanted.object_type matches Some(object_type) ==> at + 2 <= input.len() && input.subrange(
            at,
            at + 2,
        ) == seq![2u8, type_number(object_type) as u8] ==> filters.read(input, at) == (
        ObjectFiltersModel { object_type: Some(object_type), ..filters }).read(input, at + 2),
        wanted.domains matches Some(domains) ==> at + 3 <= input.len() && input.subrange(at, at + 3)
            == seq![3u8] + u16_be(domains) ==> filters.read(input, at) == (ObjectFiltersModel {
            domains: Some(domains),
            ..filters
        }).read(input, at + 3),
        wanted.capabilities matches Some(word) ==> at + 9 <= input.len() && input.subrange(
            at,
            at + 9,
        ) == seq![4u8] + u64_be(word) ==> filters.read(input, at) == (ObjectFiltersModel {
            capabilities: Some(CapabilitySet::of_word(word)),
            ..filters
        }).read(input, at + 9),
        wanted.algorithm matches Some(algorithm) ==> at + 2 <= input.len() && input.subrange(
            at,
            at + 2,
        ) == seq![5u8, algorithm] ==> filters.read(input, at) == (ObjectFiltersModel {
            algorithm: Some(algorithm),
            ..filters
        }).read(input, at + 2),
        wanted.label matches Some(label) ==> at + 41 <= input.len() && input.subrange(at, at + 41)
            == seq![6u8] + padded(label) ==> filters.read(input, at) == (ObjectFiltersModel {
            label: Some(label),
            ..filters
        }).read(input, at + 41),
{
    if let Some(id) = wanted.id {
        let part = seq![1u8] + u16_be(id);
        if at + 3 <= input.len() && input.subrange(at, at + 3) == part {
            u16_round_trip(id);
            assert(input[at] == part[0]);
            assert(input[at + 1] == part[1] && part[1] == u16_be(id)[0]);
            assert(input[at + 2] == part[2] && part[2] == u16_be(id)[1]);
        }
    }
    if let Some(object_type) = wanted.object_type {
        let part = seq![2u8, type_number(object_type) as u8];
        if at + 2 <= input.len() && input.subrange(at, at + 2) == part {
            assert(input[at] == part[0]);
            assert(input[at + 1] == part[1]);
        }
    }
    if let Some(domains) = wanted.domains {
        let part = seq![3u8] + u16_be(domains);
        if at + 3 <= input.len() && input.subrange(at, at + 3) == part {
            u16_round_trip(domains);
            assert(input[at] == part[0]);
            assert(input[at + 1] == part[1] && part[1] == u16_be(domains)[0]);
            assert(input[at + 2] == part[2] && part[2] == u16_be(domains)[1]);
        }
    }
    if let Some(word) = wanted.capabilities {
        let part = seq![4u8] + u64_be(word);
        if at + 9 <= input.len() && input.subrange(at, at + 9) == part {
            u64_round_trip(word);
            assert(input[at] == part[0]);
            assert forall|i: int| 0 <= i < 8 implies input[at + 1 + i] == u64_be(word)[i] by {
                assert(input.subrange(at, at + 9)[i + 1] == part[i + 1]);
            }
            assert(u64_at(input, at + 1) == u64_at(u64_be(word), 0));
        }
    }
    if let Some(algorithm) = wanted.algorithm {
        let part = seq![5u8, algorithm];
        if at + 2 <= input.len() && input.subrange(at, at + 2) == part {
            assert(input[at] == part[0]);
            assert(input[at + 1] == part[1]);
        }
    }
    if let Some(label) = wanted.label {
        let part = seq![6u8] + padded(label);
        if at + 41 <= input.len() && input.subrange(at, at + 41) == part {
            assert(input[at] == part[0]);
            assert(input.subrange(at + 1, at + 41) =~= padded(label)) by {
                assert forall|i: int| 0 <= i < 40 implies input[at + 1 + i] == padded(label)[i] by {
                    assert(input.subrange(at, at + 41)[i + 1] == part[i + 1]);
                }
            }
            before_zero_of_prefix(padded(label), label.len() as int);
            assert(padded(label).subrange(0, label.len() as int) =~= label);
        }
    }
}

proof fn lemma_parts(
    a: Seq<u8>,
    b: Seq<u8>,
    c: Seq<u8>,
    d: Seq<u8>,
    e: Seq<u8>,
    f: Seq<u8>,
)
    ensures
        ({
            let whole = a + b + c + d + e + f;
            let (at_b, at_c) = (a.len() as int, (a.len() + b.len()) as int);
            let (at_d, at_e) = (at_c + c.len(), at_c + c.len() + d.len());
            let at_f = at_e + e.len();
            &&& whole.len() == at_f + f.len()
            &&& whole.subrange(0, at_b) == a
            &&& whole.subrange(at_b, at_c) == b
            &&& whole.subrange(at_c, at_d) == c
            &&& whole.subrange(at_d, at_e) == d
            &&& whole.subrange(at_e, at_f) == e
            &&& whole.subrange(at_f, at_f + f.len()) == f
        }),
{
    let whole = a + b + c + d + e + f;
    let at_c = (a.len() + b.len()) as int;
    let (at_d, at_e) = (at_c + c.len(), at_c + c.len() + d.len());
    let at_f = at_e + e.len();
    assert(whole.subrange(0, a.len() as int) =~= a);
    assert(whole.subrange(a.len() as int, at_c) =~= b);
    assert(whole.subrange(at_c, at_d) =~= c);
    assert(whole.subrange(at_d, at_e) =~= d);
    assert(whole.subrange(at_e, at_f) =~= e);
    assert(whole.subrange(at_f, at_f + f.len()) =~= f);
}

proof fn lemma_id(filters: ObjectFiltersModel, wanted: Wanted, input: Seq<u8>, at: int)
    requires
        wanted.valid(),
        filters.id is None,
        0 <= at,
        at + wanted.id_part().len() <= input.len(),
        input.subrange(at, at + wanted.id_part().len()) == wanted.id_part(),
    ensures
        filters.read(input, at) == (ObjectFiltersModel {
            id: wanted.id,
            ..filters
        }).read(input, at + wanted.id_part().len()),
{
    lemma_filters(filters, wanted, input, at);
    assert((ObjectFiltersModel { id: None, ..filters }) == filters);
}

proof fn lemma_object_type(filters: ObjectFiltersModel, wanted: Wanted, input: Seq<u8>, at: int)
    requires
        wanted.valid(),
        filters.object_type is None,
        0 <= at,
        at + wanted.object_type_part().len() <= input.len(),
        input.subrange(at, at + wanted.object_type_part().len()) == wanted.object_type_part(),
    ensures
        filters.read(input, at) == (ObjectFiltersModel {
            object_type: wanted.object_type,
            ..filters
        }).read(input, at + wanted.object_type_part().len()),
{
    lemma_filters(filters, wanted, input, at);
    assert((ObjectFiltersModel { object_type: None, ..filters }) == filters);
}

proof fn lemma_domains(filters: ObjectFiltersModel, wanted: Wanted, input: Seq<u8>, at: int)
    requires
        wanted.valid(),
        filters.domains is None,
        0 <= at,
        at + wanted.domains_part().len() <= input.len(),
        input.subrange(at, at + wanted.domains_part().len()) == wanted.domains_part(),
    ensures
        filters.read(input, at) == (ObjectFiltersModel {
            domains: wanted.domains,
            ..filters
        }).read(input, at + wanted.domains_part().len()),
{
    lemma_filters(filters, wanted, input, at);
    assert((ObjectFiltersModel { domains: None, ..filters }) == filters);
}

proof fn lemma_capabilities(filters: ObjectFiltersModel, wanted: Wanted, input: Seq<u8>, at: int)
    requires
        wanted.valid(),
        filters.capabilities is None,
        0 <= at,
        at + wanted.capabilities_part().len() <= input.len(),
        input.subrange(at, at + wanted.capabilities_part().len()) == wanted.capabilities_part(),
    ensures
        filters.read(input, at) == (ObjectFiltersModel {
            capabilities: wanted.filters().capabilities,
            ..filters
        }).read(input, at + wanted.capabilities_part().len()),
{
    lemma_filters(filters, wanted, input, at);
    assert((ObjectFiltersModel { capabilities: None, ..filters }) == filters);
}

proof fn lemma_algorithm(filters: ObjectFiltersModel, wanted: Wanted, input: Seq<u8>, at: int)
    requires
        wanted.valid(),
        filters.algorithm is None,
        0 <= at,
        at + wanted.algorithm_part().len() <= input.len(),
        input.subrange(at, at + wanted.algorithm_part().len()) == wanted.algorithm_part(),
    ensures
        filters.read(input, at) == (ObjectFiltersModel {
            algorithm: wanted.algorithm,
            ..filters
        }).read(input, at + wanted.algorithm_part().len()),
{
    lemma_filters(filters, wanted, input, at);
    assert((ObjectFiltersModel { algorithm: None, ..filters }) == filters);
}

proof fn lemma_label(filters: ObjectFiltersModel, wanted: Wanted, input: Seq<u8>, at: int)
    requires
        wanted.valid(),
        filters.label is None,
        0 <= at,
        at + wanted.label_part().len() <= input.len(),
        input.subrange(at, at + wanted.label_part().len()) == wanted.label_part(),
    ensures
        filters.read(input, at) == (ObjectFiltersModel {
            label: wanted.label,
            ..filters
        }).read(input, at + wanted.label_part().len()),
{
    lemma_filters(filters, wanted, input, at);
    assert((ObjectFiltersModel { label: None, ..filters }) == filters);
}

/// A list is asked for in the bytes of its filters, in the order of their tags.
proof fn lemma_request(wanted: Wanted)
    requires
        wanted.valid(),
    ensures
        decoded::<ObjectFilters>(wanted.request()) == Ok::<_, DeviceError>(wanted.filters()),
{
    let input = wanted.request();
    let (a, b, c) = (wanted.id_part(), wanted.object_type_part(), wanted.domains_part());
    let (d, e, f) = (
        wanted.capabilities_part(),
        wanted.algorithm_part(),
        wanted.label_part(),
    );
    lemma_parts(a, b, c, d, e, f);
    let (at_b, at_c) = (a.len() as int, (a.len() + b.len()) as int);
    let (at_d, at_e) = (at_c + c.len(), at_c + c.len() + d.len());
    let at_f = at_e + e.len();
    let none = ObjectFiltersModel::none();
    lemma_id(none, wanted, input, 0);
    let first = ObjectFiltersModel { id: wanted.id, ..none };
    lemma_object_type(first, wanted, input, at_b);
    let second = ObjectFiltersModel { object_type: wanted.object_type, ..first };
    lemma_domains(second, wanted, input, at_c);
    let third = ObjectFiltersModel { domains: wanted.domains, ..second };
    lemma_capabilities(third, wanted, input, at_d);
    let fourth = ObjectFiltersModel { capabilities: wanted.filters().capabilities, ..third };
    lemma_algorithm(fourth, wanted, input, at_e);
    let fifth = ObjectFiltersModel { algorithm: wanted.algorithm, ..fourth };
    lemma_label(fifth, wanted, input, at_f);
    let last = ObjectFiltersModel { label: wanted.label, ..fifth };
    assert(last == wanted.filters());
    lemma_end(last, input, at_f + f.len());
}

proof fn lemma_end(filters: ObjectFiltersModel, input: Seq<u8>, at: int)
    requires
        at == input.len(),
    ensures
        filters.read(input, at) == Ok::<_, DeviceError>((filters, at)),
{
}

proof fn lemma_fits(wanted: Wanted, object: InfoModel)
    ensures
        wanted.filters().pass(object) == wanted.fits(object),
{
    if let Some(word) = wanted.capabilities {
        capability_words_round_trip(word);
        let set = CapabilitySet::of_word(word);
        if object.capabilities.covers(set) {
            assert forall|number: u8| number < 64 && #[trigger] bit(word, number) implies bit(
                object.capabilities.word(),
                number,
            ) by {
                assert(set.has(number));
                assert(object.capabilities.has(number));
            }
        }
        if wanted.fits(object) {
            assert forall|number: u8| number < 64 && set.has(number) implies
                object.capabilities.has(number) by {
                assert(bit(word, number));
            }
        }
    }
}

/// The numbers of the objects that a list is of, below a number.
spec fn chosen_below(
    objects: Map<u32, RecordModel>,
    is_chosen: spec_fn(InfoModel) -> bool,
    bound: nat,
) -> Seq<u32>
    decreases bound,
{
    if bound == 0 {
        Seq::empty()
    } else {
        let number = (bound - 1) as u32;
        let before = chosen_below(objects, is_chosen, (bound - 1) as nat);
        if objects.contains_key(number) && is_chosen(objects[number].info) {
            before.push(number)
        } else {
            before
        }
    }
}

proof fn lemma_listed(
    objects: Map<u32, RecordModel>,
    authorization: SessionAuthorization,
    wanted: Wanted,
    is_chosen: spec_fn(InfoModel) -> bool,
    bound: nat,
)
    requires
        bound <= 0x1_0000_0000,
        forall|object: InfoModel| #[trigger]
            is_chosen(object) == (authorization.domains & object.domains != 0 && wanted.fits(
                object,
            )),
    ensures
        ({
            let list = listed_below(objects, authorization, wanted.filters(), bound);
            let chosen = chosen_below(objects, is_chosen, bound);
            &&& list.len() == 4 * chosen.len()
            &&& forall|i: int|
                0 <= i < chosen.len() ==> #[trigger] chosen[i] < bound && objects.contains_key(
                    chosen[i],
                ) && is_chosen(objects[chosen[i]].info) && stands_for(
                    list,
                    i,
                    objects[chosen[i]].info,
                )
            &&& forall|number: u32|
                number < bound && #[trigger] objects.contains_key(number) && is_chosen(
                    objects[number].info,
                ) ==> chosen.contains(number)
            &&& forall|i: int, j: int|
                0 <= i < j < chosen.len() ==> #[trigger] chosen[i] < #[trigger] chosen[j]
        }),
    decreases bound,
{
    if bound > 0 {
        let less = (bound - 1) as nat;
        let number = (bound - 1) as u32;
        lemma_listed(objects, authorization, wanted, is_chosen, less);
        let before = chosen_below(objects, is_chosen, less);
        let short = listed_below(objects, authorization, wanted.filters(), less);
        let list = listed_below(objects, authorization, wanted.filters(), bound);
        let chosen = chosen_below(objects, is_chosen, bound);
        let object = objects[number].info;
        lemma_fits(wanted, object);
        assert(is_chosen(object) == (authorization.sees(object) && wanted.filters().pass(object)));
        if objects.contains_key(number) && is_chosen(object) {
            u16_round_trip(object.id);
            let entry = list_entry(object);
            assert(entry[0] == u16_be(object.id)[0] && entry[1] == u16_be(object.id)[1]);
            assert(list =~= short + entry);
            assert(chosen =~= before.push(number));
            assert forall|i: int| 0 <= i < chosen.len() implies #[trigger] chosen[i] < bound
                && objects.contains_key(chosen[i]) && is_chosen(objects[chosen[i]].info)
                && stands_for(list, i, objects[chosen[i]].info) by {
                if i < before.len() {
                    assert(chosen[i] == before[i]);
                    assert(stands_for(short, i, objects[before[i]].info));
                } else {
                    assert(4 * i == short.len());
                    assert(list[4 * i] == entry[0] && list[4 * i + 1] == entry[1]);
                    assert(list[4 * i + 2] == entry[2] && list[4 * i + 3] == entry[3]);
                }
            }
            assert forall|other: u32|
                other < bound && #[trigger] objects.contains_key(other) && is_chosen(
                    objects[other].info,
                ) implies chosen.contains(other) by {
                if other == number {
                    assert(chosen[before.len() as int] == other);
                } else {
                    assert(before.contains(other));
                    let i = choose|i: int| 0 <= i < before.len() && before[i] == other;
                    assert(chosen[i] == other);
                }
            }
            assert forall|i: int, j: int| 0 <= i < j < chosen.len() implies #[trigger] chosen[i]
                < #[trigger] chosen[j] by {
                assert(chosen[i] == before[i]);
                if j < before.len() {
                    assert(chosen[j] == before[j]);
                }
            }
        }
    }
}

/// A list has one entry for each object of the session's domains that is what was
/// asked for, by number, type, domains, capabilities, algorithm and label, and no
/// other entry. The entries stand in the order of types and numbers.
pub proof fn lists_are_of_what_is_asked_for(
    device: DeviceModel,
    authorization: SessionAuthorization,
    wanted: Wanted,
)
    requires
        wanted.valid(),
    ensures
        ({
            let list = device.lists(authorization, wanted.request());
            let is_chosen = |object: InfoModel|
                authorization.domains & object.domains != 0 && wanted.fits(object);
            list is Ok && exists|chosen: Seq<u32>| #[trigger]
                lists_exactly(list->Ok_0, device.objects, chosen, is_chosen)
        }),
{
    let is_chosen = |object: InfoModel|
        authorization.domains & object.domains != 0 && wanted.fits(object);
    lemma_request(wanted);
    lemma_listed(device.objects, authorization, wanted, is_chosen, 0x1_0000_0000);
    let chosen = chosen_below(device.objects, is_chosen, 0x1_0000_0000);
    assert(lists_exactly(
        device.lists(authorization, wanted.request())->Ok_0,
        device.objects,
        chosen,
        is_chosen,
    ));
}

} // verus!
