//! Byte strings: big-endian numbers, copies, joins and comparisons.
use vstd::prelude::*;
use vstd::slice::slice_subrange;

verus! {

/// The two big-endian bytes of a number.
pub open spec fn u16_be(value: u16) -> Seq<u8> {
    seq![(value / 256) as u8, (value % 256) as u8]
}

/// The four big-endian bytes of a number.
pub open spec fn u32_be(value: u32) -> Seq<u8> {
    seq![
        (value / 0x100_0000) as u8,
        ((value / 0x1_0000) % 256) as u8,
        ((value / 0x100) % 256) as u8,
        (value % 256) as u8,
    ]
}

/// The eight big-endian bytes of a number.
pub open spec fn u64_be(value: u64) -> Seq<u8> {
    seq![
        (value / 0x100_0000_0000_0000) as u8,
        ((value / 0x1_0000_0000_0000) % 256) as u8,
        ((value / 0x100_0000_0000) % 256) as u8,
        ((value / 0x1_0000_0000) % 256) as u8,
        ((value / 0x100_0000) % 256) as u8,
        ((value / 0x1_0000) % 256) as u8,
        ((value / 0x100) % 256) as u8,
        (value % 256) as u8,
    ]
}

/// The number whose two big-endian bytes start at a position.
pub open spec fn u16_at(bytes: Seq<u8>, at: int) -> u16 {
    (bytes[at] * 256 + bytes[at + 1]) as u16
}

/// The number whose four big-endian bytes start at a position.
pub open spec fn u32_at(bytes: Seq<u8>, at: int) -> u32 {
    (bytes[at] * 0x100_0000 + bytes[at + 1] * 0x1_0000 + bytes[at + 2] * 0x100 + bytes[at
        + 3]) as u32
}

/// The number whose eight big-endian bytes start at a position.
pub open spec fn u64_at(bytes: Seq<u8>, at: int) -> u64 {
    (bytes[at] * 0x100_0000_0000_0000 + bytes[at + 1] * 0x1_0000_0000_0000 + bytes[at + 2]
        * 0x100_0000_0000 + bytes[at + 3] * 0x1_0000_0000 + bytes[at + 4] * 0x100_0000 + bytes[at
        + 5] * 0x1_0000 + bytes[at + 6] * 0x100 + bytes[at + 7]) as u64
}

/// The big-endian bytes of a number give the number back.
pub proof fn u16_round_trip(value: u16)
    ensures
        u16_at(u16_be(value), 0) == value,
        u16_be(value).len() == 2,
{
}

/// The big-endian bytes of a number give the number back.
pub proof fn u32_round_trip(value: u32)
    ensures
        u32_at(u32_be(value), 0) == value,
        u32_be(value).len() == 4,
{
    assert((value / 0x100_0000) * 0x100_0000 + ((value / 0x1_0000) % 256) * 0x1_0000 + ((value
        / 0x100) % 256) * 0x100 + value % 256 == value) by (bit_vector);
}

/// The big-endian bytes of a number give the number back.
pub proof fn u64_round_trip(value: u64)
    ensures
        u64_at(u64_be(value), 0) == value,
        u64_be(value).len() == 8,
{
    assert((value / 0x100_0000_0000_0000) * 0x100_0000_0000_0000 + ((value
        / 0x1_0000_0000_0000) % 256) * 0x1_0000_0000_0000 + ((value / 0x100_0000_0000) % 256)
        * 0x100_0000_0000 + ((value / 0x1_0000_0000) % 256) * 0x1_0000_0000 + ((value
        / 0x100_0000) % 256) * 0x100_0000 + ((value / 0x1_0000) % 256) * 0x1_0000 + ((value
        / 0x100) % 256) * 0x100 + value % 256 == value) by (bit_vector);
}

/// Eight bytes are the big-endian bytes of the number they spell.
pub proof fn u64_bytes_round_trip(bytes: Seq<u8>)
    requires
        bytes.len() == 8,
    ensures
        u64_be(u64_at(bytes, 0)) == bytes,
{
    let value = u64_at(bytes, 0);
    let (b0, b1, b2, b3) = (bytes[0], bytes[1], bytes[2], bytes[3]);
    let (b4, b5, b6, b7) = (bytes[4], bytes[5], bytes[6], bytes[7]);
    assert(value == b0 * 0x100_0000_0000_0000 + b1 * 0x1_0000_0000_0000 + b2 * 0x100_0000_0000 + b3
        * 0x1_0000_0000 + b4 * 0x100_0000 + b5 * 0x1_0000 + b6 * 0x100 + b7);
    assert((value / 0x100_0000_0000_0000) as u8 == b0 && ((value / 0x1_0000_0000_0000) % 256) as u8
        == b1 && ((value / 0x100_0000_0000) % 256) as u8 == b2 && ((value / 0x1_0000_0000)
        % 256) as u8 == b3 && ((value / 0x100_0000) % 256) as u8 == b4 && ((value / 0x1_0000)
        % 256) as u8 == b5 && ((value / 0x100) % 256) as u8 == b6 && (value % 256) as u8 == b7)
        by (bit_vector)
        requires
            value == b0 * 0x100_0000_0000_0000 + b1 * 0x1_0000_0000_0000 + b2 * 0x100_0000_0000 + b3
                * 0x1_0000_0000 + b4 * 0x100_0000 + b5 * 0x1_0000 + b6 * 0x100 + b7,
    ;
    assert(u64_be(value) =~= bytes);
}

/// Appends bytes.
pub fn append(output: &mut Vec<u8>, bytes: &[u8])
    ensures
        final(output)@ == old(output)@ + bytes@,
{
    output.extend_from_slice(bytes);
    assert(output@ =~= old(output)@ + bytes@);
}

/// Appends the big-endian bytes of a number.
pub fn write_u16(output: &mut Vec<u8>, value: u16)
    ensures
        final(output)@ == old(output)@ + u16_be(value),
{
    output.push((value / 256) as u8);
    output.push((value % 256) as u8);
    assert(output@ =~= old(output)@ + u16_be(value));
}

/// Appends the big-endian bytes of a number.
pub fn write_u32(output: &mut Vec<u8>, value: u32)
    ensures
        final(output)@ == old(output)@ + u32_be(value),
{
    output.push((value / 0x100_0000) as u8);
    output.push(((value / 0x1_0000) % 256) as u8);
    output.push(((value / 0x100) % 256) as u8);
    output.push((value % 256) as u8);
    assert(output@ =~= old(output)@ + u32_be(value));
}

/// Appends the big-endian bytes of a number.
pub fn write_u64(output: &mut Vec<u8>, value: u64)
    ensures
        final(output)@ == old(output)@ + u64_be(value),
{
    output.push((value / 0x100_0000_0000_0000) as u8);
    output.push(((value / 0x1_0000_0000_0000) % 256) as u8);
    output.push(((value / 0x100_0000_0000) % 256) as u8);
    output.push(((value / 0x1_0000_0000) % 256) as u8);
    output.push(((value / 0x100_0000) % 256) as u8);
    output.push(((value / 0x1_0000) % 256) as u8);
    output.push(((value / 0x100) % 256) as u8);
    output.push((value % 256) as u8);
    assert(output@ =~= old(output)@ + u64_be(value));
}

/// Returns the big-endian bytes of a number.
pub fn u16_bytes(value: u16) -> (bytes: Vec<u8>)
    ensures
        bytes@ == u16_be(value),
{
    let mut bytes: Vec<u8> = Vec::new();
    write_u16(&mut bytes, value);
    assert(bytes@ =~= u16_be(value));
    bytes
}

/// Returns the big-endian bytes of a number.
pub fn u64_bytes(value: u64) -> (bytes: Vec<u8>)
    ensures
        bytes@ == u64_be(value),
{
    let mut bytes: Vec<u8> = Vec::new();
    write_u64(&mut bytes, value);
    assert(bytes@ =~= u64_be(value));
    bytes
}

/// Reads a big-endian number.
pub fn read_u16(bytes: &[u8], at: usize) -> (value: u16)
    requires
        at + 2 <= bytes@.len(),
    ensures
        value == u16_at(bytes@, at as int),
{
    (bytes[at] as u16) * 256 + (bytes[at + 1] as u16)
}

/// Reads a big-endian number.
pub fn read_u32(bytes: &[u8], at: usize) -> (value: u32)
    requires
        at + 4 <= bytes@.len(),
    ensures
        value == u32_at(bytes@, at as int),
{
    (bytes[at] as u32) * 0x100_0000 + (bytes[at + 1] as u32) * 0x1_0000 + (bytes[at + 2] as u32)
        * 0x100 + (bytes[at + 3] as u32)
}

/// Reads a big-endian number.
pub fn read_u64(bytes: &[u8], at: usize) -> (value: u64)
    requires
        at + 8 <= bytes@.len(),
    ensures
        value == u64_at(bytes@, at as int),
{
    (bytes[at] as u64) * 0x100_0000_0000_0000 + (bytes[at + 1] as u64) * 0x1_0000_0000_0000 + (
    bytes[at + 2] as u64) * 0x100_0000_0000 + (bytes[at + 3] as u64) * 0x1_0000_0000 + (bytes[at
        + 4] as u64) * 0x100_0000 + (bytes[at + 5] as u64) * 0x1_0000 + (bytes[at + 6] as u64)
        * 0x100 + (bytes[at + 7] as u64)
}

/// Copies bytes.
pub fn copied(bytes: &[u8]) -> (copy: Vec<u8>)
    ensures
        copy@ == bytes@,
{
    let mut copy: Vec<u8> = Vec::new();
    append(&mut copy, bytes);
    assert(copy@ =~= bytes@);
    copy
}

/// Copies the bytes of a range.
pub fn copied_range(bytes: &[u8], from: usize, to: usize) -> (copy: Vec<u8>)
    requires
        from <= to <= bytes@.len(),
    ensures
        copy@ == bytes@.subrange(from as int, to as int),
{
    copied(slice_subrange(bytes, from, to))
}

/// Joins two byte strings.
pub fn joined(first: &[u8], second: &[u8]) -> (bytes: Vec<u8>)
    ensures
        bytes@ == first@ + second@,
{
    let mut bytes: Vec<u8> = copied(first);
    append(&mut bytes, second);
    bytes
}

/// Returns a byte string of one byte.
pub fn single(byte: u8) -> (bytes: Vec<u8>)
    ensures
        bytes@ == seq![byte],
{
    let mut bytes: Vec<u8> = Vec::new();
    bytes.push(byte);
    assert(bytes@ =~= seq![byte]);
    bytes
}

/// Returns a byte string of zeros.
pub fn zeros(length: usize) -> (bytes: Vec<u8>)
    ensures
        bytes@ == Seq::new(length as nat, |i: int| 0u8),
{
    let mut bytes: Vec<u8> = Vec::new();
    while bytes.len() < length
        invariant
            bytes@.len() <= length,
            bytes@ == Seq::new(bytes@.len(), |i: int| 0u8),
        decreases length - bytes@.len(),
    {
        bytes.push(0);
        assert(bytes@ =~= Seq::new(bytes@.len(), |i: int| 0u8));
    }
    bytes
}

/// Tells whether two byte strings are the same.
pub fn equal(first: &[u8], second: &[u8]) -> (same: bool)
    ensures
        same == (first@ == second@),
{
    if first.len() != second.len() {
        return false;
    }
    let mut index: usize = 0;
    while index < first.len()
        invariant
            index <= first@.len(),
            first@.len() == second@.len(),
            forall|i: int| 0 <= i < index ==> first@[i] == second@[i],
        decreases first@.len() - index,
    {
        if first[index] != second[index] {
            return false;
        }
        index = index + 1;
    }
    assert(first@ =~= second@);
    true
}

/// Tells whether a byte occurs in a byte string.
pub fn contains(bytes: &[u8], byte: u8) -> (found: bool)
    ensures
        found == bytes@.contains(byte),
{
    let mut index: usize = 0;
    while index < bytes.len()
        invariant
            index <= bytes@.len(),
            forall|i: int| 0 <= i < index ==> bytes@[i] != byte,
        decreases bytes@.len() - index,
    {
        if bytes[index] == byte {
            assert(bytes@[index as int] == byte);
            return true;
        }
        index = index + 1;
    }
    false
}

/// The bytes before the first zero byte, or all of them where there is none.
pub open spec fn before_zero(bytes: Seq<u8>) -> Seq<u8>
    decreases bytes.len(),
{
    if bytes.len() == 0 || bytes[0] == 0 {
        Seq::empty()
    } else {
        seq![bytes[0]] + before_zero(bytes.subrange(1, bytes.len() as int))
    }
}

/// What stands before the first zero byte is the longest prefix without one.
pub proof fn before_zero_is_the_longest_prefix_without_zero(bytes: Seq<u8>)
    ensures
        before_zero(bytes).len() <= bytes.len(),
        before_zero(bytes) == bytes.subrange(0, before_zero(bytes).len() as int),
        forall|i: int| 0 <= i < before_zero(bytes).len() ==> bytes[i] != 0,
        before_zero(bytes).len() < bytes.len() ==> bytes[before_zero(bytes).len() as int] == 0,
    decreases bytes.len(),
{
    if bytes.len() == 0 || bytes[0] == 0 {
        assert(before_zero(bytes) =~= bytes.subrange(0, 0));
    } else {
        let tail = bytes.subrange(1, bytes.len() as int);
        before_zero_is_the_longest_prefix_without_zero(tail);
        let trimmed = before_zero(bytes);
        assert(forall|i: int| 0 <= i < tail.len() ==> tail[i] == bytes[i + 1]);
        assert forall|i: int| 0 <= i < trimmed.len() implies bytes[i] != 0 && trimmed[i]
            == bytes[i] by {
            if i > 0 {
                assert(trimmed[i] == before_zero(tail)[i - 1]);
                assert(before_zero(tail)[i - 1] == tail[i - 1]);
                assert(tail[i - 1] != 0);
            }
        }
        assert(trimmed =~= bytes.subrange(0, trimmed.len() as int));
        if trimmed.len() < bytes.len() {
            assert(tail[before_zero(tail).len() as int] == bytes[trimmed.len() as int]);
        }
    }
}

/// A prefix without a zero byte that a zero byte or the end follows is what
/// stands before the first zero byte.
pub proof fn before_zero_of_prefix(bytes: Seq<u8>, length: int)
    requires
        0 <= length <= bytes.len(),
        forall|i: int| 0 <= i < length ==> bytes[i] != 0,
        length < bytes.len() ==> bytes[length] == 0,
    ensures
        before_zero(bytes) == bytes.subrange(0, length),
    decreases bytes.len(),
{
    if length > 0 {
        let tail = bytes.subrange(1, bytes.len() as int);
        before_zero_of_prefix(tail, length - 1);
        assert(before_zero(bytes) =~= bytes.subrange(0, length));
    } else {
        assert(before_zero(bytes) =~= bytes.subrange(0, 0));
    }
}

/// Drops a zero-padded label's padding: everything from the first zero byte on.
pub fn trim_label(label: &[u8]) -> (trimmed: Vec<u8>)
    ensures
        trimmed@ == before_zero(label@),
{
    let mut length: usize = 0;
    while length < label.len() && label[length] != 0
        invariant
            length <= label@.len(),
            forall|i: int| 0 <= i < length ==> label@[i] != 0,
        decreases label@.len() - length,
    {
        length = length + 1;
    }
    proof {
        before_zero_of_prefix(label@, length as int);
    }
    copied_range(label, 0, length)
}

/// The first place, from one on, at which a pattern stands; nothing where it
/// stands nowhere.
pub open spec fn place_in<T>(whole: Seq<T>, pattern: Seq<T>, from: int) -> Option<int>
    decreases whole.len() + 1 - from,
{
    if from < 0 || from + pattern.len() > whole.len() {
        None
    } else if whole.subrange(from, from + pattern.len()) == pattern {
        Some(from)
    } else {
        place_in(whole, pattern, from + 1)
    }
}

/// A found pattern stands at its place and nowhere before.
pub proof fn places_hold_the_pattern<T>(whole: Seq<T>, pattern: Seq<T>, from: int)
    requires
        0 <= from,
    ensures
        place_in(whole, pattern, from) matches Some(place) ==> from <= place && place
            + pattern.len() <= whole.len() && whole.subrange(place, place + pattern.len())
            == pattern,
        forall|i: int|
            from <= i && i + pattern.len() <= whole.len() && (place_in(whole, pattern, from) is Some
                ==> i < place_in(whole, pattern, from)->0) ==> #[trigger] whole.subrange(
                i,
                i + pattern.len(),
            ) != pattern,
    decreases whole.len() + 1 - from,
{
    if from + pattern.len() <= whole.len() && whole.subrange(from, from + pattern.len())
        != pattern {
        places_hold_the_pattern(whole, pattern, from + 1);
    }
}

/// Finds a pattern.
pub fn find_pattern(whole: &[u8], pattern: &[u8]) -> (place: Option<usize>)
    ensures
        match place {
            Some(place) => place_in(whole@, pattern@, 0) == Some(place as int) && place
                + pattern@.len() <= whole@.len(),
            None => place_in(whole@, pattern@, 0) is None,
        },
{
    if pattern.len() == 0 {
        assert(whole@.subrange(0, 0) =~= pattern@);
        return Some(0);
    }
    if pattern.len() > whole.len() {
        return None;
    }
    let mut place: usize = 0;
    while place <= whole.len() - pattern.len()
        invariant
            0 < pattern@.len() <= whole@.len(),
            place <= whole@.len() - pattern@.len() + 1,
            place_in(whole@, pattern@, 0) == place_in(whole@, pattern@, place as int),
        decreases whole@.len() - pattern@.len() + 1 - place,
    {
        if equal(slice_subrange(whole, place, place + pattern.len()), pattern) {
            return Some(place);
        }
        place = place + 1;
    }
    None
}

} // verus!
