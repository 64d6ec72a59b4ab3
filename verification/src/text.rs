//! Texts as characters: looking for marks, trimming, numbers.
use vstd::prelude::*;
use vstd::string::*;

verus! {

/// Takes a text apart into its characters.
pub fn characters(text: &str) -> (characters: Vec<char>)
    ensures
        characters@ == text@,
{
    let mut characters: Vec<char> = Vec::new();
    for next in rest: text.chars()
        invariant
            rest.seq() == text@,
            characters@ == text@.subrange(0, rest.index()),
    {
        characters.push(next);
        assert(characters@ =~= text@.subrange(0, rest.index() + 1));
    }
    assert(characters@ =~= text@);
    characters
}

/// The place of the first character of its kind; the length where there is none.
pub open spec fn place_of(text: Seq<char>, wanted: char) -> int
    decreases text.len(),
{
    if text.len() == 0 || text[0] == wanted {
        0
    } else {
        1 + place_of(text.subrange(1, text.len() as int), wanted)
    }
}

/// Finds the first character of its kind.
pub fn find(text: &[char], wanted: char) -> (place: usize)
    ensures
        place == place_of(text@, wanted),
        place <= text@.len(),
{
    let mut place: usize = 0;
    assert(text@.subrange(0, text@.len() as int) =~= text@);
    while place < text.len() && text[place] != wanted
        invariant
            place <= text@.len(),
            place_of(text@, wanted) == place + place_of(
                text@.subrange(place as int, text@.len() as int),
                wanted,
            ),
        decreases text@.len() - place,
    {
        assert(text@.subrange(place as int, text@.len() as int).subrange(
            1,
            text@.len() - place,
        ) =~= text@.subrange(place + 1, text@.len() as int));
        place = place + 1;
    }
    place
}

/// A found character is what was wanted, and the first of its kind.
pub proof fn places_are_the_first(text: Seq<char>, wanted: char)
    ensures
        0 <= place_of(text, wanted) <= text.len(),
        place_of(text, wanted) < text.len() ==> text[place_of(text, wanted)] == wanted,
        forall|i: int| 0 <= i < place_of(text, wanted) ==> text[i] != wanted,
    decreases text.len(),
{
    if text.len() > 0 && text[0] != wanted {
        let rest = text.subrange(1, text.len() as int);
        places_are_the_first(rest, wanted);
        assert forall|i: int| 0 <= i < place_of(text, wanted) implies text[i] != wanted by {
            if i > 0 {
                assert(rest[i - 1] == text[i]);
            }
        }
    }
}

/// Whether two texts are the same.
pub fn same(first: &[char], second: &[char]) -> (equal: bool)
    ensures
        equal == (first@ == second@),
{
    if first.len() != second.len() {
        return false;
    }
    let mut index: usize = 0;
    while index < first.len()
        invariant
            first@.len() == second@.len(),
            index <= first@.len(),
            forall|i: int| 0 <= i < index ==> first@[i] == second@[i],
        decreases first@.len() - index,
    {
        if first[index] != second[index] {
            return false;
        }
        index = index + 1;
    }
    assert(first@ =~= second@);
    true
}

/// Whether a text begins with another.
pub open spec fn begins_with(text: Seq<char>, beginning: Seq<char>) -> bool {
    beginning.len() <= text.len() && text.subrange(0, beginning.len() as int) == beginning
}

/// Copies a part of a text.
pub fn part(text: &[char], from: usize, to: usize) -> (part: Vec<char>)
    requires
        from <= to <= text@.len(),
    ensures
        part@ == text@.subrange(from as int, to as int),
{
    let mut part: Vec<char> = Vec::new();
    let mut index: usize = from;
    while index < to
        invariant
            from <= index <= to <= text@.len(),
            part@ == text@.subrange(from as int, index as int),
        decreases to - index,
    {
        part.push(text[index]);
        index = index + 1;
        assert(part@ =~= text@.subrange(from as int, index as int));
    }
    part
}

/// Whether a text begins with another.
pub fn starts_with(text: &[char], beginning: &str) -> (starts: bool)
    ensures
        starts == begins_with(text@, beginning@),
{
    let beginning: Vec<char> = characters(beginning);
    if beginning.len() > text.len() {
        return false;
    }
    same(&part(text, 0, beginning.len()), &beginning)
}

/// A character that stands for white space.
pub open spec fn is_white(character: char) -> bool {
    let code = character as u32;
    9 <= code <= 13 || code == 0x20 || code == 0x85 || code == 0xa0 || code == 0x1680
        || 0x2000 <= code <= 0x200a || code == 0x2028 || code == 0x2029 || code == 0x202f || code
        == 0x205f || code == 0x3000
}

/// Tells whether a character stands for white space.
pub fn white(character: char) -> (white: bool)
    ensures
        white == is_white(character),
{
    let code: u32 = character as u32;
    9 <= code && code <= 13 || code == 0x20 || code == 0x85 || code == 0xa0 || code == 0x1680
        || 0x2000 <= code && code <= 0x200a || code == 0x2028 || code == 0x2029 || code == 0x202f
        || code == 0x205f || code == 0x3000
}

/// A text without the white space around it.
pub open spec fn trimmed(text: Seq<char>) -> Seq<char>
    decreases text.len(),
{
    if text.len() == 0 {
        text
    } else if is_white(text[0]) {
        trimmed(text.subrange(1, text.len() as int))
    } else if is_white(text.last()) {
        trimmed(text.drop_last())
    } else {
        text
    }
}

/// Takes away the white space around a text.
pub fn trim(text: &[char]) -> (clear: Vec<char>)
    ensures
        clear@ == trimmed(text@),
{
    let mut from: usize = 0;
    let mut to: usize = text.len();
    assert(text@.subrange(0, text@.len() as int) =~= text@);
    while from < to && white(text[from])
        invariant
            from <= to == text@.len(),
            trimmed(text@) == trimmed(text@.subrange(from as int, to as int)),
        decreases to - from,
    {
        let ghost rest = text@.subrange(from as int, to as int);
        assert(rest.subrange(1, rest.len() as int) =~= text@.subrange(from + 1, to as int));
        from = from + 1;
    }
    while from < to && white(text[to - 1])
        invariant
            from <= to <= text@.len(),
            from < to ==> !is_white(text@[from as int]),
            trimmed(text@) == trimmed(text@.subrange(from as int, to as int)),
        decreases to - from,
    {
        let ghost rest = text@.subrange(from as int, to as int);
        assert(rest.drop_last() =~= text@.subrange(from as int, to - 1));
        to = to - 1;
    }
    part(text, from, to)
}

/// The words of a text: what white space divides.
pub open spec fn words(text: Seq<char>) -> Seq<Seq<char>>
    decreases text.len(),
{
    if text.len() == 0 {
        Seq::empty()
    } else if is_white(text.last()) {
        words(text.drop_last())
    } else {
        let before = words(text.drop_last());
        if text.len() >= 2 && !is_white(text[text.len() - 2]) {
            before.drop_last().push(before.last().push(text.last()))
        } else {
            before.push(seq![text.last()])
        }
    }
}

/// The contents of words.
pub open spec fn word_models(words: Seq<Vec<char>>) -> Seq<Seq<char>> {
    Seq::new(words.len(), |i: int| words[i]@)
}

/// A text that ends in a word has words.
proof fn texts_end_in_words(text: Seq<char>)
    requires
        text.len() > 0,
        !is_white(text.last()),
    ensures
        words(text).len() > 0,
    decreases text.len(),
{
    if text.len() >= 2 && !is_white(text[text.len() - 2]) {
        texts_end_in_words(text.drop_last());
    }
}

/// Divides a text into its words.
pub fn split_words(text: &[char]) -> (found: Vec<Vec<char>>)
    ensures
        word_models(found@) == words(text@),
{
    let mut found: Vec<Vec<char>> = Vec::new();
    let mut index: usize = 0;
    assert(word_models(found@) =~= words(text@.subrange(0, 0)));
    while index < text.len()
        invariant
            index <= text@.len(),
            word_models(found@) == words(text@.subrange(0, index as int)),
        decreases text@.len() - index,
    {
        let ghost seen = text@.subrange(0, index as int);
        let ghost longer = text@.subrange(0, index + 1);
        assert(longer.drop_last() =~= seen);
        let next: char = text[index];
        if !white(next) {
            let ghost before = found@;
            if index > 0 && !white(text[index - 1]) {
                proof {
                    texts_end_in_words(seen);
                }
                if let Some(word) = found.pop() {
                    let mut word = word;
                    word.push(next);
                    found.push(word);
                    assert(word_models(found@) =~= word_models(before).drop_last().push(
                        word_models(before).last().push(next),
                    ));
                }
            } else {
                let mut word: Vec<char> = Vec::new();
                word.push(next);
                assert(word@ =~= seq![next]);
                found.push(word);
                assert(word_models(found@) =~= word_models(before).push(seq![next]));
            }
        }
        index = index + 1;
    }
    assert(text@.subrange(0, text@.len() as int) =~= text@);
    found
}

/// A character of a number, in a base up to sixteen; nothing for any other.
pub open spec fn digit_of(character: char, base: nat) -> Option<nat> {
    let code = character as u32;
    let value = if 0x30 <= code <= 0x39 {
        (code - 0x30) as nat
    } else if 0x41 <= code <= 0x46 {
        (code - 0x41 + 10) as nat
    } else if 0x61 <= code <= 0x66 {
        (code - 0x61 + 10) as nat
    } else {
        16
    };
    if value < base {
        Some(value)
    } else {
        None
    }
}

/// The number that digits stand for.
pub open spec fn digits_value(text: Seq<char>, base: nat) -> Option<nat>
    decreases text.len(),
{
    if text.len() == 0 {
        Some(0)
    } else {
        match (digits_value(text.drop_last(), base), digit_of(text.last(), base)) {
            (Some(before), Some(digit)) => Some(before * base + digit),
            _ => None,
        }
    }
}

/// The number that a text stands for, up to a limit: digits, with a plus sign
/// before them or not.
pub open spec fn number_of(text: Seq<char>, base: nat, limit: nat) -> Option<nat> {
    let digits = if text.len() > 0 && text[0] == '+' {
        text.subrange(1, text.len() as int)
    } else {
        text
    };
    if digits.len() == 0 {
        None
    } else {
        match digits_value(digits, base) {
            Some(value) => if value <= limit {
                Some(value)
            } else {
                None
            },
            None => None,
        }
    }
}

/// Reads a digit.
fn read_digit(character: char, base: u8) -> (digit: Option<u8>)
    requires
        1 <= base <= 16,
    ensures
        match digit {
            Some(digit) => digit_of(character, base as nat) == Some(digit as nat) && digit < base,
            None => digit_of(character, base as nat) is None,
        },
{
    let code: u32 = character as u32;
    let value: u8 = if 0x30 <= code && code <= 0x39 {
        (code - 0x30) as u8
    } else if 0x41 <= code && code <= 0x46 {
        (code - 0x41 + 10) as u8
    } else if 0x61 <= code && code <= 0x66 {
        (code - 0x61 + 10) as u8
    } else {
        16
    };
    if value < base {
        Some(value)
    } else {
        None
    }
}

/// The start of a text that stands for no number, or for one above a limit, goes
/// on to one that does neither stand for a smaller one.
proof fn digits_only_grow(text: Seq<char>, count: int, base: nat, limit: nat)
    requires
        0 <= count <= text.len(),
        base >= 1,
    ensures
        digits_value(text.subrange(0, count), base) is None ==> digits_value(text, base) is None,
        digits_value(text.subrange(0, count), base) matches Some(part) && part > limit ==> (
        digits_value(text, base) matches Some(value) ==> value > limit),
    decreases text.len() - count,
{
    if count < text.len() {
        digits_only_grow(text, count + 1, base, limit);
        let longer = text.subrange(0, count + 1);
        assert(longer.drop_last() =~= text.subrange(0, count));
        if let Some(part) = digits_value(text.subrange(0, count), base) {
            if let Some(digit) = digit_of(longer.last(), base) {
                assert(part * base + digit >= part) by (nonlinear_arith)
                    requires
                        base >= 1,
                        part >= 0,
                        digit >= 0,
                ;
            }
        }
    } else {
        assert(text.subrange(0, count) =~= text);
    }
}

/// Reads a number that a machine word holds.
pub fn read_number(text: &[char], base: u8, limit: usize) -> (number: Option<usize>)
    requires
        2 <= base <= 16,
    ensures
        match number {
            Some(number) => number_of(text@, base as nat, limit as nat) == Some(number as nat)
                && number <= limit,
            None => number_of(text@, base as nat, limit as nat) is None,
        },
{
    let start: usize = if text.len() > 0 && text[0] == '+' {
        1
    } else {
        0
    };
    if start == text.len() {
        return None;
    }
    let ghost digits = text@.subrange(start as int, text@.len() as int);
    assert(start == 0 ==> digits =~= text@);
    let mut value: usize = 0;
    let mut index: usize = start;
    assert(digits.subrange(0, 0) =~= Seq::<char>::empty());
    while index < text.len()
        invariant
            2 <= base <= 16,
            start <= index <= text@.len(),
            digits == text@.subrange(start as int, text@.len() as int),
            digits.len() == text@.len() - start,
            digits.len() > 0,
            number_of(text@, base as nat, limit as nat) == (match digits_value(
                digits,
                base as nat,
            ) {
                Some(value) => if value <= limit {
                    Some(value)
                } else {
                    None
                },
                None => None,
            }),
            value <= limit,
            digits_value(digits.subrange(0, index - start), base as nat) == Some(value as nat),
        decreases text@.len() - index,
    {
        let ghost longer = digits.subrange(0, index + 1 - start);
        assert(longer.drop_last() =~= digits.subrange(0, index - start));
        assert(longer.last() == text@[index as int]);
        proof {
            digits_only_grow(digits, index + 1 - start, base as nat, limit as nat);
        }
        let digit: u8 = match read_digit(text[index], base) {
            Some(digit) => digit,
            None => {
                return None;
            },
        };
        let scaled: Option<usize> = value.checked_mul(base as usize);
        match scaled {
            Some(scaled) => match scaled.checked_add(digit as usize) {
                Some(next) => {
                    if next > limit {
                        return None;
                    }
                    value = next;
                },
                None => {
                    return None;
                },
            },
            None => {
                return None;
            },
        }
        index = index + 1;
    }
    assert(digits.subrange(0, digits.len() as int) =~= digits);
    Some(value)
}

/// The digits of a number, as a text.
pub open spec fn numeral(value: nat) -> Seq<char>
    decreases value,
{
    if value < 10 {
        seq![digit_character(value)]
    } else {
        numeral(value / 10).push(digit_character(value % 10))
    }
}

/// The character of a digit.
pub open spec fn digit_character(digit: nat) -> char {
    if digit == 0 {
        '0'
    } else if digit == 1 {
        '1'
    } else if digit == 2 {
        '2'
    } else if digit == 3 {
        '3'
    } else if digit == 4 {
        '4'
    } else if digit == 5 {
        '5'
    } else if digit == 6 {
        '6'
    } else if digit == 7 {
        '7'
    } else if digit == 8 {
        '8'
    } else {
        '9'
    }
}

/// Writes the digits of a number.
pub fn append_number(text: &mut String, value: usize)
    ensures
        final(text)@ == old(text)@ + numeral(value as nat),
    decreases value,
{
    if value >= 10 {
        append_number(text, value / 10);
    }
    let digit: &str = match value % 10 {
        0 => "0",
        1 => "1",
        2 => "2",
        3 => "3",
        4 => "4",
        5 => "5",
        6 => "6",
        7 => "7",
        8 => "8",
        _ => "9",
    };
    proof {
        reveal_strlit("0");
        reveal_strlit("1");
        reveal_strlit("2");
        reveal_strlit("3");
        reveal_strlit("4");
        reveal_strlit("5");
        reveal_strlit("6");
        reveal_strlit("7");
        reveal_strlit("8");
        reveal_strlit("9");
    }
    text.append(digit);
    assert(digit@ =~= seq![digit_character((value % 10) as nat)]);
    assert(text@ =~= old(text)@ + numeral(value as nat));
}

} // verus!
