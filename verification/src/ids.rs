use vstd::prelude::*;

verus! {

/// The lower-case hexadecimal digit for a value below sixteen.
pub open spec fn hex_digit(n: u128) -> char {
    if n == 0 { '0' } else if n == 1 { '1' } else if n == 2 { '2' } else if n == 3 { '3' }
    else if n == 4 { '4' } else if n == 5 { '5' } else if n == 6 { '6' } else if n == 7 { '7' }
    else if n == 8 { '8' } else if n == 9 { '9' } else if n == 10 { 'a' } else if n == 11 { 'b' }
    else if n == 12 { 'c' } else if n == 13 { 'd' } else if n == 14 { 'e' } else { 'f' }
}

/// The `k`-th hexadecimal digit of an id, counted from the most significant one
/// (`0 <= k < 32`).
pub open spec fn nibble(id: u128, k: int) -> u128 {
    (id >> ((124 - 4 * k) as u128)) & 15u128
}

/// Whether character `i` of an id's text is one of its four hyphens.
pub open spec fn is_hyphen_position(i: int) -> bool {
    i == 8 || i == 13 || i == 18 || i == 23
}

/// Which hexadecimal digit of the id character `i` of its text shows.
pub open spec fn digit_at(i: int) -> int {
    if i < 8 {
        i
    } else if i < 13 {
        i - 1
    } else if i < 18 {
        i - 2
    } else if i < 23 {
        i - 3
    } else {
        i - 4
    }
}

/// The text of an id: its 32 lower-case hexadecimal digits, most significant
/// first, in groups of 8, 4, 4, 4 and 12 joined by hyphens.
pub open spec fn hyphenated(id: u128) -> Seq<char> {
    Seq::new(
        36,
        |i: int|
            if is_hyphen_position(i) {
                '-'
            } else {
                hex_digit(nibble(id, digit_at(i)))
            },
    )
}

/// Whether an id carries the version (4) and variant (RFC 4122) marks of a
/// randomly generated UUID.
pub open spec fn is_random_uuid(id: u128) -> bool {
    &&& (id >> 76u128) & 15u128 == 4u128
    &&& (id >> 62u128) & 3u128 == 2u128
}

/// The id that `uuid::Uuid::parse_str` reads from a text, if it reads one.
pub uninterp spec fn parsed_uuid(text: Seq<char>) -> Option<u128>;

/// The id that a text names: the id whose text it is, or else whatever the
/// UUID parser reads from it.
pub open spec fn id_of_text(text: Seq<char>) -> Option<u128> {
    if exists|id: u128| #[trigger] hyphenated(id) == text {
        Some(choose|id: u128| #[trigger] hyphenated(id) == text)
    } else {
        parsed_uuid(text)
    }
}

/// A fresh random id, from `uuid::Uuid::new_v4`. The crate sets the version
/// and variant bits of the random value; nothing else of it is known.
#[verifier::external_body]
pub(crate) fn new_task_id() -> (id: u128)
    ensures
        is_random_uuid(id),
{
    uuid::Uuid::new_v4().as_u128()
}

/// The text of an id, from the `Display` impl of `uuid::Uuid` (lower-case,
/// hyphenated, big-endian as `Uuid::from_u128` lays the value out).
#[verifier::external_body]
pub(crate) fn id_text(id: u128) -> (text: String)
    ensures
        text@ == hyphenated(id),
{
    uuid::Uuid::from_u128(id).to_string()
}

/// Reads an id with `uuid::Uuid::parse_str`. Which texts it accepts besides
/// the hyphenated form (the simple, braced and URN forms, upper-case digits)
/// is left to the name `parsed_uuid`; that the hyphenated text of an id reads
/// back as that id is stated.
#[verifier::external_body]
pub(crate) fn parse_id(text: &str) -> (id: Option<u128>)
    ensures
        id == parsed_uuid(text@),
        forall|x: u128| #[trigger] hyphenated(x) == text@ ==> id == Some(x),
{
    match uuid::Uuid::parse_str(text) {
        Ok(parsed) => Some(parsed.as_u128()),
        Err(_) => None,
    }
}

proof fn lemma_nibble_below_sixteen(id: u128, k: int)
    ensures
        nibble(id, k) < 16,
{
    let s = (124 - 4 * k) as u128;
    assert((id >> s) & 15u128 < 16) by (bit_vector);
}

proof fn lemma_hex_digit_injective(a: u128, b: u128)
    requires
        a < 16,
        b < 16,
        hex_digit(a) == hex_digit(b),
    ensures
        a == b,
{
}

/// Position in the text of an id of its `k`-th hexadecimal digit.
spec fn position_of_digit(k: int) -> int {
    if k < 8 {
        k
    } else if k < 12 {
        k + 1
    } else if k < 16 {
        k + 2
    } else if k < 20 {
        k + 3
    } else {
        k + 4
    }
}

/// Distinct ids have distinct texts.
pub proof fn lemma_hyphenated_injective(x: u128, y: u128)
    requires
        hyphenated(x) == hyphenated(y),
    ensures
        x == y,
{
    assert forall|k: int| 0 <= k < 32 implies #[trigger] nibble(x, k) == nibble(y, k) by {
        let i = position_of_digit(k);
        assert(0 <= i < 36 && !is_hyphen_position(i) && digit_at(i) == k);
        assert(hyphenated(x)[i] == hyphenated(y)[i]);
        assert(hyphenated(x)[i] == hex_digit(nibble(x, digit_at(i))));
        assert(hyphenated(y)[i] == hex_digit(nibble(y, digit_at(i))));
        lemma_nibble_below_sixteen(x, k);
        lemma_nibble_below_sixteen(y, k);
        lemma_hex_digit_injective(nibble(x, k), nibble(y, k));
    }
    lemma_nibbles_determine(x, y);
}

proof fn lemma_nibbles_determine(x: u128, y: u128)
    requires
        forall|k: int| 0 <= k < 32 ==> #[trigger] nibble(x, k) == nibble(y, k),
    ensures
        x == y,
{
    assert(nibble(x, 0) == nibble(y, 0));
    assert(nibble(x, 1) == nibble(y, 1));
    assert(nibble(x, 2) == nibble(y, 2));
    assert(nibble(x, 3) == nibble(y, 3));
    assert(nibble(x, 4) == nibble(y, 4));
    assert(nibble(x, 5) == nibble(y, 5));
    assert(nibble(x, 6) == nibble(y, 6));
    assert(nibble(x, 7) == nibble(y, 7));
    assert(nibble(x, 8) == nibble(y, 8));
    assert(nibble(x, 9) == nibble(y, 9));
    assert(nibble(x, 10) == nibble(y, 10));
    assert(nibble(x, 11) == nibble(y, 11));
    assert(nibble(x, 12) == nibble(y, 12));
    assert(nibble(x, 13) == nibble(y, 13));
    assert(nibble(x, 14) == nibble(y, 14));
    assert(nibble(x, 15) == nibble(y, 15));
    assert(nibble(x, 16) == nibble(y, 16));
    assert(nibble(x, 17) == nibble(y, 17));
    assert(nibble(x, 18) == nibble(y, 18));
    assert(nibble(x, 19) == nibble(y, 19));
    assert(nibble(x, 20) == nibble(y, 20));
    assert(nibble(x, 21) == nibble(y, 21));
    assert(nibble(x, 22) == nibble(y, 22));
    assert(nibble(x, 23) == nibble(y, 23));
    assert(nibble(x, 24) == nibble(y, 24));
    assert(nibble(x, 25) == nibble(y, 25));
    assert(nibble(x, 26) == nibble(y, 26));
    assert(nibble(x, 27) == nibble(y, 27));
    assert(nibble(x, 28) == nibble(y, 28));
    assert(nibble(x, 29) == nibble(y, 29));
    assert(nibble(x, 30) == nibble(y, 30));
    assert(nibble(x, 31) == nibble(y, 31));
    assert(x == y) by (bit_vector)
        requires
            (x >> 124u128) & 15u128 == (y >> 124u128) & 15u128,
            (x >> 120u128) & 15u128 == (y >> 120u128) & 15u128,
            (x >> 116u128) & 15u128 == (y >> 116u128) & 15u128,
            (x >> 112u128) & 15u128 == (y >> 112u128) & 15u128,
            (x >> 108u128) & 15u128 == (y >> 108u128) & 15u128,
            (x >> 104u128) & 15u128 == (y >> 104u128) & 15u128,
            (x >> 100u128) & 15u128 == (y >> 100u128) & 15u128,
            (x >> 96u128) & 15u128 == (y >> 96u128) & 15u128,
            (x >> 92u128) & 15u128 == (y >> 92u128) & 15u128,
            (x >> 88u128) & 15u128 == (y >> 88u128) & 15u128,
            (x >> 84u128) & 15u128 == (y >> 84u128) & 15u128,
            (x >> 80u128) & 15u128 == (y >> 80u128) & 15u128,
            (x >> 76u128) & 15u128 == (y >> 76u128) & 15u128,
            (x >> 72u128) & 15u128 == (y >> 72u128) & 15u128,
            (x >> 68u128) & 15u128 == (y >> 68u128) & 15u128,
            (x >> 64u128) & 15u128 == (y >> 64u128) & 15u128,
            (x >> 60u128) & 15u128 == (y >> 60u128) & 15u128,
            (x >> 56u128) & 15u128 == (y >> 56u128) & 15u128,
            (x >> 52u128) & 15u128 == (y >> 52u128) & 15u128,
            (x >> 48u128) & 15u128 == (y >> 48u128) & 15u128,
            (x >> 44u128) & 15u128 == (y >> 44u128) & 15u128,
            (x >> 40u128) & 15u128 == (y >> 40u128) & 15u128,
            (x >> 36u128) & 15u128 == (y >> 36u128) & 15u128,
            (x >> 32u128) & 15u128 == (y >> 32u128) & 15u128,
            (x >> 28u128) & 15u128 == (y >> 28u128) & 15u128,
            (x >> 24u128) & 15u128 == (y >> 24u128) & 15u128,
            (x >> 20u128) & 15u128 == (y >> 20u128) & 15u128,
            (x >> 16u128) & 15u128 == (y >> 16u128) & 15u128,
            (x >> 12u128) & 15u128 == (y >> 12u128) & 15u128,
            (x >> 8u128) & 15u128 == (y >> 8u128) & 15u128,
            (x >> 4u128) & 15u128 == (y >> 4u128) & 15u128,
            (x >> 0u128) & 15u128 == (y >> 0u128) & 15u128,
    ;
}

/// The text of an id names that id.
pub proof fn lemma_text_names_id(id: u128)
    ensures
        id_of_text(hyphenated(id)) == Some(id),
{
    let chosen = choose|x: u128| #[trigger] hyphenated(x) == hyphenated(id);
    lemma_hyphenated_injective(chosen, id);
}

} // verus!
