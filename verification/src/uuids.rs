//! Uuids as text: how they are written, and in which spellings they are read.
use vstd::arithmetic::div_mod::{lemma_mod_breakdown, lemma_small_mod};
use vstd::arithmetic::power::{lemma_pow0, lemma_pow_adds, lemma_pow_positive, pow};
use vstd::prelude::*;

verus! {

/// The lower-case hexadecimal digit for `d`.
pub open spec fn hex_digit(d: int) -> char
    recommends
        0 <= d < 16,
{
    if d < 10 {
        ('0' as int + d) as char
    } else {
        ('a' as int + (d - 10)) as char
    }
}

/// The hexadecimal digit of `id` that has `k` digits behind it.
pub open spec fn nibble(id: u128, k: int) -> int {
    id as int / pow(16, k as nat) % 16
}

/// How many of the hyphens of a uuid's text stand before position `i`.
pub open spec fn hyphens_before(i: int) -> int {
    if i > 23 {
        4
    } else if i > 18 {
        3
    } else if i > 13 {
        2
    } else if i > 8 {
        1
    } else {
        0
    }
}

/// A hyphen stands at position `i` of a uuid's text.
pub open spec fn hyphen_at(i: int) -> bool {
    i == 8 || i == 13 || i == 18 || i == 23
}

/// A uuid as text: its 32 hexadecimal digits, highest first, in groups of 8, 4, 4, 4 and 12.
pub open spec fn uuid_text(id: u128) -> Seq<char> {
    Seq::new(
        36,
        |i: int|
            if hyphen_at(i) {
                '-'
            } else {
                hex_digit(nibble(id, 31 - (i - hyphens_before(i))))
            },
    )
}

/// A uuid as its 32 hexadecimal digits alone, highest first.
pub open spec fn uuid_digits(id: u128) -> Seq<char> {
    Seq::new(32, |i: int| hex_digit(nibble(id, 31 - i)))
}

/// A character in lower case, where it is one of A to Z.
pub open spec fn lower(c: char) -> char {
    if 'A' <= c <= 'Z' {
        (c as int + 32) as char
    } else {
        c
    }
}

/// A text in lower case, as far as it is made of A to Z.
pub open spec fn lowered(text: Seq<char>) -> Seq<char> {
    text.map_values(|c: char| lower(c))
}

/// `text` spells `id`: in either case, its text, that text in braces or as a URN, or its digits
/// alone.
pub open spec fn spells(text: Seq<char>, id: u128) -> bool {
    ||| lowered(text) == uuid_text(id)
    ||| lowered(text) == uuid_digits(id)
    ||| lowered(text) == seq!['{'] + uuid_text(id) + seq!['}']
    ||| lowered(text) == seq!['u', 'r', 'n', ':', 'u', 'u', 'i', 'd', ':'] + uuid_text(id)
}

/// The uuid that a text spells, if it spells one.
pub open spec fn uuid_reading(text: Seq<char>) -> Option<u128> {
    if exists|id: u128| spells(text, id) {
        Some(choose|id: u128| spells(text, id))
    } else {
        None
    }
}

/// A uuid's text spells that uuid and no other, and so does each of its other spellings.
pub proof fn law_spellings_are_unambiguous(text: Seq<char>, id: u128)
    requires
        spells(text, id),
    ensures
        uuid_reading(text) == Some(id),
        forall|other: u128| spells(text, other) ==> other == id,
{
    assert forall|other: u128| spells(text, other) implies other == id by {
        lemma_one_spelling(text, id, other);
    }
}

/// What is written of a uuid reads as that uuid.
pub proof fn law_text_spells_its_uuid(id: u128)
    ensures
        spells(uuid_text(id), id),
        uuid_reading(uuid_text(id)) == Some(id),
{
    let text = uuid_text(id);
    assert forall|i: int| 0 <= i < 36 implies lower(#[trigger] text[i]) == text[i] by {
        lemma_digit_is_plain(nibble(id, 31 - (i - hyphens_before(i))));
    }
    assert(lowered(text) =~= text);
    law_spellings_are_unambiguous(text, id);
}

/// What spells a uuid has one of four lengths, and nothing in it but digits, the letters of
/// those spellings, hyphens, braces and colons; no dot, in particular.
pub proof fn law_spellings_have_no_dots(text: Seq<char>, id: u128)
    requires
        spells(text, id),
    ensures
        text.len() == 32 || text.len() == 36 || text.len() == 38 || text.len() == 45,
        forall|i: int| 0 <= i < text.len() ==> #[trigger] text[i] != '.',
{
    assert(lowered(text).len() == text.len());
    assert forall|i: int| 0 <= i < text.len() implies #[trigger] text[i] != '.' by {
        assert(lowered(text)[i] == lower(text[i]));
        assert(lower('.') == '.');
        assert forall|j: int| 0 <= j < 36 implies #[trigger] uuid_text(id)[j] != '.' by {
            lemma_digit_is_plain(nibble(id, 31 - (j - hyphens_before(j))));
        }
        assert forall|j: int| 0 <= j < 32 implies #[trigger] uuid_digits(id)[j] != '.' by {
            lemma_digit_is_plain(nibble(id, 31 - j));
        }
        if lowered(text) == seq!['{'] + uuid_text(id) + seq!['}'] {
            if 1 <= i < 37 {
                assert(lowered(text)[i] == uuid_text(id)[i - 1]);
            }
        } else if lowered(text) == seq!['u', 'r', 'n', ':', 'u', 'u', 'i', 'd', ':'] + uuid_text(
            id,
        ) {
            if 9 <= i {
                assert(lowered(text)[i] == uuid_text(id)[i - 9]);
            }
        }
    }
}

/// A digit is no capital and no dot, and tells its value.
proof fn lemma_digit_is_plain(d: int)
    requires
        0 <= d < 16,
    ensures
        lower(hex_digit(d)) == hex_digit(d),
        hex_digit(d) != '.',
        forall|e: int| 0 <= e < 16 && hex_digit(e) == hex_digit(d) ==> e == d,
{
}

/// No text spells two uuids.
proof fn lemma_one_spelling(text: Seq<char>, a: u128, b: u128)
    requires
        spells(text, a),
        spells(text, b),
    ensures
        a == b,
{
    let t = lowered(text);
    if t.len() == 32 {
        assert(uuid_digits(a) == uuid_digits(b));
    } else if t.len() == 36 {
        assert(uuid_text(a) == uuid_text(b));
        lemma_text_gives_digits(a, b);
    } else if t.len() == 38 {
        assert(t.subrange(1, 37) =~= uuid_text(a));
        assert(t.subrange(1, 37) =~= uuid_text(b));
        lemma_text_gives_digits(a, b);
    } else {
        assert(t.subrange(9, 45) =~= uuid_text(a));
        assert(t.subrange(9, 45) =~= uuid_text(b));
        lemma_text_gives_digits(a, b);
    }
    lemma_digits_give_the_uuid(a, b);
}

/// Uuids with the same text have the same digits.
proof fn lemma_text_gives_digits(a: u128, b: u128)
    requires
        uuid_text(a) == uuid_text(b),
    ensures
        uuid_digits(a) == uuid_digits(b),
{
    assert forall|k: int| 0 <= k < 32 implies #[trigger] uuid_digits(a)[k] == uuid_digits(b)[k] by {
        let i = if k < 8 {
            k
        } else if k < 12 {
            k + 1
        } else if k < 16 {
            k + 2
        } else if k < 20 {
            k + 3
        } else {
            k + 4
        };
        assert(i - hyphens_before(i) == k && !hyphen_at(i));
        assert(31 - (i - hyphens_before(i)) == 31 - k);
        assert(uuid_text(a)[i] == hex_digit(nibble(a, 31 - k)));
        assert(uuid_text(b)[i] == hex_digit(nibble(b, 31 - k)));
    }
    assert(uuid_digits(a) =~= uuid_digits(b));
}

/// Uuids with the same digits are the same.
proof fn lemma_digits_give_the_uuid(a: u128, b: u128)
    requires
        uuid_digits(a) == uuid_digits(b),
    ensures
        a == b,
{
    lemma_low_digits_agree(a, b, 32);
    lemma_pow_adds(16, 16, 16);
    assert(pow(16, 16) == 0x1_0000_0000_0000_0000) by {
        reveal_with_fuel(pow, 17);
    }
    assert(pow(16, 32) == 0x1_0000_0000_0000_0000int * 0x1_0000_0000_0000_0000int);
    lemma_small_mod(a as nat, pow(16, 32) as nat);
    lemma_small_mod(b as nat, pow(16, 32) as nat);
}

/// The last `n` digits give the remainder.
proof fn lemma_low_digits_agree(a: u128, b: u128, n: nat)
    requires
        uuid_digits(a) == uuid_digits(b),
        n <= 32,
    ensures
        a as int % pow(16, n) == b as int % pow(16, n),
    decreases n,
{
    if n == 0 {
        lemma_pow0(16);
    } else {
        let k = (n - 1) as nat;
        lemma_low_digits_agree(a, b, k);
        lemma_pow_positive(16, k);
        assert(uuid_digits(a)[31 - k] == hex_digit(nibble(a, k as int)));
        assert(uuid_digits(b)[31 - k] == hex_digit(nibble(b, k as int)));
        assert(nibble(a, k as int) == nibble(b, k as int)) by {
            lemma_digit_is_plain(nibble(a, k as int));
            lemma_digit_is_plain(nibble(b, k as int));
        }
        assert(pow(16, n) == pow(16, k) * 16) by {
            reveal(pow);
        }
        lemma_mod_breakdown(a as int, pow(16, k), 16);
        lemma_mod_breakdown(b as int, pow(16, k), 16);
    }
}

} // verus!
