//! What the text helpers give, said of the characters themselves.

use vstd::prelude::*;

use crate::text::{
    ascii_lower, decimal, digit_char, display_char, display_text, fnv1a, has_text, hex_digits,
    is_blank, is_space, listed, same_identifier, separated, text_at, trim_end, trim_start, trim_text,
};

verus! {

/// Two characters are one letter in two cases.
pub open spec fn letter_in_two_cases(a: char, b: char) -> bool {
    ||| 'A' <= a <= 'Z' && b as u32 == a as u32 + 32
    ||| 'A' <= b <= 'Z' && a as u32 == b as u32 + 32
}

/// Two names are the same where they agree character by character but for the case of the
/// letters from a to z.
pub proof fn identifiers_differ_in_case_alone(a: Seq<char>, b: Seq<char>)
    ensures
        same_identifier(a, b) <==> a.len() == b.len() && forall|i: int|
            0 <= i < a.len() ==> (#[trigger] a[i]) == b[i] || letter_in_two_cases(a[i], b[i]),
{
    if same_identifier(a, b) {
        assert forall|i: int| 0 <= i < a.len() implies (#[trigger] a[i]) == b[i]
            || letter_in_two_cases(a[i], b[i]) by {
            assert(ascii_lower(a[i]) == ascii_lower(b[i]));
        }
    }
    if a.len() == b.len() && forall|i: int|
        0 <= i < a.len() ==> (#[trigger] a[i]) == b[i] || letter_in_two_cases(a[i], b[i]) {
        assert forall|i: int| 0 <= i < a.len() implies ascii_lower(#[trigger] a[i]) == ascii_lower(
            b[i],
        ) by {}
    }
}

/// A capital letter from A to Z is lowered by its distance to the small one; every other character
/// stays.
pub proof fn capitals_alone_are_lowered(c: char)
    ensures
        'A' <= c && c <= 'Z' ==> ascii_lower(c) as u32 == c as u32 + ('a' as u32 - 'A' as u32),
        !('A' <= c && c <= 'Z') ==> ascii_lower(c) == c,
{
}

/// Every name is the same as itself, and the same either way round.
pub proof fn same_identifier_is_mutual(a: Seq<char>, b: Seq<char>)
    ensures
        same_identifier(a, a),
        same_identifier(a, b) == same_identifier(b, a),
{
    if same_identifier(a, b) {
        assert forall|i: int| 0 <= i < b.len() implies ascii_lower(#[trigger] b[i]) == ascii_lower(
            a[i],
        ) by {
            assert(ascii_lower(a[i]) == ascii_lower(b[i]));
        }
    }
    if same_identifier(b, a) {
        assert forall|i: int| 0 <= i < a.len() implies ascii_lower(#[trigger] a[i]) == ascii_lower(
            b[i],
        ) by {
            assert(ascii_lower(b[i]) == ascii_lower(a[i]));
        }
    }
}

proof fn trim_start_splits(s: Seq<char>) -> (front: Seq<char>)
    ensures
        is_blank(front),
        s == front + trim_start(s),
        trim_start(s).len() > 0 ==> !is_space(trim_start(s).first()),
    decreases s.len(),
{
    if s.len() > 0 && is_space(s.first()) {
        let rest = trim_start_splits(s.drop_first());
        let front = seq![s.first()] + rest;
        assert forall|i: int| 0 <= i < front.len() implies is_space(#[trigger] front[i]) by {
            if i > 0 {
                assert(front[i] == rest[i - 1]);
            }
        }
        assert(s =~= seq![s.first()] + s.drop_first());
        assert(seq![s.first()] + (rest + trim_start(s)) =~= front + trim_start(s));
        front
    } else {
        assert(s =~= Seq::<char>::empty() + s);
        Seq::empty()
    }
}

proof fn trim_end_splits(s: Seq<char>) -> (back: Seq<char>)
    ensures
        is_blank(back),
        s == trim_end(s) + back,
        trim_end(s).len() > 0 ==> !is_space(trim_end(s).last()),
    decreases s.len(),
{
    if s.len() > 0 && is_space(s.last()) {
        let rest = trim_end_splits(s.drop_last());
        let back = rest.push(s.last());
        assert forall|i: int| 0 <= i < back.len() implies is_space(#[trigger] back[i]) by {
            if i < rest.len() {
                assert(back[i] == rest[i]);
            }
        }
        assert(s =~= s.drop_last().push(s.last()));
        assert((trim_end(s) + rest).push(s.last()) =~= trim_end(s) + back);
        back
    } else {
        assert(s =~= s + Seq::<char>::empty());
        Seq::empty()
    }
}

/// Trimming takes white space away from both ends and nothing else: the text is what was trimmed
/// with white space before and behind, and what was trimmed neither starts nor ends with any.
pub proof fn trimming_takes_the_outer_space(s: Seq<char>)
    ensures
        exists|front: Seq<char>, back: Seq<char>|
            #![trigger is_blank(front), is_blank(back)]
            is_blank(front) && is_blank(back) && s == front + trim_text(s) + back,
        trim_text(s).len() > 0 ==> !is_space(trim_text(s).first()) && !is_space(trim_text(s).last()),
{
    let front = trim_start_splits(s);
    let back = trim_end_splits(trim_start(s));
    assert(s =~= front + trim_text(s) + back);
    assert(is_blank(front) && is_blank(back));
    let kept = trim_text(s);
    if kept.len() > 0 {
        assert(trim_start(s)[0] == kept[0]);
    }
}

/// White space is what Unicode gives that property.
pub proof fn white_space_is_listed(c: char)
    ensures
        is_space(c) <==> c == '\t' || c == '\n' || c == '\u{b}' || c == '\u{c}' || c == '\r' || c
            == ' ' || c == '\u{85}' || c == '\u{a0}' || c == '\u{1680}' || ('\u{2000}' <= c && c
            <= '\u{200a}') || c == '\u{2028}' || c == '\u{2029}' || c == '\u{202f}' || c
            == '\u{205f}' || c == '\u{3000}',
{
}

/// A text is found in another exactly where the other is that text with something, or nothing,
/// before and behind.
pub proof fn text_is_found_where_it_stands(hay: Seq<char>, needle: Seq<char>)
    ensures
        has_text(hay, needle) <==> exists|front: Seq<char>, back: Seq<char>|
            #[trigger] (front + needle + back) == hay,
{
    if has_text(hay, needle) {
        let i = choose|i: int| #[trigger] text_at(hay, needle, i);
        let front = hay.take(i);
        let back = hay.skip(i + needle.len());
        assert(front + needle + back =~= hay);
    }
    if exists|front: Seq<char>, back: Seq<char>| #[trigger] (front + needle + back) == hay {
        let (front, back) = choose|front: Seq<char>, back: Seq<char>|
            #[trigger] (front + needle + back) == hay;
        assert(text_at(hay, needle, front.len() as int));
    }
}

/// A control character, as Unicode has it.
pub open spec fn is_control(c: char) -> bool {
    c <= '\u{1f}' || ('\u{7f}' <= c && c <= '\u{9f}')
}

proof fn control_is_shown_as_space(c: char)
    ensures
        is_control(c) ==> display_char(c) == ' ',
        !is_control(c) ==> display_char(c) == c,
{
}

/// Shown text has as many characters as the text; control characters are shown as spaces and
/// every other character as itself.
pub proof fn shown_text_has_no_control_characters(s: Seq<char>)
    ensures
        display_text(s).len() == s.len(),
        forall|i: int|
            0 <= i < s.len() ==> #[trigger] display_text(s)[i] == (if is_control(s[i]) {
                ' '
            } else {
                s[i]
            }),
        forall|i: int| 0 <= i < s.len() ==> !is_control(#[trigger] display_text(s)[i]),
        display_text(display_text(s)) == display_text(s),
{
    assert forall|i: int| 0 <= i < s.len() implies #[trigger] display_text(s)[i] == (
    if is_control(s[i]) {
        ' '
    } else {
        s[i]
    }) by {
        control_is_shown_as_space(s[i]);
        assert(display_text(s)[i] == display_char(s[i]));
    }
    assert(display_text(display_text(s)) =~= display_text(s));
}

/// The number that a row of decimal digits stands for.
pub open spec fn decimal_value(digits: Seq<char>) -> nat
    decreases digits.len(),
{
    if digits.len() == 0 {
        0
    } else {
        (10 * decimal_value(digits.drop_last()) + (digits.last() as u32 - '0' as u32)) as nat
    }
}

/// The decimal form of a number is made of digits, stands for that number, and has no zero in
/// front but that of nought itself.
pub proof fn decimal_form_stands_for_the_number(n: nat)
    ensures
        decimal(n).len() > 0,
        forall|i: int| 0 <= i < decimal(n).len() ==> '0' <= #[trigger] decimal(n)[i] <= '9',
        decimal_value(decimal(n)) == n,
        n > 0 ==> decimal(n)[0] != '0',
        n < 10 ==> decimal(n).len() == 1,
    decreases n,
{
    reveal_with_fuel(decimal_value, 2);
    if n < 10 {
        let d = digit_char(n);
        assert(decimal(n) =~= seq![d]);
        assert(decimal(n).drop_last() =~= Seq::<char>::empty());
        assert(d as u32 == 48 + n);
    } else {
        decimal_form_stands_for_the_number(n / 10);
        let d = digit_char(n % 10);
        assert(d as u32 == 48 + n % 10);
        assert(decimal(n).drop_last() =~= decimal(n / 10));
        assert(decimal(n).last() == d);
        assert(decimal(n)[0] == decimal(n / 10)[0]);
    }
}

/// What one hexadecimal digit stands for.
pub open spec fn hex_digit_value(c: char) -> int {
    if '0' <= c <= '9' {
        c as u32 - '0' as u32
    } else {
        c as u32 - 'a' as u32 + 10
    }
}

/// The number that a row of hexadecimal digits stands for.
pub open spec fn hex_value(digits: Seq<char>) -> int
    decreases digits.len(),
{
    if digits.len() == 0 {
        0
    } else {
        16 * hex_value(digits.drop_last()) + hex_digit_value(digits.last())
    }
}

spec fn sixteens(width: nat) -> nat
    decreases width,
{
    if width == 0 {
        1
    } else {
        16 * sixteens((width - 1) as nat)
    }
}

proof fn hex_digits_stand_for(n: nat, width: nat)
    requires
        n < sixteens(width),
    ensures
        hex_digits(n, width).len() == width,
        hex_value(hex_digits(n, width)) == n,
        forall|i: int|
            0 <= i < width ==> {
                let c = #[trigger] hex_digits(n, width)[i];
                ('0' <= c && c <= '9') || ('a' <= c && c <= 'f')
            },
    decreases width,
{
    if width > 0 {
        hex_digits_stand_for(n / 16, (width - 1) as nat);
        let d = digit_char(n % 16);
        if n % 16 < 10 {
            assert(d as u32 == 48 + n % 16);
        } else {
            assert(d as u32 == 87 + n % 16);
        }
        assert(hex_digits(n, width).drop_last() =~= hex_digits(n / 16, (width - 1) as nat));
        assert(hex_digits(n, width).last() == d);
    }
}

/// Sixteen lower-case hexadecimal digits, zeros in front, stand for the number.
pub proof fn hex_form_stands_for_the_number(n: u64)
    ensures
        hex_digits(n as nat, 16).len() == 16,
        hex_value(hex_digits(n as nat, 16)) == n,
        forall|i: int|
            0 <= i < 16 ==> {
                let c = #[trigger] hex_digits(n as nat, 16)[i];
                ('0' <= c && c <= '9') || ('a' <= c && c <= 'f')
            },
{
    reveal_with_fuel(sixteens, 17);
    assert(sixteens(16) == 0x1_0000_0000_0000_0000int);
    hex_digits_stand_for(n as nat, 16);
}

/// A hexadecimal form has the asked-for width; its last digit stands for what the number leaves
/// over by sixteen, and the digits before it are the form of the rest.
pub proof fn hex_form_has_its_width(n: nat, width: nat)
    ensures
        hex_digits(n, width).len() == width,
        width > 0 ==> hex_digit_value(hex_digits(n, width).last()) == n % 16,
        width > 0 ==> hex_digits(n, width).drop_last() == hex_digits(n / 16, (width - 1) as nat),
    decreases width,
{
    if width > 0 {
        hex_form_has_its_width(n / 16, (width - 1) as nat);
        let d = digit_char(n % 16);
        if n % 16 < 10 {
            assert(d as u32 == 48 + n % 16);
        } else {
            assert(d as u32 == 87 + n % 16);
        }
        assert(hex_digits(n, width).drop_last() =~= hex_digits(n / 16, (width - 1) as nat));
        assert(hex_digits(n, width).last() == d);
    }
}

/// The hash starts at its basis and takes up one byte after the other: the byte is mixed in and
/// the product with the prime is cut to 64 bits.
pub proof fn hash_takes_up_each_byte(bytes: Seq<u8>, byte: u8)
    ensures
        fnv1a(Seq::<u8>::empty()) == 0xcbf2_9ce4_8422_2325u64,
        fnv1a(bytes.push(byte)) == ((fnv1a(bytes) ^ (byte as u64)) * 0x100_0000_01b3)
            % 0x1_0000_0000_0000_0000,
{
    assert(bytes.push(byte).drop_last() =~= bytes);
    assert(bytes.push(byte).last() == byte);
}

/// Items are separated by a comma and a space, in order: two lists one behind the other give
/// their two forms with one separator between, and one item alone gives itself.
pub proof fn items_are_separated_in_order(earlier: Seq<Seq<char>>, later: Seq<Seq<char>>)
    requires
        earlier.len() > 0,
        later.len() > 0,
    ensures
        separated(earlier + later) == separated(earlier) + ", "@ + separated(later),
    decreases later.len(),
{
    let all = earlier + later;
    assert(all.drop_last() =~= earlier + later.drop_last());
    assert(all.last() == later.last());
    if later.len() == 1 {
        assert(all.drop_last() =~= earlier);
        assert(separated(later) == later[0]);
    } else {
        items_are_separated_in_order(earlier, later.drop_last());
        assert(separated(earlier) + ", "@ + separated(later) =~= separated(earlier) + ", "@
            + separated(later.drop_last()) + ", "@ + later.last());
    }
}

/// A list is shown in brackets; no item gives empty brackets and one item stands alone in them.
pub proof fn short_lists_are_shown_in_brackets(item: Seq<char>)
    ensures
        listed(Seq::<Seq<char>>::empty()) == "["@ + "]"@,
        listed(seq![item]) == "["@ + item + "]"@,
{
    assert("["@ + Seq::<char>::empty() + "]"@ =~= "["@ + "]"@);
    assert(separated(seq![item]) == item);
}

/// A list of two or more items is shown in brackets with its first item, a separator and the
/// others.
pub proof fn longer_lists_are_shown_in_brackets(first: Seq<char>, others: Seq<Seq<char>>)
    requires
        others.len() > 0,
    ensures
        listed(seq![first] + others) == "["@ + first + ", "@ + separated(others) + "]"@,
{
    items_are_separated_in_order(seq![first], others);
    assert(separated(seq![first]) == first);
    assert("["@ + (first + ", "@ + separated(others)) + "]"@ =~= "["@ + first + ", "@ + separated(
        others,
    ) + "]"@);
}

} // verus!
