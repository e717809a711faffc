//! The text layout of a token's fields.
//!
//! A number is written as sixteen hexadecimal digits, most significant
//! first. A text is written as its length in characters, as a number,
//! followed by the characters themselves. A list is written as the number of
//! its items followed by each item as a text. An optional text is written as
//! the number 0, or as the number 1 followed by the text.
//!
//! Every reader takes the field from the front of its input and returns the
//! value together with what is left of the input.
use crate::text::{push_char, string_of};
use vstd::prelude::*;
use vstd::string::*;

verus! {

/// The hexadecimal digit for a value below sixteen.
pub open spec fn hex_digit(d: int) -> char {
    if d == 0 {
        '0'
    } else if d == 1 {
        '1'
    } else if d == 2 {
        '2'
    } else if d == 3 {
        '3'
    } else if d == 4 {
        '4'
    } else if d == 5 {
        '5'
    } else if d == 6 {
        '6'
    } else if d == 7 {
        '7'
    } else if d == 8 {
        '8'
    } else if d == 9 {
        '9'
    } else if d == 10 {
        'a'
    } else if d == 11 {
        'b'
    } else if d == 12 {
        'c'
    } else if d == 13 {
        'd'
    } else if d == 14 {
        'e'
    } else {
        'f'
    }
}

/// The value of a hexadecimal digit; `None` for any other character.
pub open spec fn hex_value(c: char) -> Option<int> {
    if c == '0' {
        Some(0int)
    } else if c == '1' {
        Some(1int)
    } else if c == '2' {
        Some(2int)
    } else if c == '3' {
        Some(3int)
    } else if c == '4' {
        Some(4int)
    } else if c == '5' {
        Some(5int)
    } else if c == '6' {
        Some(6int)
    } else if c == '7' {
        Some(7int)
    } else if c == '8' {
        Some(8int)
    } else if c == '9' {
        Some(9int)
    } else if c == 'a' {
        Some(10int)
    } else if c == 'b' {
        Some(11int)
    } else if c == 'c' {
        Some(12int)
    } else if c == 'd' {
        Some(13int)
    } else if c == 'e' {
        Some(14int)
    } else if c == 'f' {
        Some(15int)
    } else {
        None
    }
}

/// Sixteen to the power `width`.
pub open spec fn pow16(width: nat) -> nat
    decreases width,
{
    if width == 0 {
        1
    } else {
        16 * pow16((width - 1) as nat)
    }
}

/// The last `width` hexadecimal digits of `n`, most significant first.
pub open spec fn hex_text(n: nat, width: nat) -> Seq<char>
    decreases width,
{
    if width == 0 {
        Seq::empty()
    } else {
        hex_text(n / 16, (width - 1) as nat).push(hex_digit((n % 16) as int))
    }
}

/// The number that a run of hexadecimal digits denotes; `None` if any
/// character is no such digit.
pub open spec fn hex_number(s: Seq<char>) -> Option<nat>
    decreases s.len(),
{
    if s.len() == 0 {
        Some(0nat)
    } else {
        match (hex_number(s.drop_last()), hex_value(s.last())) {
            (Some(high), Some(low)) => Some((high * 16 + low) as nat),
            _ => None,
        }
    }
}

/// The number of characters of a written number.
pub const WORD: usize = 16;

/// A number as text.
pub open spec fn word_text(n: u64) -> Seq<char> {
    hex_text(n as nat, 16)
}

/// Reads a number.
pub open spec fn take_word(s: Seq<char>) -> Option<(u64, Seq<char>)> {
    if s.len() >= 16 {
        match hex_number(s.take(16)) {
            Some(n) => Some((n as u64, s.skip(16))),
            None => None,
        }
    } else {
        None
    }
}

/// A text as a field.
pub open spec fn text_field(t: Seq<char>) -> Seq<char> {
    word_text(t.len() as u64) + t
}

/// Reads a text.
pub open spec fn take_text(s: Seq<char>) -> Option<(Seq<char>, Seq<char>)> {
    match take_word(s) {
        Some((n, rest)) => if n <= rest.len() {
            Some((rest.take(n as int), rest.skip(n as int)))
        } else {
            None
        },
        None => None,
    }
}

/// The items of a list, each as a text, one after the other.
pub open spec fn items_text(items: Seq<Seq<char>>) -> Seq<char>
    decreases items.len(),
{
    if items.len() == 0 {
        Seq::empty()
    } else {
        items_text(items.drop_last()) + text_field(items.last())
    }
}

/// Reads `count` texts.
pub open spec fn take_items(s: Seq<char>, count: nat) -> Option<(Seq<Seq<char>>, Seq<char>)>
    decreases count,
{
    if count == 0 {
        Some((Seq::empty(), s))
    } else {
        match take_text(s) {
            Some((first, rest)) => match take_items(rest, (count - 1) as nat) {
                Some((others, left)) => Some((seq![first] + others, left)),
                None => None,
            },
            None => None,
        }
    }
}

/// A list of texts as a field.
pub open spec fn list_field(items: Seq<Seq<char>>) -> Seq<char> {
    word_text(items.len() as u64) + items_text(items)
}

/// Reads a list of texts.
pub open spec fn take_list(s: Seq<char>) -> Option<(Seq<Seq<char>>, Seq<char>)> {
    match take_word(s) {
        Some((count, rest)) => take_items(rest, count as nat),
        None => None,
    }
}

/// An optional text as a field.
pub open spec fn option_field(o: Option<Seq<char>>) -> Seq<char> {
    match o {
        None => word_text(0),
        Some(t) => word_text(1) + text_field(t),
    }
}

/// Reads an optional text.
pub open spec fn take_option(s: Seq<char>) -> Option<(Option<Seq<char>>, Seq<char>)> {
    match take_word(s) {
        Some((flag, rest)) => if flag == 0 {
            Some((None, rest))
        } else if flag == 1 {
            match take_text(rest) {
                Some((t, left)) => Some((Some(t), left)),
                None => None,
            }
        } else {
            None
        },
        None => None,
    }
}

/// Whether every length in `items` can be written as a number.
pub open spec fn items_fit(items: Seq<Seq<char>>) -> bool {
    &&& items.len() <= u64::MAX
    &&& forall|i: int| 0 <= i < items.len() ==> (#[trigger] items[i]).len() <= u64::MAX
}

pub proof fn lemma_pow16_word()
    ensures
        pow16(16) == 0x1_0000_0000_0000_0000,
{
    reveal_with_fuel(pow16, 17);
}

pub proof fn lemma_pow16_grows(a: nat, b: nat)
    requires
        a <= b,
    ensures
        0 < pow16(a) <= pow16(b),
    decreases b,
{
    if b == 0 {
    } else if a == b {
        lemma_pow16_grows((a - 1) as nat, (b - 1) as nat);
    } else {
        lemma_pow16_grows(a, (b - 1) as nat);
    }
}

pub proof fn lemma_hex_digit_value(d: int)
    requires
        0 <= d < 16,
    ensures
        hex_value(hex_digit(d)) == Some(d),
{
}

pub proof fn lemma_hex_text_len(n: nat, width: nat)
    ensures
        hex_text(n, width).len() == width,
    decreases width,
{
    if width > 0 {
        lemma_hex_text_len(n / 16, (width - 1) as nat);
    }
}

/// A run of hexadecimal digits denotes a number below sixteen to the power
/// of its length.
pub proof fn lemma_hex_number_bound(s: Seq<char>)
    requires
        hex_number(s) is Some,
    ensures
        hex_number(s)->0 < pow16(s.len()),
    decreases s.len(),
{
    if s.len() > 0 {
        lemma_hex_number_bound(s.drop_last());
    }
}

/// Reading what was written gives the number back, if the width holds it.
pub proof fn lemma_hex_round_trip(n: nat, width: nat)
    requires
        n < pow16(width),
    ensures
        hex_number(hex_text(n, width)) == Some(n),
    decreases width,
{
    if width > 0 {
        let text = hex_text(n, width);
        let high = hex_text(n / 16, (width - 1) as nat);
        lemma_hex_round_trip(n / 16, (width - 1) as nat);
        lemma_hex_digit_value((n % 16) as int);
        assert(text.drop_last() =~= high);
        assert(text.last() == hex_digit((n % 16) as int));
    }
}

/// Reading a written number gives the number and what followed it.
pub proof fn lemma_take_word(n: u64, rest: Seq<char>)
    ensures
        word_text(n).len() == 16,
        take_word(word_text(n) + rest) == Some((n, rest)),
{
    lemma_pow16_word();
    lemma_hex_text_len(n as nat, 16);
    lemma_hex_round_trip(n as nat, 16);
    let s = word_text(n) + rest;
    assert(s.take(16) =~= word_text(n));
    assert(s.skip(16) =~= rest);
}

/// Reading a written text gives the text and what followed it.
pub proof fn lemma_take_text(t: Seq<char>, rest: Seq<char>)
    requires
        t.len() <= u64::MAX,
    ensures
        take_text(text_field(t) + rest) == Some((t, rest)),
{
    let n = t.len() as u64;
    lemma_take_word(n, t + rest);
    assert(text_field(t) + rest =~= word_text(n) + (t + rest));
    assert((t + rest).take(n as int) =~= t);
    assert((t + rest).skip(n as int) =~= rest);
}

/// The items of a list with one more item in front.
pub proof fn lemma_items_text_front(first: Seq<char>, others: Seq<Seq<char>>)
    ensures
        items_text(seq![first] + others) == text_field(first) + items_text(others),
    decreases others.len(),
{
    let all = seq![first] + others;
    if others.len() == 0 {
        assert(all.drop_last() =~= Seq::<Seq<char>>::empty());
        assert(all.last() == first);
        assert(items_text(all) == items_text(all.drop_last()) + text_field(first));
        assert(items_text(all) =~= text_field(first) + items_text(others));
    } else {
        lemma_items_text_front(first, others.drop_last());
        assert(all.drop_last() =~= seq![first] + others.drop_last());
        assert(all.last() == others.last());
        assert(items_text(all) == items_text(all.drop_last()) + text_field(others.last()));
        assert(items_text(all) =~= text_field(first) + items_text(others));
    }
}

/// Reading written items gives the items and what followed them.
pub proof fn lemma_take_items(items: Seq<Seq<char>>, rest: Seq<char>)
    requires
        items_fit(items),
    ensures
        take_items(items_text(items) + rest, items.len()) == Some((items, rest)),
    decreases items.len(),
{
    if items.len() == 0 {
        assert(items_text(items) + rest =~= rest);
        assert(items =~= Seq::<Seq<char>>::empty());
    } else {
        let first = items[0];
        let others = items.skip(1);
        assert(items =~= seq![first] + others);
        lemma_items_text_front(first, others);
        assert(items_text(items) + rest =~= text_field(first) + (items_text(others) + rest));
        lemma_take_text(first, items_text(others) + rest);
        assert(items_fit(others)) by {
            assert forall|i: int| 0 <= i < others.len() implies (#[trigger] others[i]).len()
                <= u64::MAX by {
                assert(others[i] == items[i + 1]);
            }
        }
        lemma_take_items(others, rest);
    }
}

/// Reading a written list gives the list and what followed it.
pub proof fn lemma_take_list(items: Seq<Seq<char>>, rest: Seq<char>)
    requires
        items_fit(items),
    ensures
        take_list(list_field(items) + rest) == Some((items, rest)),
{
    let n = items.len() as u64;
    lemma_take_word(n, items_text(items) + rest);
    assert(list_field(items) + rest =~= word_text(n) + (items_text(items) + rest));
    lemma_take_items(items, rest);
}

/// Reading a written optional text gives it and what followed it.
pub proof fn lemma_take_option(o: Option<Seq<char>>, rest: Seq<char>)
    requires
        o matches Some(t) ==> t.len() <= u64::MAX,
    ensures
        take_option(option_field(o) + rest) == Some((o, rest)),
{
    match o {
        None => {
            lemma_take_word(0, rest);
        },
        Some(t) => {
            lemma_take_word(1, text_field(t) + rest);
            assert(option_field(o) + rest =~= word_text(1) + (text_field(t) + rest));
            lemma_take_text(t, rest);
        },
    }
}

/// If a run of characters denotes a number, so does each of its prefixes.
pub proof fn lemma_hex_number_prefix(s: Seq<char>, k: int)
    requires
        hex_number(s) is Some,
        0 <= k <= s.len(),
    ensures
        hex_number(s.take(k)) is Some,
    decreases s.len(),
{
    if k == s.len() {
        assert(s.take(k) =~= s);
    } else {
        lemma_hex_number_prefix(s.drop_last(), k);
        assert(s.take(k) =~= s.drop_last().take(k));
    }
}

pub(crate) fn digit_char(d: u8) -> (c: char)
    requires
        d < 16,
    ensures
        c == hex_digit(d as int),
{
    if d == 0 {
        '0'
    } else if d == 1 {
        '1'
    } else if d == 2 {
        '2'
    } else if d == 3 {
        '3'
    } else if d == 4 {
        '4'
    } else if d == 5 {
        '5'
    } else if d == 6 {
        '6'
    } else if d == 7 {
        '7'
    } else if d == 8 {
        '8'
    } else if d == 9 {
        '9'
    } else if d == 10 {
        'a'
    } else if d == 11 {
        'b'
    } else if d == 12 {
        'c'
    } else if d == 13 {
        'd'
    } else if d == 14 {
        'e'
    } else {
        'f'
    }
}

fn digit_value(c: char) -> (v: Option<u8>)
    ensures
        match v {
            Some(d) => d < 16 && hex_value(c) == Some(d as int),
            None => hex_value(c) is None,
        },
{
    if c == '0' {
        Some(0)
    } else if c == '1' {
        Some(1)
    } else if c == '2' {
        Some(2)
    } else if c == '3' {
        Some(3)
    } else if c == '4' {
        Some(4)
    } else if c == '5' {
        Some(5)
    } else if c == '6' {
        Some(6)
    } else if c == '7' {
        Some(7)
    } else if c == '8' {
        Some(8)
    } else if c == '9' {
        Some(9)
    } else if c == 'a' {
        Some(10)
    } else if c == 'b' {
        Some(11)
    } else if c == 'c' {
        Some(12)
    } else if c == 'd' {
        Some(13)
    } else if c == 'e' {
        Some(14)
    } else if c == 'f' {
        Some(15)
    } else {
        None
    }
}

fn write_hex(out: &mut String, n: u64, width: u8)
    ensures
        final(out)@ == old(out)@ + hex_text(n as nat, width as nat),
    decreases width,
{
    if width > 0 {
        write_hex(out, n / 16, width - 1);
        push_char(out, digit_char((n % 16) as u8));
        assert(out@ =~= old(out)@ + hex_text(n as nat, width as nat));
    } else {
        assert(out@ =~= old(out)@ + hex_text(n as nat, width as nat));
    }
}

/// Appends a number.
pub fn write_word(out: &mut String, n: u64)
    ensures
        final(out)@ == old(out)@ + word_text(n),
{
    write_hex(out, n, 16);
}

/// Appends a text.
pub fn write_text(out: &mut String, t: &str)
    ensures
        final(out)@ == old(out)@ + text_field(t@),
        t@.len() <= u64::MAX,
{
    let n: usize = t.unicode_len();
    write_word(out, n as u64);
    out.append(t);
    assert(out@ =~= old(out)@ + text_field(t@));
}

/// Appends a list of texts.
pub fn write_list(out: &mut String, items: &Vec<String>)
    ensures
        final(out)@ == old(out)@ + list_field(items.deep_view()),
        items_fit(items.deep_view()),
{
    let ghost all = items.deep_view();
    write_word(out, items.len() as u64);
    let mut i: usize = 0;
    while i < items.len()
        invariant
            i <= items.len(),
            all == items.deep_view(),
            out@ == old(out)@ + word_text(items.len() as u64) + items_text(all.take(i as int)),
            forall|k: int| 0 <= k < i ==> (#[trigger] all[k]).len() <= u64::MAX,
        decreases items.len() - i,
    {
        write_text(out, items[i].as_str());
        proof {
            let before = all.take(i as int);
            let after = all.take(i + 1);
            assert(after.drop_last() =~= before);
            assert(after.last() == all[i as int]);
            assert(all[i as int] == items@[i as int]@);
            assert(out@ =~= old(out)@ + word_text(items.len() as u64) + items_text(after));
        }
        i += 1;
    }
    proof {
        assert(all.take(i as int) =~= all);
        assert(out@ =~= old(out)@ + list_field(all));
    }
}

/// Appends an optional text.
pub fn write_option(out: &mut String, o: &Option<String>)
    ensures
        final(out)@ == old(out)@ + option_field(o.deep_view()),
        o.deep_view() matches Some(t) ==> t.len() <= u64::MAX,
{
    match o {
        None => {
            write_word(out, 0);
        },
        Some(t) => {
            write_word(out, 1);
            write_text(out, t.as_str());
            assert(out@ =~= old(out)@ + option_field(o.deep_view()));
        },
    }
}

/// Reads a number at `pos`. Returns it with the position behind it.
pub fn read_word(chars: &Vec<char>, pos: usize) -> (r: Option<(u64, usize)>)
    requires
        pos <= chars.len(),
    ensures
        match r {
            Some((n, next)) => pos <= next <= chars.len() && take_word(chars@.skip(pos as int))
                == Some((n, chars@.skip(next as int))),
            None => take_word(chars@.skip(pos as int)) is None,
        },
{
    if chars.len() - pos < WORD {
        return None;
    }
    let ghost window = chars@.skip(pos as int).take(16);
    let mut acc: u64 = 0;
    let mut i: usize = 0;
    while i < WORD
        invariant
            i <= 16,
            pos + 16 <= chars.len(),
            window == chars@.skip(pos as int).take(16),
            hex_number(window.take(i as int)) == Some(acc as nat),
        decreases 16 - i,
    {
        proof {
            lemma_hex_number_bound(window.take(i as int));
            lemma_pow16_grows(i as nat, 15);
            lemma_pow16_word();
            assert(pow16(16) == 16 * pow16(15)) by {
                reveal_with_fuel(pow16, 2);
            }
            assert(window.take(i + 1).drop_last() =~= window.take(i as int));
            assert(window.take(i + 1).last() == chars@[pos + i]);
        }
        match digit_value(chars[pos + i]) {
            Some(d) => {
                acc = acc * 16 + d as u64;
            },
            None => {
                proof {
                    if hex_number(window) is Some {
                        lemma_hex_number_prefix(window, i + 1);
                    }
                }
                return None;
            },
        }
        i += 1;
    }
    proof {
        assert(window.take(16) =~= window);
        assert(chars@.skip(pos as int).skip(16) =~= chars@.skip(pos + 16));
    }
    Some((acc, pos + WORD))
}

/// Reads a text at `pos`. Returns it with the position behind it.
pub fn read_text(chars: &Vec<char>, pos: usize) -> (r: Option<(String, usize)>)
    requires
        pos <= chars.len(),
    ensures
        match r {
            Some((t, next)) => pos <= next <= chars.len() && take_text(chars@.skip(pos as int))
                == Some((t@, chars@.skip(next as int))),
            None => take_text(chars@.skip(pos as int)) is None,
        },
{
    match read_word(chars, pos) {
        Some((n, start)) => {
            if n > (chars.len() - start) as u64 {
                None
            } else {
                let end: usize = start + n as usize;
                let t = string_of(chars, start, end);
                proof {
                    let rest = chars@.skip(start as int);
                    assert(rest.take(n as int) =~= chars@.subrange(start as int, end as int));
                    assert(rest.skip(n as int) =~= chars@.skip(end as int));
                }
                Some((t, end))
            }
        },
        None => None,
    }
}

/// The items read so far in front of the items still to be read.
pub open spec fn with_items_before(
    before: Seq<Seq<char>>,
    r: Option<(Seq<Seq<char>>, Seq<char>)>,
) -> Option<(Seq<Seq<char>>, Seq<char>)> {
    match r {
        Some((others, left)) => Some((before + others, left)),
        None => None,
    }
}

/// Reads a list of texts at `pos`. Returns it with the position behind it.
pub fn read_list(chars: &Vec<char>, pos: usize) -> (r: Option<(Vec<String>, usize)>)
    requires
        pos <= chars.len(),
    ensures
        match r {
            Some((items, next)) => pos <= next <= chars.len() && take_list(
                chars@.skip(pos as int),
            ) == Some((items.deep_view(), chars@.skip(next as int))),
            None => take_list(chars@.skip(pos as int)) is None,
        },
{
    match read_word(chars, pos) {
        Some((count, start)) => {
            let ghost whole = take_items(chars@.skip(start as int), count as nat);
            let mut items: Vec<String> = Vec::new();
            let mut at: usize = start;
            let mut i: u64 = 0;
            while i < count
                invariant
                    i <= count,
                    pos <= start <= at <= chars.len(),
                    take_list(chars@.skip(pos as int)) == whole,
                    whole == with_items_before(
                        items.deep_view(),
                        take_items(chars@.skip(at as int), (count - i) as nat),
                    ),
                decreases count - i,
            {
                let ghost before = items.deep_view();
                match read_text(chars, at) {
                    Some((t, next)) => {
                        items.push(t);
                        proof {
                            let later = take_items(
                                chars@.skip(next as int),
                                (count - i - 1) as nat,
                            );
                            assert(items.deep_view() =~= before.push(t@));
                            match later {
                                Some((others, left)) => {
                                    assert(before + (seq![t@] + others) =~= before.push(t@)
                                        + others);
                                },
                                None => {},
                            }
                        }
                        at = next;
                    },
                    None => {
                        return None;
                    },
                }
                i += 1;
            }
            proof {
                assert(items.deep_view() + Seq::<Seq<char>>::empty() =~= items.deep_view());
            }
            Some((items, at))
        },
        None => None,
    }
}

/// Reads an optional text at `pos`. Returns it with the position behind it.
pub fn read_option(chars: &Vec<char>, pos: usize) -> (r: Option<(Option<String>, usize)>)
    requires
        pos <= chars.len(),
    ensures
        match r {
            Some((o, next)) => pos <= next <= chars.len() && take_option(
                chars@.skip(pos as int),
            ) == Some((o.deep_view(), chars@.skip(next as int))),
            None => take_option(chars@.skip(pos as int)) is None,
        },
{
    match read_word(chars, pos) {
        Some((flag, start)) => {
            if flag == 0 {
                Some((None, start))
            } else if flag == 1 {
                match read_text(chars, start) {
                    Some((t, next)) => Some((Some(t), next)),
                    None => None,
                }
            } else {
                None
            }
        },
        None => None,
    }
}

} // verus!
