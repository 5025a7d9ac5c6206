//! The roster of known birthdays, as it is written to a file.
//!
//! The file holds one entry to a line. An entry is the number of a user, a
//! space, the month, a slash and the day, all in decimal digits:
//! `86753090 6/20`. Whatever follows the day after another space or slash
//! is passed over. A line that is no entry is passed over whole.

use vstd::prelude::*;
use crate::text::{chars_of, push_char};

verus! {

/// The birthday of a user. A month and a day of zero say that the user has
/// been greeted and has not told the day yet.
#[derive(Clone, Copy, Debug, PartialEq, Eq, Structural)]
pub struct UserBirthday {
    /// The user's number on the platform.
    pub user: u64,
    /// The month, from 1.
    pub month: u8,
    /// The day of the month, from 1.
    pub day: u8,
}

/// Where the first `sep` stands in `s`, and `s.len()` where `s` holds none.
pub open spec fn cut(s: Seq<char>, sep: char) -> int
    decreases s.len(),
{
    if s.len() == 0 || s[0] == sep {
        0
    } else {
        1 + cut(s.drop_first(), sep)
    }
}

/// What stands in `s` before the first `sep`: all of `s` where it holds
/// none.
pub open spec fn before(s: Seq<char>, sep: char) -> Seq<char> {
    s.take(cut(s, sep))
}

/// What stands in `s` after the first `sep`, and `None` where `s` holds
/// none.
pub open spec fn after(s: Seq<char>, sep: char) -> Option<Seq<char>> {
    if cut(s, sep) < s.len() {
        Some(s.skip(cut(s, sep) + 1))
    } else {
        None
    }
}

/// [`cut`] gives the place of the first `sep`.
pub proof fn lemma_cut(s: Seq<char>, sep: char)
    ensures
        0 <= cut(s, sep) <= s.len(),
        forall|j: int| 0 <= j < cut(s, sep) ==> s[j] != sep,
        cut(s, sep) < s.len() ==> s[cut(s, sep)] == sep,
    decreases s.len(),
{
    if s.len() == 0 || s[0] == sep {
    } else {
        let t = s.drop_first();
        lemma_cut(t, sep);
        assert forall|j: int| 0 <= j < cut(s, sep) implies s[j] != sep by {
            if j > 0 {
                assert(s[j] == t[j - 1]);
            }
        }
    }
}

/// The place of the first `sep` is what [`cut`] gives.
pub proof fn lemma_cut_at(s: Seq<char>, sep: char, i: int)
    requires
        0 <= i <= s.len(),
        forall|j: int| 0 <= j < i ==> s[j] != sep,
        i < s.len() ==> s[i] == sep,
    ensures
        cut(s, sep) == i,
{
    lemma_cut(s, sep);
}

/// Whether `c` is one of the ten decimal digits.
pub open spec fn is_digit(c: char) -> bool {
    '0' <= c <= '9'
}

/// The number that the decimal digits `s` spell.
pub open spec fn digits_value(s: Seq<char>) -> nat
    decreases s.len(),
{
    if s.len() == 0 {
        0
    } else {
        (digits_value(s.drop_last()) * 10 + (s.last() as int - '0' as int)) as nat
    }
}

/// Whether `s` is one decimal digit or more.
pub open spec fn is_digits(s: Seq<char>) -> bool {
    s.len() > 0 && forall|i: int| 0 <= i < s.len() ==> is_digit(#[trigger] s[i])
}

/// The number that `s` spells, if it spells one that is no greater than
/// `max`: decimal digits, one at least, with or without a plus sign before
/// them.
pub open spec fn decimal(s: Seq<char>, max: u64) -> Option<u64> {
    let digits = if s.len() > 0 && s[0] == '+' {
        s.drop_first()
    } else {
        s
    };
    if is_digits(digits) && digits_value(digits) <= max {
        Some(digits_value(digits) as u64)
    } else {
        None
    }
}

/// The entry that `line` holds, and `None` where it holds none.
///
/// The line is read in fields that a space parts. The first is the user.
/// The second is the date, itself read in fields that a slash parts: the
/// month, then the day. Further fields of either kind are passed over. A
/// line with one field only, or a date with one, is no entry, nor is a line
/// whose user is no number that fits 64 bits or whose month or day is none
/// that fits 8.
pub open spec fn entry_of(line: Seq<char>) -> Option<UserBirthday> {
    match after(line, ' ') {
        None => None,
        Some(rest) => {
            let date = before(rest, ' ');
            match after(date, '/') {
                None => None,
                Some(tail) => match (
                    decimal(before(line, ' '), u64::MAX),
                    decimal(before(date, '/'), 255),
                    decimal(before(tail, '/'), 255),
                ) {
                    (Some(user), Some(month), Some(day)) => Some(
                        UserBirthday { user, month: month as u8, day: day as u8 },
                    ),
                    _ => None,
                },
            }
        },
    }
}

/// The entry of `line` as a sequence: of one entry, or of none.
pub open spec fn entries_of_line(line: Seq<char>) -> Seq<UserBirthday> {
    match entry_of(line) {
        Some(entry) => seq![entry],
        None => Seq::empty(),
    }
}

/// The entries that `text` holds, line by line.
pub open spec fn entries_of(text: Seq<char>) -> Seq<UserBirthday>
    decreases text.len(),
{
    match after(text, '\n') {
        None => entries_of_line(text),
        Some(rest) => {
            proof {
                lemma_cut(text, '\n');
            }
            entries_of_line(before(text, '\n')) + entries_of(rest)
        },
    }
}

/// Finds the first `sep` among the characters from `from` up to `to`, and
/// gives `to` where there is none.
fn find(chars: &Vec<char>, from: usize, to: usize, sep: char) -> (r: usize)
    requires
        from <= to <= chars.len(),
    ensures
        from <= r <= to,
        r - from == cut(chars@.subrange(from as int, to as int), sep),
{
    let ghost s = chars@.subrange(from as int, to as int);
    let mut i: usize = from;
    while i < to
        invariant
            from <= i <= to <= chars.len(),
            s == chars@.subrange(from as int, to as int),
            forall|j: int| 0 <= j < i - from ==> s[j] != sep,
        decreases to - i,
    {
        if chars[i] == sep {
            proof {
                lemma_cut_at(s, sep, i - from);
            }
            return i;
        }
        i += 1;
    }
    proof {
        lemma_cut_at(s, sep, to - from);
    }
    to
}

/// As digits are added, the number they spell does not become smaller.
proof fn lemma_digits_grow(s: Seq<char>, n: int)
    requires
        is_digits(s),
        0 <= n <= s.len(),
    ensures
        digits_value(s.take(n)) <= digits_value(s),
    decreases s.len() - n,
{
    if n == s.len() {
        assert(s.take(n) == s);
    } else {
        lemma_digits_grow(s, n + 1);
        assert(s.take(n + 1).drop_last() == s.take(n));
    }
}

/// Reads the characters from `from` up to `to` as a number that is no
/// greater than `max`.
fn read_decimal(chars: &Vec<char>, from: usize, to: usize, max: u64) -> (r: Option<u64>)
    requires
        from <= to <= chars.len(),
    ensures
        r == decimal(chars@.subrange(from as int, to as int), max),
{
    let ghost s = chars@.subrange(from as int, to as int);
    let start: usize = if from < to && chars[from] == '+' {
        from + 1
    } else {
        from
    };
    let ghost digits = chars@.subrange(start as int, to as int);
    if start == to {
        return None;
    }
    let mut value: u64 = 0;
    let mut i: usize = start;
    while i < to
        invariant
            start <= i <= to <= chars.len(),
            s == chars@.subrange(from as int, to as int),
            digits == chars@.subrange(start as int, to as int),
            digits == if s.len() > 0 && s[0] == '+' {
                s.drop_first()
            } else {
                s
            },
            forall|j: int| 0 <= j < i - start ==> is_digit(#[trigger] digits[j]),
            value == digits_value(digits.take(i - start)),
            value <= max,
        decreases to - i,
    {
        let c = chars[i];
        if c < '0' || c > '9' {
            assert(!is_digit(digits[i - start]));
            return None;
        }
        let d: u64 = (c as u32 - '0' as u32) as u64;
        assert(digits.take(i - start + 1).drop_last() == digits.take(i - start));
        if d > max || value > (max - d) / 10 {
            proof {
                if is_digits(digits) {
                    lemma_digits_grow(digits, i - start + 1);
                }
            }
            return None;
        }
        value = value * 10 + d;
        i += 1;
    }
    assert(digits.take(to - start) == digits);
    Some(value)
}

/// Reads the entry on the line that the characters from `from` up to `to`
/// make.
fn read_entry(chars: &Vec<char>, from: usize, to: usize) -> (r: Option<UserBirthday>)
    requires
        from <= to <= chars.len(),
    ensures
        r == entry_of(chars@.subrange(from as int, to as int)),
{
    let ghost line = chars@.subrange(from as int, to as int);
    let space = find(chars, from, to, ' ');
    assert(before(line, ' ') == chars@.subrange(from as int, space as int));
    if space == to {
        return None;
    }
    let ghost rest = chars@.subrange(space + 1, to as int);
    assert(after(line, ' ') == Some(rest));
    let date_end = find(chars, space + 1, to, ' ');
    let ghost date = chars@.subrange(space + 1, date_end as int);
    assert(before(rest, ' ') == date);
    let slash = find(chars, space + 1, date_end, '/');
    assert(before(date, '/') == chars@.subrange(space + 1, slash as int));
    if slash == date_end {
        return None;
    }
    let ghost tail = chars@.subrange(slash + 1, date_end as int);
    assert(after(date, '/') == Some(tail));
    let day_end = find(chars, slash + 1, date_end, '/');
    assert(before(tail, '/') == chars@.subrange(slash + 1, day_end as int));
    let user = read_decimal(chars, from, space, u64::MAX);
    let month = read_decimal(chars, space + 1, slash, 255);
    let day = read_decimal(chars, slash + 1, day_end, 255);
    match (user, month, day) {
        (Some(user), Some(month), Some(day)) => Some(
            UserBirthday { user, month: month as u8, day: day as u8 },
        ),
        _ => None,
    }
}

/// Reads the entries of a roster file from its text. Lines that are no
/// entry are passed over.
pub fn parse_user_file(text: &str) -> (r: Vec<UserBirthday>)
    ensures
        r@ == entries_of(text@),
{
    let chars = chars_of(text);
    let mut entries: Vec<UserBirthday> = Vec::new();
    let mut from: usize = 0;
    assert(chars@.subrange(0, chars.len() as int) == chars@);
    loop
        invariant_except_break
            entries_of(text@) == entries@ + entries_of(
                chars@.subrange(from as int, chars.len() as int),
            ),
        invariant
            chars@ == text@,
            from <= chars.len(),
        ensures
            entries@ == entries_of(text@),
        decreases chars.len() - from,
    {
        let ghost left = chars@.subrange(from as int, chars.len() as int);
        let end = find(&chars, from, chars.len(), '\n');
        assert(before(left, '\n') == chars@.subrange(from as int, end as int));
        match read_entry(&chars, from, end) {
            Some(entry) => {
                entries.push(entry);
            },
            None => {},
        }
        if end == chars.len() {
            break ;
        }
        assert(after(left, '\n') == Some(chars@.subrange(end + 1, chars.len() as int)));
        assert(entries_of(text@) == entries@ + entries_of(
            chars@.subrange(end + 1, chars.len() as int),
        ));
        from = end + 1;
    }
    entries
}

/// The character of the decimal digit `d`.
pub open spec fn digit_char(d: int) -> char {
    ('0' as int + d) as char
}

/// The decimal digits of `n`, without leading zeros.
pub open spec fn digits_of(n: nat) -> Seq<char>
    decreases n,
{
    if n < 10 {
        seq![digit_char(n as int)]
    } else {
        digits_of(n / 10).push(digit_char(n as int % 10))
    }
}

/// The line that holds `entry`.
pub open spec fn line_of(entry: UserBirthday) -> Seq<char> {
    digits_of(entry.user as nat) + seq![' '] + digits_of(entry.month as nat) + seq!['/']
        + digits_of(entry.day as nat)
}

/// The text of a roster file that holds `entries`: a line for each, and a
/// line feed between one line and the next.
pub open spec fn text_of(entries: Seq<UserBirthday>) -> Seq<char>
    decreases entries.len(),
{
    if entries.len() == 0 {
        Seq::empty()
    } else if entries.len() == 1 {
        line_of(entries[0])
    } else {
        text_of(entries.drop_last()) + seq!['\n'] + line_of(entries.last())
    }
}

/// Appends the decimal digits of `n` to `out`.
fn write_number(out: &mut String, n: u64)
    ensures
        final(out)@ == old(out)@ + digits_of(n as nat),
    decreases n,
{
    if n >= 10 {
        write_number(out, n / 10);
    }
    let d: u8 = (n % 10) as u8;
    push_char(out, (48u8 + d) as char);
}

/// Appends the line that holds `entry` to `out`.
fn write_entry(out: &mut String, entry: &UserBirthday)
    ensures
        final(out)@ == old(out)@ + line_of(*entry),
{
    write_number(out, entry.user);
    push_char(out, ' ');
    write_number(out, entry.month as u64);
    push_char(out, '/');
    write_number(out, entry.day as u64);
}

/// Writes the text of a roster file that holds `entries`.
pub fn format_user_file(entries: &Vec<UserBirthday>) -> (r: String)
    ensures
        r@ == text_of(entries@),
{
    let mut out = String::new();
    let mut i: usize = 0;
    while i < entries.len()
        invariant
            i <= entries.len(),
            out@ == text_of(entries@.take(i as int)),
        decreases entries.len() - i,
    {
        if i > 0 {
            push_char(&mut out, '\n');
        }
        write_entry(&mut out, &entries[i]);
        assert(entries@.take(i + 1).drop_last() == entries@.take(i as int));
        i += 1;
    }
    assert(entries@.take(entries.len() as int) == entries@);
    out
}

/// The digits of a number are digits, one at least, and spell the number.
pub proof fn lemma_digits_of(n: nat)
    ensures
        is_digits(digits_of(n)),
        digits_value(digits_of(n)) == n,
    decreases n,
{
    if n < 10 {
        assert(digits_value(digits_of(n).drop_last()) == 0);
    } else {
        lemma_digits_of(n / 10);
        assert(digits_of(n).drop_last() == digits_of(n / 10));
    }
}

/// The digits of a number no greater than `max` are read back as it.
pub proof fn lemma_decimal_of_digits(n: u64, max: u64)
    requires
        n <= max,
    ensures
        decimal(digits_of(n as nat), max) == Some(n),
{
    lemma_digits_of(n as nat);
}

/// Where `a` holds no `sep`, the first `sep` of `a`, `sep` and `b` in a row
/// is the one after `a`.
proof fn lemma_cut_joined(a: Seq<char>, sep: char, b: Seq<char>)
    requires
        forall|i: int| 0 <= i < a.len() ==> a[i] != sep,
    ensures
        before(a + seq![sep] + b, sep) == a,
        after(a + seq![sep] + b, sep) == Some(b),
{
    let t = a + seq![sep] + b;
    lemma_cut_at(t, sep, a.len() as int);
}

/// Where `a` holds no `sep`, all of it stands before the first `sep`, and
/// nothing after.
proof fn lemma_cut_absent(a: Seq<char>, sep: char)
    requires
        forall|i: int| 0 <= i < a.len() ==> a[i] != sep,
    ensures
        before(a, sep) == a,
        after(a, sep) is None,
{
    lemma_cut_at(a, sep, a.len() as int);
}

/// The line written for an entry holds no line feed, and is read back as
/// the entry.
pub proof fn lemma_line_round_trip(entry: UserBirthday)
    ensures
        entry_of(line_of(entry)) == Some(entry),
        forall|i: int| 0 <= i < line_of(entry).len() ==> line_of(entry)[i] != '\n',
{
    let user = digits_of(entry.user as nat);
    let month = digits_of(entry.month as nat);
    let day = digits_of(entry.day as nat);
    lemma_digits_of(entry.user as nat);
    lemma_digits_of(entry.month as nat);
    lemma_digits_of(entry.day as nat);
    let date = month + seq!['/'] + day;
    let line = line_of(entry);
    assert(line == user + seq![' '] + date);
    lemma_cut_joined(user, ' ', date);
    lemma_cut_absent(date, ' ');
    lemma_cut_joined(month, '/', day);
    lemma_cut_absent(day, '/');
}

/// A last line that is added after a line feed adds its entry to those of
/// the text before it.
proof fn lemma_entries_of_appended(text: Seq<char>, line: Seq<char>)
    requires
        forall|i: int| 0 <= i < line.len() ==> line[i] != '\n',
    ensures
        entries_of(text + seq!['\n'] + line) == entries_of(text) + entries_of_line(line),
    decreases text.len(),
{
    let whole = text + seq!['\n'] + line;
    lemma_cut(text, '\n');
    lemma_cut_absent(line, '\n');
    let c = cut(text, '\n');
    if c == text.len() {
        lemma_cut_joined(text, '\n', line);
        assert(entries_of(whole) == entries_of_line(text) + entries_of(line));
    } else {
        let head = text.take(c);
        let rest = text.skip(c + 1);
        let joined = rest + seq!['\n'] + line;
        assert(whole == head + seq!['\n'] + joined);
        lemma_cut_joined(head, '\n', joined);
        lemma_entries_of_appended(rest, line);
        assert(entries_of_line(head) + (entries_of(rest) + entries_of_line(line)) == (
        entries_of_line(head) + entries_of(rest)) + entries_of_line(line));
    }
}

/// What [`format_user_file`] writes, [`parse_user_file`] reads back: the
/// entries of the text written for `entries` are `entries`.
pub proof fn lemma_roster_round_trip(entries: Seq<UserBirthday>)
    ensures
        entries_of(text_of(entries)) == entries,
    decreases entries.len(),
{
    if entries.len() == 0 {
    } else {
        let last = entries.last();
        lemma_line_round_trip(last);
        if entries.len() == 1 {
            lemma_cut_absent(line_of(last), '\n');
        } else {
            lemma_roster_round_trip(entries.drop_last());
            lemma_entries_of_appended(text_of(entries.drop_last()), line_of(last));
        }
    }
}

} // verus!
