//! Escaping of unit names into object paths of the control plane.
//!
//! The init daemon addresses each unit by an object path whose last segment
//! is the unit's name with every character outside `[A-Za-z0-9/_]` replaced
//! by `_` and the character's code point in lowercase hexadecimal.
use vstd::prelude::*;
use crate::text::{append_chars, chars_of, string_of};

verus! {

/// Whether `c` passes through escaping unchanged.
pub open spec fn is_plain(c: char) -> bool {
    ||| 'a' <= c <= 'z'
    ||| 'A' <= c <= 'Z'
    ||| '0' <= c <= '9'
    ||| c == '/'
    ||| c == '_'
}

/// The lowercase hexadecimal digit for `d`, which is below 16.
pub open spec fn hex_digit(d: nat) -> char {
    if d < 10 {
        ('0' as u8 + d) as char
    } else {
        ('a' as u8 + d - 10) as char
    }
}

/// The lowercase hexadecimal numeral of `n`, without padding.
pub open spec fn hex_digits(n: nat) -> Seq<char>
    decreases n,
{
    if n < 16 {
        seq![hex_digit(n)]
    } else {
        hex_digits(n / 16).push(hex_digit(n % 16))
    }
}

/// The code point of `c`.
pub open spec fn code_point(c: char) -> nat {
    c as u32 as nat
}

/// What one character becomes.
pub open spec fn escape_char(c: char) -> Seq<char> {
    if is_plain(c) {
        seq![c]
    } else {
        seq!['_'] + hex_digits(code_point(c))
    }
}

/// What a name becomes: the escapes of its characters, in order.
pub open spec fn escape_seq(s: Seq<char>) -> Seq<char>
    decreases s.len(),
{
    if s.len() == 0 {
        Seq::empty()
    } else {
        escape_seq(s.drop_last()) + escape_char(s.last())
    }
}

/// The namespace under which the init daemon exposes its units.
pub open spec fn unit_path_prefix() -> Seq<char> {
    "/org/freedesktop/systemd1/unit/"@
}

/// The object path of the unit called `name`.
pub open spec fn unit_path_seq(name: Seq<char>) -> Seq<char> {
    unit_path_prefix() + escape_seq(name)
}

/// Every hexadecimal digit is a character that escaping leaves alone.
pub proof fn lemma_hex_digits_plain(n: nat)
    ensures
        hex_digits(n).len() >= 1,
        forall|i: int| 0 <= i < hex_digits(n).len() ==> is_plain(#[trigger] hex_digits(n)[i]),
    decreases n,
{
    if n >= 16 {
        lemma_hex_digits_plain(n / 16);
    }
}

/// A name made only of ASCII letters, digits, `/` and `_` is its own escape.
pub proof fn lemma_plain_name_unchanged(name: Seq<char>)
    requires
        forall|i: int| 0 <= i < name.len() ==> is_plain(#[trigger] name[i]),
    ensures
        escape_seq(name) == name,
    decreases name.len(),
{
    if name.len() > 0 {
        lemma_plain_name_unchanged(name.drop_last());
        assert(escape_seq(name) =~= name.drop_last() + seq![name.last()]);
        assert(name.drop_last() + seq![name.last()] =~= name);
    }
}

/// An escaped name holds only ASCII letters, digits, `/` and `_`.
pub proof fn lemma_escaped_is_plain(name: Seq<char>)
    ensures
        forall|i: int| 0 <= i < escape_seq(name).len() ==> is_plain(#[trigger] escape_seq(name)[i]),
    decreases name.len(),
{
    if name.len() > 0 {
        lemma_escaped_is_plain(name.drop_last());
        lemma_hex_digits_plain(code_point(name.last()));
        let head = escape_seq(name.drop_last());
        let tail = escape_char(name.last());
        assert forall|i: int| 0 <= i < escape_seq(name).len() implies is_plain(
            #[trigger] escape_seq(name)[i],
        ) by {
            if i < head.len() {
                assert(escape_seq(name)[i] == head[i]);
            } else {
                let j = i - head.len();
                assert(escape_seq(name)[i] == tail[j]);
                if !is_plain(name.last()) && j > 0 {
                    assert(tail[j] == hex_digits(code_point(name.last()))[j - 1]);
                }
            }
        }
    }
}

/// Escaping leaves its own output alone: a second pass changes nothing.
pub proof fn lemma_escape_twice(name: Seq<char>)
    ensures
        escape_seq(escape_seq(name)) == escape_seq(name),
{
    lemma_escaped_is_plain(name);
    lemma_plain_name_unchanged(escape_seq(name));
}

fn plain(c: char) -> (b: bool)
    ensures
        b == is_plain(c),
{
    ('a' <= c && c <= 'z') || ('A' <= c && c <= 'Z') || ('0' <= c && c <= '9') || c == '/' || c
        == '_'
}

fn digit_char(d: u32) -> (c: char)
    requires
        d < 16,
    ensures
        c == hex_digit(d as nat),
{
    if d < 10 {
        (('0' as u8) + (d as u8)) as char
    } else {
        (('a' as u8) + (d as u8 - 10)) as char
    }
}

fn push_hex(out: &mut Vec<char>, n: u32)
    ensures
        final(out)@ == old(out)@ + hex_digits(n as nat),
    decreases n,
{
    if n >= 16 {
        push_hex(out, n / 16);
    }
    out.push(digit_char(n % 16));
    assert(out@ =~= old(out)@ + hex_digits(n as nat));
}

/// Escapes a unit name for use as one segment of an object path.
///
/// ASCII letters and digits, `/` and `_` stay; every other character becomes
/// `_` followed by its code point in lowercase hexadecimal.
pub fn encode_as_dbus_object_path(input_string: &str) -> (escaped: String)
    ensures
        escaped@ == escape_seq(input_string@),
{
    let input = chars_of(input_string);
    let mut out: Vec<char> = Vec::new();
    let mut i: usize = 0;
    while i < input.len()
        invariant
            i <= input.len(),
            input@ == input_string@,
            out@ == escape_seq(input@.take(i as int)),
        decreases input.len() - i,
    {
        let c = input[i];
        proof {
            let next = input@.take(i + 1);
            assert(next.drop_last() =~= input@.take(i as int));
            assert(next.last() == c);
        }
        if plain(c) {
            out.push(c);
            assert(out@ =~= escape_seq(input@.take(i as int)) + seq![c]);
        } else {
            out.push('_');
            push_hex(&mut out, c as u32);
            assert(out@ =~= escape_seq(input@.take(i as int)) + (seq!['_'] + hex_digits(
                code_point(c),
            )));
        }
        i += 1;
    }
    assert(input@.take(input@.len() as int) =~= input@);
    string_of(&out)
}

/// The object path under which the init daemon exposes the unit
/// `full_service_name`.
pub fn get_unit_path(full_service_name: &str) -> (path: String)
    ensures
        path@ == unit_path_seq(full_service_name@),
{
    let mut out: Vec<char> = Vec::new();
    append_chars(&mut out, "/org/freedesktop/systemd1/unit/");
    let escaped = encode_as_dbus_object_path(full_service_name);
    append_chars(&mut out, escaped.as_str());
    assert(out@ =~= unit_path_prefix() + escape_seq(full_service_name@));
    string_of(&out)
}

} // verus!
