//! Object paths of the bus, and which unit names escape to one.
use vstd::prelude::*;
use crate::escape::{
    code_point,
    escape_char,
    escape_seq,
    hex_digit,
    hex_digits,
    is_plain,
    lemma_escaped_is_plain,
    unit_path_prefix,
    unit_path_seq,
};

use crate::names::{
    last_segment,
    lemma_segment_start_bounds,
    normalized,
    segment_start,
    unit_suffix,
};
use crate::text::ends_with_seq;

verus! {

/// Whether no two `/` stand side by side in `s`.
pub open spec fn no_double_slash(s: Seq<char>) -> bool {
    forall|i: int| 0 <= i < s.len() - 1 ==> !(#[trigger] s[i] == '/' && s[i + 1] == '/')
}

/// Whether `path` is an object path of the bus: `/` alone, or one or more
/// non-empty elements of ASCII letters, digits and `_`, each behind a `/`.
pub open spec fn is_object_path(path: Seq<char>) -> bool {
    &&& path.len() >= 1
    &&& path[0] == '/'
    &&& forall|i: int| 0 <= i < path.len() ==> is_plain(#[trigger] path[i])
    &&& no_double_slash(path)
    &&& (path.len() > 1 ==> path.last() != '/')
}

/// Whether the unit called `name` can be addressed on the bus: the name is
/// not empty, neither starts nor ends with `/`, and holds no `//`.
pub open spec fn is_addressable(name: Seq<char>) -> bool {
    &&& name.len() > 0
    &&& name[0] != '/'
    &&& name.last() != '/'
    &&& no_double_slash(name)
}

/// Asks `zbus::ObjectPath::try_from` whether it takes `path`.
///
/// The bus library takes exactly the object paths: a leading `/`, elements
/// of ASCII letters, digits and `_` separated by single `/`, and no `/` at
/// the end of a path longer than the root.
#[verifier::external_body]
pub(crate) fn accepts_object_path(path: &str) -> (ok: bool)
    ensures
        ok == is_object_path(path@),
{
    zbus::ObjectPath::try_from(path).is_ok()
}

/// No hexadecimal digit is a `/`.
proof fn lemma_hex_digits_no_slash(n: nat)
    ensures
        forall|i: int| 0 <= i < hex_digits(n).len() ==> #[trigger] hex_digits(n)[i] != '/',
    decreases n,
{
    if n >= 16 {
        lemma_hex_digits_no_slash(n / 16);
    }
    let last = hex_digit(n % 16);
    assert('0' <= last <= '9' || 'a' <= last <= 'f');
    assert forall|i: int| 0 <= i < hex_digits(n).len() implies #[trigger] hex_digits(n)[i]
        != '/' by {
        if n >= 16 && i < hex_digits(n / 16).len() {
            assert(hex_digits(n)[i] == hex_digits(n / 16)[i]);
        } else {
            assert(hex_digits(n)[i] == last);
        }
    }
}

/// The escape of a character is never empty, and holds a `/` only where the
/// character is one.
proof fn lemma_escape_char_slash(c: char)
    ensures
        escape_char(c).len() >= 1,
        c == '/' ==> escape_char(c) == seq!['/'],
        c != '/' ==> forall|i: int| 0 <= i < escape_char(c).len() ==> #[trigger] escape_char(c)[i] != '/',
{
    if !is_plain(c) {
        lemma_hex_digits_no_slash(code_point(c));
    }
}

/// Two non-empty pieces hold no `//` once joined where neither does alone
/// and no `/` ends the first while another starts the second.
proof fn lemma_no_double_slash_concat(a: Seq<char>, b: Seq<char>)
    requires
        a.len() > 0,
        b.len() > 0,
    ensures
        no_double_slash(a + b) <==> (no_double_slash(a) && no_double_slash(b) && !(a.last() == '/'
            && b[0] == '/')),
{
    let ab = a + b;
    if no_double_slash(ab) {
        assert forall|i: int| 0 <= i < a.len() - 1 implies !(#[trigger] a[i] == '/' && a[i + 1]
            == '/') by {
            assert(ab[i] == a[i] && ab[i + 1] == a[i + 1]);
        }
        assert forall|i: int| 0 <= i < b.len() - 1 implies !(#[trigger] b[i] == '/' && b[i + 1]
            == '/') by {
            assert(ab[a.len() + i] == b[i] && ab[a.len() + i + 1] == b[i + 1]);
        }
        assert(ab[a.len() - 1] == a.last() && ab[a.len() - 1 + 1] == b[0]);
    }
    if no_double_slash(a) && no_double_slash(b) && !(a.last() == '/' && b[0] == '/') {
        assert forall|i: int| 0 <= i < ab.len() - 1 implies !(#[trigger] ab[i] == '/' && ab[i + 1]
            == '/') by {
            if i < a.len() - 1 {
                assert(ab[i] == a[i] && ab[i + 1] == a[i + 1]);
            } else if i == a.len() - 1 {
                assert(ab[i] == a.last() && ab[i + 1] == b[0]);
            } else {
                assert(ab[i] == b[i - a.len()] && ab[i + 1] == b[i - a.len() + 1]);
            }
        }
    }
}

/// What the namespace prefix looks like: it starts and ends with `/`, holds
/// no `//`, and is made of characters that an object path may hold.
proof fn lemma_prefix_shape()
    ensures
        unit_path_prefix().len() > 1,
        unit_path_prefix()[0] == '/',
        unit_path_prefix().last() == '/',
        no_double_slash(unit_path_prefix()),
        forall|i: int| 0 <= i < unit_path_prefix().len() ==> is_plain(#[trigger] unit_path_prefix()[i]),
{
    reveal_strlit("/org/freedesktop/systemd1/unit/");
}

/// Where the object path of a unit ends with `/`, and when it holds `//`.
proof fn lemma_unit_path_slashes(name: Seq<char>)
    ensures
        unit_path_seq(name).len() >= unit_path_prefix().len(),
        unit_path_seq(name).last() == '/' <==> (name.len() == 0 || name.last() == '/'),
        no_double_slash(unit_path_seq(name)) <==> (no_double_slash(name) && (name.len() > 0
            ==> name[0] != '/')),
    decreases name.len(),
{
    lemma_prefix_shape();
    if name.len() == 0 {
        assert(unit_path_seq(name) =~= unit_path_prefix());
    } else {
        let head = name.drop_last();
        let c = name.last();
        let e = escape_char(c);
        lemma_unit_path_slashes(head);
        lemma_escape_char_slash(c);
        let q = unit_path_seq(head);
        assert(unit_path_seq(name) =~= q + e);
        lemma_no_double_slash_concat(q, e);
        assert((q + e).last() == e.last());
        assert(no_double_slash(e));
        if head.len() > 0 {
            assert(name[0] == head[0]);
            lemma_no_double_slash_concat(head, seq![c]);
            assert(head + seq![c] =~= name);
        }
    }
}

/// The object path of a unit is one that the bus takes exactly where the
/// unit's name can be addressed.
pub proof fn lemma_unit_path_addressable(name: Seq<char>)
    ensures
        is_object_path(unit_path_seq(name)) <==> is_addressable(name),
{
    lemma_prefix_shape();
    lemma_unit_path_slashes(name);
    lemma_escaped_is_plain(name);
    let path = unit_path_seq(name);
    assert(path[0] == unit_path_prefix()[0]);
    assert forall|i: int| 0 <= i < path.len() implies is_plain(#[trigger] path[i]) by {
        if i < unit_path_prefix().len() {
            assert(path[i] == unit_path_prefix()[i]);
        } else {
            assert(path[i] == escape_seq(name)[i - unit_path_prefix().len()]);
        }
    }
}

/// A unit named after the final segment of a path can always be
/// addressed: the segment holds no `/`, and neither does the suffix.
/// A path that already ends with the suffix is left out: it is kept as the
/// name, with every `/` that it holds.
pub proof fn lemma_segment_name_addressable(path: Seq<char>)
    requires
        last_segment(path).len() > 0,
        !ends_with_seq(path, unit_suffix()),
    ensures
        normalized(path, None) == Some(last_segment(path) + unit_suffix()),
        is_addressable(last_segment(path) + unit_suffix()),
{
    lemma_segment_start_bounds(path);
    reveal_strlit(".ser.service");
    let segment = last_segment(path);
    let full = segment + unit_suffix();
    assert forall|i: int| 0 <= i < full.len() implies #[trigger] full[i] != '/' by {
        if i < segment.len() {
            assert(full[i] == path[segment_start(path) + i]);
        } else {
            assert(full[i] == unit_suffix()[i - segment.len()]);
        }
    }
}

} // verus!
