//! Memory and processor use of a process, from the kernel's status files.
//!
//! The files are read by the caller; what they hold is taken apart here.
use vstd::prelude::*;
use crate::text::{chars_of, copy_range, split_words, strs_view, words};

verus! {

/// Why a status file gave no figure.
#[derive(Debug, Clone, Copy, PartialEq, Eq, Structural)]
pub enum StatusError {
    /// A field is missing or is no number.
    Malformed,
    /// The figure does not fit the machine's numbers.
    OutOfRange,
}

/// Whether `c` is a decimal digit.
pub open spec fn is_digit(c: char) -> bool {
    '0' <= c <= '9'
}

/// The value of a decimal digit.
pub open spec fn digit_value(c: char) -> nat {
    (c as u32 - '0' as u32) as nat
}

/// Whether `s` holds decimal digits only.
pub open spec fn all_digits(s: Seq<char>) -> bool {
    forall|i: int| 0 <= i < s.len() ==> is_digit(#[trigger] s[i])
}

/// The number that a string of decimal digits writes.
pub open spec fn digits_value(s: Seq<char>) -> nat
    decreases s.len(),
{
    if s.len() == 0 {
        0
    } else {
        digits_value(s.drop_last()) * 10 + digit_value(s.last())
    }
}

/// A numeral without the `+` that may stand before it.
pub open spec fn unsigned_body(s: Seq<char>) -> Seq<char> {
    if s.len() > 0 && s[0] == '+' {
        s.subrange(1, s.len() as int)
    } else {
        s
    }
}

/// The number that `s` writes: one or more decimal digits, behind one `+`
/// or none, whose value fits 64 bits.
pub open spec fn parsed_u64(s: Seq<char>) -> Option<u64> {
    let body = unsigned_body(s);
    if body.len() > 0 && all_digits(body) && digits_value(body) <= u64::MAX {
        Some(digits_value(body) as u64)
    } else {
        None
    }
}

/// The number that `s` writes, or 0 where it writes none.
pub open spec fn parsed_or_zero(s: Seq<char>) -> u64 {
    match parsed_u64(s) {
        Some(n) => n,
        None => 0,
    }
}

/// Whether `s` starts with `head`.
pub open spec fn starts_with_seq(s: Seq<char>, head: Seq<char>) -> bool {
    s.len() >= head.len() && s.subrange(0, head.len() as int) == head
}

/// The page size that a line of the memory map states, where it states one:
/// the second word of a line that starts with `KernelPageSize:`.
pub open spec fn page_size_of_line(line: Seq<char>) -> Option<u64> {
    if starts_with_seq(line, "KernelPageSize:"@) && words(line).len() >= 2 {
        parsed_u64(words(line)[1])
    } else {
        None
    }
}

/// The page size that the first line to state one states.
pub open spec fn page_size_in(lines: Seq<Seq<char>>) -> Option<u64>
    decreases lines.len(),
{
    if lines.len() == 0 {
        None
    } else {
        match page_size_of_line(lines[0]) {
            Some(size) => Some(size),
            None => page_size_in(lines.drop_first()),
        }
    }
}

/// The memory that a process holds for itself, in the unit of the page
/// size: its resident pages less the shared ones, times the page size. The
/// two counts are the second and third field of the file; one that is no
/// number counts as 0.
pub open spec fn memory_usage(statm: Seq<char>, page_size_kb: u64) -> Result<u64, StatusError> {
    let fields = words(statm);
    if fields.len() < 3 {
        Err(StatusError::Malformed)
    } else {
        let rss = parsed_or_zero(fields[1]);
        let shared = parsed_or_zero(fields[2]);
        if rss < shared || (rss - shared) * page_size_kb > u64::MAX {
            Err(StatusError::OutOfRange)
        } else {
            Ok(((rss - shared) * page_size_kb) as u64)
        }
    }
}

/// The processor time of a process in clock ticks: the time in user mode,
/// which is the 14th field of the file, plus the time in kernel mode, the
/// 15th.
pub open spec fn cpu_time(stat: Seq<char>) -> Result<u64, StatusError> {
    let fields = words(stat);
    if fields.len() < 15 {
        Err(StatusError::Malformed)
    } else {
        match (parsed_u64(fields[13]), parsed_u64(fields[14])) {
            (Some(utime), Some(stime)) => if utime + stime > u64::MAX {
                Err(StatusError::OutOfRange)
            } else {
                Ok((utime + stime) as u64)
            },
            _ => Err(StatusError::Malformed),
        }
    }
}

/// A numeral is worth at least as much as each of its beginnings.
proof fn lemma_digits_value_prefix(s: Seq<char>, k: int)
    requires
        0 <= k <= s.len(),
    ensures
        digits_value(s.take(k)) <= digits_value(s),
    decreases s.len(),
{
    if k == s.len() {
        assert(s.take(k) =~= s);
    } else {
        lemma_digits_value_prefix(s.drop_last(), k);
        assert(s.drop_last().take(k) =~= s.take(k));
    }
}

/// Reads a number as `parsed_u64` defines it.
pub fn parse_u64(s: &str) -> (r: Option<u64>)
    ensures
        r == parsed_u64(s@),
{
    let v = chars_of(s);
    let start: usize = if v.len() > 0 && v[0] == '+' {
        1
    } else {
        0
    };
    if start == v.len() {
        return None;
    }
    let ghost body = unsigned_body(s@);
    let mut acc: u64 = 0;
    let mut i: usize = start;
    assert(body.take(0) =~= Seq::<char>::empty());
    while i < v.len()
        invariant
            start <= i <= v.len(),
            v@ == s@,
            body == v@.subrange(start as int, v@.len() as int),
            body == unsigned_body(s@),
            all_digits(body.take(i - start)),
            acc == digits_value(body.take(i - start)),
        decreases v.len() - i,
    {
        let c = v[i];
        assert(body[i - start] == c);
        if !('0' <= c && c <= '9') {
            assert(!is_digit(body[i - start]));
            return None;
        }
        let d: u64 = (c as u32 - '0' as u32) as u64;
        proof {
            let next = body.take(i - start + 1);
            assert(next.drop_last() =~= body.take(i - start));
            assert(next.last() == c);
            assert(digits_value(next) == acc * 10 + d);
            lemma_digits_value_prefix(body, i - start + 1);
            assert forall|j: int| 0 <= j < next.len() implies is_digit(#[trigger] next[j]) by {
                if j < next.len() - 1 {
                    assert(next[j] == body.take(i - start)[j]);
                }
            }
        }
        if acc > (u64::MAX - d) / 10 {
            return None;
        }
        acc = acc * 10 + d;
        i += 1;
    }
    assert(body.take(body.len() as int) =~= body);
    Some(acc)
}

fn starts_with(v: &Vec<char>, head: &Vec<char>) -> (b: bool)
    ensures
        b == starts_with_seq(v@, head@),
{
    if v.len() < head.len() {
        return false;
    }
    let mut i: usize = 0;
    while i < head.len()
        invariant
            i <= head.len() <= v.len(),
            forall|j: int| 0 <= j < i ==> v@[j] == head@[j],
        decreases head.len() - i,
    {
        if v[i] != head[i] {
            assert(v@.subrange(0, head@.len() as int)[i as int] != head@[i as int]);
            return false;
        }
        i += 1;
    }
    assert(v@.subrange(0, head@.len() as int) =~= head@);
    true
}

/// The page size that one line of the memory map states, where it does.
pub fn page_size_from_line(line: &str) -> (r: Option<u64>)
    ensures
        r == page_size_of_line(line@),
{
    let v = chars_of(line);
    let head = chars_of("KernelPageSize:");
    if !starts_with(&v, &head) {
        return None;
    }
    let fields = split_words(line);
    if fields.len() < 2 {
        return None;
    }
    assert(strs_view(fields@)[1] == fields@[1]@);
    parse_u64(fields[1].as_str())
}

/// Gets the kernel page size of the system in KB from the lines of the
/// process's memory map: the size that the first line to state one states.
pub fn get_page_size(lines: &Vec<String>) -> (r: Result<u64, StatusError>)
    ensures
        r == match page_size_in(strs_view(lines@)) {
            Some(size) => Ok::<u64, StatusError>(size),
            None => Err::<u64, StatusError>(StatusError::Malformed),
        },
{
    let ghost all = strs_view(lines@);
    let mut i: usize = 0;
    assert(all.skip(0) =~= all);
    while i < lines.len()
        invariant
            i <= lines.len(),
            all == strs_view(lines@),
            page_size_in(all) == page_size_in(all.skip(i as int)),
        decreases lines.len() - i,
    {
        assert(all.skip(i as int)[0] == lines@[i as int]@);
        assert(all.skip(i as int).drop_first() =~= all.skip(i + 1));
        match page_size_from_line(lines[i].as_str()) {
            Some(size) => {
                return Ok(size);
            },
            None => {},
        }
        i += 1;
    }
    Err(StatusError::Malformed)
}

/// Gets the memory used by a process in KB from its memory status file
/// and the page size in KB.
pub fn get_memory_usage(statm: &str, page_size_kb: u64) -> (r: Result<u64, StatusError>)
    ensures
        r == memory_usage(statm@, page_size_kb),
{
    let fields = split_words(statm);
    if fields.len() < 3 {
        return Err(StatusError::Malformed);
    }
    assert(strs_view(fields@)[1] == fields@[1]@);
    assert(strs_view(fields@)[2] == fields@[2]@);
    let rss: u64 = match parse_u64(fields[1].as_str()) {
        Some(n) => n,
        None => 0,
    };
    let shared: u64 = match parse_u64(fields[2].as_str()) {
        Some(n) => n,
        None => 0,
    };
    if rss < shared {
        return Err(StatusError::OutOfRange);
    }
    match (rss - shared).checked_mul(page_size_kb) {
        Some(kb) => Ok(kb),
        None => Err(StatusError::OutOfRange),
    }
}

/// Gets the CPU time of a process in clock ticks from its status file.
pub fn get_cpu_time(stat: &str) -> (r: Result<u64, StatusError>)
    ensures
        r == cpu_time(stat@),
{
    let fields = split_words(stat);
    if fields.len() < 15 {
        return Err(StatusError::Malformed);
    }
    assert(strs_view(fields@)[13] == fields@[13]@);
    assert(strs_view(fields@)[14] == fields@[14]@);
    let utime: u64 = match parse_u64(fields[13].as_str()) {
        Some(n) => n,
        None => {
            return Err(StatusError::Malformed);
        },
    };
    let stime: u64 = match parse_u64(fields[14].as_str()) {
        Some(n) => n,
        None => {
            return Err(StatusError::Malformed);
        },
    };
    match utime.checked_add(stime) {
        Some(ticks) => Ok(ticks),
        None => Err(StatusError::OutOfRange),
    }
}

} // verus!
