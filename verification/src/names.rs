//! Canonical unit names.
//!
//! A unit is known to the init daemon as `<base>.ser.service`. The base is
//! what the operator chose, or the final segment of the path of the script
//! that the unit runs, extension included.
use vstd::prelude::*;
use crate::escape::{get_unit_path, unit_path_seq};
use crate::text::{append_chars, chars_of, copy_range, ends_with, ends_with_seq, string_of};

verus! {

/// What every unit name of this product ends with.
pub open spec fn unit_suffix() -> Seq<char> {
    ".ser.service"@
}

/// The directory in which the init daemon looks for descriptors.
pub open spec fn descriptor_dir() -> Seq<char> {
    "/etc/systemd/system/"@
}

/// The index at which the final segment of a path starts: just behind its
/// last `/`, or 0 where it has none.
pub open spec fn segment_start(path: Seq<char>) -> int
    decreases path.len(),
{
    if path.len() == 0 {
        0
    } else if path.last() == '/' {
        path.len() as int
    } else {
        segment_start(path.drop_last())
    }
}

/// The final segment of a path: what follows its last `/`.
pub open spec fn last_segment(path: Seq<char>) -> Seq<char> {
    path.subrange(segment_start(path), path.len() as int)
}

/// The base that a unit gets from what the operator gave.
pub open spec fn base_of(input: Seq<char>, explicit_name: Option<Seq<char>>) -> Seq<char> {
    match explicit_name {
        Some(name) => name,
        None => if ends_with_seq(input, unit_suffix()) {
            input.take(input.len() - unit_suffix().len())
        } else {
            last_segment(input)
        },
    }
}

/// The full unit name for what the operator gave, or `None` where the base
/// would be empty.
pub open spec fn normalized(input: Seq<char>, explicit_name: Option<Seq<char>>) -> Option<
    Seq<char>,
> {
    let base = base_of(input, explicit_name);
    if base.len() == 0 {
        None
    } else {
        Some(base + unit_suffix())
    }
}

/// The characters of an optional string.
pub open spec fn opt_view(s: Option<&str>) -> Option<Seq<char>> {
    match s {
        Some(t) => Some(t@),
        None => None,
    }
}

/// Why a name was refused.
#[derive(Debug, Clone, Copy, PartialEq, Eq, Structural)]
pub enum NameError {
    /// The base of the unit name would be empty.
    InvalidInput,
}

/// The identity of a unit: a non-empty base followed by the product suffix.
#[derive(Debug)]
pub struct UnitName {
    full: String,
}

impl View for UnitName {
    type V = Seq<char>;

    closed spec fn view(&self) -> Seq<char> {
        self.full@
    }
}

impl UnitName {
    #[verifier::type_invariant]
    spec fn well_formed(&self) -> bool {
        is_unit_name(self.full@)
    }

    /// The base of the name: the name without the product suffix.
    pub open spec fn base(&self) -> Seq<char> {
        self@.take(self@.len() - unit_suffix().len())
    }

    /// The full name, as the init daemon knows the unit.
    pub fn as_str(&self) -> (s: &str)
        ensures
            s@ == self@,
            is_unit_name(self@),
    {
        proof {
            use_type_invariant(self);
        }
        self.full.as_str()
    }

    /// The base of the name, as the operator sees the unit.
    pub fn base_name(&self) -> (b: String)
        ensures
            b@ == self.base(),
            b@.len() > 0,
    {
        proof {
            use_type_invariant(self);
        }
        let full = chars_of(self.full.as_str());
        let tail = chars_of(".ser.service");
        let base = copy_range(&full, 0, full.len() - tail.len());
        string_of(&base)
    }

    /// The object path under which the init daemon exposes the unit.
    pub fn to_object_path(&self) -> (path: String)
        ensures
            path@ == unit_path_seq(self@),
    {
        get_unit_path(self.full.as_str())
    }

    /// The path of the unit's descriptor file.
    pub fn descriptor_path(&self) -> (path: String)
        ensures
            path@ == descriptor_dir() + self@,
    {
        get_service_file_path(self.full.as_str())
    }
}

/// Whether `name` is a non-empty base followed by the product suffix.
pub open spec fn is_unit_name(name: Seq<char>) -> bool {
    ends_with_seq(name, unit_suffix()) && name.len() > unit_suffix().len()
}

/// The start of the final segment lies inside the path.
pub proof fn lemma_segment_start_bounds(path: Seq<char>)
    ensures
        0 <= segment_start(path) <= path.len(),
        segment_start(path) > 0 ==> path[segment_start(path) - 1] == '/',
        forall|i: int| segment_start(path) <= i < path.len() ==> path[i] != '/',
    decreases path.len(),
{
    if path.len() > 0 && path.last() != '/' {
        let head = path.drop_last();
        lemma_segment_start_bounds(head);
        assert forall|i: int| segment_start(path) <= i < path.len() implies path[i] != '/' by {
            if i < head.len() {
                assert(path[i] == head[i]);
            }
        }
        if segment_start(path) > 0 {
            assert(path[segment_start(path) - 1] == head[segment_start(head) - 1]);
        }
    }
}

/// Normalizing a name that normalization produced gives that name again.
pub proof fn lemma_normalize_idempotent(input: Seq<char>, explicit_name: Option<Seq<char>>)
    requires
        normalized(input, explicit_name) is Some,
    ensures
        normalized(normalized(input, explicit_name)->Some_0, None) == normalized(
            input,
            explicit_name,
        ),
{
    let base = base_of(input, explicit_name);
    let full = base + unit_suffix();
    assert(full.subrange(full.len() - unit_suffix().len(), full.len() as int) =~= unit_suffix());
    assert(full.take(full.len() - unit_suffix().len()) =~= base);
}

/// What normalization produces is a unit name, and every unit name is
/// normalized to itself.
pub proof fn lemma_normalized_is_unit_name(input: Seq<char>, explicit_name: Option<Seq<char>>)
    ensures
        normalized(input, explicit_name) is Some ==> is_unit_name(
            normalized(input, explicit_name)->Some_0,
        ),
        is_unit_name(input) ==> normalized(input, None) == Some(input),
{
    let base = base_of(input, explicit_name);
    let full = base + unit_suffix();
    assert(full.subrange(full.len() - unit_suffix().len(), full.len() as int) =~= unit_suffix());
    if is_unit_name(input) {
        let cut = input.len() - unit_suffix().len();
        assert(input.take(cut) + input.subrange(cut, input.len() as int) =~= input);
    }
}

/// The index at which the final segment of `path` starts.
fn find_segment_start(path: &Vec<char>) -> (start: usize)
    ensures
        start == segment_start(path@),
        start <= path.len(),
{
    let mut i: usize = path.len();
    assert(path@.take(i as int) =~= path@);
    while i > 0
        invariant
            i <= path.len(),
            segment_start(path@) == segment_start(path@.take(i as int)),
        decreases i,
    {
        if path[i - 1] == '/' {
            return i;
        }
        assert(path@.take(i as int).drop_last() =~= path@.take(i - 1));
        i -= 1;
    }
    0
}

/// The final segment of a path: the name of the file that it leads to.
pub fn file_name_of(path: &str) -> (name: String)
    ensures
        name@ == last_segment(path@),
{
    let p = chars_of(path);
    let start = find_segment_start(&p);
    let segment = copy_range(&p, start, p.len());
    string_of(&segment)
}

/// Derives the canonical unit name from what the operator gave.
///
/// An explicit name is the base as it stands. Without one, an input that
/// already ends with the product suffix is kept unchanged; any other input
/// is read as a path, and its final segment, extension included, is the
/// base. An empty base is refused.
pub fn normalize(input: &str, explicit_name: Option<&str>) -> (r: Result<UnitName, NameError>)
    ensures
        match r {
            Ok(unit) => normalized(input@, opt_view(explicit_name)) == Some(unit@),
            Err(e) => e == NameError::InvalidInput && normalized(input@, opt_view(explicit_name))
                is None,
        },
{
    let tail = chars_of(".ser.service");
    let base: Vec<char> = match explicit_name {
        Some(name) => chars_of(name),
        None => {
            let given = chars_of(input);
            if ends_with(&given, &tail) {
                copy_range(&given, 0, given.len() - tail.len())
            } else {
                let start = find_segment_start(&given);
                copy_range(&given, start, given.len())
            }
        },
    };
    if base.len() == 0 {
        return Err(NameError::InvalidInput);
    }
    let mut full = base;
    append_chars(&mut full, ".ser.service");
    proof {
        lemma_normalized_is_unit_name(input@, opt_view(explicit_name));
    }
    Ok(UnitName { full: string_of(&full) })
}

/// The full unit name for a base: the base followed by the product suffix.
pub fn get_full_service_name(name: &str) -> (full: String)
    ensures
        full@ == name@ + unit_suffix(),
{
    let mut out = chars_of(name);
    append_chars(&mut out, ".ser.service");
    string_of(&out)
}

/// The path of the descriptor file of the unit `full_service_name`.
pub fn get_service_file_path(full_service_name: &str) -> (path: String)
    ensures
        path@ == descriptor_dir() + full_service_name@,
{
    let mut out = chars_of("/etc/systemd/system/");
    append_chars(&mut out, full_service_name);
    string_of(&out)
}

} // verus!
