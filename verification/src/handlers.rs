//! The handlers for an installed descriptor: showing it, editing it, and
//! following the unit's log.
//!
//! Each handler says what to show or what to run; reading files, running the
//! editor and the log reader is left to the caller.
use vstd::prelude::*;
use crate::names::{descriptor_dir, opt_view, unit_suffix};
use crate::text::{append_chars, chars_of, owned, string_of, strs_view};

verus! {

/// The decimal digit for `d`, which is below 10.
pub open spec fn decimal_digit(d: nat) -> char {
    ('0' as u8 + d) as char
}

/// The decimal numeral of `n`, without padding.
pub open spec fn decimal(n: nat) -> Seq<char>
    decreases n,
{
    if n < 10 {
        seq![decimal_digit(n)]
    } else {
        decimal(n / 10).push(decimal_digit(n % 10))
    }
}

/// The path of the descriptor of the service with the given base.
pub open spec fn descriptor_path_of(name: Seq<char>) -> Seq<char> {
    descriptor_dir() + (name + unit_suffix())
}

/// What the print handler reports for a descriptor with the given contents:
/// the contents under a heading, or a complaint where there is no file.
pub open spec fn print_report(name: Seq<char>, contents: Option<Seq<char>>) -> Result<
    Seq<char>,
    Seq<char>,
> {
    match contents {
        Some(text) => Ok("Reading "@ + descriptor_path_of(name) + ":\n"@ + text),
        None => Err(descriptor_path_of(name) + ": No such file"@),
    }
}

/// The arguments with which the log reader is run.
pub open spec fn log_arguments(name: Seq<char>, lines: u32, follow: bool) -> Seq<Seq<char>> {
    let fixed = seq!["-u"@, name + unit_suffix(), "-n"@, decimal(lines as nat)];
    if follow {
        fixed.push("--follow"@)
    } else {
        fixed
    }
}

/// The descriptor that the editor is first shown for a new service.
pub open spec fn service_template() -> Seq<char> {
    "\n# Generated with servicer\n[Unit]\nDescription=My Sample Service\nAfter=network.target\n\n[Service]\nType=simple\nExecStart=/path/to/your/command\nRestart=always\n\n# Add a reload script to enable the `reload` command\n# ExecReload=\n\n[Install]\nWantedBy=multi-user.target\n"@
}

/// What the editor is to be run on.
#[derive(Debug)]
pub enum EditPlan {
    /// The installed descriptor itself.
    InPlace { path: String },
    /// A temporary file whose name starts with `prefix`, filled with
    /// `template`, which is installed at `destination` once edited.
    FromTemplate { prefix: String, template: String, destination: String },
}

/// Whether `plan` is the plan for editing the service with the given base.
pub open spec fn edit_plan_ok(name: Seq<char>, descriptor_exists: bool, plan: EditPlan) -> bool {
    match plan {
        EditPlan::InPlace { path } => descriptor_exists && path@ == descriptor_path_of(name),
        EditPlan::FromTemplate { prefix, template, destination } => {
            &&& !descriptor_exists
            &&& prefix@ == name + unit_suffix()
            &&& template@ == service_template()
            &&& destination@ == descriptor_path_of(name)
        },
    }
}

/// How an edit ended.
#[derive(Debug, Clone, Copy, PartialEq, Eq, Structural)]
pub enum EditResult {
    /// The installed descriptor was changed.
    Edited,
    /// The edited template is to be installed as the descriptor.
    Created,
    /// The installed descriptor was left as it was.
    EditCanceled,
    /// The template was left as it was: nothing is installed.
    CreateCanceled,
}

fn digit(d: u32) -> (c: char)
    requires
        d < 10,
    ensures
        c == decimal_digit(d as nat),
{
    (('0' as u8) + (d as u8)) as char
}

fn push_decimal(out: &mut Vec<char>, n: u32)
    ensures
        final(out)@ == old(out)@ + decimal(n as nat),
    decreases n,
{
    if n >= 10 {
        push_decimal(out, n / 10);
    }
    out.push(digit(n % 10));
    assert(out@ =~= old(out)@ + decimal(n as nat));
}

fn descriptor_path_chars(name: &str) -> (out: Vec<char>)
    ensures
        out@ == descriptor_path_of(name@),
{
    let mut out = chars_of("/etc/systemd/system/");
    append_chars(&mut out, name);
    append_chars(&mut out, ".ser.service");
    assert(out@ =~= descriptor_path_of(name@));
    out
}

/// The characters of a report, on either side.
pub open spec fn report_view(r: Result<String, String>) -> Result<Seq<char>, Seq<char>> {
    match r {
        Ok(s) => Ok(s@),
        Err(s) => Err(s@),
    }
}

/// Reports the contents of the descriptor of a service.
///
/// `contents` is what the descriptor file holds, or `None` where there is
/// no such file. The report is for the operator to read; the complaint, for
/// the error stream.
pub fn handle_print_service_file(name: &str, contents: Option<&str>) -> (r: Result<String, String>)
    ensures
        report_view(r) == print_report(name@, opt_view(contents)),
{
    match contents {
        Some(text) => {
            let mut out = chars_of("Reading ");
            let path = descriptor_path_chars(name);
            append_chars(&mut out, string_of(&path).as_str());
            append_chars(&mut out, ":\n");
            append_chars(&mut out, text);
            Ok(string_of(&out))
        },
        None => {
            let mut out = descriptor_path_chars(name);
            append_chars(&mut out, ": No such file");
            Err(string_of(&out))
        },
    }
}

/// The arguments with which the log reader shows the last `lines` lines of
/// a service's log, and goes on with what comes where `follow` is set.
pub fn handle_show_logs(name: &str, lines: u32, follow: bool) -> (args: Vec<String>)
    ensures
        strs_view(args@) == log_arguments(name@, lines, follow),
{
    let mut args: Vec<String> = Vec::new();
    args.push(owned("-u"));
    let mut full = chars_of(name);
    append_chars(&mut full, ".ser.service");
    args.push(string_of(&full));
    args.push(owned("-n"));
    let mut count: Vec<char> = Vec::new();
    push_decimal(&mut count, lines);
    assert(count@ =~= decimal(lines as nat));
    args.push(string_of(&count));
    if follow {
        args.push(owned("--follow"));
    }
    assert(strs_view(args@) =~= log_arguments(name@, lines, follow));
    args
}

/// Plans the edit of the descriptor of a service: the installed file is
/// edited where it is; a service without one starts from a template.
pub fn handle_edit_service_file(name: &str, descriptor_exists: bool) -> (plan: EditPlan)
    ensures
        edit_plan_ok(name@, descriptor_exists, plan),
{
    let path = string_of(&descriptor_path_chars(name));
    if descriptor_exists {
        EditPlan::InPlace { path }
    } else {
        let mut prefix = chars_of(name);
        append_chars(&mut prefix, ".ser.service");
        let template = owned(
            "\n# Generated with servicer\n[Unit]\nDescription=My Sample Service\nAfter=network.target\n\n[Service]\nType=simple\nExecStart=/path/to/your/command\nRestart=always\n\n# Add a reload script to enable the `reload` command\n# ExecReload=\n\n[Install]\nWantedBy=multi-user.target\n",
        );
        EditPlan::FromTemplate { prefix: string_of(&prefix), template, destination: path }
    }
}

/// Whether a run of the editor changed the file: the editor ended well and
/// the file's modification time is another than before.
pub fn edit_file(exited_ok: bool, modified_before: u64, modified_after: u64) -> (edited: bool)
    ensures
        edited == (exited_ok && modified_before != modified_after),
{
    exited_ok && modified_before != modified_after
}

/// How an edit ended, from whether a descriptor was installed and whether
/// the editor changed the file.
pub fn conclude_edit(descriptor_exists: bool, edited: bool) -> (r: EditResult)
    ensures
        r == if descriptor_exists {
            if edited {
                EditResult::Edited
            } else {
                EditResult::EditCanceled
            }
        } else {
            if edited {
                EditResult::Created
            } else {
                EditResult::CreateCanceled
            }
        },
{
    if descriptor_exists {
        if edited {
            EditResult::Edited
        } else {
            EditResult::EditCanceled
        }
    } else {
        if edited {
            EditResult::Created
        } else {
            EditResult::CreateCanceled
        }
    }
}

} // verus!
