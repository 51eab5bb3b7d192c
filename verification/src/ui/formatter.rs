//! Display strings for values, storage entries and calls, and the colouring
//! of status messages.

use crate::text::{decimal, spec_decimal};
use crossterm::style::Stylize;
use vstd::prelude::*;
use vstd::string::*;

verus! {

/// The kinds of status message, each with a colour of its own.
#[derive(Copy, Clone, Debug, PartialEq, Eq, Structural)]
enum ColorKind {
    Info,
    Success,
    Warning,
    Error,
}

/// Renders text for the terminal. Whether status messages are coloured is
/// decided when the formatter is built or configured, not by ambient state.
#[derive(Debug, Clone, Copy)]
pub struct Formatter {
    color_enabled: bool,
}

/// `key = value`, as a storage entry is shown.
pub open spec fn spec_storage_entry(key: Seq<char>, value: Seq<char>) -> Seq<char> {
    key + seq![' ', '=', ' '] + value
}

/// `name(args)`, with nothing between the brackets where there are no
/// arguments.
pub open spec fn spec_function_call(name: Seq<char>, args: Option<Seq<char>>) -> Seq<char> {
    match args {
        Some(a) => name + seq!['('] + a + seq![')'],
        None => name + seq!['(', ')'],
    }
}

/// The budget line: consumption and limit of each meter in decimal, each
/// followed by the given percentage text.
pub open spec fn spec_budget(
    cpu: nat,
    cpu_limit: nat,
    cpu_percent: Seq<char>,
    mem: nat,
    mem_limit: nat,
    mem_percent: Seq<char>,
) -> Seq<char> {
    seq!['C', 'P', 'U', ':', ' '] + spec_decimal(cpu) + seq!['/'] + spec_decimal(cpu_limit) + seq![
        ' ',
        '(',
    ] + cpu_percent + seq!['%', ')', ' ', '|', ' ', 'M', 'e', 'm', 'o', 'r', 'y', ':', ' ']
        + spec_decimal(mem) + seq!['/'] + spec_decimal(mem_limit) + seq![
        ' ',
        'b',
        'y',
        't',
        'e',
        's',
        ' ',
        '(',
    ] + mem_percent + seq!['%', ')']
}

/// `crossterm`'s `Stylize::blue` on `message`, rendered through `Display`.
/// The text that comes back depends on the `NO_COLOR` variable and on the
/// console the process is attached to, so nothing is claimed of it.
#[verifier::external_body]
fn paint_blue(message: &str) -> String {
    format!("{}", message.blue())
}

/// `crossterm`'s `Stylize::green` on `message`, rendered through `Display`.
/// The text that comes back depends on the `NO_COLOR` variable and on the
/// console the process is attached to, so nothing is claimed of it.
#[verifier::external_body]
fn paint_green(message: &str) -> String {
    format!("{}", message.green())
}

/// `crossterm`'s `Stylize::yellow` on `message`, rendered through `Display`.
/// The text that comes back depends on the `NO_COLOR` variable and on the
/// console the process is attached to, so nothing is claimed of it.
#[verifier::external_body]
fn paint_yellow(message: &str) -> String {
    format!("{}", message.yellow())
}

/// `crossterm`'s `Stylize::red` on `message`, rendered through `Display`.
/// The text that comes back depends on the `NO_COLOR` variable and on the
/// console the process is attached to, so nothing is claimed of it.
#[verifier::external_body]
fn paint_red(message: &str) -> String {
    format!("{}", message.red())
}

impl Formatter {
    /// Whether status messages are handed to the terminal styling.
    pub closed spec fn colors_enabled(&self) -> bool {
        self.color_enabled
    }

    /// A formatter with colours switched on.
    pub fn new() -> (r: Self)
        ensures
            r.colors_enabled(),
    {
        Formatter { color_enabled: true }
    }

    /// Format a value for display: the value itself.
    pub fn format_value(value: &str) -> (r: String)
        ensures
            r@ == value@,
    {
        value.to_owned()
    }

    /// Format a storage key-value pair as `key = value`.
    pub fn format_storage_entry(key: &str, value: &str) -> (r: String)
        ensures
            r@ == spec_storage_entry(key@, value@),
    {
        let mut out = key.to_owned();
        proof {
            reveal_strlit(" = ");
        }
        out.append(" = ");
        out.append(value);
        out
    }

    /// Format a function call as `name(args)`, or `name()` without
    /// arguments.
    pub fn format_function_call(name: &str, args: Option<&str>) -> (r: String)
        ensures
            r@ == spec_function_call(
                name@,
                match args {
                    Some(a) => Some(a@),
                    None => None,
                },
            ),
    {
        let mut out = name.to_owned();
        proof {
            reveal_strlit("(");
            reveal_strlit(")");
            reveal_strlit("()");
        }
        match args {
            Some(a) => {
                out.append("(");
                out.append(a);
                out.append(")");
            },
            None => {
                out.append("()");
            },
        }
        out
    }

    /// Format budget information as
    /// `CPU: used/limit (p%) | Memory: used/limit bytes (q%)`. The two
    /// percentages come as text: they are ratios rounded to one decimal
    /// place, which the caller computes.
    pub fn format_budget(
        cpu: u64,
        cpu_limit: u64,
        cpu_percent: &str,
        mem: u64,
        mem_limit: u64,
        mem_percent: &str,
    ) -> (r: String)
        ensures
            r@ == spec_budget(
                cpu as nat,
                cpu_limit as nat,
                cpu_percent@,
                mem as nat,
                mem_limit as nat,
                mem_percent@,
            ),
    {
        proof {
            reveal_strlit("CPU: ");
            reveal_strlit("/");
            reveal_strlit(" (");
            reveal_strlit("%) | Memory: ");
            reveal_strlit(" bytes (");
            reveal_strlit("%)");
        }
        let mut out = "CPU: ".to_owned();
        out.append(decimal(cpu).as_str());
        out.append("/");
        out.append(decimal(cpu_limit).as_str());
        out.append(" (");
        out.append(cpu_percent);
        out.append("%) | Memory: ");
        out.append(decimal(mem).as_str());
        out.append("/");
        out.append(decimal(mem_limit).as_str());
        out.append(" bytes (");
        out.append(mem_percent);
        out.append("%)");
        out
    }

    /// Format an informational message in blue.
    pub fn info(&self, message: &str) -> (r: String)
        ensures
            !self.colors_enabled() ==> r@ == message@,
    {
        self.apply_color(message, ColorKind::Info)
    }

    /// Format a success message in green.
    pub fn success(&self, message: &str) -> (r: String)
        ensures
            !self.colors_enabled() ==> r@ == message@,
    {
        self.apply_color(message, ColorKind::Success)
    }

    /// Format a warning message in yellow.
    pub fn warning(&self, message: &str) -> (r: String)
        ensures
            !self.colors_enabled() ==> r@ == message@,
    {
        self.apply_color(message, ColorKind::Warning)
    }

    /// Format an error message in red.
    pub fn error(&self, message: &str) -> (r: String)
        ensures
            !self.colors_enabled() ==> r@ == message@,
    {
        self.apply_color(message, ColorKind::Error)
    }

    /// Configure whether status messages are coloured.
    pub fn configure_colors(&mut self, enable: bool)
        ensures
            final(self).colors_enabled() == enable,
    {
        self.color_enabled = enable;
    }

    /// With colours off the message comes back unchanged; with colours on
    /// it is whatever the terminal styling makes of it.
    fn apply_color(&self, message: &str, kind: ColorKind) -> (r: String)
        ensures
            !self.colors_enabled() ==> r@ == message@,
    {
        if !self.color_enabled {
            return message.to_owned();
        }
        match kind {
            ColorKind::Info => paint_blue(message),
            ColorKind::Success => paint_green(message),
            ColorKind::Warning => paint_yellow(message),
            ColorKind::Error => paint_red(message),
        }
    }
}

} // verus!
