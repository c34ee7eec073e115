//! The tray program's log-line layout: records of the program's own
//! modules are printed as a level label padded to five columns, the
//! target and the message; records of other crates are dropped.

use vstd::prelude::*;
use crate::text::{is_prefix, starts_with};

verus! {

/// The severity of a log record.
#[derive(Debug, Clone, PartialEq)]
pub enum Level {
    Error,
    Warn,
    Info,
    Debug,
    Trace,
}

/// The terminal colours that a log line is shown in: the level labels'
/// colours, and a colour of the 256-colour palette by its number.
#[derive(Debug, Clone, PartialEq)]
pub enum Color {
    Red,
    Yellow,
    Green,
    Blue,
    Cyan,
    Ansi256(u8),
}

/// The colour of the target: grey, colour 245 of the 256-colour palette.
pub open spec fn target_color_of() -> Color {
    Color::Ansi256(245)
}

/// How a level label is styled.
#[derive(Debug, Clone, PartialEq)]
pub struct LevelStyle {
    pub color: Color,
    pub bold: bool,
}

/// The level's name, left-aligned in five columns.
pub open spec fn level_label_text(level: Level) -> Seq<char> {
    match level {
        Level::Error => "ERROR"@,
        Level::Warn => "WARN "@,
        Level::Info => "INFO "@,
        Level::Debug => "DEBUG"@,
        Level::Trace => "TRACE"@,
    }
}

/// The style of each level's label: errors bold red, warnings bold yellow,
/// information green, debug blue, trace cyan.
pub open spec fn level_style_of(level: Level) -> LevelStyle {
    match level {
        Level::Error => LevelStyle { color: Color::Red, bold: true },
        Level::Warn => LevelStyle { color: Color::Yellow, bold: true },
        Level::Info => LevelStyle { color: Color::Green, bold: false },
        Level::Debug => LevelStyle { color: Color::Blue, bold: false },
        Level::Trace => LevelStyle { color: Color::Cyan, bold: false },
    }
}

/// The label of a level, as `format!("{:<5}", level)` prints it.
pub fn level_label(level: &Level) -> (s: String)
    ensures
        s@ == level_label_text(*level),
{
    match level {
        Level::Error => String::from_str("ERROR"),
        Level::Warn => String::from_str("WARN "),
        Level::Info => String::from_str("INFO "),
        Level::Debug => String::from_str("DEBUG"),
        Level::Trace => String::from_str("TRACE"),
    }
}

/// The style of a level's label.
pub fn level_style(level: &Level) -> (s: LevelStyle)
    ensures
        s == level_style_of(*level),
{
    match level {
        Level::Error => LevelStyle { color: Color::Red, bold: true },
        Level::Warn => LevelStyle { color: Color::Yellow, bold: true },
        Level::Info => LevelStyle { color: Color::Green, bold: false },
        Level::Debug => LevelStyle { color: Color::Blue, bold: false },
        Level::Trace => LevelStyle { color: Color::Cyan, bold: false },
    }
}

/// One log line, in its parts: the padded label and its style, the target
/// and its colour, and the message.
#[derive(Debug, Clone, PartialEq)]
pub struct LogLine {
    pub label: String,
    pub style: LevelStyle,
    pub target: String,
    pub target_color: Color,
    pub message: String,
}

impl LogLine {
    /// The line as printed, without colours.
    pub open spec fn text(self) -> Seq<char> {
        self.label@ + " "@ + self.target@ + " "@ + self.message@ + "\n"@
    }

    /// The line as printed, without colours.
    pub fn plain(&self) -> (s: String)
        ensures
            s@ == self.text(),
    {
        let mut s = self.label.clone();
        s.append(" ");
        s.append(self.target.as_str());
        s.append(" ");
        s.append(self.message.as_str());
        s.append("\n");
        s
    }
}

/// Lays out a record: `None` (nothing printed) when the target is not
/// within `own_module`, the program's own module; else the line, its label
/// in the level's style and its target in grey.
pub fn formatter(level: &Level, target: &str, own_module: &str, message: &str) -> (r: Option<LogLine>)
    ensures
        r is None <==> !is_prefix(own_module@, target@),
        r matches Some(line) ==> {
            &&& line.label@ == level_label_text(*level)
            &&& line.style == level_style_of(*level)
            &&& line.target@ == target@
            &&& line.target_color == target_color_of()
            &&& line.message@ == message@
        },
{
    if starts_with(target, own_module) {
        Some(
            LogLine {
                label: level_label(level),
                style: level_style(level),
                target: String::from_str(target),
                target_color: Color::Ansi256(245),
                message: String::from_str(message),
            },
        )
    } else {
        None
    }
}

/// Each level is labelled with its own name, in capitals, padded with
/// spaces to five columns: errors `ERROR`, warnings `WARN `, information
/// `INFO `, debug `DEBUG`, trace `TRACE`.
pub proof fn law_label_is_level_name(level: Level)
    ensures
        level is Error ==> level_label_text(level) == "ERROR"@,
        level is Warn ==> level_label_text(level) == "WARN "@,
        level is Info ==> level_label_text(level) == "INFO "@,
        level is Debug ==> level_label_text(level) == "DEBUG"@,
        level is Trace ==> level_label_text(level) == "TRACE"@,
{
}

/// Each level's label is shown in its own colour: errors bold red,
/// warnings bold yellow, information green, debug blue, trace cyan; the
/// target is grey.
pub proof fn law_level_colours(level: Level)
    ensures
        level is Error ==> level_style_of(level) == (LevelStyle { color: Color::Red, bold: true }),
        level is Warn ==> level_style_of(level) == (LevelStyle { color: Color::Yellow, bold: true }),
        level is Info ==> level_style_of(level) == (LevelStyle { color: Color::Green, bold: false }),
        level is Debug ==> level_style_of(level) == (LevelStyle { color: Color::Blue, bold: false }),
        level is Trace ==> level_style_of(level) == (LevelStyle { color: Color::Cyan, bold: false }),
        target_color_of() == Color::Ansi256(245),
{
}

/// Every level label is exactly five characters wide, so messages line up.
pub proof fn law_labels_align(level: Level)
    ensures
        level_label_text(level).len() == 5,
{
    reveal_strlit("ERROR");
    reveal_strlit("WARN ");
    reveal_strlit("INFO ");
    reveal_strlit("DEBUG");
    reveal_strlit("TRACE");
}

} // verus!
