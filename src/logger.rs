use vstd::prelude::*;

use crate::level::{Level, LEVEL_COUNT};
use crate::style::same_style;
use dekor::Style;
use std::time::Duration;

verus! {

/// The terminal stream that the terminal sink writes to.
#[derive(Clone, Copy, Debug, PartialEq, Eq, Structural)]
pub enum OutputDirection {
    Stderr,
    Stdout,
}

/// The clock that timestamps are read from.
#[derive(Clone, Copy, Debug, PartialEq, Eq, Structural, PartialOrd, Ord)]
pub enum TimeZone {
    Local,
    Utc,
}

/// The configuration of a logger: which sinks are on, what each of them
/// skips, how lines are rendered and how each level is styled.
///
/// `styles` holds one list per level, at the level's slot.
#[derive(Debug)]
pub struct Logger {
    pub terminal_output: bool,
    pub terminal_std_output: OutputDirection,
    pub terminal_ignore: Vec<Level>,
    pub terminal_buffer_interval: Duration,
    pub file_output: bool,
    pub file_path: Option<String>,
    pub file_ignore: Vec<Level>,
    pub file_buffer_interval: Duration,
    pub file_rollover: usize,
    pub output_level: Level,
    pub ignore: Vec<Level>,
    pub log_format: String,
    pub structured_format: String,
    pub timezone: TimeZone,
    pub timestamp_format: String,
    pub styles: Vec<Vec<Style>>,
}

/// The abstract value of a `Logger`.
pub struct LoggerModel {
    pub terminal_output: bool,
    pub terminal_std_output: OutputDirection,
    pub terminal_ignore: Seq<Level>,
    pub terminal_buffer_interval: Duration,
    pub file_output: bool,
    pub file_path: Option<Seq<char>>,
    pub file_ignore: Seq<Level>,
    pub file_buffer_interval: Duration,
    pub file_rollover: nat,
    pub output_level: Level,
    pub ignore: Seq<Level>,
    pub log_format: Seq<char>,
    pub structured_format: Seq<char>,
    pub timezone: TimeZone,
    pub timestamp_format: Seq<char>,
    pub styles: Seq<Seq<Style>>,
}

impl LoggerModel {
    /// The styles of `level`.
    pub open spec fn styles_of(self, level: Level) -> Seq<Style> {
        self.styles[level.slot()]
    }

    /// This configuration with the styles of `level` replaced by `list`.
    pub open spec fn with_styles(self, level: Level, list: Seq<Style>) -> LoggerModel {
        LoggerModel { styles: self.styles.update(level.slot(), list), ..self }
    }
}

impl View for Logger {
    type V = LoggerModel;

    open spec fn view(&self) -> LoggerModel {
        LoggerModel {
            terminal_output: self.terminal_output,
            terminal_std_output: self.terminal_std_output,
            terminal_ignore: self.terminal_ignore@,
            terminal_buffer_interval: self.terminal_buffer_interval,
            file_output: self.file_output,
            file_path: match self.file_path {
                Some(p) => Some(p@),
                None => None,
            },
            file_ignore: self.file_ignore@,
            file_buffer_interval: self.file_buffer_interval,
            file_rollover: self.file_rollover as nat,
            output_level: self.output_level,
            ignore: self.ignore@,
            log_format: self.log_format@,
            structured_format: self.structured_format@,
            timezone: self.timezone,
            timestamp_format: self.timestamp_format@,
            styles: self.styles@.map_values(|v: Vec<Style>| v@),
        }
    }
}

/// A duration of `n` nanoseconds.
pub uninterp spec fn nanos(n: nat) -> Duration;

/// Relies on `Duration::from_nanos`: the duration depends on the count alone.
#[verifier::external_body]
fn duration_from_nanos(n: u64) -> (r: Duration)
    ensures
        r == nanos(n as nat),
{
    Duration::from_nanos(n)
}

/// `list` without any occurrence of `style`, the others kept in order.
pub open spec fn without_style(list: Seq<Style>, style: Style) -> Seq<Style>
    decreases list.len(),
{
    if list.len() == 0 {
        list
    } else if list.last() == style {
        without_style(list.drop_last(), style)
    } else {
        without_style(list.drop_last(), style).push(list.last())
    }
}

/// The default log line template.
pub open spec fn default_log_format() -> Seq<char> {
    "[{timestamp} {level} {module"@ + "_path}] {message}"@
}

/// The configuration that a new logger starts with.
pub open spec fn default_model() -> LoggerModel {
    LoggerModel {
        terminal_output: true,
        terminal_std_output: OutputDirection::Stderr,
        terminal_ignore: Seq::empty(),
        terminal_buffer_interval: nanos(0),
        file_output: false,
        file_path: None,
        file_ignore: Seq::empty(),
        file_buffer_interval: nanos(0),
        file_rollover: 0,
        output_level: Level::Trace,
        ignore: Seq::empty(),
        log_format: default_log_format(),
        structured_format: " {key}: {value}"@,
        timezone: TimeZone::Local,
        timestamp_format: "%Y-%m-%d %H:%M:%S"@,
        styles: seq![
            seq![Style::FGPurple],
            seq![Style::FGBlue],
            seq![Style::FGGreen],
            seq![Style::FGYellow],
            seq![Style::FGRed],
            seq![Style::Bold, Style::FGRed],
            seq![],
            seq![Style::Bold, Style::FGCyan],
            seq![],
        ],
    }
}

fn copy_levels(v: &Vec<Level>) -> (r: Vec<Level>)
    ensures
        r@ == v@,
{
    let mut out: Vec<Level> = Vec::new();
    let mut i: usize = 0;
    while i < v.len()
        invariant
            i <= v@.len(),
            out@ == v@.take(i as int),
        decreases v@.len() - i,
    {
        out.push(v[i]);
        i = i + 1;
        assert(out@ =~= v@.take(i as int));
    }
    assert(v@.take(v@.len() as int) =~= v@);
    out
}

fn copy_styles(v: &Vec<Style>) -> (r: Vec<Style>)
    ensures
        r@ == v@,
{
    let mut out: Vec<Style> = Vec::new();
    let mut i: usize = 0;
    while i < v.len()
        invariant
            i <= v@.len(),
            out@ == v@.take(i as int),
        decreases v@.len() - i,
    {
        out.push(v[i]);
        i = i + 1;
        assert(out@ =~= v@.take(i as int));
    }
    assert(v@.take(v@.len() as int) =~= v@);
    out
}

fn copy_style_table(v: &Vec<Vec<Style>>) -> (r: Vec<Vec<Style>>)
    ensures
        r@.map_values(|x: Vec<Style>| x@) == v@.map_values(|x: Vec<Style>| x@),
        r@.len() == v@.len(),
{
    let mut out: Vec<Vec<Style>> = Vec::new();
    let mut i: usize = 0;
    while i < v.len()
        invariant
            i <= v@.len(),
            out@.len() == i,
            forall|k: int| 0 <= k < i ==> (#[trigger] out@[k])@ == v@[k]@,
        decreases v@.len() - i,
    {
        out.push(copy_styles(&v[i]));
        i = i + 1;
    }
    assert(out@.map_values(|x: Vec<Style>| x@) =~= v@.map_values(|x: Vec<Style>| x@));
    out
}

impl Logger {
    /// The style table holds one list per level.
    pub open spec fn wf(&self) -> bool {
        self.styles@.len() == LEVEL_COUNT
    }

    /// A logger with the default configuration: terminal output to stderr,
    /// file output off, every level let through, and one style list per level.
    pub fn new() -> (r: Self)
        ensures
            r@ == default_model(),
            r.wf(),
    {
        proof {
            reveal_strlit("[{timestamp} {level} {module");
            reveal_strlit("_path}] {message}");
        }
        let trace = vec![Style::FGPurple];
        let debug = vec![Style::FGBlue];
        let info = vec![Style::FGGreen];
        let warning = vec![Style::FGYellow];
        let error = vec![Style::FGRed];
        let critical = vec![Style::Bold, Style::FGRed];
        let fatal: Vec<Style> = Vec::new();
        let diagnostic = vec![Style::Bold, Style::FGCyan];
        let off: Vec<Style> = Vec::new();
        let ghost lists = seq![trace@, debug@, info@, warning@, error@, critical@, fatal@,
            diagnostic@, off@];
        let styles: Vec<Vec<Style>> = vec![
            trace,
            debug,
            info,
            warning,
            error,
            critical,
            fatal,
            diagnostic,
            off,
        ];
        assert(styles@.map_values(|v: Vec<Style>| v@) =~= lists);
        assert(lists =~~= default_model().styles);
        let r = Logger {
            terminal_output: true,
            terminal_std_output: OutputDirection::Stderr,
            terminal_ignore: Vec::new(),
            terminal_buffer_interval: duration_from_nanos(0),
            file_output: false,
            file_path: None,
            file_ignore: Vec::new(),
            file_buffer_interval: duration_from_nanos(0),
            file_rollover: 0,
            output_level: Level::Trace,
            ignore: Vec::new(),
            log_format: String::from_str("[{timestamp} {level} {module").concat("_path}] {message}"),
            structured_format: String::from_str(" {key}: {value}"),
            timezone: TimeZone::Local,
            timestamp_format: String::from_str("%Y-%m-%d %H:%M:%S"),
            styles,
        };
        assert(r@.styles =~= default_model().styles);
        assert(r@.terminal_ignore =~= Seq::<Level>::empty());
        assert(r@.file_ignore =~= Seq::<Level>::empty());
        assert(r@.ignore =~= Seq::<Level>::empty());
        r
    }

    /// A full copy of the configuration.
    pub fn snapshot(&self) -> (r: Self)
        ensures
            r@ == self@,
            r.wf() == self.wf(),
    {
        Logger {
            terminal_output: self.terminal_output,
            terminal_std_output: self.terminal_std_output,
            terminal_ignore: copy_levels(&self.terminal_ignore),
            terminal_buffer_interval: self.terminal_buffer_interval,
            file_output: self.file_output,
            file_path: match &self.file_path {
                Some(p) => Some(p.clone()),
                None => None,
            },
            file_ignore: copy_levels(&self.file_ignore),
            file_buffer_interval: self.file_buffer_interval,
            file_rollover: self.file_rollover,
            output_level: self.output_level,
            ignore: copy_levels(&self.ignore),
            log_format: self.log_format.clone(),
            structured_format: self.structured_format.clone(),
            timezone: self.timezone,
            timestamp_format: self.timestamp_format.clone(),
            styles: copy_style_table(&self.styles),
        }
    }

    /// Turns terminal output on or off; returns a copy of the configuration.
    pub fn terminal(&mut self, value: bool) -> (r: Self)
        ensures
            final(self)@ == (LoggerModel { terminal_output: value, ..old(self)@ }),
            final(self).wf() == old(self).wf(),
            r@ == final(self)@,
            r.wf() == final(self).wf(),
    {
        self.terminal_output = value;
        self.snapshot()
    }

    /// Selects the stream that terminal output goes to.
    pub fn terminal_std_output(&mut self, value: OutputDirection) -> (r: Self)
        ensures
            final(self)@ == (LoggerModel { terminal_std_output: value, ..old(self)@ }),
            final(self).wf() == old(self).wf(),
            r@ == final(self)@,
            r.wf() == final(self).wf(),
    {
        self.terminal_std_output = value;
        self.snapshot()
    }

    /// Sets the pause between two flushes of the terminal queue.
    pub fn terminal_buffer_interval(&mut self, duration: Duration) -> (r: Self)
        ensures
            final(self)@ == (LoggerModel { terminal_buffer_interval: duration, ..old(self)@ }),
            final(self).wf() == old(self).wf(),
            r@ == final(self)@,
            r.wf() == final(self).wf(),
    {
        self.terminal_buffer_interval = duration;
        self.snapshot()
    }

    /// Adds `level` to the levels that terminal output skips.
    pub fn terminal_ignore(&mut self, level: Level) -> (r: Self)
        ensures
            final(self)@ == (LoggerModel { terminal_ignore: old(self)@.terminal_ignore.push(level), ..old(self)@ }),
            final(self).wf() == old(self).wf(),
            r@ == final(self)@,
            r.wf() == final(self).wf(),
    {
        self.terminal_ignore.push(level);
        self.snapshot()
    }

    /// Turns file output on or off.
    pub fn file(&mut self, value: bool) -> (r: Self)
        ensures
            final(self)@ == (LoggerModel { file_output: value, ..old(self)@ }),
            final(self).wf() == old(self).wf(),
            r@ == final(self)@,
            r.wf() == final(self).wf(),
    {
        self.file_output = value;
        self.snapshot()
    }

    /// Records the path of the log file. Creating the file and its directories is left to the caller.
    pub fn path(&mut self, path: &str) -> (r: Self)
        ensures
            final(self)@ == (LoggerModel { file_path: Some(path@), ..old(self)@ }),
            final(self).wf() == old(self).wf(),
            r@ == final(self)@,
            r.wf() == final(self).wf(),
    {
        self.file_path = Some(String::from_str(path));
        self.snapshot()
    }

    /// Adds `level` to the levels that file output skips.
    pub fn file_ignore(&mut self, level: Level) -> (r: Self)
        ensures
            final(self)@ == (LoggerModel { file_ignore: old(self)@.file_ignore.push(level), ..old(self)@ }),
            final(self).wf() == old(self).wf(),
            r@ == final(self)@,
            r.wf() == final(self).wf(),
    {
        self.file_ignore.push(level);
        self.snapshot()
    }

    /// Sets the pause between two flushes of the file queue.
    pub fn file_buffer_interval(&mut self, duration: Duration) -> (r: Self)
        ensures
            final(self)@ == (LoggerModel { file_buffer_interval: duration, ..old(self)@ }),
            final(self).wf() == old(self).wf(),
            r@ == final(self)@,
            r.wf() == final(self).wf(),
    {
        self.file_buffer_interval = duration;
        self.snapshot()
    }

    /// Sets the number of lines that a rollover keeps; 0 turns rollover off.
    pub fn file_rollover(&mut self, lines: usize) -> (r: Self)
        ensures
            final(self)@ == (LoggerModel { file_rollover: lines as nat, ..old(self)@ }),
            final(self).wf() == old(self).wf(),
            r@ == final(self)@,
            r.wf() == final(self).wf(),
    {
        self.file_rollover = lines;
        self.snapshot()
    }

    /// Sets the minimum level: less severe messages are dropped by every sink.
    pub fn level(&mut self, level: Level) -> (r: Self)
        ensures
            final(self)@ == (LoggerModel { output_level: level, ..old(self)@ }),
            final(self).wf() == old(self).wf(),
            r@ == final(self)@,
            r.wf() == final(self).wf(),
    {
        self.output_level = level;
        self.snapshot()
    }

    /// Adds `level` to the levels that every sink skips, whatever the minimum level.
    pub fn ignore(&mut self, level: Level) -> (r: Self)
        ensures
            final(self)@ == (LoggerModel { ignore: old(self)@.ignore.push(level), ..old(self)@ }),
            final(self).wf() == old(self).wf(),
            r@ == final(self)@,
            r.wf() == final(self).wf(),
    {
        self.ignore.push(level);
        self.snapshot()
    }

    /// Sets the template of a log line.
    pub fn log_format(&mut self, format: &str) -> (r: Self)
        ensures
            final(self)@ == (LoggerModel { log_format: format@, ..old(self)@ }),
            final(self).wf() == old(self).wf(),
            r@ == final(self)@,
            r.wf() == final(self).wf(),
    {
        self.log_format = String::from_str(format);
        self.snapshot()
    }

    /// Sets the template of one key/value pair of a structured line.
    pub fn structured_format(&mut self, format: &str) -> (r: Self)
        ensures
            final(self)@ == (LoggerModel { structured_format: format@, ..old(self)@ }),
            final(self).wf() == old(self).wf(),
            r@ == final(self)@,
            r.wf() == final(self).wf(),
    {
        self.structured_format = String::from_str(format);
        self.snapshot()
    }

    /// Selects the clock that timestamps are read from.
    pub fn timezone(&mut self, timezone: TimeZone) -> (r: Self)
        ensures
            final(self)@ == (LoggerModel { timezone: timezone, ..old(self)@ }),
            final(self).wf() == old(self).wf(),
            r@ == final(self)@,
            r.wf() == final(self).wf(),
    {
        self.timezone = timezone;
        self.snapshot()
    }

    /// Sets the pattern that timestamps are rendered with.
    pub fn timestamp_format(&mut self, format: &str) -> (r: Self)
        ensures
            final(self)@ == (LoggerModel { timestamp_format: format@, ..old(self)@ }),
            final(self).wf() == old(self).wf(),
            r@ == final(self)@,
            r.wf() == final(self).wf(),
    {
        self.timestamp_format = String::from_str(format);
        self.snapshot()
    }

    /// Replaces the styles of `level` by `style_set`.
    pub fn style(&mut self, level: Level, style_set: Vec<Style>) -> (r: Self)
        requires
            old(self).wf(),
        ensures
            final(self)@ == old(self)@.with_styles(level, style_set@),
            final(self).wf(),
            r@ == final(self)@,
            r.wf(),
    {
        let k = level.slot_index();
        self.styles.set(k, style_set);
        proof {
            assert(self@.styles =~= old(self)@.styles.update(level.slot(), style_set@));
        }
        self.snapshot()
    }

    /// Appends `style` to the styles of `level`.
    pub fn add_style(&mut self, level: Level, style: Style) -> (r: Self)
        requires
            old(self).wf(),
        ensures
            final(self)@ == old(self)@.with_styles(level, old(self)@.styles_of(level).push(style)),
            final(self).wf(),
            r@ == final(self)@,
            r.wf(),
    {
        let k = level.slot_index();
        let mut list = copy_styles(&self.styles[k]);
        list.push(style);
        self.styles.set(k, list);
        proof {
            assert(self@.styles =~= old(self)@.styles.update(
                level.slot(),
                old(self)@.styles_of(level).push(style),
            ));
        }
        self.snapshot()
    }

    /// Removes every occurrence of `style` from the styles of `level`.
    pub fn remove_style(&mut self, level: Level, style: Style) -> (r: Self)
        requires
            old(self).wf(),
        ensures
            final(self)@ == old(self)@.with_styles(
                level,
                without_style(old(self)@.styles_of(level), style),
            ),
            final(self).wf(),
            r@ == final(self)@,
            r.wf(),
    {
        let k = level.slot_index();
        let ghost before = self.styles@[k as int]@;
        let mut list: Vec<Style> = Vec::new();
        let mut i: usize = 0;
        while i < self.styles[k].len()
            invariant
                self.styles@ == old(self).styles@,
                k as int == level.slot(),
                k < self.styles@.len(),
                before == self.styles@[k as int]@,
                i <= before.len(),
                list@ == without_style(before.take(i as int), style),
            decreases before.len() - i,
        {
            let s = self.styles[k][i];
            if !same_style(&s, &style) {
                list.push(s);
            }
            proof {
                let t = before.take(i + 1);
                assert(t.drop_last() =~= before.take(i as int));
                assert(t.last() == before[i as int]);
            }
            i = i + 1;
        }
        assert(before.take(before.len() as int) =~= before);
        self.styles.set(k, list);
        proof {
            assert(self@.styles =~= old(self)@.styles.update(
                level.slot(),
                without_style(before, style),
            ));
        }
        self.snapshot()
    }

    /// The styles of `level`.
    pub fn styles(&self, level: Level) -> (r: Vec<Style>)
        requires
            self.wf(),
        ensures
            r@ == self@.styles_of(level),
    {
        copy_styles(&self.styles[level.slot_index()])
    }
}

impl Clone for Logger {
    /// A full copy of the configuration, as `snapshot` takes it.
    fn clone(&self) -> (r: Self)
        ensures
            r@ == self@,
            r.wf() == self.wf(),
    {
        self.snapshot()
    }
}

impl Default for Logger {
    /// The default configuration, as `Logger::new` gives it.
    fn default() -> (r: Self)
        ensures
            r@ == default_model(),
            r.wf(),
    {
        Logger::new()
    }
}

/// Removing a style keeps every other style of the list and no occurrence of
/// the removed one.
pub proof fn lemma_without_style_set(list: Seq<Style>, style: Style)
    ensures
        without_style(list, style).to_set() == list.to_set().remove(style),
    decreases list.len(),
{
    if list.len() == 0 {
        assert(list.to_set() =~= Set::<Style>::empty());
        assert(without_style(list, style).to_set() =~= list.to_set().remove(style));
    } else {
        let init = list.drop_last();
        lemma_without_style_set(init, style);
        assert(list =~= init.push(list.last()));
        init.lemma_push_to_set_commute(list.last());
        if list.last() != style {
            without_style(init, style).lemma_push_to_set_commute(list.last());
        }
        assert(without_style(list, style).to_set() =~= list.to_set().remove(style));
    }
}

/// The style list given to a level is the one read back for it, and adding
/// a style and then removing it leaves the same set of styles as removing it
/// alone, whatever the order in which the list was built.
pub proof fn lemma_style_round_trip(m: LoggerModel, level: Level, list: Seq<Style>, style: Style)
    requires
        m.styles.len() == LEVEL_COUNT,
    ensures
        m.with_styles(level, list).styles_of(level) == list,
        forall|other: Level|
            other != level ==> m.with_styles(level, list).styles_of(other) == m.styles_of(other),
        without_style(list.push(style), style).to_set() == list.to_set().remove(style),
        without_style(list, style).push(style).to_set() == list.to_set().insert(style),
{
    lemma_without_style_set(list.push(style), style);
    list.lemma_push_to_set_commute(style);
    lemma_without_style_set(list, style);
    without_style(list, style).lemma_push_to_set_commute(style);
    assert(list.to_set().insert(style).remove(style) =~= list.to_set().remove(style));
    assert(list.to_set().remove(style).insert(style) =~= list.to_set().insert(style));
    assert forall|other: Level| other != level implies m.with_styles(level, list).styles_of(
        other,
    ) == m.styles_of(other) by {
        assert(other.slot() != level.slot());
    }
}

} // verus!
