use vstd::prelude::*;

use crate::level::Level;
use crate::logger::{Logger, LoggerModel, TimeZone};
use crate::style::{decorate, styled};
use crate::template::{
    append_pairs, base_line, brace_free, fill_base, fill_level, lemma_single_message_template,
    pair_fragments, with_level,
};
use std::fmt::Write;

verus! {

/// Whether a message at `level` passes the minimum level and the global
/// ignore list. The `Off` sentinel as minimum level lets nothing through.
pub open spec fn admits(m: LoggerModel, level: Level) -> bool {
    m.output_level != Level::Off && m.output_level.rank() <= level.rank() && !m.ignore.contains(
        level,
    )
}

/// Whether a message at `level` reaches the terminal queue.
pub open spec fn to_terminal(m: LoggerModel, level: Level) -> bool {
    admits(m, level) && m.terminal_output && !m.terminal_ignore.contains(level)
}

/// Whether a message at `level` reaches the file queue.
pub open spec fn to_file(m: LoggerModel, level: Level) -> bool {
    admits(m, level) && m.file_output && !m.file_ignore.contains(level) && m.file_path is Some
}

/// The lines that a rendered `base` line yields for the terminal and for the
/// file: the level placeholder holds the styled label on the terminal and the
/// plain label in the file.
pub open spec fn sink_lines(m: LoggerModel, level: Level, base: Seq<char>) -> (
    Option<Seq<char>>,
    Option<Seq<char>>,
) {
    (
        if to_terminal(m, level) {
            Some(with_level(base, styled(m.styles_of(level), level.label_spec())))
        } else {
            None
        },
        if to_file(m, level) {
            Some(with_level(base, level.label_spec()))
        } else {
            None
        },
    )
}

/// The sink lines of a plain message.
pub open spec fn plain_lines(
    m: LoggerModel,
    level: Level,
    call_site: Seq<char>,
    message: Seq<char>,
    time: Seq<char>,
) -> (Option<Seq<char>>, Option<Seq<char>>) {
    sink_lines(m, level, base_line(m.log_format, time, call_site, message))
}

/// The sink lines of a message followed by key/value pairs.
pub open spec fn structured_lines(
    m: LoggerModel,
    level: Level,
    call_site: Seq<char>,
    message: Seq<char>,
    time: Seq<char>,
    pairs: Seq<(String, String)>,
) -> (Option<Seq<char>>, Option<Seq<char>>) {
    sink_lines(
        m,
        level,
        base_line(m.log_format, time, call_site, message) + pair_fragments(
            m.structured_format,
            pairs,
        ),
    )
}

/// `q` with `line` appended, if there is one.
pub open spec fn push_line(q: Seq<Seq<char>>, line: Option<Seq<char>>) -> Seq<Seq<char>> {
    match line {
        Some(l) => q.push(l),
        None => q,
    }
}

/// The queues after the lines of one message were appended.
pub open spec fn after_lines(
    q: (Seq<Seq<char>>, Seq<Seq<char>>),
    lines: (Option<Seq<char>>, Option<Seq<char>>),
) -> (Seq<Seq<char>>, Seq<Seq<char>>) {
    (push_line(q.0, lines.0), push_line(q.1, lines.1))
}

/// The text of each string of `v`.
pub open spec fn texts(v: Seq<String>) -> Seq<Seq<char>> {
    v.map_values(|s: String| s@)
}

/// The text of an optional string.
pub open spec fn opt_text(o: Option<String>) -> Option<Seq<char>> {
    match o {
        Some(s) => Some(s@),
        None => None,
    }
}

/// The rendered lines of one message, one for each sink that takes it.
pub struct LogLines {
    pub terminal: Option<String>,
    pub file: Option<String>,
}

impl View for LogLines {
    type V = (Option<Seq<char>>, Option<Seq<char>>);

    open spec fn view(&self) -> (Option<Seq<char>>, Option<Seq<char>>) {
        (opt_text(self.terminal), opt_text(self.file))
    }
}

/// The lines waiting for the terminal sink and for the file sink, oldest
/// first.
pub struct LogQueues {
    pub terminal: Vec<String>,
    pub file: Vec<String>,
}

impl View for LogQueues {
    type V = (Seq<Seq<char>>, Seq<Seq<char>>);

    open spec fn view(&self) -> (Seq<Seq<char>>, Seq<Seq<char>>) {
        (texts(self.terminal@), texts(self.file@))
    }
}

fn contains_level(v: &Vec<Level>, level: Level) -> (r: bool)
    ensures
        r == v@.contains(level),
{
    let mut i: usize = 0;
    while i < v.len()
        invariant
            i <= v@.len(),
            forall|k: int| 0 <= k < i ==> v@[k] != level,
        decreases v@.len() - i,
    {
        if v[i] == level {
            return true;
        }
        i = i + 1;
    }
    false
}

/// Relies on `chrono::Local::now` and the `Display` of the value that its
/// `format` returns: the local time now, written with `pattern`, or `None`
/// where chrono reports that `pattern` cannot be written.
#[verifier::external_body]
fn local_time(pattern: &str) -> (r: Option<String>) {
    let mut out = String::new();
    match write!(out, "{}", chrono::Local::now().format(pattern)) {
        Ok(()) => Some(out),
        Err(_) => None,
    }
}

/// Relies on `chrono::Utc::now` and the `Display` of the value that its
/// `format` returns: the UTC time now, written with `pattern`, or `None`
/// where chrono reports that `pattern` cannot be written.
#[verifier::external_body]
fn utc_time(pattern: &str) -> (r: Option<String>) {
    let mut out = String::new();
    match write!(out, "{}", chrono::Utc::now().format(pattern)) {
        Ok(()) => Some(out),
        Err(_) => None,
    }
}

/// The time now on the clock of `timezone`, written with `pattern`; empty
/// where the pattern cannot be written.
pub fn timestamp(timezone: TimeZone, pattern: &str) -> (r: String) {
    let t = match timezone {
        TimeZone::Local => local_time(pattern),
        TimeZone::Utc => utc_time(pattern),
    };
    match t {
        Some(s) => s,
        None => String::new(),
    }
}

impl Logger {
    /// Whether a message at `level` passes the minimum level and the global
    /// ignore list. The `Off` sentinel as minimum level lets nothing through.
    pub fn admits(&self, level: Level) -> (r: bool)
        ensures
            r == admits(self@, level),
    {
        self.output_level != Level::Off && !level.is_below(&self.output_level)
            && !contains_level(&self.ignore, level)
    }

    /// Whether the file sink has a file to write to.
    pub fn file_sink_active(&self) -> (r: bool)
        ensures
            r == (self@.file_output && self@.file_path is Some),
    {
        self.file_output && self.file_path.is_some()
    }

    /// The terminal and file lines of an already rendered `base` line.
    pub fn sink_lines(&self, level: Level, base: &str) -> (r: LogLines)
        requires
            self.wf(),
        ensures
            r@ == sink_lines(self@, level, base@),
    {
        let pass = self.admits(level);
        let terminal = if pass && self.terminal_output && !contains_level(
            &self.terminal_ignore,
            level,
        ) {
            let label = level.label();
            let decorated = decorate(&self.styles[level.slot_index()], label.as_str());
            Some(fill_level(base, decorated.as_str()))
        } else {
            None
        };
        let file = if pass && self.file_output && !contains_level(&self.file_ignore, level)
            && self.file_path.is_some() {
            let label = level.label();
            Some(fill_level(base, label.as_str()))
        } else {
            None
        };
        LogLines { terminal, file }
    }

    /// The lines of a message at `level` from `call_site`, stamped with `time`.
    pub fn render(&self, level: Level, call_site: &str, message: &str, time: &str) -> (r: LogLines)
        requires
            self.wf(),
        ensures
            r@ == plain_lines(self@, level, call_site@, message@, time@),
    {
        let base = fill_base(self.log_format.as_str(), time, call_site, message);
        self.sink_lines(level, base.as_str())
    }

    /// The lines of a message at `level` from `call_site` followed by the
    /// rendered `pairs`, stamped with `time`.
    pub fn render_structured(
        &self,
        level: Level,
        call_site: &str,
        message: &str,
        time: &str,
        pairs: &Vec<(String, String)>,
    ) -> (r: LogLines)
        requires
            self.wf(),
        ensures
            r@ == structured_lines(self@, level, call_site@, message@, time@, pairs@),
    {
        let mut base = fill_base(self.log_format.as_str(), time, call_site, message);
        append_pairs(&mut base, self.structured_format.as_str(), pairs);
        self.sink_lines(level, base.as_str())
    }
}

impl LogQueues {
    /// Two empty queues.
    pub fn new() -> (r: Self)
        ensures
            r@.0.len() == 0,
            r@.1.len() == 0,
    {
        LogQueues { terminal: Vec::new(), file: Vec::new() }
    }

    /// Appends each line of `lines` to the queue of its sink.
    pub fn enqueue(&mut self, lines: LogLines)
        ensures
            final(self)@ == after_lines(old(self)@, lines@),
    {
        match lines.terminal {
            Some(l) => {
                self.terminal.push(l);
            },
            None => {},
        }
        match lines.file {
            Some(l) => {
                self.file.push(l);
            },
            None => {},
        }
        proof {
            assert(texts(self.terminal@) =~= push_line(old(self)@.0, lines@.0));
            assert(texts(self.file@) =~= push_line(old(self)@.1, lines@.1));
        }
    }

    /// Takes every line of the terminal queue, oldest first, and leaves it
    /// empty.
    pub fn take_terminal(&mut self) -> (r: Vec<String>)
        ensures
            texts(r@) == old(self)@.0,
            final(self)@.0.len() == 0,
            final(self)@.1 == old(self)@.1,
    {
        let mut out: Vec<String> = Vec::new();
        std::mem::swap(&mut self.terminal, &mut out);
        out
    }

    /// Takes every line of the file queue, oldest first, and leaves it empty.
    pub fn take_file(&mut self) -> (r: Vec<String>)
        ensures
            texts(r@) == old(self)@.1,
            final(self)@.1.len() == 0,
            final(self)@.0 == old(self)@.0,
    {
        let mut out: Vec<String> = Vec::new();
        std::mem::swap(&mut self.file, &mut out);
        out
    }

    /// Whether nothing is left to write: both queues are empty and no
    /// rollover is under way.
    pub fn is_settled(&self, rolling: bool) -> (r: bool)
        ensures
            r == (self@.0.len() == 0 && self@.1.len() == 0 && !rolling),
    {
        self.terminal.len() == 0 && self.file.len() == 0 && !rolling
    }
}

/// Logs `message` at `level` from `call_site`: when the level passes the
/// filters, the line of each sink that takes it is appended to that sink's
/// queue, stamped with the time now; otherwise nothing changes.
pub fn log(logger: &Logger, queues: &mut LogQueues, level: Level, call_site: &str, message: &str)
    requires
        logger.wf(),
    ensures
        !admits(logger@, level) ==> final(queues)@ == old(queues)@,
        admits(logger@, level) ==> exists|time: Seq<char>|
            final(queues)@ == after_lines(
                old(queues)@,
                plain_lines(logger@, level, call_site@, message@, time),
            ),
{
    if !logger.admits(level) {
        return;
    }
    let time = timestamp(logger.timezone, logger.timestamp_format.as_str());
    let lines = logger.render(level, call_site, message, time.as_str());
    queues.enqueue(lines);
}

/// Logs `message` at `level` from `call_site`, followed by one fragment per
/// key/value pair in the order of `pairs`; filtered and queued as `log` does.
pub fn structured_log(
    logger: &Logger,
    queues: &mut LogQueues,
    level: Level,
    call_site: &str,
    message: &str,
    pairs: &Vec<(String, String)>,
)
    requires
        logger.wf(),
    ensures
        !admits(logger@, level) ==> final(queues)@ == old(queues)@,
        admits(logger@, level) ==> exists|time: Seq<char>|
            final(queues)@ == after_lines(
                old(queues)@,
                structured_lines(logger@, level, call_site@, message@, time, pairs@),
            ),
{
    if !logger.admits(level) {
        return;
    }
    let time = timestamp(logger.timezone, logger.timestamp_format.as_str());
    let lines = logger.render_structured(level, call_site, message, time.as_str(), pairs);
    queues.enqueue(lines);
}

/// The lines that a rollover keeps of a file holding `lines`: the last
/// `threshold` of them, in their order. `None` where nothing is to be done:
/// rollover is off (`threshold` is 0) or the file is not over the threshold.
pub fn rollover(lines: Vec<String>, threshold: usize) -> (r: Option<Vec<String>>)
    ensures
        r is None <==> (threshold == 0 || lines@.len() <= threshold),
        r is Some ==> r->0@.len() == threshold,
        r is Some ==> r->0@ == lines@.subrange(
            lines@.len() - threshold,
            lines@.len() as int,
        ),
{
    if threshold == 0 || lines.len() <= threshold {
        return None;
    }
    let mut all = lines;
    let at = all.len() - threshold;
    let kept = all.split_off(at);
    Some(kept)
}

/// A message less severe than the minimum level reaches no sink: it fails
/// the filter, so `log` and `structured_log` leave both queues as they were,
/// and no line is rendered for it whatever the time.
pub proof fn lemma_below_minimum_is_dropped(
    m: LoggerModel,
    low: Level,
    minimum: Level,
    call_site: Seq<char>,
    message: Seq<char>,
    time: Seq<char>,
)
    requires
        m.output_level == minimum,
        low.rank() < minimum.rank(),
    ensures
        !admits(m, low),
        plain_lines(m, low, call_site, message, time) == (
        None::<Seq<char>>,
        None::<Seq<char>>,
        ),
{
}

/// With the `Off` sentinel as the minimum level, every level is dropped,
/// the most severe ones and `Off` itself included.
pub proof fn lemma_off_silences_every_level(m: LoggerModel, level: Level)
    requires
        m.output_level == Level::Off,
    ensures
        !admits(m, level),
        !to_terminal(m, level),
        !to_file(m, level),
{
}

/// A level on the global ignore list is dropped even where it passes the
/// minimum level; a level on the file ignore list alone is kept from the file
/// but still reaches the terminal when terminal output takes it.
pub proof fn lemma_ignore_lists(m: LoggerModel, level: Level)
    ensures
        m.ignore.contains(level) ==> !admits(m, level),
        m.file_ignore.contains(level) && admits(m, level) && m.terminal_output
            && !m.terminal_ignore.contains(level) ==> to_terminal(m, level) && !to_file(
            m,
            level,
        ),
{
}

/// With file output on and a path set, a message that passes the filters and
/// the file ignore list adds exactly its file line, with the plain label, to
/// the end of the file queue; with file output off the file queue is left as
/// it was.
pub proof fn lemma_file_output_switch(
    m: LoggerModel,
    q: (Seq<Seq<char>>, Seq<Seq<char>>),
    level: Level,
    call_site: Seq<char>,
    message: Seq<char>,
    time: Seq<char>,
)
    ensures
        m.file_output && m.file_path is Some && admits(m, level) && !m.file_ignore.contains(
            level,
        ) ==> after_lines(q, plain_lines(m, level, call_site, message, time)).1 == q.1.push(
            with_level(base_line(m.log_format, time, call_site, message), level.label_spec()),
        ),
        !m.file_output ==> after_lines(q, plain_lines(m, level, call_site, message, time)).1
            == q.1,
{
}

/// With file output on and a path set, a passing message that the file does
/// not ignore is queued for the file as a line that holds the message: when
/// the template's only placeholder is one `{message}` and the message holds no
/// opening brace, the queued line is the template with the message in place.
pub proof fn lemma_file_line_holds_message(
    m: LoggerModel,
    q: (Seq<Seq<char>>, Seq<Seq<char>>),
    level: Level,
    call_site: Seq<char>,
    message: Seq<char>,
    time: Seq<char>,
    before: Seq<char>,
    after: Seq<char>,
)
    requires
        m.file_output,
        m.file_path is Some,
        admits(m, level),
        !m.file_ignore.contains(level),
        m.log_format == before + "{message}"@ + after,
        brace_free(before),
        brace_free(after),
        brace_free(message),
    ensures
        after_lines(q, plain_lines(m, level, call_site, message, time)).1 == q.1.push(
            before + message + after,
        ),
        (before + message + after).subrange(
            before.len() as int,
            (before.len() + message.len()) as int,
        ) == message,
{
    lemma_single_message_template(before, after, time, call_site, message, level.label_spec());
    assert((before + message + after).subrange(before.len() as int, (before.len() + message.len()) as int)
        =~= message);
}

} // verus!
