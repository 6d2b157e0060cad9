//! The logger itself: six one-way configuration flags, an optional base
//! path, and a record of whether a log file is open.
//!
//! The logger computes everything and writes nothing.  [`Logger::enable`]
//! hands back the log file path to create, the host opens it and reports
//! success through [`Logger::set_file_handle`], and [`Logger::log`] hands
//! back the finished terminal and file lines for the host to write.  Every
//! internal failure collapses to "produce nothing": no method panics or
//! returns an error.

use crate::logpath::{derive_log_path, spec_derivable, spec_log_path};
use crate::timestamp::{get_timestamp, spec_timestamp};
use vstd::prelude::*;
use vstd::string::StringExecFns;

verus! {

/// One of the logger's six configuration flags.  Each flag starts false
/// and can only be raised, never cleared.
#[derive(Clone, Copy)]
pub enum Flag {
    /// Turns the whole facility on; until it is set, logging is a no-op.
    GlobalEnable,
    /// Routes each logged line to the terminal.
    TerminalOutput,
    /// Prefixes each terminal line with a timestamp.
    TerminalTimestamp,
    /// Routes each logged line to the log file.
    FileOutput,
    /// Prefixes each file line with a timestamp.
    FileTimestamp,
    /// Prefixes the log file's name with a timestamp, so every run gets a
    /// distinct file instead of overwriting a shared one.
    FileHistory,
}

/// The abstract state of a logger.
#[verifier::ext_equal]
pub ghost struct LoggerView {
    pub global_enable: bool,
    pub terminal_output: bool,
    pub terminal_timestamp: bool,
    pub file_output: bool,
    pub file_timestamp: bool,
    pub file_history: bool,
    /// The characters of the base path, when one was set.
    pub path: Option<Seq<char>>,
    /// Whether a log file stands open on the host's side.
    pub file_open: bool,
}

impl LoggerView {
    /// The state of a fresh logger: every flag down, no path, no file.
    pub open spec fn init() -> LoggerView {
        LoggerView {
            global_enable: false,
            terminal_output: false,
            terminal_timestamp: false,
            file_output: false,
            file_timestamp: false,
            file_history: false,
            path: None,
            file_open: false,
        }
    }

    /// A log file can only stand open once the facility was enabled with
    /// file output requested.
    pub open spec fn wf(self) -> bool {
        self.file_open ==> (self.global_enable && self.file_output)
    }

    /// Read one flag.
    pub open spec fn get_flag(self, flag: Flag) -> bool {
        match flag {
            Flag::GlobalEnable => self.global_enable,
            Flag::TerminalOutput => self.terminal_output,
            Flag::TerminalTimestamp => self.terminal_timestamp,
            Flag::FileOutput => self.file_output,
            Flag::FileTimestamp => self.file_timestamp,
            Flag::FileHistory => self.file_history,
        }
    }

    /// Raise one flag, leaving everything else as it stands.
    pub open spec fn set_flag(self, flag: Flag) -> LoggerView {
        match flag {
            Flag::GlobalEnable => LoggerView { global_enable: true, ..self },
            Flag::TerminalOutput => LoggerView { terminal_output: true, ..self },
            Flag::TerminalTimestamp => LoggerView { terminal_timestamp: true, ..self },
            Flag::FileOutput => LoggerView { file_output: true, ..self },
            Flag::FileTimestamp => LoggerView { file_timestamp: true, ..self },
            Flag::FileHistory => LoggerView { file_history: true, ..self },
        }
    }

    /// Raise the flags of `flags` in order.
    pub open spec fn set_flags(self, flags: Seq<Flag>) -> LoggerView
        decreases flags.len(),
    {
        if flags.len() == 0 {
            self
        } else {
            self.set_flag(flags[0]).set_flags(flags.drop_first())
        }
    }
}

/// Whether a stored base path yields a log file: one was set and it has a
/// non-empty file name.
pub open spec fn path_derivable(path: Option<Seq<char>>) -> bool {
    match path {
        Some(b) => spec_derivable(b),
        None => false,
    }
}

/// The file-name prefix that `enable` puts before the log file's name:
/// empty when history naming is off, a timestamp with a trailing
/// underscore when it is on.
pub open spec fn spec_prefix(history: bool, prefix: Seq<char>) -> bool {
    if history {
        exists|s: u64, n: u64| n < 1000000000 && prefix == spec_timestamp(s, n).push('_')
    } else {
        prefix == Seq::<char>::empty()
    }
}

/// Whether `p` is a log file path that the stored base path `path` yields
/// under history naming `history`: the derived path for some admissible
/// file-name prefix.
pub open spec fn log_path_for(path: Option<Seq<char>>, history: bool, p: Seq<char>) -> bool {
    match path {
        Some(b) => exists|pre: Seq<char>| spec_prefix(history, pre) && p == spec_log_path(b, pre),
        None => false,
    }
}

/// One logged message, rendered for each sink that takes it: the line for
/// the terminal and the line for the log file, each complete but for the
/// trailing newline, or nothing where the sink is off.
pub struct LogLines {
    pub terminal: Option<String>,
    pub file: Option<String>,
}

/// The logging facility's state.  See the module documentation for the
/// protocol between it and the host.
pub struct Logger {
    global_enable: bool,
    terminal_output: bool,
    terminal_timestamp: bool,
    file_output: bool,
    file_timestamp: bool,
    file_history: bool,
    path: Option<String>,
    file_open: bool,
}

impl View for Logger {
    type V = LoggerView;

    closed spec fn view(&self) -> LoggerView {
        LoggerView {
            global_enable: self.global_enable,
            terminal_output: self.terminal_output,
            terminal_timestamp: self.terminal_timestamp,
            file_output: self.file_output,
            file_timestamp: self.file_timestamp,
            file_history: self.file_history,
            path: match self.path {
                Some(p) => Some(p@),
                None => None,
            },
            file_open: self.file_open,
        }
    }
}

impl Logger {
    /// A fresh logger: every flag down, no path, no open file.
    pub fn new() -> (r: Logger)
        ensures
            r@ == LoggerView::init(),
    {
        let r = Logger {
            global_enable: false,
            terminal_output: false,
            terminal_timestamp: false,
            file_output: false,
            file_timestamp: false,
            file_history: false,
            path: None,
            file_open: false,
        };
        proof {
            assert(r@ =~= LoggerView::init());
        }
        r
    }

    /// Raise one flag.  Idempotent, and one-way: no flag can be cleared.
    pub fn set(&mut self, flag: Flag)
        ensures
            final(self)@ == old(self)@.set_flag(flag),
    {
        match flag {
            Flag::GlobalEnable => self.global_enable = true,
            Flag::TerminalOutput => self.terminal_output = true,
            Flag::TerminalTimestamp => self.terminal_timestamp = true,
            Flag::FileOutput => self.file_output = true,
            Flag::FileTimestamp => self.file_timestamp = true,
            Flag::FileHistory => self.file_history = true,
        }
        proof {
            assert(self@ =~= old(self)@.set_flag(flag));
        }
    }

    /// Read one flag.
    pub fn get(&self, flag: Flag) -> (b: bool)
        ensures
            b == self@.get_flag(flag),
    {
        match flag {
            Flag::GlobalEnable => self.global_enable,
            Flag::TerminalOutput => self.terminal_output,
            Flag::TerminalTimestamp => self.terminal_timestamp,
            Flag::FileOutput => self.file_output,
            Flag::FileTimestamp => self.file_timestamp,
            Flag::FileHistory => self.file_history,
        }
    }

    /// Route each logged line to the terminal.
    pub fn terminal_output_enable(&mut self)
        ensures
            final(self)@ == old(self)@.set_flag(Flag::TerminalOutput),
    {
        self.set(Flag::TerminalOutput);
    }

    /// Prefix each terminal line with a timestamp.
    pub fn terminal_timestamp_enable(&mut self)
        ensures
            final(self)@ == old(self)@.set_flag(Flag::TerminalTimestamp),
    {
        self.set(Flag::TerminalTimestamp);
    }

    /// Route each logged line to the log file.
    pub fn file_output_enable(&mut self)
        ensures
            final(self)@ == old(self)@.set_flag(Flag::FileOutput),
    {
        self.set(Flag::FileOutput);
    }

    /// Prefix each file line with a timestamp.
    pub fn file_timestamp_enable(&mut self)
        ensures
            final(self)@ == old(self)@.set_flag(Flag::FileTimestamp),
    {
        self.set(Flag::FileTimestamp);
    }

    /// Give each run its own log file by prefixing the file's name with a
    /// timestamp.
    pub fn file_history_enable(&mut self)
        ensures
            final(self)@ == old(self)@.set_flag(Flag::FileHistory),
    {
        self.set(Flag::FileHistory);
    }

    /// Store the base path from which the log file's name and directory
    /// are derived, replacing any earlier one.
    pub fn set_path(&mut self, path: String)
        ensures
            final(self)@ == (LoggerView { path: Some(path@), ..old(self)@ }),
    {
        self.path = Some(path);
        proof {
            assert(self@ =~= (LoggerView { path: Some(path@), ..old(self)@ }));
        }
    }

    /// A copy of the stored base path, or nothing when none was set.
    pub fn get_path(&self) -> (r: Option<String>)
        ensures
            match (r, self@.path) {
                (Some(p), Some(q)) => p@ == q,
                (None, None) => true,
                _ => false,
            },
    {
        match &self.path {
            Some(p) => Some(p.clone()),
            None => None,
        }
    }

    /// The location the log file would be created at: the base path's
    /// directory, then `debug/`, then the file name — prefixed with a
    /// timestamp when history naming is on — and `.log`.  Nothing when no
    /// base path was set or it has no file name.
    pub fn start_log_file(&self) -> (r: Option<String>)
        ensures
            r is Some <==> path_derivable(self@.path),
            r matches Some(p) ==> log_path_for(self@.path, self@.file_history, p@),
            !self@.file_history ==> (r matches Some(p) ==> (self@.path matches Some(b) && p@
                == spec_log_path(b, Seq::<char>::empty()))),
    {
        let base = match &self.path {
            Some(p) => p,
            None => {
                return None;
            },
        };
        let mut prefix = String::new();
        if self.file_history {
            let ts = get_timestamp();
            prefix.append(ts.as_str());
            prefix.append("_");
            proof {
                reveal_strlit("_");
                let (s, n) = choose|s: u64, n: u64|
                    n < 1000000000 && ts@ == spec_timestamp(s, n);
                assert(prefix@ =~= spec_timestamp(s, n).push('_'));
                assert(spec_prefix(self@.file_history, prefix@));
            }
        } else {
            proof {
                assert(prefix@ =~= Seq::<char>::empty());
                assert(spec_prefix(self@.file_history, prefix@));
            }
        }
        let r = derive_log_path(base.as_str(), prefix.as_str());
        proof {
            assert(self@.path == Some(base@));
            if r is Some {
                let p = r->Some_0;
                assert(p@ == spec_log_path(base@, prefix@));
                assert(spec_prefix(self@.file_history, prefix@) && p@ == spec_log_path(
                    base@,
                    prefix@,
                ));
                assert(log_path_for(self@.path, self@.file_history, p@));
            }
        }
        r
    }

    /// Turn the facility on.  Raises the global flag; when file output
    /// was requested and the base path yields a file name, hands back the
    /// log file path for the host to create.  A missing or nameless base
    /// path is swallowed: logging to file simply stays off.
    pub fn enable(&mut self) -> (r: Option<String>)
        ensures
            final(self)@ == old(self)@.set_flag(Flag::GlobalEnable),
            r is Some <==> (old(self)@.file_output && path_derivable(old(self)@.path)),
            r matches Some(p) ==> log_path_for(old(self)@.path, old(self)@.file_history, p@),
            !old(self)@.file_history ==> (r matches Some(p) ==> (old(self)@.path matches Some(b)
                && p@ == spec_log_path(b, Seq::<char>::empty()))),
    {
        self.set(Flag::GlobalEnable);
        if self.get(Flag::FileOutput) {
            self.start_log_file()
        } else {
            None
        }
    }

    /// Record that the host created the log file that `enable` asked for.
    pub fn set_file_handle(&mut self)
        requires
            old(self)@.global_enable,
            old(self)@.file_output,
        ensures
            final(self)@ == (LoggerView { file_open: true, ..old(self)@ }),
            final(self)@.wf(),
    {
        self.file_open = true;
        proof {
            assert(self@ =~= (LoggerView { file_open: true, ..old(self)@ }));
        }
    }

    /// Render one message for each sink that takes it.  Before the global
    /// flag is up this produces nothing at all; afterwards each enabled
    /// sink gets exactly one line, the message prefixed with a fresh
    /// timestamp and a space where that sink's timestamp flag is up.  The
    /// file line only exists while a log file stands open.
    pub fn log(&self, msg: &str) -> (r: LogLines)
        ensures
            r.terminal is Some <==> (self@.global_enable && self@.terminal_output),
            r.file is Some <==> (self@.global_enable && self@.file_output && self@.file_open),
            r.terminal matches Some(t) ==> (if self@.terminal_timestamp {
                exists|s: u64, n: u64|
                    n < 1000000000 && t@ == spec_timestamp(s, n).push(' ') + msg@
            } else {
                t@ == msg@
            }),
            r.file matches Some(t) ==> (if self@.file_timestamp {
                exists|s: u64, n: u64|
                    n < 1000000000 && t@ == spec_timestamp(s, n).push(' ') + msg@
            } else {
                t@ == msg@
            }),
    {
        if !self.global_enable {
            return LogLines { terminal: None, file: None };
        }
        let file = if self.file_output && self.file_open {
            Some(self.render_line(self.file_timestamp, msg))
        } else {
            None
        };
        let terminal = if self.terminal_output {
            Some(self.render_line(self.terminal_timestamp, msg))
        } else {
            None
        };
        LogLines { terminal, file }
    }

    /// One finished line: the message, prefixed with a fresh timestamp
    /// and a space when `timestamp` asks for one.
    fn render_line(&self, timestamp: bool, msg: &str) -> (r: String)
        ensures
            timestamp ==> exists|s: u64, n: u64|
                n < 1000000000 && r@ == spec_timestamp(s, n).push(' ') + msg@,
            !timestamp ==> r@ == msg@,
    {
        let mut line = String::new();
        if timestamp {
            let ts = get_timestamp();
            line.append(ts.as_str());
            line.append(" ");
            line.append(msg);
            proof {
                reveal_strlit(" ");
                let (s, n) = choose|s: u64, n: u64|
                    n < 1000000000 && ts@ == spec_timestamp(s, n);
                assert(line@ =~= spec_timestamp(s, n).push(' ') + msg@);
            }
        } else {
            line.append(msg);
            proof {
                assert(line@ =~= msg@);
            }
        }
        line
    }
}

/// Law: raising a flag twice leaves the very state that raising it once
/// leaves.
pub proof fn lemma_set_idempotent(v: LoggerView, flag: Flag)
    ensures
        v.set_flag(flag).set_flag(flag) == v.set_flag(flag),
{
    assert(v.set_flag(flag).set_flag(flag) =~= v.set_flag(flag));
}

/// Raising one flag changes that flag's reading to true and no other
/// flag's reading at all.
pub proof fn lemma_get_after_set(v: LoggerView, raised: Flag, read: Flag)
    ensures
        v.set_flag(raised).get_flag(read) == (raised == read || v.get_flag(read)),
{
}

/// Law: after any sequence of flag raises, a flag reads true exactly when
/// the sequence holds it or it already stood raised.
pub proof fn lemma_set_sequence(v: LoggerView, flags: Seq<Flag>, read: Flag)
    ensures
        v.set_flags(flags).get_flag(read) == (flags.contains(read) || v.get_flag(read)),
    decreases flags.len(),
{
    if flags.len() == 0 {
        assert(!flags.contains(read));
    } else {
        lemma_set_sequence(v.set_flag(flags[0]), flags.drop_first(), read);
        lemma_get_after_set(v, flags[0], read);
        assert(flags.contains(read) == (flags[0] == read || flags.drop_first().contains(
            read,
        ))) by {
            if flags[0] == read {
                assert(flags.contains(read));
            }
            if flags.drop_first().contains(read) {
                let i = choose|i: int|
                    0 <= i < flags.drop_first().len() && flags.drop_first()[i] == read;
                assert(flags[i + 1] == read);
            }
            if flags.contains(read) {
                let i = choose|i: int| 0 <= i < flags.len() && flags[i] == read;
                if i != 0 {
                    assert(flags.drop_first()[i - 1] == read);
                }
            }
        }
    }
}

/// Law: starting from a fresh logger, after any sequence of flag raises a
/// flag reads true exactly when the sequence holds it — flags raised stay
/// raised, flags never raised stay down.
pub proof fn lemma_flags_after_configuration(flags: Seq<Flag>, read: Flag)
    ensures
        LoggerView::init().set_flags(flags).get_flag(read) == flags.contains(read),
{
    lemma_set_sequence(LoggerView::init(), flags, read);
}

/// Law: whatever sequence of flag raises configured a fresh logger before
/// it was enabled, afterwards a flag reads true exactly when it was
/// explicitly raised — the enable step itself raises only the global
/// flag.
pub proof fn lemma_flags_after_enable(flags: Seq<Flag>, read: Flag)
    ensures
        LoggerView::init().set_flags(flags).set_flag(Flag::GlobalEnable).get_flag(read) == (
        flags.contains(read) || read == Flag::GlobalEnable),
{
    lemma_flags_after_configuration(flags, read);
    lemma_get_after_set(LoggerView::init().set_flags(flags), Flag::GlobalEnable, read);
}

} // verus!
