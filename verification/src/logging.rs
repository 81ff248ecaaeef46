//! The diagnostics sink and the shutdown escalation path.
//!
//! Every failure is either logged or converted into a typed record that the
//! sink retains whole; nothing is silently dropped.  A fatal record stops
//! the entire process: of the two policies a fatal condition could follow
//! (stop only the hosting event loop, or stop the process), this crate
//! commits to stopping the process, and [`Directive`] says so explicitly.

use vstd::prelude::*;

use crate::messages::Panic;

verus! {

/// What the surrounding run loop must do next.
#[derive(Debug, Clone, Copy, PartialEq, Eq, Structural)]
pub enum Directive {
    /// Keep running.
    Continue,
    /// Stop the whole process; `success` tells the run loop which exit
    /// status to report.
    StopProcess { success: bool },
}

/// A failure report: its diagnostic text, whether it is fatal, and the
/// backtrace text captured where the failure arose (empty when none was).
#[derive(Debug, PartialEq)]
pub struct Oops {
    pub error: String,
    pub fatal: bool,
    pub backtrace: String,
}

impl Oops {
    /// A recoverable failure: logged, execution continues.  The producer may
    /// fill in a backtrace afterwards; none is captured here.
    pub fn new(error: String) -> (o: Oops)
        ensures
            o.error == error,
            !o.fatal,
            o.backtrace@ == Seq::<char>::empty(),
    {
        Oops { error, fatal: false, backtrace: String::new() }
    }

    /// An unrecoverable failure: logged, then the process is stopped.  The
    /// producer may fill in a backtrace afterwards; none is captured here.
    pub fn fatal(error: String) -> (o: Oops)
        ensures
            o.error == error,
            o.fatal,
            o.backtrace@ == Seq::<char>::empty(),
    {
        Oops { error, fatal: true, backtrace: String::new() }
    }
}

/// How verbose the diagnostics output should be.
#[derive(Debug, Clone, Copy, PartialEq, Eq, Structural)]
pub enum Level {
    Info,
    Debug,
    Trace,
}

/// The output level a verbosity count asks for: quiet by default, one step
/// for debugging detail, anything more for full tracing.
pub fn log_level(verbosity: usize) -> (l: Level)
    ensures
        l == (if verbosity == 0 {
            Level::Info
        } else if verbosity == 1 {
            Level::Debug
        } else {
            Level::Trace
        }),
{
    if verbosity == 0 {
        Level::Info
    } else if verbosity == 1 {
        Level::Debug
    } else {
        Level::Trace
    }
}

/// The sink that diagnostics are sent to.  Plain lines, failure reports and
/// panic records are each kept whole and in order — a report's fatal flag
/// and backtrace, and every field of a panic record, stay available to
/// whatever the surrounding runtime forwards them to.
#[derive(Debug)]
pub struct Logger {
    entries: Vec<String>,
    reports: Vec<Oops>,
    panics: Vec<Panic>,
}

impl Logger {
    /// The plain lines logged so far, oldest first.
    pub closed spec fn view(&self) -> Seq<Seq<char>> {
        self.entries.deep_view()
    }

    /// The failure reports retained so far, oldest first, each with its
    /// text, fatal flag and backtrace text.
    pub closed spec fn reports(&self) -> Seq<Oops> {
        self.reports@
    }

    /// The panic records retained so far, oldest first, each with its
    /// message, file, line, column, thread and backtrace.
    pub closed spec fn panics(&self) -> Seq<Panic> {
        self.panics@
    }

    /// A sink with nothing logged yet.
    pub fn new() -> (l: Logger)
        ensures
            l@ == Seq::<Seq<char>>::empty(),
            l.reports() == Seq::<Oops>::empty(),
            l.panics() == Seq::<Panic>::empty(),
    {
        let l = Logger { entries: Vec::new(), reports: Vec::new(), panics: Vec::new() };
        proof {
            assert(l@ =~= Seq::<Seq<char>>::empty());
        }
        l
    }

    /// Records one plain line.
    pub fn log(&mut self, line: String)
        ensures
            final(self)@ == old(self)@.push(line@),
            final(self).reports() == old(self).reports(),
            final(self).panics() == old(self).panics(),
    {
        let ghost prev = self.entries@;
        self.entries.push(line);
        proof {
            assert forall|k: int| 0 <= k < self@.len() implies self@[k] == old(self)@.push(
                line@,
            )[k] by {
                if k < prev.len() {
                    assert(self.entries@[k] == prev[k]);
                }
            }
            assert(self@ =~= old(self)@.push(line@));
        }
    }

    /// The logged lines, for forwarding or inspection.
    pub fn entries(&self) -> (r: &Vec<String>)
        ensures
            r.deep_view() == self@,
    {
        &self.entries
    }

    /// The retained failure reports, for forwarding or inspection.
    pub fn fault_reports(&self) -> (r: &Vec<Oops>)
        ensures
            r@ == self.reports(),
    {
        &self.reports
    }

    /// The retained panic records, for forwarding or inspection.
    pub fn panic_records(&self) -> (r: &Vec<Panic>)
        ensures
            r@ == self.panics(),
    {
        &self.panics
    }

    /// Handles a failure report: retains the whole record — text, fatal
    /// flag, backtrace — and escalates exactly when the report is fatal.
    pub fn handle_oops(&mut self, msg: Oops) -> (d: Directive)
        ensures
            final(self).reports() == old(self).reports().push(msg),
            final(self)@ == old(self)@,
            final(self).panics() == old(self).panics(),
            d == (if msg.fatal {
                Directive::StopProcess { success: false }
            } else {
                Directive::Continue
            }),
    {
        let fatal = msg.fatal;
        self.reports.push(msg);
        if fatal {
            Directive::StopProcess { success: false }
        } else {
            Directive::Continue
        }
    }

    /// Handles a panic record: retains the full diagnostic — message, file,
    /// line, column, thread, backtrace — with nothing dropped.  A panic
    /// record by itself never stops anything; escalation is its sender's
    /// decision.
    pub fn handle_panic(&mut self, msg: Panic)
        ensures
            final(self).panics() == old(self).panics().push(msg),
            final(self)@ == old(self)@,
            final(self).reports() == old(self).reports(),
    {
        self.panics.push(msg);
    }
}

impl Default for Logger {
    /// A sink with nothing logged yet.
    fn default() -> (l: Logger)
        ensures
            l@ == Seq::<Seq<char>>::empty(),
            l.reports() == Seq::<Oops>::empty(),
            l.panics() == Seq::<Panic>::empty(),
    {
        Logger::new()
    }
}

} // verus!
