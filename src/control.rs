use vstd::prelude::*;

use crate::store::WriteMode;

verus! {

/// Run options: the log file, the store's connection string, the size of
/// each scan page and write batch, and whether the backfill only inserts.
#[derive(Debug)]
pub struct Args {
    pub logs: String,
    pub uri: String,
    pub batch_size: u32,
    pub insert_only: bool,
}

impl Args {
    /// Whether the options can start a run: the batch size must be positive.
    pub fn is_valid(&self) -> (r: bool)
        ensures
            r == (self.batch_size > 0),
    {
        self.batch_size > 0
    }

    /// The backfill's write mode: insert-only when asked for, otherwise
    /// set-on-insert, so that a re-run never overwrites what live capture wrote.
    pub fn write_mode(&self) -> (r: WriteMode)
        ensures
            r == if self.insert_only {
                WriteMode::InsertOnly
            } else {
                WriteMode::UpsertSetOnInsert
            },
    {
        if self.insert_only {
            WriteMode::InsertOnly
        } else {
            WriteMode::UpsertSetOnInsert
        }
    }
}

/// An operator command read from the control channel.
#[derive(Clone, Copy, Debug, PartialEq, Eq)]
pub enum Command {
    ToggleCapture,
    ToggleBackfill,
    Unknown,
}

/// The Unicode White_Space characters, which `char::is_whitespace` accepts.
pub open spec fn is_white_space(c: char) -> bool {
    ||| '\u{9}' <= c <= '\u{d}'
    ||| c == ' '
    ||| c == '\u{85}'
    ||| c == '\u{a0}'
    ||| c == '\u{1680}'
    ||| '\u{2000}' <= c <= '\u{200a}'
    ||| c == '\u{2028}'
    ||| c == '\u{2029}'
    ||| c == '\u{202f}'
    ||| c == '\u{205f}'
    ||| c == '\u{3000}'
}

/// `s` without its leading white space.
pub open spec fn trim_start(s: Seq<char>) -> Seq<char>
    decreases s.len(),
{
    if s.len() > 0 && is_white_space(s[0]) {
        trim_start(s.drop_first())
    } else {
        s
    }
}

/// `s` without its trailing white space.
pub open spec fn trim_end(s: Seq<char>) -> Seq<char>
    decreases s.len(),
{
    if s.len() > 0 && is_white_space(s.last()) {
        trim_end(s.drop_last())
    } else {
        s
    }
}

/// `s` without white space at either end.
pub open spec fn trimmed(s: Seq<char>) -> Seq<char> {
    trim_end(trim_start(s))
}

/// Relies on `str::trim`: the line without its leading and trailing
/// characters of the Unicode White_Space property.
#[verifier::external_body]
fn trim_line(line: &str) -> (r: &str)
    ensures
        r@ == trimmed(line@),
{
    line.trim()
}

/// The command that a trimmed line names: `c` toggles live capture, `n`
/// toggles the backfill, anything else is unknown.
pub open spec fn command_spec(t: Seq<char>) -> Command {
    if t == seq!['c'] {
        Command::ToggleCapture
    } else if t == seq!['n'] {
        Command::ToggleBackfill
    } else {
        Command::Unknown
    }
}

/// The command that an already trimmed line names.
pub fn command_of(t: &str) -> (r: Command)
    ensures
        r == command_spec(t@),
{
    if t.unicode_len() == 1 {
        let c = t.get_char(0);
        if c == 'c' {
            assert(t@ =~= seq!['c']);
            return Command::ToggleCapture;
        } else if c == 'n' {
            assert(t@ =~= seq!['n']);
            return Command::ToggleBackfill;
        }
    }
    Command::Unknown
}

/// The command that an input line names, ignoring surrounding white space.
pub fn parse_command(line: &str) -> (r: Command)
    ensures
        r == command_spec(trimmed(line@)),
{
    command_of(trim_line(line))
}

/// The answer to an operator command.
#[derive(Clone, Copy, Debug, PartialEq, Eq)]
pub enum Reply {
    CaptureToggled(bool),
    BackfillToggled(bool),
    Usage,
}

/// The two run flags, one per pipeline, and whether the live-capture
/// subscription has been confirmed.
#[derive(Clone, Copy, Debug, PartialEq, Eq)]
pub struct RunFlags {
    pub capture: bool,
    pub backfill: bool,
    pub capture_ready: bool,
}

impl RunFlags {
    /// Live capture on; the backfill on or off as configured; no subscription yet.
    pub fn initial(backfill: bool) -> (r: RunFlags)
        ensures
            r.capture,
            r.backfill == backfill,
            !r.capture_ready,
    {
        RunFlags { capture: true, backfill, capture_ready: false }
    }

    /// Flips the flag that the command names.
    pub fn apply(&mut self, cmd: Command) -> (r: Reply)
        ensures
            final(self).capture_ready == old(self).capture_ready,
            cmd == Command::ToggleCapture ==> final(self).capture == !old(self).capture
                && final(self).backfill == old(self).backfill && r == Reply::CaptureToggled(
                final(self).capture,
            ),
            cmd == Command::ToggleBackfill ==> final(self).backfill == !old(self).backfill
                && final(self).capture == old(self).capture && r == Reply::BackfillToggled(
                final(self).backfill,
            ),
            cmd == Command::Unknown ==> *final(self) == *old(self) && r == Reply::Usage,
    {
        match cmd {
            Command::ToggleCapture => {
                self.capture = !self.capture;
                Reply::CaptureToggled(self.capture)
            },
            Command::ToggleBackfill => {
                self.backfill = !self.backfill;
                Reply::BackfillToggled(self.backfill)
            },
            Command::Unknown => Reply::Usage,
        }
    }

    /// Records that the live-capture subscription is established.
    pub fn capture_confirmed(&mut self)
        ensures
            final(self).capture_ready,
            final(self).capture == old(self).capture,
            final(self).backfill == old(self).backfill,
    {
        self.capture_ready = true;
    }

    /// The backfill may scan only while its flag is on and after live capture
    /// is subscribed, so that no write made during the scan is missed.
    pub fn backfill_may_scan(&self) -> (r: bool)
        ensures
            r == (self.backfill && self.capture_ready),
    {
        self.backfill && self.capture_ready
    }

    /// Turns both pipelines off; each finishes its current unit of work.
    pub fn shutdown(&mut self)
        ensures
            !final(self).capture,
            !final(self).backfill,
            final(self).capture_ready == old(self).capture_ready,
    {
        self.capture = false;
        self.backfill = false;
    }
}

} // verus!
