//! How much a run says about itself while it runs, and how it says it.

use vstd::prelude::*;
use std::time::Duration;
use crate::clock::{as_nanos, nanos_of, saturating_sub};

verus! {

/// How much a run says while it runs.
#[derive(Debug, Clone, Copy, PartialEq, Eq, Structural)]
pub enum Verbosity {
    /// Nothing at all: no progress, no log lines.
    Quiet,
    /// Progress, and the events that bracket the run.
    Normal,
    /// The same, plus the run's per-frame detail.
    Verbose,
}

/// The level of one log line.
#[derive(Debug, Clone, Copy, PartialEq, Eq, Structural)]
pub enum LogLevel {
    /// The run started; the run finished. Always worth a line.
    Info,
    /// Per-frame detail, behind `--verbose`.
    Debug,
}

/// How a progress line reaches its stream.
#[derive(Debug, Clone, Copy, PartialEq, Eq, Structural)]
pub enum ProgressStyle {
    /// One line, redrawn in place with a carriage return. For a terminal.
    InPlace,
    /// Whole lines, with no control characters. For a pipe, a file or a log.
    Plain,
}

/// Whether a message at `level` is printed at `verbosity`.
pub open spec fn prints_spec(verbosity: Verbosity, level: LogLevel) -> bool {
    match verbosity {
        Verbosity::Quiet => false,
        Verbosity::Normal => level == LogLevel::Info,
        Verbosity::Verbose => true,
    }
}

impl Verbosity {
    /// Whether a message at `level` is printed at this verbosity.
    pub fn prints(self, level: LogLevel) -> (r: bool)
        ensures
            r == prints_spec(self, level),
    {
        match self {
            Verbosity::Quiet => false,
            Verbosity::Normal => matches!(level, LogLevel::Info),
            Verbosity::Verbose => true,
        }
    }

    /// Whether progress is drawn at all at this verbosity.
    pub fn draws_progress(self) -> (r: bool)
        ensures
            r == (self != Verbosity::Quiet),
    {
        !matches!(self, Verbosity::Quiet)
    }
}

impl Default for Verbosity {
    /// A run that says what it is doing, and no more.
    fn default() -> (v: Self)
        ensures
            v == Verbosity::Normal,
    {
        Verbosity::Normal
    }
}

impl LogLevel {
    /// The level as it appears in a log line's `level=` field.
    pub fn as_str(self) -> (s: &'static str)
        ensures
            s@ == (match self {
                LogLevel::Info => "info"@,
                LogLevel::Debug => "debug"@,
            }),
    {
        match self {
            LogLevel::Info => "info",
            LogLevel::Debug => "debug",
        }
    }
}

impl ProgressStyle {
    /// The style for a stream, given whether it is a terminal: a terminal gets
    /// the bar, everything else gets lines.
    pub fn of_terminal(is_terminal: bool) -> (s: Self)
        ensures
            s == (if is_terminal { ProgressStyle::InPlace } else { ProgressStyle::Plain }),
    {
        if is_terminal {
            ProgressStyle::InPlace
        } else {
            ProgressStyle::Plain
        }
    }
}


/// How often an in-place progress bar redraws, at most, in nanoseconds: five
/// times a second.
pub const PROGRESS_REDRAW_INTERVAL_NANOS: u64 = 200_000_000;

/// How much of a run must complete between two plain progress lines, in
/// percent: ten, so a run of any length is described by ten lines.
pub const PLAIN_PROGRESS_PERCENT_STEP: u32 = 10;

/// What a reporter writes to draw one progress line.
#[derive(Debug, Clone, Copy, PartialEq, Eq, Structural)]
pub enum ProgressWrite {
    /// A carriage return, the line, `padding` spaces to blank the tail of the
    /// longer line it overwrites, and a newline if `end_line`.
    Redraw {
        /// Spaces written after the line.
        padding: usize,
        /// Whether the line is ended, leaving no bar on screen.
        end_line: bool,
    },
    /// The line and a newline, with no control characters.
    Line,
}

/// What a reporter writes for one log line.
#[derive(Debug, Clone, Copy, PartialEq, Eq, Structural)]
pub enum LogWrite {
    /// The level is not printed at this verbosity: nothing is written.
    Silent,
    /// First, if `erase_width` is not zero, a carriage return, that many
    /// spaces and a carriage return, blanking the bar on screen; then the log
    /// line itself.
    Line {
        /// Width of the bar blanked before the line, zero if there was none.
        erase_width: usize,
    },
}

/// Whether the cadence of `style` has come round for a report at `elapsed`
/// of wall time and `percent` complete, given the last redraw and the last
/// plain-line bucket.
pub open spec fn cadence_due(
    style: ProgressStyle,
    last_redraw: Option<Duration>,
    last_percent_bucket: u32,
    elapsed: Duration,
    percent: u32,
) -> bool {
    match style {
        ProgressStyle::InPlace => match last_redraw {
            None => true,
            Some(last) => nanos_of(elapsed) - nanos_of(last) >= PROGRESS_REDRAW_INTERVAL_NANOS,
        },
        ProgressStyle::Plain => percent / PLAIN_PROGRESS_PERCENT_STEP > last_percent_bucket,
    }
}

/// The two cadences. An in-place bar that has never been drawn is due at
/// once; one last redrawn at `last` is due at `elapsed` exactly when 200 ms
/// of wall time have passed since `last`, so it is not due within 200 ms of
/// its last redraw however long the run has been going, and it redraws at
/// most five times a second. A plain reporter whose last line was for the
/// `last_percent_bucket`-th tenth of the run is due exactly when `percent`
/// has reached the next tenth, whenever and however often it last drew.
pub proof fn lemma_cadences(
    last: Duration,
    last_redraw: Option<Duration>,
    last_percent_bucket: u32,
    elapsed: Duration,
    percent: u32,
)
    ensures
        cadence_due(ProgressStyle::InPlace, None, last_percent_bucket, elapsed, percent),
        cadence_due(ProgressStyle::InPlace, Some(last), last_percent_bucket, elapsed, percent)
            <==> nanos_of(elapsed) >= nanos_of(last) + 200_000_000,
        nanos_of(elapsed) < nanos_of(last) + 200_000_000 ==> !cadence_due(
            ProgressStyle::InPlace,
            Some(last),
            last_percent_bucket,
            elapsed,
            percent,
        ),
        cadence_due(ProgressStyle::Plain, last_redraw, last_percent_bucket, elapsed, percent)
            <==> percent >= 10 * (last_percent_bucket + 1),
{
}

/// What a progress reporter remembers between one draw and the next: how it
/// draws, how much it prints, the width of the bar on screen, when it last
/// redrew and the last percent bucket it drew a plain line for.
///
/// The reporter's stream and clock stand outside this crate; every decision
/// about what to write to the stream, and when, is made here.
#[derive(Clone, Copy)]
pub struct ProgressCadence {
    style: ProgressStyle,
    verbosity: Verbosity,
    drawn_width: usize,
    last_redraw: Option<Duration>,
    last_percent_bucket: u32,
    finished: Ghost<bool>,
    lines_before_finish: Ghost<nat>,
}

impl ProgressCadence {
    /// Every line drawn mid-run in plain style was drawn in a tenth of the
    /// run above the one before it, so there are no more of them than the
    /// tenth the run has reached.
    #[verifier::type_invariant]
    spec fn inv(self) -> bool {
        &&& self.style == ProgressStyle::Plain && !self.finished@ ==> self.lines_before_finish@
            <= self.last_percent_bucket
        &&& self.style == ProgressStyle::Plain ==> self.drawn_width == 0
    }


    /// Whether the run's last line has been drawn.
    pub closed spec fn finished_spec(&self) -> bool {
        self.finished@
    }

    /// Lines drawn before the run's last one.
    pub closed spec fn lines_before_finish_spec(&self) -> nat {
        self.lines_before_finish@
    }

    /// Whether progress redraws in place or appends lines.
    pub closed spec fn style_spec(&self) -> ProgressStyle {
        self.style
    }

    /// How much is printed.
    pub closed spec fn verbosity_spec(&self) -> Verbosity {
        self.verbosity
    }

    /// Width of the in-place line on screen; zero when no bar is showing.
    pub closed spec fn drawn_width_spec(&self) -> usize {
        self.drawn_width
    }

    /// Wall time at the last redraw.
    pub closed spec fn last_redraw_spec(&self) -> Option<Duration> {
        self.last_redraw
    }

    /// The last percent bucket a line was drawn for.
    pub closed spec fn last_percent_bucket_spec(&self) -> u32 {
        self.last_percent_bucket
    }

    /// A reporter that has drawn nothing yet.
    pub fn new(style: ProgressStyle, verbosity: Verbosity) -> (c: Self)
        ensures
            c.style_spec() == style,
            c.verbosity_spec() == verbosity,
            c.drawn_width_spec() == 0,
            c.last_redraw_spec() is None,
            c.last_percent_bucket_spec() == 0,
            c.style_spec() == ProgressStyle::Plain ==> c.drawn_width_spec() == 0,
            !c.finished_spec(),
            c.lines_before_finish_spec() == 0,
    {
        ProgressCadence {
            style,
            verbosity,
            drawn_width: 0,
            last_redraw: None,
            last_percent_bucket: 0,
            finished: Ghost(false),
            lines_before_finish: Ghost(0),
        }
    }

    /// Whether progress redraws in place or appends lines. A plain reporter
    /// never has a bar on screen.
    pub fn style(&self) -> (s: ProgressStyle)
        ensures
            s == self.style_spec(),
            s == ProgressStyle::Plain ==> self.drawn_width_spec() == 0,
    {
        proof {
            use_type_invariant(self);
        }
        self.style
    }

    /// How much is printed.
    pub fn verbosity(&self) -> (v: Verbosity)
        ensures
            v == self.verbosity_spec(),
    {
        self.verbosity
    }

    /// Whether this style's cadence has come round for a report at `elapsed`
    /// and `percent` complete.
    pub fn is_due(&self, elapsed: Duration, percent: u32) -> (due: bool)
        ensures
            due == cadence_due(
                self.style_spec(),
                self.last_redraw_spec(),
                self.last_percent_bucket_spec(),
                elapsed,
                percent,
            ),
    {
        match self.style {
            ProgressStyle::InPlace => match self.last_redraw {
                None => true,
                Some(last) => as_nanos(saturating_sub(elapsed, last))
                    >= PROGRESS_REDRAW_INTERVAL_NANOS as u128,
            },
            ProgressStyle::Plain => percent / PLAIN_PROGRESS_PERCENT_STEP > self.last_percent_bucket,
        }
    }

    /// Whether a report of `steps_done` of `total_steps` offered mid-run is
    /// drawn: only while progress is drawn at all, only before the run is
    /// over — the finished run's line is [`ProgressCadence::draw`]'s with
    /// `final_line` — and only when the cadence says so.
    pub fn observes(&self, steps_done: u64, total_steps: u64, elapsed: Duration, percent: u32) -> (draw: bool)
        ensures
            draw == (self.verbosity_spec() != Verbosity::Quiet && steps_done < total_steps
                && cadence_due(
                self.style_spec(),
                self.last_redraw_spec(),
                self.last_percent_bucket_spec(),
                elapsed,
                percent,
            )),
    {
        if !self.verbosity.draws_progress() || steps_done >= total_steps {
            return false;
        }
        self.is_due(elapsed, percent)
    }

    /// Draw a line of `line_len` characters for a report at `elapsed` and
    /// `percent` complete, ending the line if `final_line`; returns what to
    /// write. A line that is not the run's last is drawn only when the
    /// cadence is due for it, which [`ProgressCadence::observes`] decides.
    ///
    /// In place, the line overwrites the one on screen and pads out its tail;
    /// plain, it is a whole line of its own.
    pub fn draw(&mut self, elapsed: Duration, percent: u32, line_len: usize, final_line: bool) -> (write: ProgressWrite)
        requires
            !final_line ==> cadence_due(
                old(self).style_spec(),
                old(self).last_redraw_spec(),
                old(self).last_percent_bucket_spec(),
                elapsed,
                percent,
            ),
        ensures
            final(self).style_spec() == old(self).style_spec(),
            final(self).verbosity_spec() == old(self).verbosity_spec(),
            final(self).last_redraw_spec() == Some(elapsed),
            final(self).last_percent_bucket_spec() == percent / PLAIN_PROGRESS_PERCENT_STEP,
            final(self).finished_spec() == (old(self).finished_spec() || final_line),
            final(self).style_spec() == ProgressStyle::Plain ==> final(self).drawn_width_spec() == 0,
            final(self).lines_before_finish_spec() == old(self).lines_before_finish_spec() + if !old(
                self,
            ).finished_spec() && !final_line {
                1nat
            } else {
                0nat
            },
            // A plain line mid-run is drawn only in a tenth of the run above
            // every tenth drawn before it, so before its last line a plain run
            // has drawn no more lines than the tenth it has reached: nine at
            // most while it is unfinished, and ten with the last.
            old(self).style_spec() == ProgressStyle::Plain && !final_line
                ==> final(self).last_percent_bucket_spec() > old(self).last_percent_bucket_spec(),
            final(self).style_spec() == ProgressStyle::Plain && !final(self).finished_spec()
                ==> final(self).lines_before_finish_spec() <= final(self).last_percent_bucket_spec(),
            match old(self).style_spec() {
                ProgressStyle::InPlace => {
                    &&& write == ProgressWrite::Redraw {
                        padding: if old(self).drawn_width_spec() >= line_len {
                            (old(self).drawn_width_spec() - line_len) as usize
                        } else {
                            0
                        },
                        end_line: final_line,
                    }
                    &&& final(self).drawn_width_spec() == if final_line {
                        0
                    } else {
                        line_len
                    }
                },
                ProgressStyle::Plain => {
                    &&& write == ProgressWrite::Line
                    &&& final(self).drawn_width_spec() == old(self).drawn_width_spec()
                },
            },
    {
        proof {
            use_type_invariant(&*self);
        }
        let bucket = percent / PLAIN_PROGRESS_PERCENT_STEP;
        let ghost finished = self.finished@ || final_line;
        let ghost lines = self.lines_before_finish@ + if !self.finished@ && !final_line {
            1nat
        } else {
            0nat
        };
        let (write, drawn_width) = match self.style {
            ProgressStyle::InPlace => {
                let padding = self.drawn_width.saturating_sub(line_len);
                let width = if final_line {
                    0
                } else {
                    line_len
                };
                (ProgressWrite::Redraw { padding, end_line: final_line }, width)
            },
            ProgressStyle::Plain => (ProgressWrite::Line, self.drawn_width),
        };
        *self = ProgressCadence {
            style: self.style,
            verbosity: self.verbosity,
            drawn_width,
            last_redraw: Some(elapsed),
            last_percent_bucket: bucket,
            finished: Ghost(finished),
            lines_before_finish: Ghost(lines),
        };
        write
    }

    /// Write one log line at `level`, if it is printed at this verbosity;
    /// returns what to write. Any in-place bar on screen is blanked first, so
    /// a log line never lands in the middle of one.
    pub fn log(&mut self, level: LogLevel) -> (write: LogWrite)
        ensures
            final(self).style_spec() == old(self).style_spec(),
            final(self).verbosity_spec() == old(self).verbosity_spec(),
            final(self).last_redraw_spec() == old(self).last_redraw_spec(),
            final(self).last_percent_bucket_spec() == old(self).last_percent_bucket_spec(),
            final(self).finished_spec() == old(self).finished_spec(),
            final(self).lines_before_finish_spec() == old(self).lines_before_finish_spec(),
            // A plain reporter writes whole lines only: nothing to blank.
            old(self).style_spec() == ProgressStyle::Plain ==> (write == LogWrite::Silent || write
                == (LogWrite::Line { erase_width: 0 })),
            final(self).style_spec() == ProgressStyle::Plain ==> final(self).drawn_width_spec() == 0,
            if prints_spec(old(self).verbosity_spec(), level) {
                &&& write == LogWrite::Line { erase_width: old(self).drawn_width_spec() }
                &&& final(self).drawn_width_spec() == 0
            } else {
                &&& write == LogWrite::Silent
                &&& final(self).drawn_width_spec() == old(self).drawn_width_spec()
            },
    {
        proof {
            use_type_invariant(&*self);
        }
        if !self.verbosity.prints(level) {
            return LogWrite::Silent;
        }
        let erase_width = self.drawn_width;
        self.drawn_width = 0;
        LogWrite::Line { erase_width }
    }
}

} // verus!
