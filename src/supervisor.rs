use crate::error::{CommandError, CommandResult};
use crate::progress::{normalize, normalized, progress_value, progress_value_in, ProgressEvent};
use crate::text::{decimal_string, int_decimal};
use vstd::prelude::*;
use vstd::string::StringExecFns;

verus! {

/// One event of the supervised process, in the order the host delivers them.
#[derive(Debug)]
pub enum ProcessEvent {
    /// A chunk of standard output: one or more lines.
    Stdout(Vec<u8>),
    /// A chunk of standard error; it carries no progress.
    Stderr(Vec<u8>),
    /// The process host reported an error.
    Error(String),
    /// The process exited, with its exit code when one is known.
    Terminated(Option<i32>),
}

/// Where a supervised run stands.
#[derive(Clone, Copy, Debug, PartialEq, Eq, Structural)]
pub enum Phase {
    Spawning,
    Running,
    Succeeded,
    Failed,
}

/// The decisions of one supervised run of the external process.
///
/// The host spawns the process, hands every event to `on_event`, and calls
/// `on_closed` once the event stream has ended; the supervisor says what to
/// emit and when the run is over.
pub struct Supervisor {
    output: String,
    expected_total_us: i64,
    phase: Phase,
}

pub open spec fn is_newline(b: u8) -> bool {
    b == 10
}

/// A line with one trailing carriage return removed.
pub open spec fn strip_cr(l: Seq<u8>) -> Seq<u8> {
    if l.len() > 0 && l.last() == 13 {
        l.drop_last()
    } else {
        l
    }
}

pub open spec fn line_sample(l: Seq<u8>) -> Seq<u64> {
    match progress_value(strip_cr(l)) {
        Some(v) => seq![v],
        None => Seq::empty(),
    }
}

/// The samples of the lines of `b` from the line that starts at `start`,
/// scanning from position `i`.
pub open spec fn samples_from(b: Seq<u8>, start: int, i: int) -> Seq<u64>
    decreases b.len() - i,
{
    if i >= b.len() {
        line_sample(b.subrange(start, b.len() as int))
    } else if is_newline(b[i]) {
        line_sample(b.subrange(start, i)) + samples_from(b, i + 1, i + 1)
    } else {
        samples_from(b, start, i + 1)
    }
}

/// The progress samples of a chunk of output, one per progress line, in order.
pub open spec fn line_samples(b: Seq<u8>) -> Seq<u64> {
    samples_from(b, 0, 0)
}

/// The events that a chunk of output gives against an expected total.
pub open spec fn chunk_events(b: Seq<u8>, expected_total_us: i64) -> Seq<ProgressEvent> {
    if expected_total_us > 0 {
        line_samples(b).map_values(|v: u64| normalized(v, expected_total_us)->0)
    } else {
        Seq::empty()
    }
}

pub open spec fn exit_message(code: i32) -> Seq<char> {
    "FFmpeg process exited with code "@ + int_decimal(code as int)
}

/// The progress samples of a chunk of process output.
///
/// The chunk is cut into lines at each `\n`; a trailing `\r` of a line is
/// dropped; each line is read with the progress parser, and lines that carry
/// no sample are skipped.
pub fn stdout_samples(b: &[u8]) -> (r: Vec<u64>)
    ensures
        r@ == line_samples(b@),
{
    let mut out: Vec<u64> = Vec::new();
    let mut start: usize = 0;
    let mut i: usize = 0;
    while i < b.len()
        invariant
            start <= i <= b@.len(),
            line_samples(b@) == out@ + samples_from(b@, start as int, i as int),
        decreases b@.len() - i,
    {
        if b[i] == 10u8 {
            let ghost before = out@;
            let end: usize = if i > start && b[i - 1] == 13u8 {
                i - 1
            } else {
                i
            };
            assert(strip_cr(b@.subrange(start as int, i as int)) =~= b@.subrange(
                start as int,
                end as int,
            ));
            let s = progress_value_in(b, start, end);
            if let Some(v) = s {
                out.push(v);
            }
            assert(out@ =~= before + line_sample(b@.subrange(start as int, i as int)));
            assert(line_samples(b@) =~= out@ + samples_from(b@, (i + 1) as int, (i + 1) as int));
            start = i + 1;
        }
        i = i + 1;
    }
    let ghost before = out@;
    let end: usize = if b.len() > start && b[b.len() - 1] == 13u8 {
        b.len() - 1
    } else {
        b.len()
    };
    assert(strip_cr(b@.subrange(start as int, b@.len() as int)) =~= b@.subrange(
        start as int,
        end as int,
    ));
    if let Some(v) = progress_value_in(b, start, end) {
        out.push(v);
    }
    assert(out@ =~= before + line_sample(b@.subrange(start as int, b@.len() as int)));
    out
}

/// The progress events for a chunk of process output: one per progress line,
/// in order, and none when the expected total gives no baseline.
pub fn stdout_events(b: &[u8], expected_total_us: i64) -> (r: Vec<ProgressEvent>)
    ensures
        r@ == chunk_events(b@, expected_total_us),
{
    let mut out: Vec<ProgressEvent> = Vec::new();
    if expected_total_us <= 0 {
        assert(out@ =~= chunk_events(b@, expected_total_us));
        return out;
    }
    let samples = stdout_samples(b);
    let ghost want = line_samples(b@).map_values(|v: u64| normalized(v, expected_total_us)->0);
    let mut i: usize = 0;
    while i < samples.len()
        invariant
            expected_total_us > 0,
            samples@ == line_samples(b@),
            want == line_samples(b@).map_values(|v: u64| normalized(v, expected_total_us)->0),
            i <= samples@.len(),
            out@ == want.subrange(0, i as int),
        decreases samples@.len() - i,
    {
        match normalize(samples[i], expected_total_us) {
            Some(ev) => out.push(ev),
            None => {},
        }
        assert(out@ =~= want.subrange(0, i + 1));
        i = i + 1;
    }
    assert(want.subrange(0, i as int) =~= want);
    out
}

/// The error reported for a process that exited with a non-zero code.
pub fn exit_error(code: i32) -> (r: CommandError)
    ensures
        r matches CommandError::FFmpegError(m) && m@ == exit_message(code),
{
    let digits = decimal_string(code as i64);
    let m = "FFmpeg process exited with code ".to_owned();
    CommandError::FFmpegError(m.concat(digits.as_str()))
}

impl Supervisor {
    /// The path returned when the run succeeds.
    pub closed spec fn spec_output(&self) -> Seq<char> {
        self.output@
    }

    /// The total duration that progress is measured against, in microseconds.
    pub closed spec fn spec_expected_total_us(&self) -> i64 {
        self.expected_total_us
    }

    /// Where the run stands.
    pub closed spec fn spec_phase(&self) -> Phase {
        self.phase
    }

    pub fn output(&self) -> (r: &String)
        ensures
            r@ == self.spec_output(),
    {
        &self.output
    }

    pub fn expected_total_us(&self) -> (r: i64)
        ensures
            r == self.spec_expected_total_us(),
    {
        self.expected_total_us
    }

    pub fn phase(&self) -> (r: Phase)
        ensures
            r == self.spec_phase(),
    {
        self.phase
    }

    /// A run that is about to spawn the process; `output` is returned on success.
    pub fn new(output: String, expected_total_us: i64) -> (r: Supervisor)
        ensures
            r.spec_output() == output@,
            r.spec_expected_total_us() == expected_total_us,
            r.spec_phase() == Phase::Spawning,
    {
        Supervisor { output, expected_total_us, phase: Phase::Spawning }
    }

    /// The process was spawned: the run now takes events.
    pub fn spawned(&mut self)
        requires
            old(self).spec_phase() == Phase::Spawning,
        ensures
            final(self).spec_phase() == Phase::Running,
            final(self).spec_output() == old(self).spec_output(),
            final(self).spec_expected_total_us() == old(self).spec_expected_total_us(),
    {
        self.phase = Phase::Running;
    }

    /// The process could not be spawned: the run fails with the cause.
    pub fn spawn_failed(&mut self, cause: String) -> (r: CommandError)
        requires
            old(self).spec_phase() == Phase::Spawning,
        ensures
            final(self).spec_phase() == Phase::Failed,
            r == CommandError::FFmpegError(cause),
            final(self).spec_output() == old(self).spec_output(),
            final(self).spec_expected_total_us() == old(self).spec_expected_total_us(),
    {
        self.phase = Phase::Failed;
        CommandError::FFmpegError(cause)
    }

    /// Takes one event of the running process.
    ///
    /// Output yields the progress events to emit and the run goes on; an exit
    /// with code zero or no code also lets it go on, so that what is still
    /// buffered is drained. A host error, or an exit with a non-zero code,
    /// ends the run with a process error.
    pub fn on_event(&mut self, ev: ProcessEvent) -> (r: Result<Vec<ProgressEvent>, CommandError>)
        requires
            old(self).spec_phase() == Phase::Running,
        ensures
            final(self).spec_output() == old(self).spec_output(),
            final(self).spec_expected_total_us() == old(self).spec_expected_total_us(),
            final(self).spec_phase() == (if r is Ok {
                Phase::Running
            } else {
                Phase::Failed
            }),
            match ev {
                ProcessEvent::Stdout(b) => r matches Ok(evs) && evs@ == chunk_events(
                    b@,
                    old(self).spec_expected_total_us(),
                ),
                ProcessEvent::Stderr(_) => r matches Ok(evs) && evs@.len() == 0,
                ProcessEvent::Error(m) => r == Err::<Vec<ProgressEvent>, _>(
                    CommandError::FFmpegError(m),
                ),
                ProcessEvent::Terminated(code) => match code {
                    Some(c) if c != 0 => r matches Err(CommandError::FFmpegError(m)) && m@
                        == exit_message(c),
                    _ => r matches Ok(evs) && evs@.len() == 0,
                },
            },
    {
        match ev {
            ProcessEvent::Stdout(b) => Ok(stdout_events(b.as_slice(), self.expected_total_us)),
            ProcessEvent::Stderr(_) => Ok(Vec::new()),
            ProcessEvent::Error(m) => {
                self.phase = Phase::Failed;
                Err(CommandError::FFmpegError(m))
            },
            ProcessEvent::Terminated(code) => {
                match code {
                    Some(c) => {
                        if c != 0 {
                            self.phase = Phase::Failed;
                            return Err(exit_error(c));
                        }
                    },
                    None => {},
                }
                Ok(Vec::new())
            },
        }
    }

    /// The event stream ended while the run was still going: it succeeded,
    /// and the output path is the result.
    pub fn on_closed(&mut self) -> (r: CommandResult<String>)
        requires
            old(self).spec_phase() == Phase::Running,
        ensures
            final(self).spec_phase() == Phase::Succeeded,
            r matches Ok(p) && p@ == old(self).spec_output(),
    {
        self.phase = Phase::Succeeded;
        Ok(self.output.clone())
    }
}

} // verus!
