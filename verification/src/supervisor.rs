//! The process supervisor's decisions: relay, await, verdict.

use vstd::prelude::*;

verus! {

/// One observation made while relaying the child's standard output.
pub enum OutputEvent {
    /// A line the child printed.
    Line(String),
    /// A failure reading the output stream.
    ReadError,
}

/// The outcome of awaiting the child's termination.
pub enum WaitEvent {
    /// The child exited; carries its status code.
    Exited(i32),
    /// Awaiting the child failed.
    WaitError,
}

/// The supervisor's verdict for one launch: the first failure that
/// occurred, or completion.
pub enum SupervisorOutcome {
    /// The child ran to completion; carries its exit code.
    Completed(i32),
    /// The child could not be spawned; nothing else was attempted.
    SpawnFailed,
    /// The child started, but reading its output failed; its exit was
    /// still awaited so no process is orphaned.
    OutputFailed,
    /// The child started and its output was relayed, but awaiting its
    /// exit failed.
    WaitFailed,
}

impl SupervisorOutcome {
    /// A clean exit, regardless of the child's own exit code.
    pub open spec fn spec_is_success(self) -> bool {
        self is Completed
    }

    /// Whether the launch is reported as a success.
    pub fn is_success(&self) -> (r: bool)
        ensures
            r == self.spec_is_success(),
    {
        match self {
            SupervisorOutcome::Completed(_) => true,
            _ => false,
        }
    }

    /// The process outcome propagated to the invoker: the child's own exit
    /// code after a clean exit, and a nonzero code after any fatal failure.
    pub open spec fn spec_exit_code(self) -> int {
        match self {
            SupervisorOutcome::Completed(c) => c as int,
            _ => 1,
        }
    }

    /// The exit code to propagate for this verdict.
    pub fn exit_code(&self) -> (r: i32)
        ensures
            r as int == self.spec_exit_code(),
    {
        match self {
            SupervisorOutcome::Completed(c) => *c,
            _ => 1,
        }
    }
}

/// What the supervisor did and decided for one launch.
pub struct SupervisorReport {
    /// The relayed output lines, in arrival order.
    pub emitted: Vec<String>,
    /// Whether the child's exit was awaited.
    pub waited: bool,
    /// The verdict for the launch.
    pub outcome: SupervisorOutcome,
}

/// The lines relayed to the launcher's own output: every line the child
/// printed, in arrival order, read failures passed over.
pub open spec fn spec_emitted_lines(events: Seq<OutputEvent>) -> Seq<Seq<char>>
    decreases events.len(),
{
    if events.len() == 0 {
        Seq::empty()
    } else {
        let rest = spec_emitted_lines(events.drop_first());
        match events[0] {
            OutputEvent::Line(l) => seq![l@] + rest,
            OutputEvent::ReadError => rest,
        }
    }
}

/// Some read of the output stream failed.
pub open spec fn spec_has_read_error(events: Seq<OutputEvent>) -> bool {
    exists|i: int| 0 <= i < events.len() && events[i] is ReadError
}

/// The verdict the supervisor owes: a spawn failure is fatal on its own;
/// otherwise the first failure wins, a read failure before a wait failure,
/// and a clean exit carries the child's code.
pub open spec fn spec_supervisor_outcome(
    spawned: bool,
    events: Seq<OutputEvent>,
    wait: WaitEvent,
) -> SupervisorOutcome {
    if !spawned {
        SupervisorOutcome::SpawnFailed
    } else if spec_has_read_error(events) {
        SupervisorOutcome::OutputFailed
    } else {
        match wait {
            WaitEvent::Exited(c) => SupervisorOutcome::Completed(c),
            WaitEvent::WaitError => SupervisorOutcome::WaitFailed,
        }
    }
}

/// Decides one launch from what the platform reported: whether the spawn
/// succeeded, the observations made while relaying output, and the outcome
/// of awaiting the exit. A failed spawn is fatal at once and the child is
/// never awaited; once spawned, the exit is always awaited, whatever the
/// output relay did.
pub fn supervise(spawned: bool, output: &Vec<OutputEvent>, wait: &WaitEvent) -> (r:
    SupervisorReport)
    ensures
        r.waited == spawned,
        r.outcome == spec_supervisor_outcome(spawned, output@, *wait),
        spawned ==> r.emitted.deep_view() == spec_emitted_lines(output@),
        !spawned ==> r.emitted@.len() == 0,
{
    if !spawned {
        return SupervisorReport {
            emitted: Vec::new(),
            waited: false,
            outcome: SupervisorOutcome::SpawnFailed,
        };
    }
    let n = output.len();
    let mut emitted: Vec<String> = Vec::new();
    let mut read_error = false;
    let mut i: usize = 0;
    proof {
        assert(output@.skip(0) =~= output@);
        assert(emitted.deep_view() =~= Seq::<Seq<char>>::empty());
        assert(output@.take(0) =~= Seq::<OutputEvent>::empty());
    }
    while i < n
        invariant
            n == output@.len(),
            i <= n,
            spec_emitted_lines(output@) == emitted.deep_view() + spec_emitted_lines(
                output@.skip(i as int),
            ),
            read_error == spec_has_read_error(output@.take(i as int)),
        decreases n - i,
    {
        proof {
            assert(output@.skip(i as int)[0] == output@[i as int]);
            assert(output@.skip(i as int).drop_first() =~= output@.skip(i as int + 1));
            assert(output@.take(i as int + 1) =~= output@.take(i as int).push(output@[i as int]));
        }
        let ghost prev = emitted.deep_view();
        match &output[i] {
            OutputEvent::Line(l) => {
                emitted.push(l.clone());
                proof {
                    assert(emitted.deep_view() =~= prev.push(output@[i as int]->Line_0@));
                    assert(prev + (seq![output@[i as int]->Line_0@] + spec_emitted_lines(
                        output@.skip(i as int + 1),
                    )) =~= prev.push(output@[i as int]->Line_0@) + spec_emitted_lines(
                        output@.skip(i as int + 1),
                    ));
                    if spec_has_read_error(output@.take(i as int + 1)) {
                        let k = choose|k: int|
                            0 <= k < output@.take(i as int + 1).len() && #[trigger] output@.take(
                                i as int + 1,
                            )[k] is ReadError;
                        assert(output@.take(i as int)[k] is ReadError);
                    }
                }
            },
            OutputEvent::ReadError => {
                read_error = true;
                proof {
                    assert(output@.take(i as int + 1)[i as int] is ReadError);
                }
            },
        }
        i = i + 1;
    }
    proof {
        assert(output@.take(n as int) =~= output@);
        assert(spec_emitted_lines(output@.skip(n as int)) =~= Seq::<Seq<char>>::empty());
        assert(emitted.deep_view() + Seq::<Seq<char>>::empty() =~= emitted.deep_view());
    }
    let outcome = if read_error {
        SupervisorOutcome::OutputFailed
    } else {
        match wait {
            WaitEvent::Exited(c) => SupervisorOutcome::Completed(*c),
            WaitEvent::WaitError => SupervisorOutcome::WaitFailed,
        }
    };
    SupervisorReport { emitted, waited: true, outcome }
}

} // verus!
