use vstd::prelude::*;

verus! {

/// One notification from the child's combined event channel.
#[derive(Debug)]
pub enum ChildEvent {
    /// A line the child wrote to its standard output.
    StdoutLine(Vec<u8>),
    /// A line the child wrote to its standard error.
    StderrLine(Vec<u8>),
    /// A spawn or runtime error distinct from process exit; the process
    /// may still be alive.
    RuntimeError(String),
    /// The terminal event: the process exited or was killed, with an
    /// exit code and/or a termination signal where available.
    Terminated { code: Option<i32>, signal: Option<i32> },
    /// An event kind this supervisor does not recognize; ignored as a
    /// forward-compatible no-op, not an error.
    Unrecognized,
}

/// Severity of one diagnostic line the observation loop emits.
#[derive(Clone, Copy, PartialEq, Eq, Debug)]
pub enum LogLevel {
    Info,
    Warning,
    Error,
}

/// What the observation loop does with one event: what it logs, if
/// anything, and whether the loop ends here.
#[derive(Clone, Copy, PartialEq, Eq, Debug)]
pub struct EventStep {
    /// Severity of the diagnostic to emit, or nothing for ignored kinds.
    pub level: Option<LogLevel>,
    /// Whether this event ends the loop. True exactly for the terminal
    /// event; every other kind lets the loop continue.
    pub exits: bool,
}

/// The observation policy for one event: output lines are logged as
/// informational, error lines as warnings, runtime errors as errors
/// (the loop continues — the process may still be alive), the terminal
/// event is logged and ends the loop, and unrecognized kinds are
/// silently ignored.
pub open spec fn step_for(e: ChildEvent) -> EventStep {
    match e {
        ChildEvent::StdoutLine(_) => EventStep {
            level: Option::Some(LogLevel::Info),
            exits: false,
        },
        ChildEvent::StderrLine(_) => EventStep {
            level: Option::Some(LogLevel::Warning),
            exits: false,
        },
        ChildEvent::RuntimeError(_) => EventStep {
            level: Option::Some(LogLevel::Error),
            exits: false,
        },
        ChildEvent::Terminated { .. } => EventStep {
            level: Option::Some(LogLevel::Info),
            exits: true,
        },
        ChildEvent::Unrecognized => EventStep { level: Option::None, exits: false },
    }
}

/// Decide what to do with one event. The caller performs the logging
/// and, on `exits`, leaves its receive loop.
pub fn observe_event(e: &ChildEvent) -> (s: EventStep)
    ensures
        s == step_for(*e),
{
    match e {
        ChildEvent::StdoutLine(_) => EventStep { level: Option::Some(LogLevel::Info), exits: false },
        ChildEvent::StderrLine(_) => EventStep {
            level: Option::Some(LogLevel::Warning),
            exits: false,
        },
        ChildEvent::RuntimeError(_) => EventStep {
            level: Option::Some(LogLevel::Error),
            exits: false,
        },
        ChildEvent::Terminated { .. } => EventStep {
            level: Option::Some(LogLevel::Info),
            exits: true,
        },
        ChildEvent::Unrecognized => EventStep { level: Option::None, exits: false },
    }
}

/// The terminal event is the only kind that ends the observation loop.
pub proof fn lemma_only_terminal_exits(e: ChildEvent)
    ensures
        step_for(e).exits <==> e is Terminated,
{
}

/// What observing a whole trace of notifications produces: the
/// severities logged, in order, and whether a terminal event ended the
/// loop. Observation stops at the first terminal event; events after
/// it are never received.
pub open spec fn observe_trace(events: Seq<ChildEvent>) -> (Seq<LogLevel>, bool)
    decreases events.len(),
{
    if events.len() == 0 {
        (Seq::<LogLevel>::empty(), false)
    } else {
        let step = step_for(events[0]);
        let head = match step.level {
            Option::Some(l) => seq![l],
            Option::None => Seq::<LogLevel>::empty(),
        };
        if step.exits {
            (head, true)
        } else {
            let rest = observe_trace(events.drop_first());
            (head + rest.0, rest.1)
        }
    }
}

/// Run the observation policy over a finite trace of notifications, as
/// the loop around a live child would over its channel: one step per
/// event, stopping after the first terminal event or when the channel
/// is exhausted. Returns the log severities emitted, in order, and
/// whether a terminal event was observed.
pub fn run_observation(events: &Vec<ChildEvent>) -> (r: (Vec<LogLevel>, bool))
    ensures
        r.0@ == observe_trace(events@).0,
        r.1 == observe_trace(events@).1,
{
    let mut log: Vec<LogLevel> = Vec::new();
    let mut i: usize = 0;
    proof {
        assert(events@.skip(0) =~= events@);
        assert(Seq::<LogLevel>::empty() + observe_trace(events@).0 =~= observe_trace(events@).0);
    }
    loop
        invariant
            i <= events@.len(),
            observe_trace(events@).0 == log@ + observe_trace(events@.skip(i as int)).0,
            observe_trace(events@).1 == observe_trace(events@.skip(i as int)).1,
        decreases events@.len() - i,
    {
        if i == events.len() {
            proof {
                assert(events@.skip(i as int) =~= Seq::<ChildEvent>::empty());
                assert(log@ + Seq::<LogLevel>::empty() =~= log@);
            }
            return (log, false);
        }
        let step = observe_event(&events[i]);
        let ghost log0 = log@;
        let ghost head = (match step_for(events@[i as int]).level {
            Option::Some(l) => seq![l],
            Option::None => Seq::<LogLevel>::empty(),
        });
        proof {
            let tail = events@.skip(i as int);
            assert(tail[0] == events@[i as int]);
            assert(tail.drop_first() =~= events@.skip(i as int + 1));
        }
        match step.level {
            Option::Some(l) => {
                log.push(l);
                proof {
                    assert(log@ =~= log0 + head);
                }
            },
            Option::None => {
                proof {
                    assert(log@ =~= log0 + head);
                }
            },
        }
        if step.exits {
            return (log, true);
        }
        proof {
            let rest = observe_trace(events@.skip(i as int + 1)).0;
            assert((log0 + head) + rest =~= log0 + (head + rest));
        }
        i += 1;
    }
}

} // verus!
