use vstd::prelude::*;
use crate::error::HarnessError;
use crate::transport::TlsMode;

verus! {

/// Which end of a connection a handshake sequence runs on.
#[derive(Debug, Clone, Copy, PartialEq, Eq, Structural)]
pub enum Role {
    /// The per-connection handler, which starts from an accepted stream.
    Server,
    /// The client driver, which starts by connecting.
    Client,
}

/// The result of one connection's handshakes.
#[derive(Debug, Clone, Copy, PartialEq, Eq, Structural)]
pub enum Outcome {
    Established,
    Failed(HarnessError),
}

/// Where a connection stands in its sequence of handshakes. The caller
/// performs the step that the stage names and reports whether it succeeded.
#[derive(Debug, Clone, Copy, PartialEq, Eq, Structural)]
pub enum Stage {
    /// Opening the TCP connection (client only).
    Connecting,
    /// Running the TLS handshake.
    TlsHandshake,
    /// Running the WebSocket opening handshake.
    Upgrading,
    /// Finished; the stream is closed.
    Done(Outcome),
}

pub open spec fn spec_first_stage(role: Role, mode: TlsMode) -> Stage {
    match role {
        Role::Client => Stage::Connecting,
        Role::Server => if mode.spec_is_tls() { Stage::TlsHandshake } else { Stage::Upgrading },
    }
}

pub open spec fn spec_advance(stage: Stage, mode: TlsMode, succeeded: bool) -> Stage {
    match stage {
        Stage::Connecting => if !succeeded {
            Stage::Done(Outcome::Failed(HarnessError::TcpConnect))
        } else if mode.spec_is_tls() {
            Stage::TlsHandshake
        } else {
            Stage::Upgrading
        },
        Stage::TlsHandshake => if succeeded {
            Stage::Upgrading
        } else {
            Stage::Done(Outcome::Failed(HarnessError::TlsHandshake))
        },
        Stage::Upgrading => if succeeded {
            Stage::Done(Outcome::Established)
        } else {
            Stage::Done(Outcome::Failed(HarnessError::WebSocketHandshake))
        },
        Stage::Done(o) => Stage::Done(o),
    }
}

/// The stage a connection reaches after the reported step results `steps`,
/// in order.
pub open spec fn spec_run_stages(stage: Stage, mode: TlsMode, steps: Seq<bool>) -> Stage
    decreases steps.len(),
{
    if steps.len() == 0 {
        stage
    } else {
        spec_run_stages(spec_advance(stage, mode, steps[0]), mode, steps.drop_first())
    }
}

/// How many steps a connection of `role` in `mode` goes through.
pub open spec fn spec_step_count(role: Role, mode: TlsMode) -> nat {
    (if role is Client { 1nat } else { 0nat }) + (if mode.spec_is_tls() { 1nat } else { 0nat }) + 1
}

/// The first stage of a connection: a client connects first; a server starts
/// with TLS when it is enabled, and with the WebSocket handshake otherwise.
pub fn first_stage(role: Role, mode: TlsMode) -> (r: Stage)
    ensures
        r == spec_first_stage(role, mode),
{
    match role {
        Role::Client => Stage::Connecting,
        Role::Server => if mode.is_tls() { Stage::TlsHandshake } else { Stage::Upgrading },
    }
}

/// The stage after the step of `stage` succeeded or failed. A failed step
/// ends the connection with the failure of that step; a finished connection
/// stays finished.
pub fn advance(stage: Stage, mode: TlsMode, succeeded: bool) -> (r: Stage)
    ensures
        r == spec_advance(stage, mode, succeeded),
{
    match stage {
        Stage::Connecting => if !succeeded {
            Stage::Done(Outcome::Failed(HarnessError::TcpConnect))
        } else if mode.is_tls() {
            Stage::TlsHandshake
        } else {
            Stage::Upgrading
        },
        Stage::TlsHandshake => if succeeded {
            Stage::Upgrading
        } else {
            Stage::Done(Outcome::Failed(HarnessError::TlsHandshake))
        },
        Stage::Upgrading => if succeeded {
            Stage::Done(Outcome::Established)
        } else {
            Stage::Done(Outcome::Failed(HarnessError::WebSocketHandshake))
        },
        Stage::Done(o) => Stage::Done(o),
    }
}

pub open spec fn spec_settle(stage: Stage) -> Outcome {
    match stage {
        Stage::Done(o) => o,
        Stage::Connecting => Outcome::Failed(HarnessError::TcpConnect),
        Stage::TlsHandshake => Outcome::Failed(HarnessError::TlsHandshake),
        Stage::Upgrading => Outcome::Failed(HarnessError::WebSocketHandshake),
    }
}

/// The outcome of a connection that stops at `stage`: a finished one keeps
/// its outcome, and one left mid-way fails with the step it stood at, as if
/// that step had failed.
pub fn settle(stage: Stage) -> (r: Outcome)
    ensures
        r == spec_settle(stage),
        !(stage is Done) ==> forall|mode: TlsMode| spec_advance(stage, mode, false) == Stage::Done(r),
{
    match stage {
        Stage::Done(o) => o,
        Stage::Connecting => Outcome::Failed(HarnessError::TcpConnect),
        Stage::TlsHandshake => Outcome::Failed(HarnessError::TlsHandshake),
        Stage::Upgrading => Outcome::Failed(HarnessError::WebSocketHandshake),
    }
}

/// A finished connection is not changed by anything reported after it.
pub proof fn lemma_done_is_final(o: Outcome, mode: TlsMode, steps: Seq<bool>)
    ensures
        spec_run_stages(Stage::Done(o), mode, steps) == Stage::Done(o),
    decreases steps.len(),
{
    if steps.len() > 0 {
        lemma_done_is_final(o, mode, steps.drop_first());
    }
}

/// A connection is established exactly when each of its steps succeeded: a
/// failed TLS handshake, such as one against a certificate the client does
/// not trust, never yields an established connection, whatever follows.
pub proof fn lemma_established_iff_all_steps_succeed(role: Role, mode: TlsMode, steps: Seq<bool>)
    requires
        steps.len() >= spec_step_count(role, mode),
    ensures
        spec_run_stages(spec_first_stage(role, mode), mode, steps) == Stage::Done(Outcome::Established)
            <==> (forall|i: int| 0 <= i < spec_step_count(role, mode) ==> steps[i]),
{
    let n = spec_step_count(role, mode);
    let s0 = spec_first_stage(role, mode);
    let s1 = spec_advance(s0, mode, steps[0]);
    let t1 = steps.drop_first();
    assert(spec_run_stages(s0, mode, steps) == spec_run_stages(s1, mode, t1));
    if n >= 2 {
        let s2 = spec_advance(s1, mode, t1[0]);
        let t2 = t1.drop_first();
        assert(spec_run_stages(s1, mode, t1) == spec_run_stages(s2, mode, t2));
        assert(t1[0] == steps[1]);
        if n >= 3 {
            let s3 = spec_advance(s2, mode, t2[0]);
            let t3 = t2.drop_first();
            assert(spec_run_stages(s2, mode, t2) == spec_run_stages(s3, mode, t3));
            assert(t2[0] == steps[2]);
            match s3 {
                Stage::Done(o) => lemma_done_is_final(o, mode, t3),
                _ => {},
            }
        } else {
            match s2 {
                Stage::Done(o) => lemma_done_is_final(o, mode, t2),
                _ => {},
            }
        }
    } else {
        match s1 {
            Stage::Done(o) => lemma_done_is_final(o, mode, t1),
            _ => {},
        }
    }
}

/// What the orchestrator is told while the run is in progress.
#[derive(Debug, Clone, Copy, PartialEq, Eq, Structural)]
pub enum RunEvent {
    /// The client driver finished with this outcome.
    ClientFinished(Outcome),
    /// The acceptor loop ended because accepting failed.
    AcceptLoopEnded(HarnessError),
    /// A per-connection handler on the server side finished.
    ConnectionFinished(Outcome),
}

/// The orchestrator's view of a run: the server-side connections that have
/// finished, and the run's result once it is known.
#[derive(Debug, Clone, Copy, PartialEq, Eq, Structural)]
pub struct RunState {
    pub established: u64,
    pub failed: u64,
    pub result: Option<Outcome>,
}

pub open spec fn spec_bump(n: u64) -> u64 {
    if n < u64::MAX { (n + 1) as u64 } else { n }
}

/// The state after `ev`. The first of the client's outcome and the acceptor
/// loop's failure decides the run; a handler's outcome is only counted.
pub open spec fn spec_on_event(s: RunState, ev: RunEvent) -> RunState {
    match ev {
        RunEvent::ConnectionFinished(Outcome::Established) => RunState { established: spec_bump(s.established), ..s },
        RunEvent::ConnectionFinished(Outcome::Failed(_)) => RunState { failed: spec_bump(s.failed), ..s },
        RunEvent::ClientFinished(o) => if s.result is None { RunState { result: Some(o), ..s } } else { s },
        RunEvent::AcceptLoopEnded(e) => if s.result is None {
            RunState { result: Some(Outcome::Failed(e)), ..s }
        } else {
            s
        },
    }
}

/// The state after each event of `evs`, in order.
pub open spec fn spec_run_events(s: RunState, evs: Seq<RunEvent>) -> RunState
    decreases evs.len(),
{
    if evs.len() == 0 {
        s
    } else {
        spec_run_events(spec_on_event(s, evs[0]), evs.drop_first())
    }
}

/// The process exit status for a run's result: zero only when the client
/// reached an established connection.
pub open spec fn spec_exit_status(o: Outcome) -> i32 {
    if o is Established { 0 } else { 1 }
}

impl RunState {
    /// A run in which nothing has finished yet.
    pub fn new() -> (r: RunState)
        ensures
            r == (RunState { established: 0, failed: 0, result: None }),
    {
        RunState { established: 0, failed: 0, result: None }
    }

    /// Takes in what happened. Once the run's result is known, later client
    /// and acceptor events do not change it; counters stop at their maximum.
    pub fn on_event(&mut self, ev: RunEvent)
        ensures
            *final(self) == spec_on_event(*old(self), ev),
    {
        match ev {
            RunEvent::ConnectionFinished(Outcome::Established) => {
                if self.established < u64::MAX {
                    self.established = self.established + 1;
                }
            },
            RunEvent::ConnectionFinished(Outcome::Failed(_)) => {
                if self.failed < u64::MAX {
                    self.failed = self.failed + 1;
                }
            },
            RunEvent::ClientFinished(o) => {
                if self.result.is_none() {
                    self.result = Some(o);
                }
            },
            RunEvent::AcceptLoopEnded(e) => {
                if self.result.is_none() {
                    self.result = Some(Outcome::Failed(e));
                }
            },
        }
    }

    /// Whether the run's result is known, so the harness can exit.
    pub fn is_finished(&self) -> (r: bool)
        ensures
            r == self.result is Some,
    {
        self.result.is_some()
    }

    /// The exit status of a finished run.
    pub fn exit_status(&self) -> (r: Option<i32>)
        ensures
            r == (match self.result {
                Some(o) => Some(spec_exit_status(o)),
                None => None::<i32>,
            }),
    {
        match self.result {
            Some(o) => Some(exit_status(o)),
            None => None,
        }
    }
}

/// The exit status for a run's result: 0 for an established client
/// connection, 1 for any failure.
pub fn exit_status(o: Outcome) -> (r: i32)
    ensures
        r == spec_exit_status(o),
{
    match o {
        Outcome::Established => 0,
        Outcome::Failed(_) => 1,
    }
}

/// Handler outcomes never decide the run: however many server-side
/// connections finish, in whatever order and with whatever outcomes, the
/// run's result stays what it was, so one handler's failure cannot make the
/// run or another connection fail.
pub proof fn lemma_handler_outcomes_contained(s: RunState, outcomes: Seq<Outcome>)
    ensures
        spec_run_events(s, outcomes.map_values(|o: Outcome| RunEvent::ConnectionFinished(o))).result == s.result,
    decreases outcomes.len(),
{
    let evs = outcomes.map_values(|o: Outcome| RunEvent::ConnectionFinished(o));
    if outcomes.len() > 0 {
        let rest = outcomes.drop_first();
        assert(evs.drop_first() =~= rest.map_values(|o: Outcome| RunEvent::ConnectionFinished(o)));
        lemma_handler_outcomes_contained(spec_on_event(s, evs[0]), rest);
    }
}

/// The run's result is the first of the client's outcome and the acceptor
/// loop's failure; whatever is reported after it does not change it.
pub proof fn lemma_result_is_final(s: RunState, evs: Seq<RunEvent>)
    requires
        s.result is Some,
    ensures
        spec_run_events(s, evs).result == s.result,
    decreases evs.len(),
{
    if evs.len() > 0 {
        lemma_result_is_final(spec_on_event(s, evs[0]), evs.drop_first());
    }
}

} // verus!
