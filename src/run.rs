//! What holds of every run of the pipeline, whatever the outcomes reported.

use vstd::prelude::*;
use crate::error::TokenError;
use crate::login::LOGIN_STEPS;
use crate::pipeline::{action_of, server_live, session_open, working, Action, Outcome, Phase, Pipeline};

verus! {

/// The state after the outcomes `evs`, reported one after the other.
pub open spec fn run(s: Pipeline, evs: Seq<Outcome>) -> Pipeline
    decreases evs.len(),
{
    if evs.len() == 0 {
        s
    } else {
        run(s.step_spec(evs[0]), evs.drop_first())
    }
}

pub open spec fn as_nat(b: bool) -> nat {
    if b { 1 } else { 0 }
}

/// How many times the run asks for action `a`.
pub open spec fn count_action(s: Pipeline, evs: Seq<Outcome>, a: Action) -> nat
    decreases evs.len(),
{
    if evs.len() == 0 {
        0
    } else {
        as_nat(action_of(s.phase) == a) + count_action(s.step_spec(evs[0]), evs.drop_first(), a)
    }
}

/// How many server processes the run started (spawns that did not fail).
pub open spec fn servers_started(s: Pipeline, evs: Seq<Outcome>) -> nat
    decreases evs.len(),
{
    if evs.len() == 0 {
        0
    } else {
        as_nat(s.phase is Spawning && !(evs[0] is Failed)) + servers_started(
            s.step_spec(evs[0]),
            evs.drop_first(),
        )
    }
}

/// How many browser sessions the run opened (connections that did not fail).
pub open spec fn sessions_opened(s: Pipeline, evs: Seq<Outcome>) -> nat
    decreases evs.len(),
{
    if evs.len() == 0 {
        0
    } else {
        as_nat(s.phase is Connecting && !(evs[0] is Failed)) + sessions_opened(
            s.step_spec(evs[0]),
            evs.drop_first(),
        )
    }
}

/// `n` plain completions.
pub open spec fn dones(n: nat) -> Seq<Outcome> {
    Seq::new(n, |i: int| Outcome::Done)
}

/// How many teardown actions follow a failure reported in phase `p`: the
/// session's close (when one is open and keepalive is off), then the server's kill.
pub open spec fn teardown_len(p: Phase, keepalive: bool) -> nat {
    if p is Spawning {
        0
    } else if session_open(p) && !keepalive {
        2
    } else {
        1
    }
}

/// The outcomes of an attempt where every action succeeds and the cookie holds `token`.
pub open spec fn clean_attempt(keepalive: bool, token: String) -> Seq<Outcome> {
    dones((4 + LOGIN_STEPS - 1) as nat) + seq![Outcome::Cookie(token)] + dones(if keepalive { 1 } else { 2 })
}

proof fn lemma_step_wf(s: Pipeline, ev: Outcome)
    requires
        s.wf(),
    ensures
        s.step_spec(ev).wf(),
{
}

/// Every state that a run reaches is well formed.
pub proof fn lemma_run_wf(s: Pipeline, evs: Seq<Outcome>)
    requires
        s.wf(),
    ensures
        run(s, evs).wf(),
    decreases evs.len(),
{
    if evs.len() > 0 {
        lemma_step_wf(s, evs[0]);
        lemma_run_wf(s.step_spec(evs[0]), evs.drop_first());
    }
}

proof fn lemma_run_append(s: Pipeline, a: Seq<Outcome>, b: Seq<Outcome>)
    ensures
        run(s, a + b) == run(run(s, a), b),
    decreases a.len(),
{
    if a.len() > 0 {
        assert((a + b).drop_first() =~= a.drop_first() + b);
        lemma_run_append(s.step_spec(a[0]), a.drop_first(), b);
    } else {
        assert(a + b =~= b);
    }
}

/// A session is open only while its server runs: it never outlives the server.
pub proof fn lemma_session_within_server(p: Phase)
    ensures
        session_open(p) ==> server_live(p),
{
}

/// A successful run returns a token that is not empty.
pub proof fn lemma_token_nonempty(s: Pipeline, evs: Seq<Outcome>)
    requires
        s.wf(),
    ensures
        run(s, evs).outcome matches Some(Ok(t)) ==> t@.len() > 0,
{
    lemma_run_wf(s, evs);
}

/// Each server that a run starts is killed exactly once: kills never outnumber
/// the servers started, and every server not yet killed is still running. In
/// particular a finished run has killed every server it started, whether it
/// succeeded, failed, or was cut short by an error.
pub proof fn lemma_kill_once(s: Pipeline, evs: Seq<Outcome>)
    requires
        s.wf(),
    ensures
        count_action(s, evs, Action::KillServer) + as_nat(server_live(run(s, evs).phase))
            == servers_started(s, evs) + as_nat(server_live(s.phase)),
        run(s, evs).phase is Finished ==> !server_live(run(s, evs).phase),
        s.phase is Spawning && run(s, evs).phase is Finished ==> count_action(
            s,
            evs,
            Action::KillServer,
        ) == servers_started(s, evs),
    decreases evs.len(),
{
    if evs.len() > 0 {
        lemma_step_wf(s, evs[0]);
        lemma_kill_once(s.step_spec(evs[0]), evs.drop_first());
    }
}

/// With keepalive, no run ever closes a session. Without it, each session that a
/// run opens is closed exactly once: closes never outnumber the sessions opened,
/// and every session not yet closed is still in use.
pub proof fn lemma_close_policy(s: Pipeline, evs: Seq<Outcome>)
    requires
        s.wf(),
    ensures
        s.config.keepalive ==> count_action(s, evs, Action::CloseSession) == 0,
        !s.config.keepalive ==> count_action(s, evs, Action::CloseSession) + as_nat(
            session_open(run(s, evs).phase),
        ) == sessions_opened(s, evs) + as_nat(session_open(s.phase)),
        !s.config.keepalive && s.phase is Spawning && run(s, evs).phase is Finished
            ==> count_action(s, evs, Action::CloseSession) == sessions_opened(s, evs),
    decreases evs.len(),
{
    if evs.len() > 0 {
        lemma_step_wf(s, evs[0]);
        lemma_close_policy(s.step_spec(evs[0]), evs.drop_first());
    }
}

proof fn lemma_run_one(s: Pipeline, ev: Outcome, rest: Seq<Outcome>)
    ensures
        run(s, seq![ev] + rest) == run(s.step_spec(ev), rest),
        count_action(s, seq![ev] + rest, Action::Spawn) == as_nat(action_of(s.phase) == Action::Spawn)
            + count_action(s.step_spec(ev), rest, Action::Spawn),
{
    assert((seq![ev] + rest).drop_first() =~= rest);
}

proof fn lemma_dones_split(n: nat)
    requires
        n > 0,
    ensures
        dones(n) =~= seq![Outcome::Done] + dones((n - 1) as nat),
{
}

/// From step `i` of the login, completions take the run to the cookie read.
proof fn lemma_login_steps(s: Pipeline, i: usize)
    requires
        s.wf(),
        s.phase == Phase::Login(i),
    ensures
        run(s, dones((LOGIN_STEPS - 1 - i) as nat)) == s.with_phase(Phase::Login((LOGIN_STEPS - 1) as usize)),
    decreases LOGIN_STEPS - i,
{
    if i + 1 < LOGIN_STEPS {
        let n = (LOGIN_STEPS - 1 - i) as nat;
        lemma_dones_split(n);
        lemma_run_one(s, Outcome::Done, dones((n - 1) as nat));
        let t = s.step_spec(Outcome::Done);
        lemma_step_wf(s, Outcome::Done);
        lemma_login_steps(t, (i + 1) as usize);
    } else {
        assert(dones(0) =~= Seq::<Outcome>::empty());
    }
}

/// An attempt in which every action succeeds and the cookie holds a non-empty
/// `token` ends the run with that token, within the same attempt.
pub proof fn lemma_clean_attempt(s: Pipeline, token: String)
    requires
        s.wf(),
        s.phase is Spawning,
        token@.len() > 0,
    ensures
        run(s, clean_attempt(s.config.keepalive, token)).phase is Finished,
        run(s, clean_attempt(s.config.keepalive, token)).outcome == Some(
            Ok::<String, TokenError>(token),
        ),
        run(s, clean_attempt(s.config.keepalive, token)).attempt == s.attempt,
{
    let k = s.config.keepalive;
    let start = dones(4);
    let login = dones((LOGIN_STEPS - 1) as nat);
    let tail = dones(if k { 1 } else { 2 });
    assert(clean_attempt(k, token) =~= start + (login + (seq![Outcome::Cookie(token)] + tail)));
    lemma_run_append(s, start, login + (seq![Outcome::Cookie(token)] + tail));
    reveal_with_fuel(run, 5);
    let s4 = run(s, start);
    assert(s4 == s.with_phase(Phase::Login(0)));
    lemma_run_append(s4, login, seq![Outcome::Cookie(token)] + tail);
    lemma_login_steps(s4, 0);
    let s19 = run(s4, login);
    lemma_run_one(s19, Outcome::Cookie(token), tail);
    let s20 = s19.step_spec(Outcome::Cookie(token));
    assert(s20 == s19.teardown(Ok(token)));
    if k {
        assert(tail =~= seq![Outcome::Done]);
    } else {
        assert(tail =~= seq![Outcome::Done, Outcome::Done]);
    }
}

/// An element-wait timeout does not end the run while attempts remain: the
/// failed attempt is torn down and a fresh one starts, on a new server; and when
/// that attempt succeeds, the run ends with its token.
pub proof fn lemma_timeout_then_clean_attempt(s: Pipeline, e: TokenError, token: String)
    requires
        s.wf(),
        working(s.phase),
        !(s.phase is Connecting),
        e is WaitTimeout,
        s.attempt < s.config.max_attempts,
        token@.len() > 0,
    ensures
        run(s, seq![Outcome::Failed(e)] + dones(teardown_len(s.phase, s.config.keepalive)))
            == s.fresh((s.attempt + 1) as u32),
        run(
            s,
            seq![Outcome::Failed(e)] + dones(teardown_len(s.phase, s.config.keepalive))
                + clean_attempt(s.config.keepalive, token),
        ).outcome == Some(Ok::<String, TokenError>(token)),
        run(
            s,
            seq![Outcome::Failed(e)] + dones(teardown_len(s.phase, s.config.keepalive))
                + clean_attempt(s.config.keepalive, token),
        ).phase is Finished,
{
    let failed = seq![Outcome::Failed(e)] + dones(teardown_len(s.phase, s.config.keepalive));
    let n = teardown_len(s.phase, s.config.keepalive);
    if n == 0 {
        assert(failed =~= seq![Outcome::Failed(e)]);
    } else if n == 1 {
        assert(failed =~= seq![Outcome::Failed(e), Outcome::Done]);
    } else {
        assert(failed =~= seq![Outcome::Failed(e), Outcome::Done, Outcome::Done]);
    }
    reveal_with_fuel(run, 4);
    let f = s.fresh((s.attempt + 1) as u32);
    assert(run(s, failed) == f);
    lemma_run_append(s, failed, clean_attempt(s.config.keepalive, token));
    lemma_clean_attempt(f, token);
}

/// Any error but a timeout, raised while the attempt is at work (outside the
/// connection loop, which retries on its own), ends the run with that error once
/// the attempt is torn down: the attempt is not repeated and no other server is
/// spawned.
pub proof fn lemma_fatal_error_aborts(s: Pipeline, e: TokenError)
    requires
        s.wf(),
        working(s.phase),
        !(s.phase is Connecting),
        !(e is WaitTimeout),
    ensures
        run(s, seq![Outcome::Failed(e)] + dones(teardown_len(s.phase, s.config.keepalive))).phase
            is Finished,
        run(s, seq![Outcome::Failed(e)] + dones(teardown_len(s.phase, s.config.keepalive))).outcome
            == Some(Err::<String, TokenError>(e)),
        run(s, seq![Outcome::Failed(e)] + dones(teardown_len(s.phase, s.config.keepalive))).attempt
            == s.attempt,
        count_action(
            s,
            seq![Outcome::Failed(e)] + dones(teardown_len(s.phase, s.config.keepalive)),
            Action::Spawn,
        ) == as_nat(s.phase is Spawning),
{
    let failed = seq![Outcome::Failed(e)] + dones(teardown_len(s.phase, s.config.keepalive));
    let n = teardown_len(s.phase, s.config.keepalive);
    if n == 0 {
        assert(failed =~= seq![Outcome::Failed(e)]);
    } else if n == 1 {
        assert(failed =~= seq![Outcome::Failed(e), Outcome::Done]);
    } else {
        assert(failed =~= seq![Outcome::Failed(e), Outcome::Done, Outcome::Done]);
    }
    reveal_with_fuel(run, 4);
    reveal_with_fuel(count_action, 4);
}

/// How far a phase stands from the end of its attempt, in steps at most.
pub open spec fn phase_rank(s: Pipeline) -> nat {
    let k = s.config.max_connects as nat;
    match s.phase {
        Phase::Finished => 0,
        Phase::Killing => 1,
        Phase::Closing => 2,
        Phase::Login(i) => (2 + LOGIN_STEPS - i) as nat,
        Phase::BackingOff => (21 + 2 * (k - 1 - s.connect_tries)) as nat,
        Phase::Connecting => (20 + 2 * (k - 1 - s.connect_tries)) as nat,
        Phase::CheckingAlive => 2 * k + 19,
        Phase::WarmingUp => 2 * k + 20,
        Phase::Spawning => 2 * k + 21,
    }
}

/// An upper bound on the steps left before the run finishes: the attempts still
/// allowed, each at most a full attempt long, and the rest of this one.
pub open spec fn steps_left(s: Pipeline) -> nat {
    ((s.config.max_attempts - s.attempt) as nat) * (2 * (s.config.max_connects as nat) + 22)
        + phase_rank(s)
}

/// Every step of an unfinished run brings it closer to its end: with retries and
/// connection tries bounded, no run goes on for ever.
pub proof fn lemma_progress(s: Pipeline, ev: Outcome)
    requires
        s.wf(),
        !(s.phase is Finished),
    ensures
        steps_left(s.step_spec(ev)) < steps_left(s),
{
    let m = 2 * (s.config.max_connects as nat) + 22;
    let a = (s.config.max_attempts - s.attempt) as nat;
    let t = s.step_spec(ev);
    if t.attempt != s.attempt {
        assert(t.attempt == s.attempt + 1);
        assert(a >= 1);
        assert(a * m == (a - 1) * m + m) by (nonlinear_arith);
        assert(((t.config.max_attempts - t.attempt) as nat) == a - 1);
    }
}

/// Every run finishes within [`steps_left`] outcomes.
pub proof fn lemma_run_ends(s: Pipeline, evs: Seq<Outcome>)
    requires
        s.wf(),
        evs.len() >= steps_left(s),
    ensures
        run(s, evs).phase is Finished,
    decreases evs.len(),
{
    if evs.len() > 0 {
        if s.phase is Finished {
            lemma_finished_stays(s, evs);
        } else {
            lemma_progress(s, evs[0]);
            lemma_step_wf(s, evs[0]);
            lemma_run_ends(s.step_spec(evs[0]), evs.drop_first());
        }
    }
}

proof fn lemma_finished_stays(s: Pipeline, evs: Seq<Outcome>)
    requires
        s.phase is Finished,
    ensures
        run(s, evs) == s,
    decreases evs.len(),
{
    if evs.len() > 0 {
        lemma_finished_stays(s.step_spec(evs[0]), evs.drop_first());
    }
}

} // verus!
