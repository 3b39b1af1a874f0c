//! Webhook-triggered builds: what a trigger records, and the decisions taken
//! while the build script runs.
//!
//! A run is a state machine: the caller performs each step's actions (log
//! writes, the final status update) and reports what happened next.

use vstd::prelude::*;
use vstd::string::StringExecFns;
use crate::handlers::projects::{is_uuid_v4_text, uuid_v4_text, UuidDraw};
use crate::models::Project;

verus! {

/// The answer to a webhook call: whether the key named a project.
pub open spec fn webhook_reply_spec(triggered: bool) -> Seq<char> {
    if triggered {
        "Build triggered successfully"@
    } else {
        "Invalid webhook key"@
    }
}

/// Answers a webhook call.
pub fn webhook_reply(triggered: bool) -> (r: &'static str)
    ensures
        r@ == webhook_reply_spec(triggered),
{
    if triggered {
        "Build triggered successfully"
    } else {
        "Invalid webhook key"
    }
}

/// What a trigger records for a new build of a project.
pub struct BuildPlan {
    pub project_id: i64,
    pub script_path: String,
    pub log_file: String,
    pub status: String,
}

/// The log file of a build named by `id`: `ci_log/<id>.log`.
pub open spec fn build_log_file(id: Seq<char>) -> Seq<char> {
    "ci_log/"@ + id + ".log"@
}

/// Different ids name different log files, so builds planned under
/// different draws never share a log.
pub proof fn lemma_build_log_file_injective(a: Seq<char>, b: Seq<char>)
    requires
        build_log_file(a) == build_log_file(b),
    ensures
        a == b,
{
    reveal_strlit("ci_log/");
    reveal_strlit(".log");
    let fa = build_log_file(a);
    assert(fa.len() == 7 + a.len() + 4);
    assert(a.len() == b.len());
    assert(a =~= fa.subrange(7, 7 + a.len() as int));
    assert(b =~= build_log_file(b).subrange(7, 7 + b.len() as int));
}

/// Plans a new build of `project` named by `id`: a running build of the
/// project's script, logging to `ci_log/<id>.log`.
pub fn plan_build_with_id(project: &Project, id: &str) -> (plan: BuildPlan)
    ensures
        plan.project_id == project.id,
        plan.script_path == project.script_path,
        plan.status@ == "running"@,
        plan.log_file@ == build_log_file(id@),
{
    let mut log_file = String::from_str("ci_log/");
    log_file.append(id);
    log_file.append(".log");
    BuildPlan {
        project_id: project.id,
        script_path: project.script_path.clone(),
        log_file,
        status: String::from_str("running"),
    }
}

/// Plans a new build of `project` under a fresh random UUID: a running
/// build of the project's script, logging to `ci_log/<uuid>.log`.
pub fn plan_build(project: &Project) -> (plan: BuildPlan)
    ensures
        plan.project_id == project.id,
        plan.script_path == project.script_path,
        plan.status@ == "running"@,
        exists|id: Seq<char>| is_uuid_v4_text(id) && plan.log_file@ == build_log_file(id),
        // The id is the text of a draw from the random UUID source, made for
        // this plan; no fixed name can stand in for it.
        exists|d: UuidDraw|
            is_uuid_v4_text(d.text()) && plan.log_file@ == build_log_file(#[trigger] d.text()),
{
    let id = uuid_v4_text();
    let plan = plan_build_with_id(project, id.as_str());
    assert(is_uuid_v4_text(id.text()) && plan.log_file@ == build_log_file(id.text()));
    plan
}

/// Where a build run stands.
#[derive(PartialEq, Eq, Debug, Clone, Copy)]
pub enum BuildPhase {
    /// The log file is being created.
    CreatingLog,
    /// The build script is being started.
    Spawning,
    /// The build script runs; its output goes to the log.
    Running,
    /// The build's final status has been recorded.
    Finished,
}

/// What happened during a build run.
pub enum BuildEvent {
    /// The log file could not be created.
    LogCreateFailed,
    /// The log file was created.
    LogCreated,
    /// The build script could not be started; the error's text.
    SpawnFailed(String),
    /// The build script started.
    Spawned,
    /// The build script ended; whether it succeeded.
    ScriptExited(bool),
}

/// What the caller has to do for a build run.
pub enum BuildAction {
    /// Append this text to the build's log file.
    AppendLog(String),
    /// Record this final status of the build, with its finish time.
    Finish(String),
}

/// The events a run in `phase` can receive.
pub open spec fn accepts(phase: BuildPhase, event: BuildEvent) -> bool {
    match phase {
        BuildPhase::CreatingLog => event is LogCreateFailed || event is LogCreated,
        BuildPhase::Spawning => event is SpawnFailed || event is Spawned,
        BuildPhase::Running => event is ScriptExited,
        BuildPhase::Finished => false,
    }
}

/// The final status of a build whose script ended.
pub open spec fn exit_status(success: bool) -> Seq<char> {
    if success {
        "success"@
    } else {
        "failed"@
    }
}

/// The phase a run moves to on `event`.
pub open spec fn step_phase(event: BuildEvent) -> BuildPhase {
    match event {
        BuildEvent::LogCreateFailed => BuildPhase::Finished,
        BuildEvent::LogCreated => BuildPhase::Spawning,
        BuildEvent::SpawnFailed(_) => BuildPhase::Finished,
        BuildEvent::Spawned => BuildPhase::Running,
        BuildEvent::ScriptExited(_) => BuildPhase::Finished,
    }
}

/// The final status a run records on `event`, if it records one.
pub open spec fn step_status(event: BuildEvent) -> Option<Seq<char>> {
    match event {
        BuildEvent::LogCreateFailed => Some("failed"@),
        BuildEvent::LogCreated => None,
        BuildEvent::SpawnFailed(_) => Some("failed"@),
        BuildEvent::Spawned => None,
        BuildEvent::ScriptExited(ok) => Some(exit_status(ok)),
    }
}

/// Whether a run in `phase` can receive `events` one after another.
pub open spec fn valid_run(phase: BuildPhase, events: Seq<BuildEvent>) -> bool
    decreases events.len(),
{
    events.len() == 0 || (accepts(phase, events[0]) && valid_run(
        step_phase(events[0]),
        events.drop_first(),
    ))
}

/// The phase a run in `phase` reaches after `events`.
pub open spec fn run_phase(phase: BuildPhase, events: Seq<BuildEvent>) -> BuildPhase
    decreases events.len(),
{
    if events.len() == 0 {
        phase
    } else {
        run_phase(step_phase(events[0]), events.drop_first())
    }
}

/// The final statuses recorded along `events`, in order.
pub open spec fn run_statuses(events: Seq<BuildEvent>) -> Seq<Seq<char>>
    decreases events.len(),
{
    if events.len() == 0 {
        Seq::empty()
    } else {
        let rest = run_statuses(events.drop_first());
        match step_status(events[0]) {
            Some(st) => seq![st] + rest,
            None => rest,
        }
    }
}

proof fn lemma_finished_run_is_empty(events: Seq<BuildEvent>)
    requires
        valid_run(BuildPhase::Finished, events),
    ensures
        events.len() == 0,
{
}

/// Over a whole run of a build that has not finished yet: the run records
/// at most one final status, and exactly one when it ends; it records it on
/// its last event only; the status is "success" or "failed", and "success"
/// exactly when the build script was started and exited successfully.
pub proof fn lemma_build_run_records_one_status(phase: BuildPhase, events: Seq<BuildEvent>)
    requires
        phase != BuildPhase::Finished,
        valid_run(phase, events),
    ensures
        run_statuses(events).len() <= 1,
        run_phase(phase, events) == BuildPhase::Finished <==> run_statuses(events).len() == 1,
        forall|i: int| 0 <= i < events.len() - 1 ==> step_status(#[trigger] events[i]) is None,
        run_statuses(events).len() == 1 ==> (run_statuses(events)[0] == "success"@
            || run_statuses(events)[0] == "failed"@),
        run_statuses(events).len() == 1 ==> (run_statuses(events)[0] == "success"@ <==> exists|
            i: int,
        | 0 <= i < events.len() && #[trigger] events[i] == BuildEvent::ScriptExited(true)),
    decreases events.len(),
{
    reveal_strlit("success");
    reveal_strlit("failed");
    assert("failed"@[0] != "success"@[0]);
    if events.len() > 0 {
        let e = events[0];
        let rest = events.drop_first();
        let p2 = step_phase(e);
        assert(forall|i: int| 0 <= i < rest.len() ==> rest[i] == events[i + 1]);
        match step_status(e) {
            Some(st) => {
                assert(p2 == BuildPhase::Finished);
                lemma_finished_run_is_empty(rest);
                assert(run_statuses(rest) =~= Seq::<Seq<char>>::empty());
                assert(run_phase(p2, rest) == BuildPhase::Finished);
                assert(run_phase(phase, events) == run_phase(p2, rest));
                assert(run_statuses(events) =~= seq![st]);
                if st == "success"@ {
                    assert(e == BuildEvent::ScriptExited(true));
                    assert(events[0] == BuildEvent::ScriptExited(true));
                } else {
                    assert forall|i: int| 0 <= i < events.len() implies !(#[trigger] events[i]
                        == BuildEvent::ScriptExited(true)) by {
                        assert(i == 0);
                    }
                }
            },
            None => {
                assert(p2 != BuildPhase::Finished);
                lemma_build_run_records_one_status(p2, rest);
                assert(run_statuses(events) == run_statuses(rest));
                assert(run_phase(phase, events) == run_phase(p2, rest));
                assert forall|i: int| 0 <= i < events.len() - 1 implies step_status(
                    #[trigger] events[i],
                ) is None by {
                    if i > 0 {
                        assert(events[i] == rest[i - 1]);
                    }
                }
                assert(events[0] != BuildEvent::ScriptExited(true));
                if run_statuses(rest).len() == 1 && run_statuses(rest)[0] == "success"@ {
                    let i = choose|i: int|
                        0 <= i < rest.len() && #[trigger] rest[i] == BuildEvent::ScriptExited(true);
                    assert(events[i + 1] == BuildEvent::ScriptExited(true));
                }
                if exists|i: int|
                    0 <= i < events.len() && #[trigger] events[i] == BuildEvent::ScriptExited(true) {
                    let i = choose|i: int|
                        0 <= i < events.len() && #[trigger] events[i] == BuildEvent::ScriptExited(
                            true,
                        );
                    assert(i >= 1);
                    assert(rest[i - 1] == BuildEvent::ScriptExited(true));
                }
            },
        }
    }
}

/// Whether `a` appends `text` to the log.
pub open spec fn appends(a: BuildAction, text: Seq<char>) -> bool {
    a matches BuildAction::AppendLog(s) && s@ == text
}

/// Whether `a` records the final status `status`.
pub open spec fn finishes(a: BuildAction, status: Seq<char>) -> bool {
    a matches BuildAction::Finish(s) && s@ == status
}

/// Takes one step of a build run: the phase it moves to, and the actions to
/// perform, in order.
pub fn build_step(phase: BuildPhase, event: BuildEvent) -> (r: (BuildPhase, Vec<BuildAction>))
    requires
        accepts(phase, event),
    ensures
        event is LogCreateFailed ==> r.0 == BuildPhase::Finished && r.1@.len() == 1 && finishes(
            r.1@[0],
            "failed"@,
        ),
        event is LogCreated ==> r.0 == BuildPhase::Spawning && r.1@.len() == 1 && appends(
            r.1@[0],
            "Build started...\n"@,
        ),
        event matches BuildEvent::SpawnFailed(e) ==> r.0 == BuildPhase::Finished && r.1@.len() == 2
            && appends(r.1@[0], "\nFailed to spawn script: "@ + e@ + "\n"@) && finishes(
            r.1@[1],
            "failed"@,
        ),
        event is Spawned ==> r.0 == BuildPhase::Running && r.1@.len() == 0,
        event matches BuildEvent::ScriptExited(ok) ==> r.0 == BuildPhase::Finished && r.1@.len()
            == 2 && appends(r.1@[0], "\nBuild finished with status: "@ + exit_status(ok) + "\n"@)
            && finishes(r.1@[1], exit_status(ok)),
        r.0 == step_phase(event),
        step_status(event) matches Some(st) ==> r.1@.len() > 0 && finishes(r.1@.last(), st),
        step_status(event) is None ==> forall|i: int|
            0 <= i < r.1@.len() ==> !(#[trigger] r.1@[i] is Finish),
        // A run records its final status exactly once: in the step that
        // ends it, as that step's last action.
        r.0 == BuildPhase::Finished <==> r.1@.len() > 0 && r.1@.last() is Finish,
        forall|i: int| 0 <= i < r.1@.len() - 1 ==> !(#[trigger] r.1@[i] is Finish),
        // Only a script that ran and succeeded makes a successful build.
        forall|i: int|
            0 <= i < r.1@.len() && finishes(#[trigger] r.1@[i], "success"@) ==> event
                == BuildEvent::ScriptExited(true),
{
    let mut actions: Vec<BuildAction> = Vec::new();
    proof {
        reveal_strlit("success");
        reveal_strlit("failed");
        assert("failed"@[0] != "success"@[0]);
        assert("failed"@ != "success"@);
    }
    match event {
        BuildEvent::LogCreateFailed => {
            actions.push(BuildAction::Finish(String::from_str("failed")));
            (BuildPhase::Finished, actions)
        },
        BuildEvent::LogCreated => {
            actions.push(BuildAction::AppendLog(String::from_str("Build started...\n")));
            (BuildPhase::Spawning, actions)
        },
        BuildEvent::SpawnFailed(e) => {
            let mut msg = String::from_str("\nFailed to spawn script: ");
            msg.append(e.as_str());
            msg.append("\n");
            actions.push(BuildAction::AppendLog(msg));
            actions.push(BuildAction::Finish(String::from_str("failed")));
            (BuildPhase::Finished, actions)
        },
        BuildEvent::Spawned => (BuildPhase::Running, actions),
        BuildEvent::ScriptExited(ok) => {
            let status = if ok {
                "success"
            } else {
                "failed"
            };
            let mut msg = String::from_str("\nBuild finished with status: ");
            msg.append(status);
            msg.append("\n");
            actions.push(BuildAction::AppendLog(msg));
            actions.push(BuildAction::Finish(String::from_str(status)));
            (BuildPhase::Finished, actions)
        },
    }
}

} // verus!
