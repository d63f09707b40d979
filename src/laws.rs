use vstd::prelude::*;
use crate::deploy_method::{lemma_name_round_trip, method_name, method_named, DeployMethod};
use crate::release::BuildConfigView;
use crate::session::{
    starts, steps, Action, Event, PrepareError, RemoveOutcome, Stage,
};
use crate::version::derived_note;

verus! {

/// The part of the preparation that an action belongs to: the local build,
/// the archive fetch, or the `skip` stub. A plain success or an
/// out-of-order failure belongs to none.
pub open spec fn action_component(a: Action) -> Option<DeployMethod> {
    match a {
        Action::RunBuildScript { .. } => Some(DeployMethod::Local),
        Action::InspectRepository { .. } => Some(DeployMethod::Local),
        Action::WriteVersionFile { .. } => Some(DeployMethod::Local),
        Action::RemoveStaleArchive { .. } => Some(DeployMethod::Tar),
        Action::Download { .. } => Some(DeployMethod::Tar),
        Action::Extract { .. } => Some(DeployMethod::Tar),
        Action::ShowVersionFile { .. } => Some(DeployMethod::Tar),
        Action::Finish(Err(PrepareError::NotImplemented)) => Some(DeployMethod::Skip),
        Action::Finish(_) => None,
    }
}

/// The part of the preparation that a stage waits in; none once finished.
pub open spec fn stage_component(s: Stage) -> Option<DeployMethod> {
    match s {
        Stage::Building | Stage::Inspecting | Stage::WritingVersion => Some(DeployMethod::Local),
        Stage::Finished => None,
        _ => Some(DeployMethod::Tar),
    }
}

pub open spec fn stage_within(m: DeployMethod, s: Stage) -> bool {
    stage_component(s) is None || stage_component(s) == Some(m)
}

pub open spec fn action_within(m: DeployMethod, a: Action) -> bool {
    action_component(a) is None || action_component(a) == Some(m)
}

/// A configuration is built exactly from the three canonical names, each
/// giving its own method, and the name of the method parsed from a string
/// is that string.
pub proof fn lemma_parse_display(s: Seq<char>)
    ensures
        method_named(s) is Some <==> (s == method_name(DeployMethod::Local) || s == method_name(
            DeployMethod::Tar,
        ) || s == method_name(DeployMethod::Skip)),
        method_named(s) matches Some(m) ==> method_name(m) == s,
        forall|m: DeployMethod| #[trigger] method_named(method_name(m)) == Some(m),
{
    lemma_name_round_trip(DeployMethod::Local, s);
    lemma_name_round_trip(DeployMethod::Tar, s);
    lemma_name_round_trip(DeployMethod::Skip, s);
    assert forall|m: DeployMethod| #[trigger] method_named(method_name(m)) == Some(m) by {
        lemma_name_round_trip(m, s);
    }
}

/// The note of a build is the commit id when some tag points at the
/// commit, and the branch name when none does.
pub proof fn lemma_note_follows_tags(branch: Seq<char>, commit: Seq<char>, targets: Seq<String>)
    ensures
        (exists|i: int| 0 <= i < targets.len() && #[trigger] targets[i]@ == commit) ==> derived_note(
            branch,
            commit,
            targets,
        ) == commit,
        (forall|i: int| 0 <= i < targets.len() ==> #[trigger] targets[i]@ != commit) ==> derived_note(
            branch,
            commit,
            targets,
        ) == branch,
{
}

/// A preparation only ever works inside the part that its deploy method
/// selects: the first step, and every step from a stage of that part, stay
/// in it, so no run touches two of the local build, the archive fetch and
/// the `skip` stub.
pub proof fn lemma_one_component_per_run(c: BuildConfigView, s: Stage, a: Action, stage: Stage, event: Event, next: Stage, b: Action)
    ensures
        starts(c, s, a) ==> stage_within(c.method, s) && action_within(c.method, a),
        stage_within(c.method, stage) && steps(c, stage, event, next, b) ==> stage_within(c.method, next)
            && action_within(c.method, b),
{
}

/// With building switched off, a local preparation spawns nothing, writes
/// no version file, and succeeds at once.
pub proof fn lemma_no_build_no_work(c: BuildConfigView, s: Stage, a: Action)
    requires
        c.method == DeployMethod::Local,
        !c.do_build,
        starts(c, s, a),
    ensures
        s == Stage::Finished,
        a matches Action::Finish(Ok(_)),
{
}

/// An archive preparation with a channel downloads from that channel's
/// address, and an archive that was not there to remove is no failure.
pub proof fn lemma_download_after_missing_archive(c: BuildConfigView, s: Stage, a: Action, next: Stage, b: Action)
    requires
        c.method == DeployMethod::Tar,
        c.channel.len() > 0,
        starts(c, s, a),
        steps(c, s, Event::Removed(RemoveOutcome::NotFound), next, b),
    ensures
        a matches Action::RemoveStaleArchive { .. },
        next == Stage::Downloading,
        b matches Action::Download { url, .. } && url@ == crate::text::release_url(c.channel),
{
}

/// Without a channel, an archive preparation goes straight to extracting
/// the staged archive, and when that archive cannot be extracted the run
/// fails with an extraction error that records that no channel was set,
/// never with a download error.
pub proof fn lemma_missing_staged_archive(c: BuildConfigView, s: Stage, a: Action, next: Stage, b: Action)
    requires
        c.method == DeployMethod::Tar,
        c.channel.len() == 0,
        starts(c, s, a),
        steps(c, s, Event::Extracted { ok: false }, next, b),
    ensures
        s == Stage::Extracting,
        next == Stage::Finished,
        b matches Action::Finish(Err(PrepareError::Extraction { channel_set, .. })) && !channel_set,
        !(b matches Action::Finish(Err(PrepareError::Download { .. }))),
{
}

} // verus!
