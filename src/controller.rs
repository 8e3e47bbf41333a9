use vstd::prelude::*;

use crate::apply::{ApplyOutcome, ManifestObject};
use crate::credentials::{RegistryAuth, parsed_registry, reference_registry, select_pull_secret};
use crate::delete::{Phase, phase, spec_phase};
use crate::local::{DryRun, apply_supports, spec_mutates};
use crate::Error;

verus! {

/// The parts of an AppInstance that the reconcile core reads.
#[derive(Debug)]
pub struct AppInstance {
    pub namespace: Option<String>,
    /// The OCI artifact reference (registry, repository, tag or digest).
    pub reference: String,
    pub pull_secrets: Vec<String>,
    pub dry_run: DryRun,
    pub has_finalizer: bool,
    pub deletion_requested: bool,
}

/// The first piece of outside work that a reconcile asks for.
#[derive(Debug)]
pub enum Action {
    /// Read this pull secret from the AppInstance's namespace.
    FetchSecret(String),
    /// Pull the artifact with these credentials.
    PullArtifact(RegistryAuth),
    /// Run the deletion engine over the last applied objects.
    CleanUp,
    /// Nothing is left to do for this object.
    Nothing,
}

/// Starts a reconcile: picks the deletion path or the apply path, and on the
/// apply path checks the configuration, the artifact reference included,
/// before any outside call. A
/// misconfigured instance fails here, before any registry or cluster work.
pub fn begin(app: &AppInstance) -> (r: Result<Action, Error>)
    ensures
        !app.deletion_requested && app.pull_secrets.len() > 1 ==> r is Err,
        spec_phase(app.has_finalizer, app.deletion_requested) == Phase::Deleting ==> r matches Ok(
            Action::CleanUp,
        ),
        spec_phase(app.has_finalizer, app.deletion_requested) == Phase::Released ==> r matches Ok(
            Action::Nothing,
        ),
        spec_phase(app.has_finalizer, app.deletion_requested) == Phase::Active ==> {
            &&& app.namespace is None ==> (r matches Err(Error::NamespaceRequired))
            &&& app.namespace is Some && app.pull_secrets.len() > 1 ==> (r matches Err(
                Error::UnsupportedMultipleImagePullSecrets,
            ))
            &&& app.namespace is Some && app.pull_secrets.len() <= 1 && !apply_supports(app.dry_run)
                ==> (r matches Err(Error::UnsupportedDryRunOption(m)) && m == app.dry_run)
            &&& app.namespace is Some && app.pull_secrets.len() <= 1 && apply_supports(app.dry_run)
                && parsed_registry(app.reference@) is None ==> (r matches Err(
                Error::OCIParseError(_),
            ))
            &&& app.namespace is Some && app.pull_secrets.len() == 0 && apply_supports(app.dry_run)
                && parsed_registry(app.reference@) is Some ==> (r matches Ok(
                Action::PullArtifact(RegistryAuth::Anonymous),
            ))
            &&& app.namespace is Some && app.pull_secrets.len() == 1 && apply_supports(app.dry_run)
                && parsed_registry(app.reference@) is Some ==> (r matches Ok(Action::FetchSecret(s))
                && s@ == app.pull_secrets[0]@)
        },
{
    match phase(app.has_finalizer, app.deletion_requested) {
        Phase::Deleting => return Ok(Action::CleanUp),
        Phase::Released => return Ok(Action::Nothing),
        Phase::Active => {},
    }
    let secret = match select_pull_secret(&app.namespace, &app.pull_secrets) {
        Ok(s) => s,
        Err(e) => return Err(e),
    };
    if !app.dry_run.is_supported() {
        return Err(Error::UnsupportedDryRunOption(app.dry_run));
    }
    if let Err(m) = reference_registry(&app.reference) {
        return Err(Error::OCIParseError(m));
    }
    match secret {
        Some(name) => Ok(Action::FetchSecret(name)),
        None => Ok(Action::PullArtifact(RegistryAuth::Anonymous)),
    }
}

/// The aggregate of an apply, as the status record holds it.
#[derive(PartialEq, Eq, Structural, Clone, Copy, Debug)]
pub struct ApplySummary {
    /// Objects in the rendered document.
    pub objects: usize,
    /// Objects that were, or under a dry run would be, created or updated.
    pub changes: usize,
    pub dry_run: bool,
}

/// How many outcomes stand for a change, made or predicted.
pub open spec fn count_changes(outs: Seq<ApplyOutcome>) -> nat
    decreases outs.len(),
{
    if outs.len() == 0 {
        0
    } else {
        count_changes(outs.drop_last()) + if outs.last() == ApplyOutcome::Unchanged {
            0nat
        } else {
            1nat
        }
    }
}

proof fn lemma_count_changes_bound(outs: Seq<ApplyOutcome>)
    ensures
        count_changes(outs) <= outs.len(),
    decreases outs.len(),
{
    if outs.len() > 0 {
        lemma_count_changes_bound(outs.drop_last());
    }
}

/// Summarizes the outcomes of an apply under `mode`.
pub fn summarize(outs: &Vec<ApplyOutcome>, mode: DryRun) -> (r: ApplySummary)
    ensures
        r.objects == outs.len(),
        r.changes == count_changes(outs@),
        r.dry_run == !spec_mutates(mode),
{
    let mut changes: usize = 0;
    let mut i: usize = 0;
    while i < outs.len()
        invariant
            i <= outs.len(),
            changes == count_changes(outs@.take(i as int)),
        decreases outs.len() - i,
    {
        proof {
            assert(outs@.take(i + 1).drop_last() =~= outs@.take(i as int));
            lemma_count_changes_bound(outs@.take(i as int));
        }
        if outs[i] != ApplyOutcome::Unchanged {
            changes += 1;
        }
        i += 1;
    }
    assert(outs@.take(outs.len() as int) =~= outs@);
    ApplySummary { objects: outs.len(), changes, dry_run: !mode.mutates() }
}

/// The status an AppInstance's ConfigMap records.
#[derive(Debug)]
pub struct StatusRecord {
    pub last_apply: Option<ApplySummary>,
    pub last_error: Option<String>,
    /// The identities of the objects the last real apply wrote.
    pub applied: Vec<String>,
}

/// The status ConfigMap as read from the cluster.
#[derive(Debug)]
pub enum StatusConfigMap {
    /// There is no such ConfigMap.
    Missing,
    /// Its status data did not parse; the parser's message.
    Malformed(String),
    /// It parsed, but is not an AppInstance status; why.
    Foreign(String),
    /// It holds a status record.
    Recorded(StatusRecord),
}

/// Whether `ids` lists the identities of the objects of `doc`, in order.
pub open spec fn applied_ids(ids: Seq<String>, doc: Seq<ManifestObject>) -> bool {
    &&& ids.len() == doc.len()
    &&& forall|i: int| 0 <= i < doc.len() ==> #[trigger] ids[i]@ == doc[i].id@
}

/// Records a successful apply of `doc` in the status ConfigMap. The
/// ConfigMap must already exist and hold a status record; it is never
/// created or overwritten blindly. A dry run keeps the list of applied
/// objects as it was.
pub fn publish_status(cm: StatusConfigMap, summary: ApplySummary, doc: &Vec<ManifestObject>) -> (r:
    Result<StatusRecord, Error>)
    ensures
        cm is Missing ==> r matches Err(Error::ConfigMapRequired),
        cm matches StatusConfigMap::Malformed(m) ==> (r matches Err(Error::InvalidConfigMapStatus(m2))
            && m2 == m),
        cm matches StatusConfigMap::Foreign(m) ==> (r matches Err(Error::InvalidConfigMap(m2)) && m2
            == m),
        cm matches StatusConfigMap::Recorded(old_rec) ==> (r matches Ok(rec) && rec.last_apply
            == Some(summary) && rec.last_error is None && (summary.dry_run ==> rec.applied@
            == old_rec.applied@) && (!summary.dry_run ==> applied_ids(rec.applied@, doc@))),
{
    match cm {
        StatusConfigMap::Missing => Err(Error::ConfigMapRequired),
        StatusConfigMap::Malformed(m) => Err(Error::InvalidConfigMapStatus(m)),
        StatusConfigMap::Foreign(m) => Err(Error::InvalidConfigMap(m)),
        StatusConfigMap::Recorded(old_rec) => {
            let applied = if summary.dry_run {
                old_rec.applied
            } else {
                let mut ids: Vec<String> = Vec::new();
                let mut i: usize = 0;
                while i < doc.len()
                    invariant
                        i <= doc.len(),
                        ids@.len() == i,
                        forall|t: int| 0 <= t < i ==> #[trigger] ids@[t]@ == doc@[t].id@,
                    decreases doc.len() - i,
                {
                    ids.push(doc[i].id.clone());
                    i += 1;
                }
                ids
            };
            Ok(StatusRecord { last_apply: Some(summary), last_error: None, applied })
        },
    }
}

} // verus!
