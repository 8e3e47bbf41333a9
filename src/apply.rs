use vstd::prelude::*;

use crate::local::{DryRun, apply_supports, spec_mutates};
use crate::Error;

verus! {

/// One object of a rendered document: its identity (group, kind, namespace
/// and name) and its serialized body.
#[derive(Debug)]
pub struct ManifestObject {
    pub id: String,
    pub body: String,
}

/// What applying one object did, or would do under a dry run.
#[derive(PartialEq, Eq, Structural, Clone, Copy, Debug)]
pub enum ApplyOutcome {
    Created,
    Updated,
    Unchanged,
    WouldCreate,
    WouldUpdate,
}

/// The live objects the apply engine works against. Later records of an
/// identity supersede earlier ones.
#[derive(Debug)]
pub struct LiveState {
    pub objects: Vec<ManifestObject>,
}

/// The map from identity to body that a sequence of objects describes,
/// starting from `base`: later objects win.
pub open spec fn apply_spec(base: Map<Seq<char>, Seq<char>>, doc: Seq<ManifestObject>) -> Map<
    Seq<char>,
    Seq<char>,
>
    decreases doc.len(),
{
    if doc.len() == 0 {
        base
    } else {
        apply_spec(base, doc.drop_last()).insert(doc.last().id@, doc.last().body@)
    }
}

/// What applying `o` does to a cluster whose objects are `live`.
pub open spec fn outcome_spec(live: Map<Seq<char>, Seq<char>>, o: ManifestObject) -> ApplyOutcome {
    if !live.contains_key(o.id@) {
        ApplyOutcome::Created
    } else if live[o.id@] == o.body@ {
        ApplyOutcome::Unchanged
    } else {
        ApplyOutcome::Updated
    }
}

/// The per-object outcomes of applying `doc`, in order, to `live`.
pub open spec fn outcomes_spec(live: Map<Seq<char>, Seq<char>>, doc: Seq<ManifestObject>) -> Seq<
    ApplyOutcome,
>
    decreases doc.len(),
{
    if doc.len() == 0 {
        Seq::empty()
    } else {
        outcomes_spec(live, doc.drop_last()).push(
            outcome_spec(apply_spec(live, doc.drop_last()), doc.last()),
        )
    }
}

/// How an outcome is reported under `mode`: a dry run reports what it
/// would have done.
pub open spec fn labelled(mode: DryRun, o: ApplyOutcome) -> ApplyOutcome {
    if spec_mutates(mode) {
        o
    } else {
        match o {
            ApplyOutcome::Created => ApplyOutcome::WouldCreate,
            ApplyOutcome::Updated => ApplyOutcome::WouldUpdate,
            _ => o,
        }
    }
}

/// Whether an outcome stands for a write to the cluster.
pub open spec fn is_mutation(o: ApplyOutcome) -> bool {
    o == ApplyOutcome::Created || o == ApplyOutcome::Updated
}

/// No two objects of `doc` share an identity.
pub open spec fn distinct_ids(doc: Seq<ManifestObject>) -> bool {
    forall|i: int, j: int| 0 <= i < j < doc.len() ==> doc[i].id@ != doc[j].id@
}

impl View for LiveState {
    type V = Map<Seq<char>, Seq<char>>;

    open spec fn view(&self) -> Map<Seq<char>, Seq<char>> {
        apply_spec(Map::empty(), self.objects@)
    }
}

proof fn lemma_lookup_absent(base: Map<Seq<char>, Seq<char>>, s: Seq<ManifestObject>, k: Seq<char>)
    requires
        forall|i: int| 0 <= i < s.len() ==> s[i].id@ != k,
    ensures
        apply_spec(base, s).contains_key(k) == base.contains_key(k),
        base.contains_key(k) ==> apply_spec(base, s)[k] == base[k],
    decreases s.len(),
{
    if s.len() > 0 {
        lemma_lookup_absent(base, s.drop_last(), k);
    }
}

proof fn lemma_lookup_found(base: Map<Seq<char>, Seq<char>>, s: Seq<ManifestObject>, j: int)
    requires
        0 <= j < s.len(),
        forall|i: int| j < i < s.len() ==> s[i].id@ != s[j].id@,
    ensures
        apply_spec(base, s).contains_key(s[j].id@),
        apply_spec(base, s)[s[j].id@] == s[j].body@,
    decreases s.len(),
{
    if j < s.len() - 1 {
        lemma_lookup_found(base, s.drop_last(), j);
    }
}

impl LiveState {
    /// A cluster without objects.
    pub fn new() -> (r: LiveState)
        ensures
            r@ == Map::<Seq<char>, Seq<char>>::empty(),
    {
        LiveState { objects: Vec::new() }
    }

    /// The live body of the object `id`, if it exists.
    pub fn get(&self, id: &String) -> (r: Option<&String>)
        ensures
            r is None <==> !self@.contains_key(id@),
            r matches Some(b) ==> b@ == self@[id@],
    {
        let mut i: usize = self.objects.len();
        while i > 0
            invariant
                i <= self.objects.len(),
                forall|t: int| i <= t < self.objects.len() ==> self.objects[t].id@ != id@,
            decreases i,
        {
            i -= 1;
            if self.objects[i].id == *id {
                proof {
                    lemma_lookup_found(Map::empty(), self.objects@, i as int);
                }
                return Some(&self.objects[i].body);
            }
        }
        proof {
            lemma_lookup_absent(Map::empty(), self.objects@, id@);
        }
        None
    }

    /// Records `o` as the live version of its object.
    pub fn put(&mut self, o: ManifestObject)
        ensures
            final(self)@ == old(self)@.insert(o.id@, o.body@),
    {
        self.objects.push(o);
        proof {
            assert(final(self).objects@.drop_last() =~= old(self).objects@);
        }
    }

    /// Removes the object `id`. Removing an absent object succeeds and
    /// changes nothing.
    pub fn remove(&mut self, id: &String)
        ensures
            final(self)@ == old(self)@.remove(id@),
    {
        let ghost s = self.objects@;
        let mut kept: Vec<ManifestObject> = Vec::new();
        let mut i: usize = 0;
        while i < self.objects.len()
            invariant
                self.objects@ == s,
                i <= s.len(),
                apply_spec(Map::empty(), kept@) =~= apply_spec(Map::empty(), s.take(i as int)).remove(
                    id@,
                ),
            decreases s.len() - i,
        {
            assert(s.take(i + 1).drop_last() =~= s.take(i as int));
            let o = &self.objects[i];
            if o.id != *id {
                let ghost before = kept@;
                let c = ManifestObject { id: o.id.clone(), body: o.body.clone() };
                kept.push(c);
                assert(kept@.drop_last() =~= before);
            }
            i += 1;
        }
        assert(s.take(s.len() as int) =~= s);
        self.objects = kept;
    }

    /// A copy of this state, record by record.
    pub fn copy(&self) -> (r: LiveState)
        ensures
            r@ == self@,
    {
        let mut out: Vec<ManifestObject> = Vec::new();
        let mut i: usize = 0;
        while i < self.objects.len()
            invariant
                i <= self.objects.len(),
                out@ =~= self.objects@.take(i as int),
            decreases self.objects.len() - i,
        {
            let o = &self.objects[i];
            out.push(ManifestObject { id: o.id.clone(), body: o.body.clone() });
            i += 1;
        }
        assert(self.objects@.take(self.objects.len() as int) =~= self.objects@);
        LiveState { objects: out }
    }

    /// Applies `doc` under `mode`, object by object, and reports each
    /// object's outcome. An unsupported mode is refused before any object
    /// is touched. Only `DryRun::Off` changes the cluster; a dry run
    /// reports the same outcomes as a real apply, marked as predictions.
    pub fn apply(&mut self, doc: &Vec<ManifestObject>, mode: DryRun) -> (r: Result<
        Vec<ApplyOutcome>,
        Error,
    >)
        ensures
            !apply_supports(mode) ==> (r matches Err(Error::UnsupportedDryRunOption(m)) && m == mode),
            !apply_supports(mode) ==> final(self)@ == old(self)@,
            apply_supports(mode) ==> (r matches Ok(outs) && outs@.len() == doc@.len() && forall|
                i: int,
            |
                0 <= i < doc@.len() ==> outs@[i] == labelled(
                    mode,
                    #[trigger] outcomes_spec(old(self)@, doc@)[i],
                )),
            apply_supports(mode) && spec_mutates(mode) ==> final(self)@ == apply_spec(
                old(self)@,
                doc@,
            ),
            apply_supports(mode) && !spec_mutates(mode) ==> final(self)@ == old(self)@,
    {
        if !mode.is_supported() {
            return Err(Error::UnsupportedDryRunOption(mode));
        }
        let ghost live = self@;
        let mut work = self.copy();
        let mut outs: Vec<ApplyOutcome> = Vec::new();
        let mut i: usize = 0;
        while i < doc.len()
            invariant
                i <= doc.len(),
                self@ == live,
                work@ == apply_spec(live, doc@.take(i as int)),
                outs@.len() == i,
                outcomes_spec(live, doc@.take(i as int)).len() == i,
                forall|t: int|
                    0 <= t < i ==> outs@[t] == labelled(
                        mode,
                        #[trigger] outcomes_spec(live, doc@.take(i as int))[t],
                    ),
            decreases doc.len() - i,
        {
            let o = &doc[i];
            let raw = match work.get(&o.id) {
                None => ApplyOutcome::Created,
                Some(b) => if *b == o.body {
                    ApplyOutcome::Unchanged
                } else {
                    ApplyOutcome::Updated
                },
            };
            let reported = if mode.mutates() {
                raw
            } else {
                match raw {
                    ApplyOutcome::Created => ApplyOutcome::WouldCreate,
                    ApplyOutcome::Updated => ApplyOutcome::WouldUpdate,
                    _ => raw,
                }
            };
            proof {
                assert(doc@.take(i + 1).drop_last() =~= doc@.take(i as int));
                assert(doc@.take(i + 1).last() == doc@[i as int]);
                assert(raw == outcome_spec(work@, doc@[i as int]));
            }
            outs.push(reported);
            work.put(ManifestObject { id: o.id.clone(), body: o.body.clone() });
            i += 1;
        }
        assert(doc@.take(doc.len() as int) =~= doc@);
        if mode.mutates() {
            *self = work;
        }
        Ok(outs)
    }
}

proof fn lemma_applied_holds_doc(base: Map<Seq<char>, Seq<char>>, doc: Seq<ManifestObject>, j: int)
    requires
        distinct_ids(doc),
        0 <= j < doc.len(),
    ensures
        apply_spec(base, doc).contains_key(doc[j].id@),
        apply_spec(base, doc)[doc[j].id@] == doc[j].body@,
{
    lemma_lookup_found(base, doc, j);
}

proof fn lemma_apply_converged(live: Map<Seq<char>, Seq<char>>, doc: Seq<ManifestObject>)
    requires
        forall|j: int|
            0 <= j < doc.len() ==> live.contains_key(#[trigger] doc[j].id@) && live[doc[j].id@]
                == doc[j].body@,
    ensures
        apply_spec(live, doc) == live,
        forall|j: int|
            0 <= j < doc.len() ==> #[trigger] outcomes_spec(live, doc)[j] == ApplyOutcome::Unchanged,
        outcomes_spec(live, doc).len() == doc.len(),
    decreases doc.len(),
{
    if doc.len() > 0 {
        let d = doc.drop_last();
        assert forall|j: int| 0 <= j < d.len() implies live.contains_key(#[trigger] d[j].id@)
            && live[d[j].id@] == d[j].body@ by {
            assert(d[j] == doc[j]);
        }
        lemma_apply_converged(live, d);
        assert(live.contains_key(doc[doc.len() - 1].id@));
        assert(apply_spec(live, doc) =~= live);
        assert forall|j: int| 0 <= j < doc.len() implies #[trigger] outcomes_spec(live, doc)[j]
            == ApplyOutcome::Unchanged by {
            if j < d.len() {
                assert(outcomes_spec(live, doc)[j] == outcomes_spec(live, d)[j]);
            }
        }
    }
}

/// Applying a document with distinct object identities a second time, to
/// the cluster the first application left, changes nothing: the cluster
/// stays as it is and every object is reported unchanged, so no write is
/// sent.
pub proof fn lemma_apply_idempotent(live: Map<Seq<char>, Seq<char>>, doc: Seq<ManifestObject>)
    requires
        distinct_ids(doc),
    ensures
        apply_spec(apply_spec(live, doc), doc) == apply_spec(live, doc),
        outcomes_spec(apply_spec(live, doc), doc).len() == doc.len(),
        forall|j: int|
            0 <= j < doc.len() ==> outcomes_spec(apply_spec(live, doc), doc)[j]
                == ApplyOutcome::Unchanged,
        forall|j: int|
            0 <= j < doc.len() ==> !is_mutation(outcomes_spec(apply_spec(live, doc), doc)[j]),
{
    let once = apply_spec(live, doc);
    assert forall|j: int| 0 <= j < doc.len() implies once.contains_key(#[trigger] doc[j].id@)
        && once[doc[j].id@] == doc[j].body@ by {
        lemma_applied_holds_doc(live, doc, j);
    }
    lemma_apply_converged(once, doc);
}

} // verus!
