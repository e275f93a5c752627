//! The dependency walker: a work queue of project identifiers together with
//! the set of identifiers already admitted, so that every project of a
//! dependency closure is resolved and fetched once, however many projects
//! depend on it.
use vstd::prelude::*;
use crate::records::Dependency;
use crate::text::contains_text;

verus! {

/// The identifiers of the dependencies to follow: the required ones, and
/// the optional ones a person confirmed (`confirmed[i]` answers for `deps[i]`).
pub open spec fn followed(deps: Seq<Dependency>, confirmed: Seq<bool>) -> Seq<Seq<char>>
    decreases deps.len(),
{
    if deps.len() == 0 {
        Seq::empty()
    } else {
        let rest = followed(deps.drop_last(), confirmed);
        let d = deps.last();
        if d.required || confirmed[deps.len() - 1] {
            rest.push(d.project_id@)
        } else {
            rest
        }
    }
}

pub fn dependencies_to_follow(deps: &Vec<Dependency>, confirmed: &Vec<bool>) -> (r: Vec<String>)
    requires
        confirmed@.len() == deps@.len(),
    ensures
        r@.map_values(|s: String| s@) == followed(deps@, confirmed@),
{
    let mut r: Vec<String> = Vec::new();
    let mut i: usize = 0;
    while i < deps.len()
        invariant
            i <= deps@.len(),
            confirmed@.len() == deps@.len(),
            r@.map_values(|s: String| s@) == followed(deps@.subrange(0, i as int), confirmed@),
        decreases deps@.len() - i,
    {
        proof {
            let next = deps@.subrange(0, i + 1);
            assert(next.drop_last() =~= deps@.subrange(0, i as int));
        }
        if deps[i].required || confirmed[i] {
            r.push(deps[i].project_id.clone());
        }
        i = i + 1;
        assert(r@.map_values(|s: String| s@) =~= followed(
            deps@.subrange(0, i as int),
            confirmed@,
        ));
    }
    assert(deps@.subrange(0, i as int) =~= deps@);
    r
}

/// The closure after queueing `ids` in order: each one not yet in it is
/// appended, the others are skipped.
pub open spec fn queued(closure: Seq<Seq<char>>, ids: Seq<Seq<char>>) -> Seq<Seq<char>>
    decreases ids.len(),
{
    if ids.len() == 0 {
        closure
    } else {
        let before = queued(closure, ids.drop_last());
        if before.contains(ids.last()) {
            before
        } else {
            before.push(ids.last())
        }
    }
}

/// No identifier occurs twice.
pub open spec fn distinct(s: Seq<Seq<char>>) -> bool {
    forall|i: int, j: int| 0 <= i < j < s.len() ==> #[trigger] s[i] != #[trigger] s[j]
}

/// Dependency subtrees that could not be resolved or fetched while the root
/// artifact was.
pub struct PartialFailure {
    pub failed: Vec<String>,
}

/// Walks a dependency closure breadth-first. The closure lists the root and
/// then every admitted identifier in the order of admission; those before
/// the cursor have been handed out, the rest wait.
pub struct DependencyWalker {
    closure: Vec<String>,
    cursor: usize,
    failures: Vec<String>,
}

impl DependencyWalker {
    /// The closure: the root, then every admitted identifier.
    pub closed spec fn closure_spec(&self) -> Seq<Seq<char>> {
        self.closure@.map_values(|s: String| s@)
    }

    /// How many identifiers of the closure have been handed out, the root
    /// counted.
    pub closed spec fn cursor_spec(&self) -> nat {
        self.cursor as nat
    }

    pub closed spec fn failures_spec(&self) -> Seq<Seq<char>> {
        self.failures@.map_values(|s: String| s@)
    }

    pub open spec fn wf(&self) -> bool {
        &&& 1 <= self.cursor_spec() <= self.closure_spec().len()
        &&& distinct(self.closure_spec())
    }

    /// Starts a walk at the root artifact, with nothing waiting.
    pub fn new(root_id: String) -> (r: Self)
        ensures
            r.wf(),
            r.closure_spec() == seq![root_id@],
            r.cursor_spec() == 1,
            r.failures_spec().len() == 0,
    {
        let mut closure: Vec<String> = Vec::new();
        closure.push(root_id);
        let r = DependencyWalker { closure, cursor: 1, failures: Vec::new() };
        assert(r.closure_spec() =~= seq![root_id@]);
        assert(r.failures_spec() =~= Seq::empty());
        r
    }

    /// Queues the dependencies of the project just handled. Identifiers
    /// already in the closure are skipped; the others join the queue once.
    pub fn enqueue(&mut self, ids: &Vec<String>)
        requires
            old(self).wf(),
        ensures
            final(self).wf(),
            final(self).cursor_spec() == old(self).cursor_spec(),
            final(self).failures_spec() == old(self).failures_spec(),
            final(self).closure_spec() == queued(
                old(self).closure_spec(),
                ids@.map_values(|s: String| s@),
            ),
            final(self).closure_spec().subrange(0, old(self).closure_spec().len() as int)
                == old(self).closure_spec(),
            forall|k: int|
                0 <= k < ids@.len() ==> final(self).closure_spec().contains(#[trigger] ids@[k]@),
            forall|x: Seq<char>|
                #[trigger] final(self).closure_spec().contains(x) ==> old(
                    self,
                ).closure_spec().contains(x) || exists|k: int|
                    0 <= k < ids@.len() && #[trigger] ids@[k]@ == x,
    {
        let ghost start = self.closure_spec();
        let mut i: usize = 0;
        while i < ids.len()
            invariant
                i <= ids@.len(),
                self.wf(),
                self.cursor_spec() == old(self).cursor_spec(),
                self.failures_spec() == old(self).failures_spec(),
                start == old(self).closure_spec(),
                self.closure_spec() == queued(
                    start,
                    ids@.map_values(|s: String| s@).subrange(0, i as int),
                ),
                start.len() <= self.closure_spec().len(),
                self.closure_spec().subrange(0, start.len() as int) == start,
                forall|k: int|
                    0 <= k < i ==> self.closure_spec().contains(#[trigger] ids@[k]@),
                forall|x: Seq<char>|
                    #[trigger] self.closure_spec().contains(x) ==> start.contains(x) || exists|
                        k: int,
                    | 0 <= k < ids@.len() && #[trigger] ids@[k]@ == x,
            decreases ids@.len() - i,
        {
            let ghost before = self.closure_spec();
            let id = &ids[i];
            proof {
                let views = ids@.map_values(|s: String| s@);
                assert(views.subrange(0, i + 1).drop_last() =~= views.subrange(0, i as int));
                assert(views.subrange(0, i + 1).last() == id@);
            }
            if !contains_text(&self.closure, id.as_str()) {
                self.closure.push(id.clone());
                proof {
                    let after = self.closure_spec();
                    assert(after =~= before.push(id@));
                    assert(after.subrange(0, start.len() as int) =~= before.subrange(
                        0,
                        start.len() as int,
                    ));
                    assert forall|a: int, b: int| 0 <= a < b < after.len() implies #[trigger] after[a]
                        != #[trigger] after[b] by {
                        if b == after.len() - 1 {
                            assert(before[a] == self.closure@[a]@);
                        }
                    }
                    assert forall|k: int| 0 <= k <= i implies after.contains(#[trigger] ids@[k]@) by {
                        if k < i {
                            let w = choose|w: int| 0 <= w < before.len() && before[w] == ids@[k]@;
                            assert(after[w] == ids@[k]@);
                        } else {
                            assert(after[after.len() - 1] == ids@[k]@);
                        }
                    }
                    assert forall|x: Seq<char>| #[trigger] after.contains(x) implies start.contains(
                        x,
                    ) || exists|k: int| 0 <= k < ids@.len() && #[trigger] ids@[k]@ == x by {
                        let w = choose|w: int| 0 <= w < after.len() && after[w] == x;
                        if w < before.len() {
                            assert(before[w] == x);
                            assert(before.contains(x));
                        } else {
                            assert(ids@[i as int]@ == x);
                        }
                    }
                }
            } else {
                proof {
                    let w = choose|w: int| 0 <= w < self.closure@.len() && #[trigger] self.closure@[w]@ == id@;
                    assert(before[w] == id@);
                }
            }
            i = i + 1;
        }
        assert(ids@.map_values(|s: String| s@).subrange(0, i as int) =~= ids@.map_values(
            |s: String| s@,
        ));
    }

    /// Hands out the next waiting identifier. An identifier is handed out
    /// at most once: it was neither the root nor handed out before.
    pub fn next(&mut self) -> (r: Option<String>)
        requires
            old(self).wf(),
        ensures
            final(self).wf(),
            final(self).closure_spec() == old(self).closure_spec(),
            final(self).failures_spec() == old(self).failures_spec(),
            old(self).cursor_spec() == old(self).closure_spec().len() ==> r is None
                && final(self).cursor_spec() == old(self).cursor_spec(),
            old(self).cursor_spec() < old(self).closure_spec().len() ==> (r matches Some(id)
                && id@ == old(self).closure_spec()[old(self).cursor_spec() as int]
                && final(self).cursor_spec() == old(self).cursor_spec() + 1),
            r matches Some(id) ==> forall|k: int|
                0 <= k < old(self).cursor_spec() ==> old(self).closure_spec()[k] != id@,
    {
        if self.cursor < self.closure.len() {
            let id = self.closure[self.cursor].clone();
            proof {
                let c = old(self).closure_spec();
                let n = old(self).cursor as int;
                assert(c[n] == id@);
                assert forall|k: int| 0 <= k < n implies c[k] != id@ by {
                    assert(c[k] != c[n]);
                }
            }
            self.cursor = self.cursor + 1;
            Some(id)
        } else {
            None
        }
    }

    /// Records that the project handed out as `id` could not be resolved or
    /// fetched. The walk goes on with the identifiers still waiting.
    pub fn record_failure(&mut self, id: String)
        requires
            old(self).wf(),
        ensures
            final(self).wf(),
            final(self).closure_spec() == old(self).closure_spec(),
            final(self).cursor_spec() == old(self).cursor_spec(),
            final(self).failures_spec() == old(self).failures_spec().push(id@),
    {
        self.failures.push(id);
        assert(self.failures_spec() =~= old(self).failures_spec().push(id@));
    }

    /// Over a whole walk no identifier is handed out twice: any two
    /// identifiers handed out so far (the root counted) differ. A project
    /// that several others depend on is therefore fetched once.
    pub proof fn lemma_handed_out_once(&self, i: int, j: int)
        requires
            self.wf(),
            0 <= i < j < self.cursor_spec(),
        ensures
            self.closure_spec()[i] != self.closure_spec()[j],
    {
    }

    /// A project reached again along another path of the closure (A depends
    /// on B and C, and both depend on D) is not queued again: queueing an
    /// identifier the closure already holds leaves the closure as it was.
    pub proof fn lemma_requeue_changes_nothing(closure: Seq<Seq<char>>, id: Seq<char>)
        requires
            closure.contains(id),
        ensures
            queued(closure, seq![id]) == closure,
    {
        assert(seq![id].drop_last() =~= Seq::<Seq<char>>::empty());
        assert(queued(closure, Seq::<Seq<char>>::empty()) == closure);
    }

    /// Records how the project handed out as `id` went. When it was resolved
    /// and fetched, `followed` holds its dependencies to follow and they are
    /// queued; when it failed, the failure is recorded and the identifiers
    /// already waiting (its siblings among them) are still handed out.
    pub fn finish(&mut self, id: String, followed: Option<Vec<String>>)
        requires
            old(self).wf(),
        ensures
            final(self).wf(),
            final(self).cursor_spec() == old(self).cursor_spec(),
            followed matches Some(ids) ==> final(self).closure_spec() == queued(
                old(self).closure_spec(),
                ids@.map_values(|s: String| s@),
            ) && final(self).failures_spec() == old(self).failures_spec(),
            followed is None ==> final(self).closure_spec() == old(self).closure_spec()
                && final(self).failures_spec() == old(self).failures_spec().push(id@),
    {
        match followed {
            Some(ids) => self.enqueue(&ids),
            None => self.record_failure(id),
        }
    }

    /// Whether identifiers are still waiting.
    pub fn has_pending(&self) -> (r: bool)
        ensures
            r == (self.cursor_spec() < self.closure_spec().len()),
    {
        self.cursor < self.closure.len()
    }

    /// The result of the walk: success, or the subtrees that failed.
    pub fn outcome(&self) -> (r: Result<(), PartialFailure>)
        ensures
            r is Ok <==> self.failures_spec().len() == 0,
            r matches Err(e) ==> e.failed@.map_values(|s: String| s@) == self.failures_spec(),
    {
        if self.failures.len() == 0 {
            Ok(())
        } else {
            Err(PartialFailure { failed: crate::text::copy_strings(&self.failures) })
        }
    }
}

} // verus!
