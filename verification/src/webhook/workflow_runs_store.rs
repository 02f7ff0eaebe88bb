//! The workflow runs that failed and have not succeeded since.

use vstd::prelude::*;

use crate::text::same_text;

verus! {

/// A failed run as the store keeps it.
#[derive(Debug)]
pub struct WorkflowRun {
    pub workflow_id: u64,
    pub head_branch: String,
}

/// What identifies a run within its repository: the workflow and the branch.
pub struct RunKey {
    pub workflow_id: u64,
    pub head_branch: Seq<char>,
}

impl View for WorkflowRun {
    type V = RunKey;

    open spec fn view(&self) -> RunKey {
        RunKey { workflow_id: self.workflow_id, head_branch: self.head_branch@ }
    }
}

/// The runs of a list, each by its key.
pub open spec fn run_keys(runs: Seq<WorkflowRun>) -> Seq<RunKey> {
    runs.map_values(|run: WorkflowRun| run@)
}

/// The runs that a store holds for a repository, oldest first; none for a
/// repository that it has never seen.
pub open spec fn runs_for(store: Map<Seq<char>, Seq<RunKey>>, repo: Seq<char>) -> Seq<RunKey> {
    if store.dom().contains(repo) {
        store[repo]
    } else {
        Seq::empty()
    }
}

/// Whether a store holds a failed run under the given key.
pub open spec fn has_failure(store: Map<Seq<char>, Seq<RunKey>>, repo: Seq<char>, run: RunKey) -> bool {
    runs_for(store, repo).contains(run)
}

/// What tells the runs of other keys from the runs of the given key.
pub open spec fn other_than(run: RunKey) -> spec_fn(RunKey) -> bool {
    |other: RunKey| other != run
}

/// A list of runs without the runs of the given key.
pub open spec fn without(runs: Seq<RunKey>, run: RunKey) -> Seq<RunKey> {
    runs.filter(other_than(run))
}

/// The store after a failure was recorded: the run joins the end of its
/// repository's runs unless it is among them already.
pub open spec fn recorded_failure(
    store: Map<Seq<char>, Seq<RunKey>>,
    repo: Seq<char>,
    run: RunKey,
) -> Map<Seq<char>, Seq<RunKey>> {
    if has_failure(store, repo, run) {
        store
    } else {
        store.insert(repo, runs_for(store, repo).push(run))
    }
}

/// The store after a success was recorded: the repository's runs of that key
/// are gone, and the other runs keep their order.
pub open spec fn recorded_success(
    store: Map<Seq<char>, Seq<RunKey>>,
    repo: Seq<char>,
    run: RunKey,
) -> Map<Seq<char>, Seq<RunKey>> {
    if store.dom().contains(repo) {
        store.insert(repo, without(store[repo], run))
    } else {
        store
    }
}

/// No repository holds two runs of one key.
pub open spec fn runs_distinct(store: Map<Seq<char>, Seq<RunKey>>) -> bool {
    forall|repo: Seq<char>| #[trigger] store.dom().contains(repo) ==> store[repo].no_duplicates()
}

/// No repository holds a run.
pub open spec fn holds_no_run(store: Map<Seq<char>, Seq<RunKey>>) -> bool {
    forall|repo: Seq<char>| #[trigger] store.dom().contains(repo) ==> store[repo].len() == 0
}

/// Recording a failure or a success keeps the runs of each repository distinct.
pub proof fn lemma_runs_stay_distinct(store: Map<Seq<char>, Seq<RunKey>>, repo: Seq<char>, run: RunKey)
    requires
        runs_distinct(store),
    ensures
        runs_distinct(recorded_failure(store, repo, run)),
        runs_distinct(recorded_success(store, repo, run)),
{
    let failed = recorded_failure(store, repo, run);
    assert forall|other: Seq<char>| #[trigger] failed.dom().contains(other) implies failed[other].no_duplicates() by {
        if other == repo && !has_failure(store, repo, run) {
            let runs = runs_for(store, repo);
            assert(store.dom().contains(repo) ==> store[repo].no_duplicates());
            assert forall|i: int, j: int|
                0 <= i < failed[repo].len() && 0 <= j < failed[repo].len() && i != j implies failed[repo][i]
                != failed[repo][j] by {
                if i < runs.len() && j < runs.len() {
                } else if i < runs.len() {
                    assert(runs[i] != run);
                } else {
                    assert(runs[j] != run);
                }
            }
        } else {
            assert(store.dom().contains(other));
        }
    }
    let succeeded = recorded_success(store, repo, run);
    assert forall|other: Seq<char>| #[trigger] succeeded.dom().contains(other) implies succeeded[other].no_duplicates() by {
        assert(store.dom().contains(other));
        if other == repo {
            lemma_without(store[repo], run);
        }
    }
}

/// Recording a failure a second time changes nothing: the store, and so the
/// number of runs it holds for any repository, is what the first call left.
pub proof fn lemma_failure_recorded_once(store: Map<Seq<char>, Seq<RunKey>>, repo: Seq<char>, run: RunKey)
    ensures
        has_failure(recorded_failure(store, repo, run), repo, run),
        recorded_failure(recorded_failure(store, repo, run), repo, run) == recorded_failure(store, repo, run),
        forall|other: Seq<char>|
            runs_for(recorded_failure(recorded_failure(store, repo, run), repo, run), other).len()
                == #[trigger] runs_for(recorded_failure(store, repo, run), other).len(),
{
    if !has_failure(store, repo, run) {
        let runs = runs_for(store, repo).push(run);
        assert(runs[runs.len() - 1] == run);
    }
}

/// A success that follows a recorded failure of the same key finds the run and
/// removes it; a second success of that key finds nothing and changes nothing.
pub proof fn lemma_success_after_failure(store: Map<Seq<char>, Seq<RunKey>>, repo: Seq<char>, run: RunKey)
    ensures
        has_failure(recorded_failure(store, repo, run), repo, run),
        !has_failure(recorded_success(recorded_failure(store, repo, run), repo, run), repo, run),
        recorded_success(recorded_success(recorded_failure(store, repo, run), repo, run), repo, run)
            == recorded_success(recorded_failure(store, repo, run), repo, run),
{
    lemma_failure_recorded_once(store, repo, run);
    let failed = recorded_failure(store, repo, run);
    lemma_success_clears(failed, repo, run);
}

/// Once a success was recorded the store holds no run of that key, so that a
/// second success of the key removes nothing.
pub proof fn lemma_success_clears(store: Map<Seq<char>, Seq<RunKey>>, repo: Seq<char>, run: RunKey)
    ensures
        !has_failure(recorded_success(store, repo, run), repo, run),
        recorded_success(recorded_success(store, repo, run), repo, run) == recorded_success(store, repo, run),
{
    if store.dom().contains(repo) {
        lemma_cleared(store[repo], run);
        lemma_success_without_failure(recorded_success(store, repo, run), repo, run);
    }
}

/// A success of a run that is not on record leaves the store as it is.
pub proof fn lemma_success_without_failure(store: Map<Seq<char>, Seq<RunKey>>, repo: Seq<char>, run: RunKey)
    requires
        !has_failure(store, repo, run),
    ensures
        recorded_success(store, repo, run) == store,
{
    if store.dom().contains(repo) {
        lemma_unchanged_without(store[repo], run);
        assert(recorded_success(store, repo, run) =~= store);
    }
}

proof fn lemma_cleared(runs: Seq<RunKey>, run: RunKey)
    ensures
        !without(runs, run).contains(run),
    decreases runs.len(),
{
    reveal(Seq::filter);
    if runs.len() > 0 {
        lemma_cleared(runs.drop_last(), run);
        let kept = without(runs.drop_last(), run);
        if without(runs, run).contains(run) {
            let at = choose|i: int| 0 <= i < without(runs, run).len() && without(runs, run)[i] == run;
            if at < kept.len() {
                assert(kept[at] == run);
            }
        }
    }
}

proof fn lemma_unchanged_without(runs: Seq<RunKey>, run: RunKey)
    requires
        !runs.contains(run),
    ensures
        without(runs, run) == runs,
    decreases runs.len(),
{
    reveal(Seq::filter);
    if runs.len() > 0 {
        let front = runs.drop_last();
        assert(runs[runs.len() - 1] != run);
        if front.contains(run) {
            let at = choose|i: int| 0 <= i < front.len() && front[i] == run;
            assert(runs[at] == run);
        }
        lemma_unchanged_without(front, run);
        assert(front.push(runs.last()) =~= runs);
    }
}

struct RepoRuns {
    repo: String,
    runs: Vec<WorkflowRun>,
}

/// A store for managing workflow runs associated with repositories.
pub struct WorkflowRunsStore {
    repos: Vec<RepoRuns>,
}

spec fn names(repos: Seq<RepoRuns>) -> Seq<Seq<char>> {
    repos.map_values(|entry: RepoRuns| entry.repo@)
}

spec fn contents(repos: Seq<RepoRuns>) -> Map<Seq<char>, Seq<RunKey>> {
    Map::new(
        |repo: Seq<char>| names(repos).contains(repo),
        |repo: Seq<char>| run_keys(repos[names(repos).index_of(repo)].runs@),
    )
}

spec fn well_formed(repos: Seq<RepoRuns>) -> bool {
    &&& names(repos).no_duplicates()
    &&& forall|i: int| 0 <= i < repos.len() ==> (#[trigger] run_keys(repos[i].runs@)).no_duplicates()
}

proof fn lemma_entry(repos: Seq<RepoRuns>, i: int)
    requires
        names(repos).no_duplicates(),
        0 <= i < repos.len(),
    ensures
        contents(repos).dom().contains(repos[i].repo@),
        contents(repos)[repos[i].repo@] == run_keys(repos[i].runs@),
{
    let repo = repos[i].repo@;
    assert(names(repos)[i] == repo);
    let found = names(repos).index_of(repo);
    assert(names(repos)[found] == repo);
}

proof fn lemma_absent(repos: Seq<RepoRuns>, repo: Seq<char>)
    requires
        forall|i: int| 0 <= i < repos.len() ==> repos[i].repo@ != repo,
    ensures
        !contents(repos).dom().contains(repo),
{
    if names(repos).contains(repo) {
        let i = choose|i: int| 0 <= i < names(repos).len() && names(repos)[i] == repo;
        assert(repos[i].repo@ == repo);
    }
}

proof fn lemma_contents_distinct(repos: Seq<RepoRuns>)
    requires
        well_formed(repos),
    ensures
        runs_distinct(contents(repos)),
{
    assert forall|repo: Seq<char>| #[trigger] contents(repos).dom().contains(repo) implies contents(
        repos,
    )[repo].no_duplicates() by {
        let i = names(repos).index_of(repo);
        assert(names(repos)[i] == repo);
        assert(run_keys(repos[i].runs@).no_duplicates());
    }
}

impl View for WorkflowRunsStore {
    type V = Map<Seq<char>, Seq<RunKey>>;

    closed spec fn view(&self) -> Map<Seq<char>, Seq<RunKey>> {
        contents(self.repos@)
    }
}

impl WorkflowRunsStore {
    #[verifier::type_invariant]
    spec fn valid(self) -> bool {
        well_formed(self.repos@)
    }

    pub fn new() -> (store: Self)
        ensures
            store@ == Map::<Seq<char>, Seq<RunKey>>::empty(),
    {
        let store = WorkflowRunsStore { repos: Vec::new() };
        assert(store@ =~= Map::<Seq<char>, Seq<RunKey>>::empty()) by {
            assert forall|repo: Seq<char>| !store@.dom().contains(repo) by {
                lemma_absent(store.repos@, repo);
            }
        }
        store
    }

    fn take_repos(&mut self) -> (repos: Vec<RepoRuns>)
        ensures
            repos == old(self).repos,
            final(self).repos@.len() == 0,
    {
        let mut repos = Vec::new();
        std::mem::swap(&mut self.repos, &mut repos);
        repos
    }

    fn position(&self, repo: &str) -> (found: Option<usize>)
        ensures
            match found {
                Some(i) => i < self.repos.len() && self.repos[i as int].repo@ == repo@,
                None => forall|i: int| 0 <= i < self.repos.len() ==> self.repos[i].repo@ != repo@,
            },
    {
        let mut index: usize = 0;
        while index < self.repos.len()
            invariant
                index <= self.repos.len(),
                forall|i: int| 0 <= i < index ==> self.repos[i].repo@ != repo@,
            decreases self.repos.len() - index,
        {
            if same_text(self.repos[index].repo.as_str(), repo) {
                return Some(index);
            }
            index = index + 1;
        }
        None
    }

    /// Records a failed workflow run for the specified repository. If the run is
    /// already recorded, it does not add a duplicate.
    pub fn workflow_failed(&mut self, repo: &str, workflow_id: u64, head_branch: &str)
        ensures
            final(self)@ == recorded_failure(
                old(self)@,
                repo@,
                RunKey { workflow_id, head_branch: head_branch@ },
            ),
            runs_distinct(final(self)@),
    {
        proof {
            use_type_invariant(&*self);
        }
        let ghost key = RunKey { workflow_id, head_branch: head_branch@ };
        let ghost before = self.repos@;
        let run = WorkflowRun { workflow_id, head_branch: head_branch.to_owned() };
        match self.position(repo) {
            Some(index) => {
                proof {
                    lemma_entry(before, index as int);
                }
                if holds_run(&self.repos[index].runs, workflow_id, head_branch) {
                    proof {
                        lemma_contents_distinct(before);
                    }
                    return ;
                }
                let mut repos = self.take_repos();
                let mut entry = repos.remove(index);
                entry.runs.push(run);
                repos.insert(index, entry);
                proof {
                    let keys = run_keys(before[index as int].runs@).push(key);
                    assert(run_keys(repos@[index as int].runs@) =~= keys);
                    lemma_replaced(before, repos@, index as int, keys);
                }
                self.repos = repos;
            },
            None => {
                let mut repos = self.take_repos();
                let mut runs = Vec::new();
                runs.push(run);
                repos.push(RepoRuns { repo: repo.to_owned(), runs });
                proof {
                    lemma_absent(before, repo@);
                    assert(run_keys(repos@.last().runs@) =~= seq![key]);
                    lemma_appended(before, repos@, seq![key]);
                }
                self.repos = repos;
            },
        }
        proof {
            lemma_contents_distinct(self.repos@);
        }
    }

    /// Removes workflow runs from the store that match the specified
    /// `workflow_id` and `head_branch`. Returns `true` if any runs were removed,
    /// otherwise `false`.
    pub fn workflow_succeeded(&mut self, repo: &str, workflow_id: u64, head_branch: &str) -> (removed: bool)
        ensures
            final(self)@ == recorded_success(
                old(self)@,
                repo@,
                RunKey { workflow_id, head_branch: head_branch@ },
            ),
            removed == has_failure(old(self)@, repo@, RunKey { workflow_id, head_branch: head_branch@ }),
            runs_distinct(final(self)@),
    {
        proof {
            use_type_invariant(&*self);
        }
        let ghost key = RunKey { workflow_id, head_branch: head_branch@ };
        let ghost before = self.repos@;
        let Some(index) = self.position(repo) else {
            proof {
                lemma_absent(before, repo@);
                lemma_contents_distinct(before);
            }
            return false;
        };
        proof {
            lemma_entry(before, index as int);
        }
        let mut repos = self.take_repos();
        let entry = repos.remove(index);
        let runs_len = entry.runs.len();
        let kept = retained(&entry.runs, workflow_id, head_branch);
        let removed = kept.len() != runs_len;
        repos.insert(index, RepoRuns { repo: entry.repo, runs: kept });
        proof {
            let keys = run_keys(before[index as int].runs@);
            lemma_without(keys, key);
            lemma_replaced(before, repos@, index as int, without(keys, key));
            lemma_contents_distinct(repos@);
        }
        self.repos = repos;
        removed
    }

    /// Whether the store holds no run at all.
    pub fn is_empty(&self) -> (empty: bool)
        ensures
            empty == holds_no_run(self@),
    {
        proof {
            use_type_invariant(self);
        }
        let mut index: usize = 0;
        while index < self.repos.len()
            invariant
                index <= self.repos.len(),
                names(self.repos@).no_duplicates(),
                forall|i: int| 0 <= i < index ==> self.repos[i].runs.len() == 0,
            decreases self.repos.len() - index,
        {
            if self.repos[index].runs.len() != 0 {
                proof {
                    lemma_entry(self.repos@, index as int);
                }
                return false;
            }
            index = index + 1;
        }
        proof {
            assert forall|repo: Seq<char>| #[trigger] self@.dom().contains(repo) implies self@[repo].len()
                == 0 by {
                let i = names(self.repos@).index_of(repo);
                assert(names(self.repos@)[i] == repo);
            }
        }
        true
    }

    /// The runs held for a repository, oldest first.
    pub fn runs(&self, repo: &str) -> (runs: Vec<WorkflowRun>)
        ensures
            run_keys(runs@) == runs_for(self@, repo@),
    {
        proof {
            use_type_invariant(self);
        }
        match self.position(repo) {
            Some(index) => {
                proof {
                    lemma_entry(self.repos@, index as int);
                }
                copied(&self.repos[index].runs)
            },
            None => {
                proof {
                    lemma_absent(self.repos@, repo@);
                }
                let runs = Vec::new();
                assert(run_keys(runs@) =~= Seq::<RunKey>::empty());
                runs
            },
        }
    }
}

proof fn lemma_replaced(before: Seq<RepoRuns>, after: Seq<RepoRuns>, index: int, keys: Seq<RunKey>)
    requires
        well_formed(before),
        0 <= index < before.len(),
        after.len() == before.len(),
        forall|i: int| 0 <= i < before.len() ==> (#[trigger] after[i]).repo@ == before[i].repo@,
        forall|i: int| 0 <= i < before.len() && i != index ==> (#[trigger] after[i]).runs == before[i].runs,
        run_keys(after[index].runs@) == keys,
        keys.no_duplicates(),
    ensures
        well_formed(after),
        contents(after) == contents(before).insert(before[index].repo@, keys),
{
    assert(names(after) =~= names(before));
    assert forall|i: int| 0 <= i < after.len() implies (#[trigger] run_keys(after[i].runs@)).no_duplicates() by {
        if i != index {
            assert(after[i].runs == before[i].runs);
            assert(run_keys(before[i].runs@).no_duplicates());
        }
    }
    let wanted = contents(before).insert(before[index].repo@, keys);
    assert forall|repo: Seq<char>| #[trigger] wanted.dom().contains(repo) implies contents(after).dom().contains(repo)
        && contents(after)[repo] == wanted[repo] by {
        lemma_entry(before, index);
        if repo == before[index].repo@ {
            lemma_entry(after, index);
        } else {
            let i = names(before).index_of(repo);
            assert(names(before)[i] == repo);
            lemma_entry(before, i);
            lemma_entry(after, i);
            assert(after[i].runs == before[i].runs);
        }
    }
    assert(contents(after) =~= wanted);
}

proof fn lemma_appended(before: Seq<RepoRuns>, after: Seq<RepoRuns>, keys: Seq<RunKey>)
    requires
        well_formed(before),
        after.len() == before.len() + 1,
        forall|i: int| 0 <= i < before.len() ==> after[i] == before[i],
        !contents(before).dom().contains(after.last().repo@),
        run_keys(after.last().runs@) == keys,
        keys.no_duplicates(),
    ensures
        well_formed(after),
        contents(after) == contents(before).insert(after.last().repo@, keys),
{
    let repo = after.last().repo@;
    let last = before.len() as int;
    assert forall|i: int, j: int| 0 <= i < after.len() && 0 <= j < after.len() && i != j implies names(after)[i]
        != names(after)[j] by {
        if i < last && j < last {
            assert(names(before)[i] != names(before)[j]);
        } else if i < last {
            assert(names(before)[i] == before[i].repo@);
        } else {
            assert(names(before)[j] == before[j].repo@);
        }
    }
    assert forall|i: int| 0 <= i < after.len() implies (#[trigger] run_keys(after[i].runs@)).no_duplicates() by {
        if i < last {
            assert(run_keys(before[i].runs@).no_duplicates());
        }
    }
    let wanted = contents(before).insert(repo, keys);
    assert forall|other: Seq<char>| #[trigger] wanted.dom().contains(other) implies contents(after).dom().contains(other)
        && contents(after)[other] == wanted[other] by {
        if other == repo {
            lemma_entry(after, last);
        } else {
            let i = names(before).index_of(other);
            assert(names(before)[i] == other);
            lemma_entry(before, i);
            lemma_entry(after, i);
        }
    }
    assert forall|other: Seq<char>| #[trigger] contents(after).dom().contains(other) implies wanted.dom().contains(other) by {
        let i = names(after).index_of(other);
        assert(names(after)[i] == other);
        if i < last {
            lemma_entry(before, i);
        }
    }
    assert(contents(after) =~= wanted);
}

/// Removing the runs of a key leaves a list without duplicates as it was but
/// for that key, and shortens it exactly where the key was in it.
proof fn lemma_without(runs: Seq<RunKey>, run: RunKey)
    requires
        runs.no_duplicates(),
    ensures
        without(runs, run).no_duplicates(),
        without(runs, run).len() == runs.len() <==> !runs.contains(run),
    decreases runs.len(),
{
    reveal(Seq::filter);
    let keep = other_than(run);
    if runs.len() > 0 {
        let front = runs.drop_last();
        lemma_without(front, run);
        front.lemma_filter_len(keep);
        if keep(runs.last()) {
            assert(without(runs, run) == front.filter(keep).push(runs.last()));
            assert forall|i: int, j: int|
                0 <= i < without(runs, run).len() && 0 <= j < without(runs, run).len() && i != j implies without(
                runs,
                run,
            )[i] != without(runs, run)[j] by {
                let kept = front.filter(keep);
                if i < kept.len() && j < kept.len() {
                } else if i < kept.len() {
                    lemma_kept_is_member(front, run, i);
                } else {
                    lemma_kept_is_member(front, run, j);
                }
            }
            if runs.contains(run) {
                let at = choose|i: int| 0 <= i < runs.len() && runs[i] == run;
                assert(front[at] == run);
            }
            if front.contains(run) {
                let at = choose|i: int| 0 <= i < front.len() && front[i] == run;
                assert(runs[at] == run);
            }
        } else {
            assert(without(runs, run) == front.filter(keep));
            assert(runs[runs.len() - 1] == run);
            if front.contains(run) {
                let at = choose|i: int| 0 <= i < front.len() && front[i] == run;
                assert(runs[at] == runs[runs.len() - 1]);
            }
        }
    }
}

proof fn lemma_kept_is_member(runs: Seq<RunKey>, run: RunKey, i: int)
    requires
        0 <= i < without(runs, run).len(),
    ensures
        runs.contains(without(runs, run)[i]),
    decreases runs.len(),
{
    reveal(Seq::filter);
    let keep = other_than(run);
    if runs.len() > 0 {
        let front = runs.drop_last();
        if keep(runs.last()) && i == front.filter(keep).len() {
            assert(runs[runs.len() - 1] == without(runs, run)[i]);
        } else {
            lemma_kept_is_member(front, run, i);
            let at = choose|at: int| 0 <= at < front.len() && front[at] == without(front, run)[i];
            assert(runs[at] == without(runs, run)[i]);
        }
    }
}

fn holds_run(runs: &Vec<WorkflowRun>, workflow_id: u64, head_branch: &str) -> (held: bool)
    ensures
        held == run_keys(runs@).contains(RunKey { workflow_id, head_branch: head_branch@ }),
{
    let ghost key = RunKey { workflow_id, head_branch: head_branch@ };
    let mut index: usize = 0;
    while index < runs.len()
        invariant
            index <= runs.len(),
            key == (RunKey { workflow_id, head_branch: head_branch@ }),
            forall|i: int| 0 <= i < index ==> run_keys(runs@)[i] != key,
        decreases runs.len() - index,
    {
        if runs[index].workflow_id == workflow_id && same_text(runs[index].head_branch.as_str(), head_branch) {
            assert(run_keys(runs@)[index as int] == key);
            return true;
        }
        index = index + 1;
    }
    false
}

fn retained(runs: &Vec<WorkflowRun>, workflow_id: u64, head_branch: &str) -> (kept: Vec<WorkflowRun>)
    ensures
        run_keys(kept@) == without(run_keys(runs@), RunKey { workflow_id, head_branch: head_branch@ }),
{
    let ghost key = RunKey { workflow_id, head_branch: head_branch@ };
    let ghost keep = other_than(key);
    let mut kept: Vec<WorkflowRun> = Vec::new();
    let mut index: usize = 0;
    proof {
        reveal(Seq::filter);
        assert(run_keys(runs@).take(0).filter(keep) =~= run_keys(kept@));
    }
    while index < runs.len()
        invariant
            index <= runs.len(),
            key == (RunKey { workflow_id, head_branch: head_branch@ }),
            keep == other_than(key),
            run_keys(kept@) == run_keys(runs@).take(index as int).filter(keep),
        decreases runs.len() - index,
    {
        let ghost earlier = run_keys(kept@);
        let run = &runs[index];
        let matches = run.workflow_id == workflow_id && same_text(run.head_branch.as_str(), head_branch);
        if !matches {
            kept.push(WorkflowRun { workflow_id: run.workflow_id, head_branch: run.head_branch.clone() });
        }
        proof {
            reveal(Seq::filter);
            let next = run_keys(runs@).take(index + 1);
            assert(next.drop_last() =~= run_keys(runs@).take(index as int));
            assert(next.last() == runs@[index as int]@);
            assert(matches <==> !keep(next.last()));
            if !matches {
                assert(run_keys(kept@) =~= earlier.push(next.last()));
            }
        }
        index = index + 1;
    }
    assert(run_keys(runs@).take(runs.len() as int) =~= run_keys(runs@));
    kept
}

fn copied(runs: &Vec<WorkflowRun>) -> (copy: Vec<WorkflowRun>)
    ensures
        run_keys(copy@) == run_keys(runs@),
{
    let mut copy: Vec<WorkflowRun> = Vec::new();
    let mut index: usize = 0;
    while index < runs.len()
        invariant
            index <= runs.len(),
            copy.len() == index,
            forall|i: int| 0 <= i < index ==> copy@[i]@ == runs@[i]@,
        decreases runs.len() - index,
    {
        let run = &runs[index];
        copy.push(WorkflowRun { workflow_id: run.workflow_id, head_branch: run.head_branch.clone() });
        index = index + 1;
    }
    assert(run_keys(copy@) =~= run_keys(runs@));
    copy
}

} // verus!
