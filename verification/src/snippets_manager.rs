use vstd::prelude::*;
use crate::command::{CommandSpec, CommandView, opt_command_view};
use crate::models::{
    Snippet, SnippetContents, SnippetView, snippets_view, snippets_same, opt_view, strings_view,
    copy_opt_string, opt_string_same,
};
use crate::text::str_eq;

verus! {

/// The query output recorded per snippet id, as an association list.
pub open spec fn status_map(v: Seq<(String, Option<String>)>) -> Map<Seq<char>, Option<Seq<char>>>
    decreases v.len(),
{
    if v.len() == 0 {
        Map::empty()
    } else {
        status_map(v.drop_last()).insert(v.last().0@, opt_view(v.last().1))
    }
}

/// No id occurs twice in the association list.
pub open spec fn unique_ids(v: Seq<(String, Option<String>)>) -> bool {
    forall|i: int, j: int| 0 <= i < v.len() && 0 <= j < v.len() && i != j ==> v[i].0@ != v[j].0@
}

proof fn lemma_status_map(v: Seq<(String, Option<String>)>)
    requires
        unique_ids(v),
    ensures
        forall|k: Seq<char>| #[trigger] status_map(v).dom().contains(k) <==> exists|i: int| 0 <= i < v.len() && v[i].0@ == k,
        forall|i: int| 0 <= i < v.len() ==> #[trigger] status_map(v)[v[i].0@] == opt_view(v[i].1),
    decreases v.len(),
{
    if v.len() > 0 {
        let w = v.drop_last();
        assert(unique_ids(w));
        lemma_status_map(w);
        assert forall|k: Seq<char>| #[trigger] status_map(v).dom().contains(k) implies exists|i: int| 0 <= i < v.len() && v[i].0@ == k by {
            if k != v.last().0@ {
                let i = choose|i: int| 0 <= i < w.len() && w[i].0@ == k;
                assert(v[i] == w[i]);
            }
        }
        assert forall|k: Seq<char>| (exists|i: int| 0 <= i < v.len() && v[i].0@ == k) implies #[trigger] status_map(v).dom().contains(k) by {
            let i = choose|i: int| 0 <= i < v.len() && v[i].0@ == k;
            if i < v.len() - 1 {
                assert(w[i] == v[i]);
            }
        }
        assert forall|i: int| 0 <= i < v.len() implies #[trigger] status_map(v)[v[i].0@] == opt_view(v[i].1) by {
            if i < v.len() - 1 {
                assert(w[i] == v[i]);
                assert(v[i].0@ != v[v.len() - 1].0@);
            }
        }
    }
}

/// The ids of a list of snippets.
pub open spec fn id_set(snippets: Seq<SnippetContents>) -> Set<Seq<char>> {
    Set::new(|k: Seq<char>| exists|i: int| 0 <= i < snippets.len() && #[trigger] snippets[i].id == k)
}

/// The recorded query outputs after recording `results[i]` for each snippet `i` in turn.
pub open spec fn record_all(
    m: Map<Seq<char>, Option<Seq<char>>>,
    snippets: Seq<SnippetContents>,
    results: Seq<Option<Seq<char>>>,
) -> Map<Seq<char>, Option<Seq<char>>>
    decreases snippets.len(),
{
    if snippets.len() == 0 || results.len() == 0 {
        m
    } else {
        record_all(m, snippets.drop_last(), results.drop_last()).insert(
            snippets.last().id,
            results.last(),
        )
    }
}

/// The characters of each optional output of a list.
pub open spec fn outputs_view(v: Seq<Option<String>>) -> Seq<Option<Seq<char>>> {
    v.map_values(|o: Option<String>| opt_view(o))
}

/// The snippet catalogue and the latest output of each snippet's query.
pub struct SnippetsManager {
    snippets: Vec<Snippet>,
    snippets_status: Vec<(String, Option<String>)>,
}

/// The first snippet of `snippets` whose id is `id`, at position `i`.
pub open spec fn first_snippet_with_id(snippets: Seq<SnippetContents>, id: Seq<char>, i: int) -> bool {
    &&& 0 <= i < snippets.len()
    &&& snippets[i].id == id
    &&& forall|j: int| 0 <= j < i ==> #[trigger] snippets[j].id != id
}

/// The command a snippet's query runs, if it has one.
pub open spec fn spec_query_command(s: SnippetContents) -> Option<CommandView> {
    match s.query_vars {
        Some(qv) => match qv.cmd {
            Some(cmd) => Some(
                CommandView {
                    program: cmd,
                    args: match qv.args {
                        Some(a) => a,
                        None => Seq::empty(),
                    },
                },
            ),
            None => None,
        },
        None => None,
    }
}

/// The command run when `button` is pressed on the snippet: that of the first executor
/// bound to `button`, if it has a command.
pub open spec fn spec_button_command(s: SnippetContents, button: Seq<char>, i: int) -> bool {
    &&& 0 <= i < s.executor.len()
    &&& s.executor[i].action_button == button
    &&& forall|j: int| 0 <= j < i ==> #[trigger] s.executor[j].action_button != button
}

/// The command that running a snippet's query executes (nothing when it has no query
/// command; its output then counts as absent).
pub fn run_snippset_query(snippet: &Snippet) -> (r: Option<CommandSpec>)
    ensures
        opt_command_view(r) == spec_query_command(snippet@),
{
    match &snippet.query_vars {
        Some(qv) => match &qv.cmd {
            Some(cmd) => Some(CommandSpec::with_opt_args(cmd, &qv.args)),
            None => None,
        },
        None => None,
    }
}

/// The command that pressing `button` on the snippet executes: that of the first
/// executor bound to `button`, when that executor has a command.
pub fn run_snippset_all(snippet: &Snippet, button: &str) -> (r: Option<CommandSpec>)
    ensures
        (forall|j: int| 0 <= j < snippet@.executor.len() ==> #[trigger] snippet@.executor[j].action_button != button@)
            ==> r is None,
        forall|i: int| spec_button_command(snippet@, button@, i) ==> opt_command_view(r) == match snippet@.executor[i].cmd {
            Some(cmd) => Some(CommandView {
                program: cmd,
                args: match snippet@.executor[i].args { Some(a) => a, None => Seq::empty() },
            }),
            None => None::<CommandView>,
        },
{
    let mut i: usize = 0;
    while i < snippet.executor.len()
        invariant
            i <= snippet.executor.len(),
            forall|j: int| 0 <= j < i ==> #[trigger] snippet@.executor[j].action_button != button@,
        decreases snippet.executor.len() - i,
    {
        let e = &snippet.executor[i];
        if str_eq(e.action_button.as_str(), button) {
            assert(spec_button_command(snippet@, button@, i as int));
            assert forall|k: int| spec_button_command(snippet@, button@, k) implies k == i by {
                if k < i {
                    assert(snippet@.executor[k].action_button != button@);
                } else if k > i {
                    assert(snippet@.executor[i as int].action_button != button@);
                }
            }
            return match &e.cmd {
                Some(cmd) => Some(CommandSpec::with_opt_args(cmd, &e.args)),
                None => None,
            };
        }
        i = i + 1;
    }
    None
}

impl SnippetsManager {
    /// The snippets, in catalogue order.
    pub closed spec fn snippets(&self) -> Seq<SnippetContents> {
        snippets_view(self.snippets@)
    }

    /// The latest query output recorded per snippet id.
    pub closed spec fn status(&self) -> Map<Seq<char>, Option<Seq<char>>> {
        status_map(self.snippets_status@)
    }

    /// An output is recorded for exactly the ids of the snippets.
    pub closed spec fn wf(&self) -> bool {
        &&& unique_ids(self.snippets_status@)
        &&& forall|k: Seq<char>| #[trigger] self.status().dom().contains(k) <==> id_set(self.snippets()).contains(k)
    }

    /// In a well-formed manager every snippet id has a recorded output (possibly
    /// `None`), and nothing else has one.
    pub proof fn lemma_every_snippet_has_an_output(&self)
        requires
            self.wf(),
        ensures
            forall|k: Seq<char>| #[trigger] self.status().dom().contains(k) <==> id_set(self.snippets()).contains(k),
            forall|i: int| 0 <= i < self.snippets().len() ==> #[trigger] self.status().dom().contains(self.snippets()[i].id),
    {
        assert forall|i: int| 0 <= i < self.snippets().len() implies #[trigger] self.status().dom().contains(self.snippets()[i].id) by {
            assert(id_set(self.snippets()).contains(self.snippets()[i].id));
        }
    }

    /// An empty catalogue.
    pub fn new() -> (r: SnippetsManager)
        ensures
            r.wf(),
            r.snippets() == Seq::<SnippetContents>::empty(),
            r.status() == Map::<Seq<char>, Option<Seq<char>>>::empty(),
    {
        let r = SnippetsManager { snippets: Vec::new(), snippets_status: Vec::new() };
        assert(r.snippets() =~= Seq::<SnippetContents>::empty());
        r
    }

    /// Position of `id` in the association list.
    fn status_index(&self, id: &String) -> (r: Option<usize>)
        requires
            unique_ids(self.snippets_status@),
        ensures
            r matches Some(i) ==> i < self.snippets_status@.len() && self.snippets_status@[i as int].0@ == id@,
            r is None ==> forall|i: int| 0 <= i < self.snippets_status@.len() ==> #[trigger] self.snippets_status@[i].0@ != id@,
    {
        let mut i: usize = 0;
        while i < self.snippets_status.len()
            invariant
                i <= self.snippets_status@.len(),
                forall|j: int| 0 <= j < i ==> #[trigger] self.snippets_status@[j].0@ != id@,
            decreases self.snippets_status@.len() - i,
        {
            if str_eq(self.snippets_status[i].0.as_str(), id.as_str()) {
                return Some(i);
            }
            i = i + 1;
        }
        None
    }

    /// Records `res` as the output for `id`.
    fn record(&mut self, id: &String, res: Option<String>)
        requires
            unique_ids(old(self).snippets_status@),
        ensures
            unique_ids(final(self).snippets_status@),
            final(self).status() == old(self).status().insert(id@, opt_view(res)),
            final(self).snippets == old(self).snippets,
    {
        proof {
            lemma_status_map(self.snippets_status@);
        }
        match self.status_index(id) {
            Some(i) => {
                let ghost old_v = self.snippets_status@;
                self.snippets_status.set(i, (id.clone(), res));
                proof {
                    let v = self.snippets_status@;
                    assert(unique_ids(v)) by {
                        assert forall|a: int, b: int| 0 <= a < v.len() && 0 <= b < v.len() && a != b implies v[a].0@ != v[b].0@ by {
                            if a != i && b != i {
                                assert(v[a] == old_v[a] && v[b] == old_v[b]);
                            } else if a == i {
                                assert(v[b] == old_v[b]);
                            } else {
                                assert(v[a] == old_v[a]);
                            }
                        }
                    }
                    lemma_status_map(v);
                    assert(status_map(v) =~= status_map(old_v).insert(id@, opt_view(res))) by {
                        assert forall|k: Seq<char>| #[trigger] status_map(v).dom().contains(k) <==> status_map(old_v).insert(id@, opt_view(res)).dom().contains(k) by {
                            if status_map(v).dom().contains(k) {
                                let a = choose|a: int| 0 <= a < v.len() && v[a].0@ == k;
                                if a != i {
                                    assert(v[a] == old_v[a]);
                                }
                            }
                            if status_map(old_v).dom().contains(k) {
                                let a = choose|a: int| 0 <= a < old_v.len() && old_v[a].0@ == k;
                                if a != i {
                                    assert(v[a] == old_v[a]);
                                }
                            }
                        }
                        assert forall|k: Seq<char>| #[trigger] status_map(v).dom().contains(k) implies status_map(v)[k] == status_map(old_v).insert(id@, opt_view(res))[k] by {
                            let a = choose|a: int| 0 <= a < v.len() && v[a].0@ == k;
                            if a != i {
                                assert(v[a] == old_v[a]);
                            }
                        }
                    }
                }
            },
            None => {
                let ghost old_v = self.snippets_status@;
                self.snippets_status.push((id.clone(), res));
                proof {
                    let v = self.snippets_status@;
                    assert(v.drop_last() =~= old_v);
                    assert(unique_ids(v)) by {
                        assert forall|a: int, b: int| 0 <= a < v.len() && 0 <= b < v.len() && a != b implies v[a].0@ != v[b].0@ by {
                            if a < old_v.len() && b < old_v.len() {
                                assert(v[a] == old_v[a] && v[b] == old_v[b]);
                            } else if a < old_v.len() {
                                assert(v[a] == old_v[a]);
                            } else {
                                assert(v[b] == old_v[b]);
                            }
                        }
                    }
                }
            },
        }
    }

    /// The recorded output for `id`, if one is recorded.
    fn lookup(&self, id: &String) -> (r: Option<Option<String>>)
        requires
            unique_ids(self.snippets_status@),
        ensures
            r is None <==> !self.status().dom().contains(id@),
            r matches Some(o) ==> opt_view(o) == self.status()[id@],
    {
        proof {
            lemma_status_map(self.snippets_status@);
        }
        match self.status_index(id) {
            Some(i) => Some(copy_opt_string(&self.snippets_status[i].1)),
            None => None,
        }
    }

    /// Records `res` as the query output of the snippet `snippet`; tells whether the
    /// recorded output changed (a snippet without a recorded output counts as changed).
    fn run_snippet_query(&mut self, snippet: &Snippet, res: Option<String>) -> (changed: bool)
        requires
            old(self).wf(),
            id_set(old(self).snippets()).contains(snippet.id@),
        ensures
            final(self).wf(),
            final(self).snippets() == old(self).snippets(),
            final(self).status() == old(self).status().insert(snippet.id@, opt_view(res)),
            changed == (!old(self).status().dom().contains(snippet.id@)
                || old(self).status()[snippet.id@] != opt_view(res)),
    {
        let changed = match self.lookup(&snippet.id) {
            Some(old) => !opt_string_same(&old, &res),
            None => true,
        };
        self.record(&snippet.id, res);
        proof {
            assert forall|k: Seq<char>| #[trigger] self.status().dom().contains(k) <==> id_set(self.snippets()).contains(k) by {
                assert(old(self).status().dom().contains(k) <==> id_set(old(self).snippets()).contains(k));
            }
        }
        changed
    }

    /// The first snippet whose id is `id`.
    pub fn find_snippet(&self, id: &str) -> (r: Option<&Snippet>)
        ensures
            r is None ==> forall|j: int| 0 <= j < self.snippets().len() ==> #[trigger] self.snippets()[j].id != id@,
            r matches Some(s) ==> exists|i: int| first_snippet_with_id(self.snippets(), id@, i) && s@ == self.snippets()[i],
    {
        let mut i: usize = 0;
        while i < self.snippets.len()
            invariant
                i <= self.snippets.len(),
                forall|j: int| 0 <= j < i ==> #[trigger] self.snippets@[j].id@ != id@,
            decreases self.snippets.len() - i,
        {
            if str_eq(self.snippets[i].id.as_str(), id) {
                assert(first_snippet_with_id(self.snippets(), id@, i as int));
                return Some(&self.snippets[i]);
            }
            i = i + 1;
        }
        assert forall|j: int| 0 <= j < self.snippets().len() implies #[trigger] self.snippets()[j].id != id@ by {
            assert(self.snippets()[j].id == self.snippets@[j].id@);
        }
        None
    }

    /// Records `res` as the query output of the first snippet whose id is `id`; tells
    /// whether its recorded output changed. Without such a snippet nothing changes.
    pub fn run_snippet_query_id(&mut self, id: String, res: Option<String>) -> (changed: bool)
        requires
            old(self).wf(),
        ensures
            final(self).wf(),
            final(self).snippets() == old(self).snippets(),
            !id_set(old(self).snippets()).contains(id@) ==> !changed && final(self).status() == old(self).status(),
            id_set(old(self).snippets()).contains(id@) ==> {
                &&& final(self).status() == old(self).status().insert(id@, opt_view(res))
                &&& changed == (old(self).status()[id@] != opt_view(res))
            },
    {
        let snippet = match self.find_snippet(id.as_str()) {
            Some(s) => s.duplicate(),
            None => {
                proof {
                    assert forall|i: int| 0 <= i < self.snippets().len() implies #[trigger] self.snippets()[i].id != id@ by {}
                }
                return false;
            },
        };
        proof {
            assert(id_set(self.snippets()).contains(id@));
        }
        self.run_snippet_query(&snippet, res)
    }

    /// Records the query outputs of all snippets, `results[i]` for the `i`-th snippet.
    pub fn run_all_query_vars(&mut self, results: Vec<Option<String>>)
        requires
            old(self).wf(),
            results@.len() == old(self).snippets().len(),
        ensures
            final(self).wf(),
            final(self).snippets() == old(self).snippets(),
            final(self).status() == record_all(old(self).status(), old(self).snippets(), outputs_view(results@)),
    {
        let ghost s0 = self.status();
        let ghost snips = self.snippets();
        let ghost outs = outputs_view(results@);
        let mut i: usize = 0;
        while i < self.snippets.len()
            invariant
                self.wf(),
                self.snippets() == snips,
                snips.len() == results@.len(),
                outs == outputs_view(results@),
                i <= self.snippets@.len(),
                self.status() == record_all(s0, snips.take(i as int), outs.take(i as int)),
            decreases self.snippets@.len() - i,
        {
            let id = self.snippets[i].id.clone();
            let res = copy_opt_string(&results[i]);
            proof {
                assert(snips[i as int].id == id@);
                assert(id_set(snips).contains(id@));
            }
            self.record(&id, res);
            proof {
                assert(snips.take(i + 1).drop_last() =~= snips.take(i as int));
                assert(outs.take(i + 1).drop_last() =~= outs.take(i as int));
                assert forall|k: Seq<char>| #[trigger] self.status().dom().contains(k) <==> id_set(self.snippets()).contains(k) by {
                }
            }
            i = i + 1;
        }
        proof {
            assert(snips.take(i as int) =~= snips);
            assert(outs.take(i as int) =~= outs);
        }
    }

    /// Replaces the catalogue by freshly loaded snippets and records their query outputs
    /// (`results[i]` for the `i`-th new snippet); tells whether the catalogue changed.
    pub fn reload_config(&mut self, new_snippets: Vec<Snippet>, results: Vec<Option<String>>) -> (changed: bool)
        requires
            old(self).wf(),
            results@.len() == new_snippets@.len(),
        ensures
            final(self).wf(),
            final(self).snippets() == snippets_view(new_snippets@),
            final(self).status() == record_all(Map::empty(), snippets_view(new_snippets@), outputs_view(results@)),
            changed == (snippets_view(new_snippets@) != old(self).snippets()),
    {
        let changed = !snippets_same(&new_snippets, &self.snippets);
        let ghost ns = snippets_view(new_snippets@);
        self.snippets = new_snippets;
        self.snippets_status = Vec::new();
        proof {
            assert(self.status() == Map::<Seq<char>, Option<Seq<char>>>::empty());
            assert(self.snippets() == ns);
        }
        let mut i: usize = 0;
        let ghost outs = outputs_view(results@);
        while i < self.snippets.len()
            invariant
                unique_ids(self.snippets_status@),
                self.snippets() == ns,
                ns.len() == results@.len(),
                outs == outputs_view(results@),
                i <= self.snippets@.len(),
                self.status() == record_all(Map::empty(), ns.take(i as int), outs.take(i as int)),
                forall|k: Seq<char>| #[trigger] self.status().dom().contains(k) <==> id_set(ns.take(i as int)).contains(k),
            decreases self.snippets@.len() - i,
        {
            let id = self.snippets[i].id.clone();
            let res = copy_opt_string(&results[i]);
            self.record(&id, res);
            proof {
                assert(ns.take(i + 1).drop_last() =~= ns.take(i as int));
                assert(outs.take(i + 1).drop_last() =~= outs.take(i as int));
                assert forall|k: Seq<char>| #[trigger] self.status().dom().contains(k) <==> id_set(ns.take(i + 1)).contains(k) by {
                    if id_set(ns.take(i + 1)).contains(k) {
                        let j = choose|j: int| 0 <= j < ns.take(i + 1).len() && #[trigger] ns.take(i + 1)[j].id == k;
                        if j < i {
                            assert(ns.take(i as int)[j] == ns[j]);
                            assert(id_set(ns.take(i as int)).contains(k));
                        }
                    }
                    if id_set(ns.take(i as int)).contains(k) {
                        let j = choose|j: int| 0 <= j < ns.take(i as int).len() && #[trigger] ns.take(i as int)[j].id == k;
                        assert(ns.take(i + 1)[j] == ns[j]);
                    }
                    assert(ns.take(i + 1)[i as int].id == id@);
                }
            }
            i = i + 1;
        }
        proof {
            assert(ns.take(i as int) =~= ns);
            assert(outs.take(i as int) =~= outs);
        }
        changed
    }

    /// What the interface shows: each snippet with its recorded query output.
    pub fn get_snippet_views(&self) -> (r: Vec<SnippetView>)
        requires
            self.wf(),
        ensures
            r@.len() == self.snippets().len(),
            forall|i: int| 0 <= i < r@.len() ==> {
                &&& #[trigger] r@[i].snippet@ == self.snippets()[i]
                &&& opt_view(r@[i].query) == self.status()[self.snippets()[i].id]
            },
    {
        let mut r: Vec<SnippetView> = Vec::new();
        let mut i: usize = 0;
        while i < self.snippets.len()
            invariant
                self.wf(),
                i <= self.snippets@.len(),
                r@.len() == i,
                forall|j: int| 0 <= j < i ==> {
                    &&& #[trigger] r@[j].snippet@ == self.snippets()[j]
                    &&& opt_view(r@[j].query) == self.status()[self.snippets()[j].id]
                },
            decreases self.snippets@.len() - i,
        {
            let s = &self.snippets[i];
            proof {
                assert(self.snippets()[i as int].id == s.id@);
                assert(id_set(self.snippets()).contains(s.id@));
            }
            let query = match self.lookup(&s.id) {
                Some(o) => o,
                None => None,
            };
            r.push(SnippetView { snippet: s.duplicate(), query });
            i = i + 1;
        }
        r
    }

    /// The snippets whose query repeats, with the period in seconds, in catalogue order.
    pub fn query_jobs(&self) -> (r: Vec<(String, u64)>)
        ensures
            jobs_view(r@) == spec_query_jobs(self.snippets()),
    {
        let mut r: Vec<(String, u64)> = Vec::new();
        let mut i: usize = 0;
        while i < self.snippets.len()
            invariant
                i <= self.snippets@.len(),
                jobs_view(r@) == spec_query_jobs(self.snippets().take(i as int)),
            decreases self.snippets@.len() - i,
        {
            let s = &self.snippets[i];
            proof {
                assert(self.snippets().take(i + 1).drop_last() =~= self.snippets().take(i as int));
                assert(self.snippets().take(i + 1).last() == s@);
            }
            match &s.query_vars {
                Some(qv) => match qv.time {
                    Some(t) => {
                        let ghost before = r@;
                        r.push((s.id.clone(), t));
                        proof {
                            assert(jobs_view(r@) =~= jobs_view(before).push((s.id@, t)));
                        }
                    },
                    None => {},
                },
                None => {},
            }
            i = i + 1;
        }
        proof {
            assert(self.snippets().take(i as int) =~= self.snippets());
        }
        r
    }
}

/// The (id, period) pairs of a list of jobs.
pub open spec fn jobs_view(v: Seq<(String, u64)>) -> Seq<(Seq<char>, u64)> {
    v.map_values(|j: (String, u64)| (j.0@, j.1))
}

/// The snippets whose query has a period, with that period, in order.
pub open spec fn spec_query_jobs(s: Seq<SnippetContents>) -> Seq<(Seq<char>, u64)>
    decreases s.len(),
{
    if s.len() == 0 {
        Seq::empty()
    } else {
        let rest = spec_query_jobs(s.drop_last());
        match s.last().query_vars {
            Some(qv) => match qv.time {
                Some(t) => rest.push((s.last().id, t)),
                None => rest,
            },
            None => rest,
        }
    }
}


/// After the outputs of a list of snippets are recorded into an empty table, the table
/// holds an output for exactly the ids of those snippets, and a snippet whose id occurs
/// once has its own output.
pub proof fn law_reload_records_every_snippet(snippets: Seq<SnippetContents>, results: Seq<Option<Seq<char>>>)
    requires
        results.len() == snippets.len(),
    ensures
        forall|k: Seq<char>| #[trigger] record_all(Map::empty(), snippets, results).dom().contains(k)
            <==> id_set(snippets).contains(k),
        forall|i: int| 0 <= i < snippets.len() && (forall|j: int| 0 <= j < snippets.len() && j != i ==> snippets[j].id != snippets[i].id)
            ==> #[trigger] record_all(Map::empty(), snippets, results)[snippets[i].id] == results[i],
    decreases snippets.len(),
{
    if snippets.len() > 0 {
        let s0 = snippets.drop_last();
        let r0 = results.drop_last();
        law_reload_records_every_snippet(s0, r0);
        let m = record_all(Map::empty(), snippets, results);
        assert(m == record_all(Map::empty(), s0, r0).insert(snippets.last().id, results.last()));
        assert forall|k: Seq<char>| #[trigger] m.dom().contains(k) <==> id_set(snippets).contains(k) by {
            if id_set(snippets).contains(k) && k != snippets.last().id {
                let j = choose|j: int| 0 <= j < snippets.len() && #[trigger] snippets[j].id == k;
                assert(s0[j] == snippets[j]);
                assert(id_set(s0).contains(k));
            }
            if id_set(s0).contains(k) {
                let j = choose|j: int| 0 <= j < s0.len() && #[trigger] s0[j].id == k;
                assert(snippets[j] == s0[j]);
            }
            if k == snippets.last().id {
                assert(snippets[snippets.len() - 1].id == k);
            }
        }
        assert forall|i: int| 0 <= i < snippets.len() && (forall|j: int| 0 <= j < snippets.len() && j != i ==> snippets[j].id != snippets[i].id)
            implies #[trigger] m[snippets[i].id] == results[i] by {
            if i < snippets.len() - 1 {
                assert(s0[i] == snippets[i]);
                assert(r0[i] == results[i]);
                assert forall|j: int| 0 <= j < s0.len() && j != i implies s0[j].id != s0[i].id by {
                    assert(s0[j] == snippets[j]);
                }
                assert(snippets[snippets.len() - 1].id != snippets[i].id);
            }
        }
    }
}

} // verus!
