use vstd::prelude::*;
use crate::text::str_eq;

verus! {

/// The characters of each string of `v`.
pub open spec fn strings_view(v: Seq<String>) -> Seq<Seq<char>> {
    v.map_values(|s: String| s@)
}

/// The characters of an optional string.
pub open spec fn opt_view(o: Option<String>) -> Option<Seq<char>> {
    match o {
        Some(s) => Some(s@),
        None => None,
    }
}

/// The characters of each string of an optional list.
pub open spec fn opt_strings_view(o: Option<Vec<String>>) -> Option<Seq<Seq<char>>> {
    match o {
        Some(v) => Some(strings_view(v@)),
        None => None,
    }
}

/// Whether two strings hold the same characters.
pub fn string_same(a: &String, b: &String) -> (r: bool)
    ensures
        r == (a@ == b@),
{
    str_eq(a.as_str(), b.as_str())
}

/// Whether two optional strings are both absent or hold the same characters.
pub fn opt_string_same(a: &Option<String>, b: &Option<String>) -> (r: bool)
    ensures
        r == (opt_view(*a) == opt_view(*b)),
{
    match (a, b) {
        (Some(x), Some(y)) => string_same(x, y),
        (None, None) => true,
        _ => false,
    }
}

/// Whether two lists of strings agree element by element.
pub fn strings_same(a: &Vec<String>, b: &Vec<String>) -> (r: bool)
    ensures
        r == (strings_view(a@) == strings_view(b@)),
{
    if a.len() != b.len() {
        assert(strings_view(a@).len() != strings_view(b@).len());
        return false;
    }
    let mut i: usize = 0;
    while i < a.len()
        invariant
            a.len() == b.len(),
            i <= a.len(),
            forall|j: int| 0 <= j < i ==> a@[j]@ == b@[j]@,
        decreases a.len() - i,
    {
        if !string_same(&a[i], &b[i]) {
            assert(strings_view(a@)[i as int] != strings_view(b@)[i as int]);
            return false;
        }
        i = i + 1;
    }
    assert(strings_view(a@) =~= strings_view(b@));
    true
}

/// Whether two optional flags are equal.
pub fn opt_bool_same(a: Option<bool>, b: Option<bool>) -> (r: bool)
    ensures
        r == (a == b),
{
    match (a, b) {
        (Some(x), Some(y)) => x == y,
        (None, None) => true,
        _ => false,
    }
}

/// Whether two optional lists of strings are both absent or agree.
pub fn opt_strings_same(a: &Option<Vec<String>>, b: &Option<Vec<String>>) -> (r: bool)
    ensures
        r == (opt_strings_view(*a) == opt_strings_view(*b)),
{
    match (a, b) {
        (Some(x), Some(y)) => strings_same(x, y),
        (None, None) => true,
        _ => false,
    }
}

/// A copy of a list of strings.
pub fn copy_strings(v: &Vec<String>) -> (r: Vec<String>)
    ensures
        strings_view(r@) == strings_view(v@),
{
    let mut r: Vec<String> = Vec::new();
    let mut i: usize = 0;
    while i < v.len()
        invariant
            i <= v.len(),
            r@.len() == i,
            forall|j: int| 0 <= j < i ==> r@[j]@ == v@[j]@,
        decreases v.len() - i,
    {
        r.push(v[i].clone());
        i = i + 1;
    }
    assert(strings_view(r@) =~= strings_view(v@));
    r
}

/// A copy of an optional string.
pub fn copy_opt_string(o: &Option<String>) -> (r: Option<String>)
    ensures
        opt_view(r) == opt_view(*o),
{
    match o {
        Some(s) => Some(s.clone()),
        None => None,
    }
}

/// A copy of an optional list of strings.
pub fn copy_opt_strings(o: &Option<Vec<String>>) -> (r: Option<Vec<String>>)
    ensures
        opt_strings_view(r) == opt_strings_view(*o),
{
    match o {
        Some(v) => Some(copy_strings(v)),
        None => None,
    }
}

/// An application that the launcher lists and starts.
#[derive(Debug, Clone)]
pub struct AppEntry {
    pub id: String,
    pub name: String,
    pub cmd: Vec<String>,
    pub wm_class: Option<String>,
    pub icon: Option<String>,
    pub bspwm_desktop: Option<String>,
}

/// The contents of an `AppEntry`.
pub struct AppEntryView {
    pub id: Seq<char>,
    pub name: Seq<char>,
    pub cmd: Seq<Seq<char>>,
    pub wm_class: Option<Seq<char>>,
    pub icon: Option<Seq<char>>,
    pub bspwm_desktop: Option<Seq<char>>,
}

impl View for AppEntry {
    type V = AppEntryView;

    open spec fn view(&self) -> AppEntryView {
        AppEntryView {
            id: self.id@,
            name: self.name@,
            cmd: strings_view(self.cmd@),
            wm_class: opt_view(self.wm_class),
            icon: opt_view(self.icon),
            bspwm_desktop: opt_view(self.bspwm_desktop),
        }
    }
}

/// The contents of each entry of a list of applications.
pub open spec fn apps_view(v: Seq<AppEntry>) -> Seq<AppEntryView> {
    v.map_values(|a: AppEntry| a@)
}

impl AppEntry {
    /// Whether `self` and `other` hold the same values.
    pub fn same_as(&self, other: &AppEntry) -> (r: bool)
        ensures
            r == (self@ == other@),
    {
        string_same(&self.id, &other.id) && string_same(&self.name, &other.name) && strings_same(
            &self.cmd,
            &other.cmd,
        ) && opt_string_same(&self.wm_class, &other.wm_class) && opt_string_same(
            &self.icon,
            &other.icon,
        ) && opt_string_same(&self.bspwm_desktop, &other.bspwm_desktop)
    }

    /// A copy of `self`.
    pub fn duplicate(&self) -> (r: AppEntry)
        ensures
            r@ == self@,
    {
        AppEntry {
            id: self.id.clone(),
            name: self.name.clone(),
            cmd: copy_strings(&self.cmd),
            wm_class: copy_opt_string(&self.wm_class),
            icon: copy_opt_string(&self.icon),
            bspwm_desktop: copy_opt_string(&self.bspwm_desktop),
        }
    }
}

/// Whether two lists of applications agree entry by entry.
pub fn apps_same(a: &Vec<AppEntry>, b: &Vec<AppEntry>) -> (r: bool)
    ensures
        r == (apps_view(a@) == apps_view(b@)),
{
    if a.len() != b.len() {
        assert(apps_view(a@).len() != apps_view(b@).len());
        return false;
    }
    let mut i: usize = 0;
    while i < a.len()
        invariant
            a.len() == b.len(),
            i <= a.len(),
            forall|j: int| 0 <= j < i ==> a@[j]@ == b@[j]@,
        decreases a.len() - i,
    {
        if !a[i].same_as(&b[i]) {
            assert(apps_view(a@)[i as int] != apps_view(b@)[i as int]);
            return false;
        }
        i = i + 1;
    }
    assert(apps_view(a@) =~= apps_view(b@));
    true
}

/// What the interface shows of an application.
#[derive(Debug, Clone)]
pub struct AppView {
    pub app: AppEntry,
}

/// One button action of a snippet: the command run when `action_button` is pressed.
#[derive(Debug, Clone)]
pub struct Executor {
    pub action_button: String,
    pub cmd: Option<String>,
    pub args: Option<Vec<String>>,
}

/// The contents of an `Executor`.
pub struct ExecutorView {
    pub action_button: Seq<char>,
    pub cmd: Option<Seq<char>>,
    pub args: Option<Seq<Seq<char>>>,
}

impl View for Executor {
    type V = ExecutorView;

    open spec fn view(&self) -> ExecutorView {
        ExecutorView {
            action_button: self.action_button@,
            cmd: opt_view(self.cmd),
            args: opt_strings_view(self.args),
        }
    }
}

/// The query a snippet runs to show its current state, and how often (seconds).
#[derive(Debug, Clone)]
pub struct QueryVars {
    pub cmd: Option<String>,
    pub args: Option<Vec<String>>,
    pub time: Option<u64>,
}

/// The contents of a `QueryVars`.
pub struct QueryVarsView {
    pub cmd: Option<Seq<char>>,
    pub args: Option<Seq<Seq<char>>>,
    pub time: Option<u64>,
}

impl View for QueryVars {
    type V = QueryVarsView;

    open spec fn view(&self) -> QueryVarsView {
        QueryVarsView { cmd: opt_view(self.cmd), args: opt_strings_view(self.args), time: self.time }
    }
}

/// A snippet: a tile with button actions and an optional state query.
#[derive(Debug, Clone)]
pub struct Snippet {
    pub id: String,
    pub name: String,
    pub confirmation: Option<bool>,
    pub icon: String,
    pub executor: Vec<Executor>,
    pub query_vars: Option<QueryVars>,
}

/// The contents of a `Snippet`.
pub struct SnippetContents {
    pub id: Seq<char>,
    pub name: Seq<char>,
    pub confirmation: Option<bool>,
    pub icon: Seq<char>,
    pub executor: Seq<ExecutorView>,
    pub query_vars: Option<QueryVarsView>,
}

impl View for Snippet {
    type V = SnippetContents;

    open spec fn view(&self) -> SnippetContents {
        SnippetContents {
            id: self.id@,
            name: self.name@,
            confirmation: self.confirmation,
            icon: self.icon@,
            executor: self.executor@.map_values(|e: Executor| e@),
            query_vars: match self.query_vars {
                Some(q) => Some(q@),
                None => None,
            },
        }
    }
}

/// The contents of each snippet of a list.
pub open spec fn snippets_view(v: Seq<Snippet>) -> Seq<SnippetContents> {
    v.map_values(|s: Snippet| s@)
}

impl Executor {
    /// Whether `self` and `other` hold the same values.
    pub fn same_as(&self, other: &Executor) -> (r: bool)
        ensures
            r == (self@ == other@),
    {
        string_same(&self.action_button, &other.action_button) && opt_string_same(
            &self.cmd,
            &other.cmd,
        ) && opt_strings_same(&self.args, &other.args)
    }

    /// A copy of `self`.
    pub fn duplicate(&self) -> (r: Executor)
        ensures
            r@ == self@,
    {
        Executor {
            action_button: self.action_button.clone(),
            cmd: copy_opt_string(&self.cmd),
            args: copy_opt_strings(&self.args),
        }
    }
}

impl QueryVars {
    /// Whether `self` and `other` hold the same values.
    pub fn same_as(&self, other: &QueryVars) -> (r: bool)
        ensures
            r == (self@ == other@),
    {
        opt_string_same(&self.cmd, &other.cmd) && opt_strings_same(&self.args, &other.args)
            && self.time == other.time
    }

    /// A copy of `self`.
    pub fn duplicate(&self) -> (r: QueryVars)
        ensures
            r@ == self@,
    {
        QueryVars {
            cmd: copy_opt_string(&self.cmd),
            args: copy_opt_strings(&self.args),
            time: self.time,
        }
    }
}

impl Snippet {
    /// Whether `self` and `other` hold the same values.
    pub fn same_as(&self, other: &Snippet) -> (r: bool)
        ensures
            r == (self@ == other@),
    {
        if !(string_same(&self.id, &other.id) && string_same(&self.name, &other.name)
            && opt_bool_same(self.confirmation, other.confirmation) && string_same(&self.icon, &other.icon)) {
            return false;
        }
        let q = match (&self.query_vars, &other.query_vars) {
            (Some(x), Some(y)) => x.same_as(y),
            (None, None) => true,
            _ => false,
        };
        if !q {
            return false;
        }
        let a = &self.executor;
        let b = &other.executor;
        if a.len() != b.len() {
            assert(self@.executor.len() != other@.executor.len());
            return false;
        }
        let mut i: usize = 0;
        while i < a.len()
            invariant
                a.len() == b.len(),
                i <= a.len(),
                a@ == self.executor@,
                b@ == other.executor@,
                forall|j: int| 0 <= j < i ==> a@[j]@ == b@[j]@,
            decreases a.len() - i,
        {
            if !a[i].same_as(&b[i]) {
                assert(self@.executor[i as int] != other@.executor[i as int]);
                return false;
            }
            i = i + 1;
        }
        assert(self@.executor =~= other@.executor);
        true
    }

    /// A copy of `self`.
    pub fn duplicate(&self) -> (r: Snippet)
        ensures
            r@ == self@,
    {
        let mut ex: Vec<Executor> = Vec::new();
        let mut i: usize = 0;
        while i < self.executor.len()
            invariant
                i <= self.executor.len(),
                ex@.len() == i,
                forall|j: int| 0 <= j < i ==> ex@[j]@ == self.executor@[j]@,
            decreases self.executor.len() - i,
        {
            ex.push(self.executor[i].duplicate());
            i = i + 1;
        }
        assert(ex@.map_values(|e: Executor| e@) =~= self.executor@.map_values(|e: Executor| e@));
        Snippet {
            id: self.id.clone(),
            name: self.name.clone(),
            confirmation: self.confirmation,
            icon: self.icon.clone(),
            executor: ex,
            query_vars: match &self.query_vars {
                Some(q) => Some(q.duplicate()),
                None => None,
            },
        }
    }
}

/// Whether two lists of snippets agree entry by entry.
pub fn snippets_same(a: &Vec<Snippet>, b: &Vec<Snippet>) -> (r: bool)
    ensures
        r == (snippets_view(a@) == snippets_view(b@)),
{
    if a.len() != b.len() {
        assert(snippets_view(a@).len() != snippets_view(b@).len());
        return false;
    }
    let mut i: usize = 0;
    while i < a.len()
        invariant
            a.len() == b.len(),
            i <= a.len(),
            forall|j: int| 0 <= j < i ==> a@[j]@ == b@[j]@,
        decreases a.len() - i,
    {
        if !a[i].same_as(&b[i]) {
            assert(snippets_view(a@)[i as int] != snippets_view(b@)[i as int]);
            return false;
        }
        i = i + 1;
    }
    assert(snippets_view(a@) =~= snippets_view(b@));
    true
}

/// What the interface shows of a snippet: the snippet and the latest output of its query.
#[derive(Debug, Clone)]
pub struct SnippetView {
    pub snippet: Snippet,
    pub query: Option<String>,
}

} // verus!
