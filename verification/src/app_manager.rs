use vstd::prelude::*;
use crate::models::{AppEntry, AppEntryView, AppView, apps_view, apps_same};
use crate::text::str_eq;

verus! {

/// The catalogue of applications loaded from the configuration directory.
pub struct AppManager {
    apps: Vec<AppEntry>,
}

impl View for AppManager {
    type V = Seq<AppEntryView>;

    closed spec fn view(&self) -> Seq<AppEntryView> {
        apps_view(self.apps@)
    }
}

/// The position of the first application of `apps` whose id is `id`, if any.
pub open spec fn first_with_id(apps: Seq<AppEntryView>, id: Seq<char>, i: int) -> bool {
    &&& 0 <= i < apps.len()
    &&& apps[i].id == id
    &&& forall|j: int| 0 <= j < i ==> #[trigger] apps[j].id != id
}

impl AppManager {
    /// An empty catalogue.
    pub fn new() -> (r: AppManager)
        ensures
            r@ == Seq::<AppEntryView>::empty(),
    {
        let r = AppManager { apps: Vec::new() };
        assert(r@ =~= Seq::<AppEntryView>::empty());
        r
    }

    /// The applications, in catalogue order.
    pub fn apps(&self) -> (r: &[AppEntry])
        ensures
            apps_view(r@) == self@,
    {
        self.apps.as_slice()
    }

    /// Replaces the catalogue by freshly loaded applications; tells whether it changed.
    pub fn reload_config(&mut self, new_apps: Vec<AppEntry>) -> (changed: bool)
        ensures
            final(self)@ == apps_view(new_apps@),
            changed == (apps_view(new_apps@) != old(self)@),
    {
        let changed = !apps_same(&new_apps, &self.apps);
        self.apps = new_apps;
        changed
    }

    /// The first application whose id is `id`.
    pub fn find_app(&self, id: &str) -> (r: Option<&AppEntry>)
        ensures
            r is None ==> forall|j: int| 0 <= j < self@.len() ==> #[trigger] self@[j].id != id@,
            r matches Some(a) ==> exists|i: int| first_with_id(self@, id@, i) && a@ == self@[i],
    {
        let mut i: usize = 0;
        while i < self.apps.len()
            invariant
                i <= self.apps.len(),
                forall|j: int| 0 <= j < i ==> #[trigger] self.apps@[j].id@ != id@,
            decreases self.apps.len() - i,
        {
            if str_eq(self.apps[i].id.as_str(), id) {
                assert(first_with_id(self@, id@, i as int));
                return Some(&self.apps[i]);
            }
            i = i + 1;
        }
        None
    }
}

/// What the interface lists: one view per application, in catalogue order.
pub fn list_apps(mgr: &AppManager) -> (r: Vec<AppView>)
    ensures
        r@.len() == mgr@.len(),
        forall|i: int| 0 <= i < r@.len() ==> #[trigger] r@[i].app@ == mgr@[i],
{
    let apps = mgr.apps();
    let mut r: Vec<AppView> = Vec::new();
    let mut i: usize = 0;
    while i < apps.len()
        invariant
            apps_view(apps@) == mgr@,
            i <= apps@.len(),
            r@.len() == i,
            forall|j: int| 0 <= j < i ==> #[trigger] r@[j].app@ == apps@[j]@,
        decreases apps@.len() - i,
    {
        r.push(AppView { app: apps[i].duplicate() });
        i = i + 1;
    }
    r
}

} // verus!
