use vstd::prelude::*;
use vstd::string::*;
use base64::Engine;
use crate::models::{AppEntry, AppEntryView, Snippet, apps_view, snippets_view};
use crate::order::{stable_order, is_stable_order, is_stable_sort_of};
use crate::text::{char_len, char_at, push_char, to_lowercase, lowercase, matches_at};

verus! {

broadcast use vstd::string::group_string_axioms;

/// Joins a relative component onto a path as `PathBuf::join` does on Unix:
/// a `/` goes between them unless `base` is empty or already ends with one.
pub open spec fn join_path(base: Seq<char>, comp: Seq<char>) -> Seq<char> {
    if base.len() > 0 && base.last() != '/' {
        base + seq!['/'] + comp
    } else {
        base + comp
    }
}

/// The configuration directory: `LUNARA_CFG` if set, else `$XDG_CONFIG_HOME/lunara`,
/// else `$HOME/.config/lunara`, with `.` standing for an unset `HOME`.
pub open spec fn spec_config_dir(
    lunara_cfg: Option<Seq<char>>,
    xdg_config_home: Option<Seq<char>>,
    home: Option<Seq<char>>,
) -> Seq<char> {
    match lunara_cfg {
        Some(p) => p,
        None => match xdg_config_home {
            Some(x) => join_path(x, "lunara"@),
            None => {
                let h = match home {
                    Some(h) => h,
                    None => "."@,
                };
                join_path(join_path(h, ".config"@), "lunara"@)
            },
        },
    }
}

/// `base` joined with the relative component `comp`.
pub fn join(base: &str, comp: &str) -> (r: String)
    ensures
        r@ == join_path(base@, comp@),
{
    let mut r = String::from_str(base);
    let n = char_len(base);
    if n > 0 && char_at(base, n - 1) != '/' {
        push_char(&mut r, '/');
    }
    r.append(comp);
    r
}

/// The configuration directory, from the values of the environment variables
/// `LUNARA_CFG`, `XDG_CONFIG_HOME` and `HOME` (`None` where unset).
pub fn config_dir(
    lunara_cfg: Option<&str>,
    xdg_config_home: Option<&str>,
    home: Option<&str>,
) -> (r: String)
    ensures
        r@ == spec_config_dir(
            match lunara_cfg { Some(s) => Some(s@), None => None },
            match xdg_config_home { Some(s) => Some(s@), None => None },
            match home { Some(s) => Some(s@), None => None },
        ),
{
    match lunara_cfg {
        Some(p) => String::from_str(p),
        None => match xdg_config_home {
            Some(x) => join(x, "lunara"),
            None => {
                let h = match home {
                    Some(h) => h,
                    None => ".",
                };
                let c = join(h, ".config");
                join(c.as_str(), "lunara")
            },
        },
    }
}

/// The directory of application files inside the configuration directory.
pub fn apps_dir(config_dir: &str) -> (r: String)
    ensures
        r@ == join_path(config_dir@, "apps"@),
{
    join(config_dir, "apps")
}

/// The directory of snippet files inside the configuration directory.
pub fn snippets_dir(config_dir: &str) -> (r: String)
    ensures
        r@ == join_path(config_dir@, "snippets"@),
{
    join(config_dir, "snippets")
}

/// The main configuration file inside the configuration directory.
pub fn config_file(config_dir: &str) -> (r: String)
    ensures
        r@ == join_path(config_dir@, "config.yml"@),
{
    join(config_dir, "config.yml")
}

/// A file name whose extension (as `Path::extension` finds it) is exactly `yml`.
pub open spec fn has_yml_extension(name: Seq<char>) -> bool {
    name.len() > 4 && name.subrange(name.len() - 4, name.len() as int) == ".yml"@
}

/// Whether a directory entry with this file name is loaded as a configuration file.
pub fn is_yml_file(name: &str) -> (r: bool)
    ensures
        r == has_yml_extension(name@),
{
    let n = char_len(name);
    proof {
        reveal_strlit(".yml");
    }
    n > 4 && matches_at(name, n - 4, ".yml")
}

/// The standard (padded) base64 encoding of some bytes, as
/// `base64::engine::general_purpose::STANDARD.encode` returns it.
pub uninterp spec fn base64_standard(bytes: Seq<u8>) -> Seq<char>;

/// Calls `Engine::encode` of `base64::engine::general_purpose::STANDARD`. Its result is
/// named `base64_standard`; the crate's documentation also fixes its length: four
/// characters per started group of three bytes. It panics when that length overflows
/// `usize`, which `requires` leaves out.
#[verifier::external_body]
fn base64_encode(bytes: &[u8]) -> (r: String)
    requires
        4 * ((bytes@.len() + 2) / 3) <= usize::MAX,
    ensures
        r@ == base64_standard(bytes@),
        r@.len() == 4 * ((bytes@.len() + 2) / 3),
{
    base64::engine::general_purpose::STANDARD.encode(bytes)
}

/// The `data:` URL that shows PNG image bytes inline.
pub open spec fn png_data_url(bytes: Seq<u8>) -> Seq<char> {
    "data:image/png;base64,"@ + base64_standard(bytes)
}

/// The `data:` URL of an icon file's bytes.
pub fn icon_to_data_url(bytes: &[u8]) -> (r: String)
    requires
        4 * ((bytes@.len() + 2) / 3) <= usize::MAX,
    ensures
        r@ == png_data_url(bytes@),
{
    let mut r = String::from_str("data:image/png;base64,");
    let enc = base64_encode(bytes);
    r.append(enc.as_str());
    r
}

/// The application with its icon path replaced by the icon's `data:` URL, where the
/// icon file could be read (`icon_bytes` holds its contents).
pub fn embed_icon(app: AppEntry, icon_bytes: Option<Vec<u8>>) -> (r: AppEntry)
    requires
        icon_bytes matches Some(b) ==> 4 * ((b@.len() + 2) / 3) <= usize::MAX,
    ensures
        (app.icon is Some && icon_bytes is Some) ==> r@ == (AppEntryView {
            icon: Some(png_data_url(icon_bytes->0@)),
            ..app@
        }),
        !(app.icon is Some && icon_bytes is Some) ==> r@ == app@,
{
    let mut app = app;
    if app.icon.is_some() {
        if let Some(b) = icon_bytes {
            app.icon = Some(icon_to_data_url(b.as_slice()));
        }
    }
    app
}

/// The sort key of an application or snippet id: its lowercase form.
pub open spec fn id_keys_of_apps(v: Seq<AppEntry>) -> Seq<Seq<char>> {
    v.map_values(|a: AppEntry| lowercase(a.id@))
}

/// The sort keys of a list of snippets.
pub open spec fn id_keys_of_snippets(v: Seq<Snippet>) -> Seq<Seq<char>> {
    v.map_values(|s: Snippet| lowercase(s.id@))
}

/// The applications, stably sorted by lowercase id.
pub fn sort_apps_by_id(apps: Vec<AppEntry>) -> (r: Vec<AppEntry>)
    ensures
        is_stable_sort_of(apps_view(apps@), id_keys_of_apps(apps@), apps_view(r@)),
{
    let mut keys: Vec<String> = Vec::new();
    let mut i: usize = 0;
    while i < apps.len()
        invariant
            i <= apps.len(),
            keys@.len() == i,
            forall|j: int| 0 <= j < i ==> #[trigger] keys@[j]@ == lowercase(apps@[j].id@),
        decreases apps.len() - i,
    {
        keys.push(to_lowercase(apps[i].id.as_str()));
        i = i + 1;
    }
    let ghost ks = keys@.map_values(|k: String| k@);
    assert(ks =~= id_keys_of_apps(apps@));
    let p = stable_order(&keys);
    let mut r: Vec<AppEntry> = Vec::new();
    let mut k: usize = 0;
    while k < p.len()
        invariant
            is_stable_order(ks, p@),
            ks.len() == apps@.len(),
            k <= p@.len(),
            r@.len() == k,
            forall|j: int| 0 <= j < k ==> #[trigger] r@[j]@ == apps@[p@[j] as int]@,
        decreases p@.len() - k,
    {
        let idx = p[k];
        r.push(apps[idx].duplicate());
        k = k + 1;
    }
    assert(is_stable_order(id_keys_of_apps(apps@), p@));
    assert forall|j: int| 0 <= j < apps_view(r@).len() implies apps_view(r@)[j] == apps_view(apps@)[p@[j] as int] by {
    }
    r
}

/// The snippets, stably sorted by lowercase id.
pub fn sort_snippets_by_id(snippets: Vec<Snippet>) -> (r: Vec<Snippet>)
    ensures
        is_stable_sort_of(snippets_view(snippets@), id_keys_of_snippets(snippets@), snippets_view(r@)),
{
    let mut keys: Vec<String> = Vec::new();
    let mut i: usize = 0;
    while i < snippets.len()
        invariant
            i <= snippets.len(),
            keys@.len() == i,
            forall|j: int| 0 <= j < i ==> #[trigger] keys@[j]@ == lowercase(snippets@[j].id@),
        decreases snippets.len() - i,
    {
        keys.push(to_lowercase(snippets[i].id.as_str()));
        i = i + 1;
    }
    let ghost ks = keys@.map_values(|k: String| k@);
    assert(ks =~= id_keys_of_snippets(snippets@));
    let p = stable_order(&keys);
    let mut r: Vec<Snippet> = Vec::new();
    let mut k: usize = 0;
    while k < p.len()
        invariant
            is_stable_order(ks, p@),
            ks.len() == snippets@.len(),
            k <= p@.len(),
            r@.len() == k,
            forall|j: int| 0 <= j < k ==> #[trigger] r@[j]@ == snippets@[p@[j] as int]@,
        decreases p@.len() - k,
    {
        let idx = p[k];
        r.push(snippets[idx].duplicate());
        k = k + 1;
    }
    assert(is_stable_order(id_keys_of_snippets(snippets@), p@));
    assert forall|j: int| 0 <= j < snippets_view(r@).len() implies snippets_view(r@)[j] == snippets_view(snippets@)[p@[j] as int] by {
    }
    r
}

} // verus!
