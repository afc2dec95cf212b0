//! The web profile of dsh: making sure its `package.json` lists the bundled
//! plugin among `dsh.profile.bundles`, the files a fresh profile needs, and
//! where the plugin is installed.
//!
//! The manifest is handled as a [`Json`] value; `serde_json` parses and
//! prints its text, the host reads and writes the file.
use vstd::prelude::*;

verus! {

/// A JSON value. Numbers are kept as their text; object members keep their order.
pub enum Json {
    Null,
    Bool(bool),
    Number(String),
    Str(String),
    Array(Vec<Json>),
    Object(Vec<(String, Json)>),
}

pub enum JsonView {
    Null,
    Bool(bool),
    Number(Seq<char>),
    Str(Seq<char>),
    Array(Seq<JsonView>),
    Object(Seq<(Seq<char>, JsonView)>),
}

pub open spec fn view_items(s: Seq<Json>) -> Seq<JsonView>
    decreases s,
{
    if s.len() == 0 {
        Seq::empty()
    } else {
        view_items(s.subrange(0, s.len() - 1)).push(view_json(s[s.len() - 1]))
    }
}

pub open spec fn view_members(s: Seq<(String, Json)>) -> Seq<(Seq<char>, JsonView)>
    decreases s,
{
    if s.len() == 0 {
        Seq::empty()
    } else {
        view_members(s.subrange(0, s.len() - 1)).push(
            (s[s.len() - 1].0@, view_json(s[s.len() - 1].1)),
        )
    }
}

pub open spec fn view_json(j: Json) -> JsonView
    decreases j,
{
    match j {
        Json::Null => JsonView::Null,
        Json::Bool(b) => JsonView::Bool(b),
        Json::Number(n) => JsonView::Number(n@),
        Json::Str(s) => JsonView::Str(s@),
        Json::Array(v) => JsonView::Array(view_items(v@)),
        Json::Object(m) => JsonView::Object(view_members(m@)),
    }
}

impl View for Json {
    type V = JsonView;

    open spec fn view(&self) -> JsonView {
        view_json(*self)
    }
}

proof fn lemma_view_items(s: Seq<Json>)
    ensures
        view_items(s).len() == s.len(),
        forall|k: int| 0 <= k < s.len() ==> #[trigger] view_items(s)[k] == view_json(s[k]),
    decreases s.len(),
{
    if s.len() > 0 {
        let p = s.subrange(0, s.len() - 1);
        lemma_view_items(p);
        assert forall|k: int| 0 <= k < s.len() implies #[trigger] view_items(s)[k] == view_json(
            s[k],
        ) by {
            if k < s.len() - 1 {
                assert(p[k] == s[k]);
            }
        }
    }
}

proof fn lemma_view_members(s: Seq<(String, Json)>)
    ensures
        view_members(s).len() == s.len(),
        forall|k: int|
            0 <= k < s.len() ==> #[trigger] view_members(s)[k] == (s[k].0@, view_json(s[k].1)),
    decreases s.len(),
{
    if s.len() > 0 {
        let p = s.subrange(0, s.len() - 1);
        lemma_view_members(p);
        assert forall|k: int| 0 <= k < s.len() implies #[trigger] view_members(s)[k] == (
            s[k].0@,
            view_json(s[k].1),
        ) by {
            if k < s.len() - 1 {
                assert(p[k] == s[k]);
            }
        }
    }
}

/// Index of the first member named `key`, or the number of members.
pub open spec fn key_index(ms: Seq<(Seq<char>, JsonView)>, key: Seq<char>) -> nat
    decreases ms.len(),
{
    if ms.len() == 0 {
        0
    } else if ms[0].0 == key {
        0
    } else {
        1 + key_index(ms.subrange(1, ms.len() as int), key)
    }
}

proof fn lemma_key_index(ms: Seq<(Seq<char>, JsonView)>, key: Seq<char>, i: int)
    requires
        0 <= i <= ms.len(),
        forall|m: int| 0 <= m < i ==> ms[m].0 != key,
        i == ms.len() || ms[i].0 == key,
    ensures
        key_index(ms, key) == i,
    decreases i,
{
    if i > 0 {
        let rest = ms.subrange(1, ms.len() as int);
        lemma_key_index(rest, key, i - 1);
    }
}

proof fn lemma_key_index_found(ms: Seq<(Seq<char>, JsonView)>, key: Seq<char>)
    ensures
        key_index(ms, key) <= ms.len(),
        key_index(ms, key) < ms.len() ==> ms[key_index(ms, key) as int].0 == key,
        forall|m: int| 0 <= m < key_index(ms, key) ==> ms[m].0 != key,
    decreases ms.len(),
{
    if ms.len() > 0 && ms[0].0 != key {
        let rest = ms.subrange(1, ms.len() as int);
        lemma_key_index_found(rest, key);
        assert forall|m: int| 0 <= m < key_index(ms, key) implies ms[m].0 != key by {
            if m > 0 {
                assert(ms[m] == rest[m - 1]);
            }
        }
    }
}

/// The value at `path`, going through objects only (as a JSON pointer on
/// object keys does).
pub open spec fn get_path(j: JsonView, path: Seq<Seq<char>>) -> Option<JsonView>
    decreases path.len(),
{
    if path.len() == 0 {
        Some(j)
    } else {
        match j {
            JsonView::Object(ms) => {
                let i = key_index(ms, path[0]);
                if i < ms.len() {
                    get_path(ms[i as int].1, path.subrange(1, path.len() as int))
                } else {
                    None
                }
            },
            _ => None,
        }
    }
}

/// Whether `value[path[0]][path[1]]...` can be assigned: each level is an
/// object or `null` (which becomes an empty object). Assigning through any
/// other value panics in `serde_json`.
pub open spec fn settable(j: JsonView, path: Seq<Seq<char>>) -> bool
    decreases path.len(),
{
    if path.len() == 0 {
        true
    } else {
        match j {
            JsonView::Null => settable(JsonView::Null, path.subrange(1, path.len() as int)),
            JsonView::Object(ms) => {
                let i = key_index(ms, path[0]);
                let child = if i < ms.len() {
                    ms[i as int].1
                } else {
                    JsonView::Null
                };
                settable(child, path.subrange(1, path.len() as int))
            },
            _ => false,
        }
    }
}

/// The two edits made to the bundles list.
#[derive(Clone, Copy)]
pub enum Edit {
    /// Replace it by the default list with the plugin.
    SetDefaultBundles,
    /// Append the plugin to the existing array.
    AppendBundle,
}

pub open spec fn bundle_name() -> Seq<char> {
    "dsh-usage-stats"@
}

/// The bundles list of a profile that had none: dsh's base and web app, and the plugin.
pub open spec fn default_bundles() -> Seq<JsonView> {
    seq![
        JsonView::Str("@deepseek-ai/dsh-base"@),
        JsonView::Str("@deepseek-ai/dsh-web-app"@),
        JsonView::Str(bundle_name()),
    ]
}

pub open spec fn apply_edit(e: Edit, j: JsonView) -> JsonView {
    match e {
        Edit::SetDefaultBundles => JsonView::Array(default_bundles()),
        Edit::AppendBundle => match j {
            JsonView::Array(items) => JsonView::Array(items.push(JsonView::Str(bundle_name()))),
            _ => j,
        },
    }
}

/// `j` with the value at `path` edited, creating missing objects on the
/// way (`value[k1][k2]... = ...` in `serde_json`); `None` where that panics.
pub open spec fn update_path(j: JsonView, path: Seq<Seq<char>>, e: Edit) -> Option<JsonView>
    decreases path.len(),
{
    if path.len() == 0 {
        Some(apply_edit(e, j))
    } else {
        let ms_opt: Option<Seq<(Seq<char>, JsonView)>> = match j {
            JsonView::Null => Some(Seq::empty()),
            JsonView::Object(ms) => Some(ms),
            _ => None,
        };
        match ms_opt {
            None => None,
            Some(ms) => {
                let i = key_index(ms, path[0]);
                let child = if i < ms.len() {
                    ms[i as int].1
                } else {
                    JsonView::Null
                };
                match update_path(child, path.subrange(1, path.len() as int), e) {
                    None => None,
                    Some(nc) => Some(
                        JsonView::Object(
                            if i < ms.len() {
                                ms.update(i as int, (path[0], nc))
                            } else {
                                ms.push((path[0], nc))
                            },
                        ),
                    ),
                }
            },
        }
    }
}

/// `dsh.profile.bundles`.
pub open spec fn bundles_path() -> Seq<Seq<char>> {
    seq!["dsh"@, "profile"@, "bundles"@]
}

/// Makes the manifest's bundles list contain the plugin: an existing array
/// that lacks it gets it appended, a missing (or non-array) list becomes the
/// default list. The flag says whether the manifest changed. `None` where
/// the assignment panics.
pub open spec fn ensure_bundle_spec(m: JsonView) -> Option<(JsonView, bool)> {
    match get_path(m, bundles_path()) {
        Some(JsonView::Array(items)) => if items.contains(JsonView::Str(bundle_name())) {
            Some((m, false))
        } else {
            match update_path(m, bundles_path(), Edit::AppendBundle) {
                Some(r) => Some((r, true)),
                None => None,
            }
        },
        _ => match update_path(m, bundles_path(), Edit::SetDefaultBundles) {
            Some(r) => Some((r, true)),
            None => None,
        },
    }
}

/// The manifest after `ensure_bundle_spec` (unchanged where it panics).
pub open spec fn ensured(m: JsonView) -> JsonView {
    match ensure_bundle_spec(m) {
        Some(p) => p.0,
        None => m,
    }
}

proof fn lemma_update_some(j: JsonView, path: Seq<Seq<char>>, e: Edit)
    ensures
        update_path(j, path, e) is Some <==> settable(j, path),
    decreases path.len(),
{
    if path.len() > 0 {
        let rest = path.subrange(1, path.len() as int);
        match j {
            JsonView::Null => {
                lemma_update_some(JsonView::Null, rest, e);
            },
            JsonView::Object(ms) => {
                let i = key_index(ms, path[0]);
                let child = if i < ms.len() {
                    ms[i as int].1
                } else {
                    JsonView::Null
                };
                lemma_update_some(child, rest, e);
            },
            _ => {},
        }
    }
}


/// The value the edit of `path` is applied to: the value found there, or
/// `null` where the path had to be created.
pub open spec fn edit_target(j: JsonView, path: Seq<Seq<char>>) -> JsonView
    decreases path.len(),
{
    if path.len() == 0 {
        j
    } else {
        match j {
            JsonView::Object(ms) => {
                let i = key_index(ms, path[0]);
                if i < ms.len() {
                    edit_target(ms[i as int].1, path.subrange(1, path.len() as int))
                } else {
                    edit_target(JsonView::Null, path.subrange(1, path.len() as int))
                }
            },
            _ => edit_target(JsonView::Null, path.subrange(1, path.len() as int)),
        }
    }
}

proof fn lemma_get_after_update(j: JsonView, path: Seq<Seq<char>>, e: Edit)
    requires
        update_path(j, path, e) is Some,
    ensures
        get_path(update_path(j, path, e)->0, path) == Some(apply_edit(e, edit_target(j, path))),
    decreases path.len(),
{
    if path.len() > 0 {
        let rest = path.subrange(1, path.len() as int);
        let ms: Seq<(Seq<char>, JsonView)> = match j {
            JsonView::Object(ms) => ms,
            _ => Seq::empty(),
        };
        lemma_key_index_found(ms, path[0]);
        let i = key_index(ms, path[0]);
        let child = if i < ms.len() {
            ms[i as int].1
        } else {
            JsonView::Null
        };
        lemma_get_after_update(child, rest, e);
        let nc = update_path(child, rest, e)->0;
        let ms2 = if i < ms.len() {
            ms.update(i as int, (path[0], nc))
        } else {
            ms.push((path[0], nc))
        };
        assert forall|m: int| 0 <= m < i implies ms2[m].0 != path[0] by {}
        lemma_key_index(ms2, path[0], i as int);
        assert(ms2[i as int].1 == nc);
    }
}

proof fn lemma_get_settable(j: JsonView, path: Seq<Seq<char>>)
    requires
        get_path(j, path) is Some,
    ensures
        settable(j, path),
        edit_target(j, path) == get_path(j, path)->0,
    decreases path.len(),
{
    if path.len() > 0 {
        if let JsonView::Object(ms) = j {
            let i = key_index(ms, path[0]);
            lemma_get_settable(ms[i as int].1, path.subrange(1, path.len() as int));
        }
    }
}

/// After the edit the bundles list is an array that names the plugin.
pub proof fn law_bundle_listed(m: JsonView)
    requires
        settable(m, bundles_path()),
    ensures
        ensure_bundle_spec(m) is Some,
        get_path(ensured(m), bundles_path()) matches Some(JsonView::Array(items))
            && items.contains(JsonView::Str(bundle_name())),
{
    lemma_update_some(m, bundles_path(), Edit::AppendBundle);
    lemma_update_some(m, bundles_path(), Edit::SetDefaultBundles);
    match get_path(m, bundles_path()) {
        Some(JsonView::Array(items)) => {
            lemma_get_settable(m, bundles_path());
            if !items.contains(JsonView::Str(bundle_name())) {
                lemma_get_after_update(m, bundles_path(), Edit::AppendBundle);
                let pushed = items.push(JsonView::Str(bundle_name()));
                assert(pushed[pushed.len() - 1] == JsonView::Str(bundle_name()));
            }
        },
        _ => {
            lemma_get_after_update(m, bundles_path(), Edit::SetDefaultBundles);
            assert(default_bundles()[2] == JsonView::Str(bundle_name()));
        },
    }
}

/// The edit is idempotent: a second run changes nothing.
pub proof fn law_ensure_idempotent(m: JsonView)
    requires
        settable(m, bundles_path()),
    ensures
        settable(ensured(m), bundles_path()),
        ensure_bundle_spec(ensured(m)) == Some((ensured(m), false)),
{
    law_bundle_listed(m);
    let r = ensured(m);
    lemma_get_settable(r, bundles_path());
}

/// Bundles already listed stay listed, in their order: the plugin is only
/// appended, and only when it is missing.
pub proof fn law_existing_bundles_kept(m: JsonView, items: Seq<JsonView>)
    requires
        get_path(m, bundles_path()) == Some(JsonView::Array(items)),
    ensures
        ensure_bundle_spec(m) is Some,
        items.contains(JsonView::Str(bundle_name())) ==> ensure_bundle_spec(m) == Some((m, false)),
        !items.contains(JsonView::Str(bundle_name())) ==> get_path(
            ensured(m),
            bundles_path(),
        ) == Some(JsonView::Array(items.push(JsonView::Str(bundle_name())))),
{
    lemma_get_settable(m, bundles_path());
    lemma_update_some(m, bundles_path(), Edit::AppendBundle);
    if !items.contains(JsonView::Str(bundle_name())) {
        lemma_get_after_update(m, bundles_path(), Edit::AppendBundle);
    }
}

/// A profile without a manifest gets dsh's default bundles plus the plugin.
pub proof fn law_default_manifest_bundles()
    ensures
        settable(default_manifest(), bundles_path()),
        ensure_bundle_spec(default_manifest()) is Some,
        get_path(ensured(default_manifest()), bundles_path()) == Some(
            JsonView::Array(default_bundles()),
        ),
        ensure_bundle_spec(default_manifest()) == Some((ensured(default_manifest()), true)),
{
    let m = default_manifest();
    let base = seq![
        JsonView::Str("@deepseek-ai/dsh-base"@),
        JsonView::Str("@deepseek-ai/dsh-web-app"@),
    ];
    reveal_strlit("dsh");
    reveal_strlit("profile");
    reveal_strlit("bundles");
    reveal_strlit("name");
    reveal_strlit("private");
    reveal_strlit("dependencies");
    reveal_strlit("dsh-usage-stats");
    reveal_strlit("@deepseek-ai/dsh-base");
    reveal_strlit("@deepseek-ai/dsh-web-app");
    let profile = seq![("bundles"@, JsonView::Array(base))];
    let dsh = seq![("profile"@, JsonView::Object(profile))];
    let top = seq![
        ("name"@, JsonView::Str("dsh-profile-web"@)),
        ("private"@, JsonView::Bool(true)),
        ("dependencies"@, JsonView::Object(Seq::empty())),
        ("dsh"@, JsonView::Object(dsh)),
    ];
    assert(m == JsonView::Object(top));
    assert("name"@.len() == 4 && "private"@.len() == 7 && "dependencies"@.len() == 12
        && "dsh"@.len() == 3);
    assert(top[0].0 != "dsh"@ && top[1].0 != "dsh"@ && top[2].0 != "dsh"@);
    lemma_key_index(top, "dsh"@, 3);
    lemma_key_index(dsh, "profile"@, 0);
    lemma_key_index(profile, "bundles"@, 0);
    let p = bundles_path();
    assert(p.subrange(1, 3)[0] == "profile"@);
    assert(p.subrange(1, 3).subrange(1, 2) =~= seq!["bundles"@]);
    assert(seq!["bundles"@].subrange(1, 1) =~= Seq::<Seq<char>>::empty());
    assert(get_path(JsonView::Array(base), Seq::empty()) == Some(JsonView::Array(base)));
    assert(get_path(JsonView::Object(profile), seq!["bundles"@]) == Some(JsonView::Array(base)));
    assert(p.subrange(1, 3) =~= seq!["profile"@, "bundles"@]);
    assert(seq!["profile"@, "bundles"@].subrange(1, 2) =~= seq!["bundles"@]);
    assert(get_path(JsonView::Object(dsh), seq!["profile"@, "bundles"@]) == Some(
        JsonView::Array(base),
    ));
    assert(get_path(m, bundles_path()) == Some(JsonView::Array(base)));
    assert("dsh-usage-stats"@.len() == 15 && "@deepseek-ai/dsh-base"@.len() == 21
        && "@deepseek-ai/dsh-web-app"@.len() == 24);
    assert(base[0] != JsonView::Str(bundle_name()) && base[1] != JsonView::Str(bundle_name()));
    assert(!base.contains(JsonView::Str(bundle_name())));
    law_existing_bundles_kept(m, base);
    assert(base.push(JsonView::Str(bundle_name())) =~= default_bundles());
    lemma_get_settable(m, bundles_path());
}

fn text(s: &str) -> (r: String)
    ensures
        r@ == s@,
{
    String::from_str(s)
}

/// The path `dsh.profile.bundles` as keys.
fn bundles_path_keys() -> (r: Vec<String>)
    ensures
        r@.map_values(|k: String| k@) == bundles_path(),
{
    let r = vec![text("dsh"), text("profile"), text("bundles")];
    assert(r@.map_values(|k: String| k@) =~= bundles_path());
    r
}

pub open spec fn keys_view(path: Seq<String>) -> Seq<Seq<char>> {
    path.map_values(|k: String| k@)
}

fn key_position(ms: &Vec<(String, Json)>, key: &str) -> (r: usize)
    ensures
        r == key_index(view_members(ms@), key@),
        r <= ms@.len(),
{
    proof {
        lemma_view_members(ms@);
    }
    let mut i: usize = 0;
    while i < ms.len()
        invariant
            i <= ms@.len(),
            view_members(ms@).len() == ms@.len(),
            forall|m: int| 0 <= m < i ==> view_members(ms@)[m].0 != key@,
        decreases ms.len() - i,
    {
        proof {
            lemma_view_members(ms@);
        }
        let found = {
            let k = ms[i].0.as_str().to_owned();
            let kk = key.to_owned();
            k == kk
        };
        if found {
            proof {
                lemma_key_index(view_members(ms@), key@, i as int);
            }
            return i;
        }
        i = i + 1;
    }
    proof {
        lemma_key_index(view_members(ms@), key@, i as int);
    }
    i
}

/// Whether the edit at `path[i..]` of `j` would go through.
fn can_update(j: &Json, path: &Vec<String>, i: usize) -> (r: bool)
    requires
        i <= path@.len(),
    ensures
        r == settable(view_json(*j), keys_view(path@).subrange(i as int, path@.len() as int)),
    decreases path@.len() - i,
{
    let ghost p = keys_view(path@).subrange(i as int, path@.len() as int);
    if i == path.len() {
        return true;
    }
    assert(p.subrange(1, p.len() as int) =~= keys_view(path@).subrange(i + 1, path@.len() as int));
    assert(p[0] == path@[i as int]@);
    match j {
        Json::Null => {
            let n = Json::Null;
            can_update(&n, path, i + 1)
        },
        Json::Object(ms) => {
            proof {
                lemma_view_members(ms@);
            }
            let k = key_position(ms, path[i].as_str());
            if k < ms.len() {
                can_update(&ms[k].1, path, i + 1)
            } else {
                let n = Json::Null;
                can_update(&n, path, i + 1)
            }
        },
        _ => false,
    }
}

/// The array at `path[i..]`, if there is one.
fn lookup_array<'a>(j: &'a Json, path: &Vec<String>, i: usize) -> (r: Option<&'a Vec<Json>>)
    requires
        i <= path@.len(),
    ensures
        match r {
            Some(a) => get_path(view_json(*j), keys_view(path@).subrange(i as int, path@.len() as int))
                == Some(JsonView::Array(view_items(a@))),
            None => !(get_path(
                view_json(*j),
                keys_view(path@).subrange(i as int, path@.len() as int),
            ) matches Some(JsonView::Array(_))),
        },
    decreases path@.len() - i,
{
    let ghost p = keys_view(path@).subrange(i as int, path@.len() as int);
    if i == path.len() {
        return match j {
            Json::Array(a) => Some(a),
            _ => None,
        };
    }
    assert(p.subrange(1, p.len() as int) =~= keys_view(path@).subrange(i + 1, path@.len() as int));
    assert(p[0] == path@[i as int]@);
    match j {
        Json::Object(ms) => {
            proof {
                lemma_view_members(ms@);
            }
            let k = key_position(ms, path[i].as_str());
            if k < ms.len() {
                lookup_array(&ms[k].1, path, i + 1)
            } else {
                None
            }
        },
        _ => None,
    }
}

fn default_bundles_json() -> (r: Json)
    ensures
        r@ == JsonView::Array(default_bundles()),
{
    let v = vec![
        Json::Str(text("@deepseek-ai/dsh-base")),
        Json::Str(text("@deepseek-ai/dsh-web-app")),
        Json::Str(text("dsh-usage-stats")),
    ];
    proof {
        lemma_view_items(v@);
        assert(view_items(v@) =~= default_bundles());
    }
    Json::Array(v)
}

/// Applies the edit at `path[i..]` of `j`.
fn update_at(j: Json, path: &Vec<String>, i: usize, e: Edit) -> (r: Json)
    requires
        i <= path@.len(),
        settable(view_json(j), keys_view(path@).subrange(i as int, path@.len() as int)),
    ensures
        update_path(view_json(j), keys_view(path@).subrange(i as int, path@.len() as int), e)
            == Some(view_json(r)),
    decreases path@.len() - i,
{
    let ghost p = keys_view(path@).subrange(i as int, path@.len() as int);
    if i == path.len() {
        return match e {
            Edit::SetDefaultBundles => default_bundles_json(),
            Edit::AppendBundle => match j {
                Json::Array(v) => {
                    let mut v = v;
                    let ghost v0 = v@;
                    v.push(Json::Str(text("dsh-usage-stats")));
                    proof {
                        lemma_view_items(v0);
                        lemma_view_items(v@);
                        assert(view_items(v@) =~= view_items(v0).push(
                            JsonView::Str(bundle_name()),
                        ));
                    }
                    Json::Array(v)
                },
                other => other,
            },
        };
    }
    assert(p.subrange(1, p.len() as int) =~= keys_view(path@).subrange(i + 1, path@.len() as int));
    assert(p[0] == path@[i as int]@);
    let ghost jv = view_json(j);
    let mut ms: Vec<(String, Json)> = match j {
        Json::Null => Vec::new(),
        Json::Object(ms) => ms,
        _ => {
            assert(false);
            Vec::new()
        },
    };
    let ghost ms0 = ms@;
    proof {
        lemma_view_members(ms0);
        assert(jv is Null ==> view_members(ms0) =~= Seq::<(Seq<char>, JsonView)>::empty());
    }
    let k = key_position(&ms, path[i].as_str());
    if k < ms.len() {
        let (key, child) = ms.remove(k);
        proof {
            lemma_key_index_found(view_members(ms0), p[0]);
            assert(key == ms0[k as int].0);
            assert(view_members(ms0)[k as int].0 == key@);
        }
        let nc = update_at(child, path, i + 1, e);
        ms.insert(k, (key, nc));
        proof {
            lemma_view_members(ms@);
            assert(ms@ =~= ms0.update(k as int, (key, nc)));
            assert(view_members(ms@) =~= view_members(ms0).update(
                k as int,
                (p[0], view_json(nc)),
            ));
        }
        Json::Object(ms)
    } else {
        let nc = update_at(Json::Null, path, i + 1, e);
        ms.push((path[i].clone(), nc));
        proof {
            lemma_view_members(ms@);
            assert(view_members(ms@) =~= view_members(ms0).push((p[0], view_json(nc))));
        }
        Json::Object(ms)
    }
}

fn contains_bundle(items: &Vec<Json>) -> (r: bool)
    ensures
        r == view_items(items@).contains(JsonView::Str(bundle_name())),
{
    proof {
        lemma_view_items(items@);
    }
    let name = text("dsh-usage-stats");
    let mut k: usize = 0;
    while k < items.len()
        invariant
            k <= items@.len(),
            name@ == bundle_name(),
            view_items(items@).len() == items@.len(),
            forall|m: int| 0 <= m < k ==> view_items(items@)[m] != JsonView::Str(bundle_name()),
        decreases items.len() - k,
    {
        proof {
            lemma_view_items(items@);
        }
        let hit = match &items[k] {
            Json::Str(s) => *s == name,
            _ => false,
        };
        if hit {
            assert(view_items(items@)[k as int] == JsonView::Str(bundle_name()));
            return true;
        }
        k = k + 1;
    }
    assert(!view_items(items@).contains(JsonView::Str(bundle_name())));
    false
}

/// Whether `ensure_bundle` can edit this manifest (the original panics otherwise).
pub fn bundle_update_possible(manifest: &Json) -> (r: bool)
    ensures
        r == settable(manifest@, bundles_path()),
{
    let path = bundles_path_keys();
    assert(keys_view(path@).subrange(0, 3) =~= bundles_path());
    can_update(manifest, &path, 0)
}

/// Makes `dsh.profile.bundles` contain the plugin, touching nothing else.
pub fn ensure_bundle(manifest: Json) -> (r: (Json, bool))
    requires
        settable(manifest@, bundles_path()),
    ensures
        ensure_bundle_spec(manifest@) == Some((r.0@, r.1)),
{
    let path = bundles_path_keys();
    assert(keys_view(path@).subrange(0, 3) =~= bundles_path());
    let contains = match lookup_array(&manifest, &path, 0) {
        Some(items) => Some(contains_bundle(items)),
        None => None,
    };
    match contains {
        Some(true) => (manifest, false),
        Some(false) => {
            let r = update_at(manifest, &path, 0, Edit::AppendBundle);
            (r, true)
        },
        None => {
            let r = update_at(manifest, &path, 0, Edit::SetDefaultBundles);
            (r, true)
        },
    }
}

/// The manifest of a new web profile, as dsh creates it.
pub open spec fn default_manifest() -> JsonView {
    JsonView::Object(
        seq![
            ("name"@, JsonView::Str("dsh-profile-web"@)),
            ("private"@, JsonView::Bool(true)),
            ("dependencies"@, JsonView::Object(Seq::empty())),
            (
                "dsh"@,
                JsonView::Object(
                    seq![
                        (
                            "profile"@,
                            JsonView::Object(
                                seq![
                                    (
                                        "bundles"@,
                                        JsonView::Array(
                                            seq![
                                                JsonView::Str("@deepseek-ai/dsh-base"@),
                                                JsonView::Str("@deepseek-ai/dsh-web-app"@),
                                            ],
                                        ),
                                    ),
                                ],
                            ),
                        ),
                    ],
                ),
            ),
        ],
    )
}

/// Builds the default manifest.
pub fn default_profile_manifest() -> (r: Json)
    ensures
        r@ == default_manifest(),
{
    let bundles = vec![
        Json::Str(text("@deepseek-ai/dsh-base")),
        Json::Str(text("@deepseek-ai/dsh-web-app")),
    ];
    let profile = vec![(text("bundles"), Json::Array(bundles))];
    let dsh = vec![(text("profile"), Json::Object(profile))];
    let deps: Vec<(String, Json)> = Vec::new();
    let top = vec![
        (text("name"), Json::Str(text("dsh-profile-web"))),
        (text("private"), Json::Bool(true)),
        (text("dependencies"), Json::Object(deps)),
        (text("dsh"), Json::Object(dsh)),
    ];
    proof {
        lemma_view_items(bundles@);
        lemma_view_members(profile@);
        lemma_view_members(dsh@);
        lemma_view_members(deps@);
        lemma_view_members(top@);
        assert(view_items(bundles@) =~= seq![
            JsonView::Str("@deepseek-ai/dsh-base"@),
            JsonView::Str("@deepseek-ai/dsh-web-app"@),
        ]);
        assert(view_members(deps@) =~= Seq::<(Seq<char>, JsonView)>::empty());
        assert(view_members(profile@) =~= seq![("bundles"@, view_json(profile@[0].1))]);
        assert(view_members(dsh@) =~= seq![("profile"@, view_json(dsh@[0].1))]);
        assert(view_members(top@) =~= seq![
            ("name"@, view_json(top@[0].1)),
            ("private"@, view_json(top@[1].1)),
            ("dependencies"@, view_json(top@[2].1)),
            ("dsh"@, view_json(top@[3].1)),
        ]);
    }
    Json::Object(top)
}

/// The manifest to work on: the parsed file, or the default one when the
/// file is missing or not JSON.
pub fn profile_manifest(parsed: Option<Json>) -> (r: Json)
    ensures
        r@ == match parsed {
            Some(j) => j@,
            None => default_manifest(),
        },
{
    match parsed {
        Some(j) => j,
        None => default_profile_manifest(),
    }
}

#[verifier::external_type_specification]
#[verifier::external_body]
pub struct ExJsonValue(serde_json::Value);

/// What `serde_json::from_str` parses `text` into as a `serde_json::Value`,
/// taken variant by variant (a number as the text `serde_json` prints for
/// it, an object's members in the order of its map); `None` when `text` is
/// not one JSON value.
pub uninterp spec fn json_parsed(text: Seq<char>) -> Option<JsonView>;

/// The text `serde_json::to_string_pretty` prints for `j` taken as a
/// `serde_json::Value` (a number parsed back from its text).
pub uninterp spec fn json_pretty(j: JsonView) -> Seq<char>;

/// Moves a `serde_json::Value` into a [`Json`], variant for variant.
#[verifier::external_body]
fn json_of_value(v: serde_json::Value) -> Json {
    match v {
        serde_json::Value::Null => Json::Null,
        serde_json::Value::Bool(b) => Json::Bool(b),
        serde_json::Value::Number(n) => Json::Number(n.to_string()),
        serde_json::Value::String(s) => Json::Str(s),
        serde_json::Value::Array(a) => Json::Array(a.into_iter().map(json_of_value).collect()),
        serde_json::Value::Object(m) => Json::Object(
            m.into_iter().map(|(k, v)| (k, json_of_value(v))).collect(),
        ),
    }
}

/// Copies a [`Json`] into a `serde_json::Value`, variant for variant (a
/// number through `serde_json::Number`'s `FromStr`, `null` when that fails).
#[verifier::external_body]
fn value_of_json(j: &Json) -> serde_json::Value {
    match j {
        Json::Null => serde_json::Value::Null,
        Json::Bool(b) => serde_json::Value::Bool(*b),
        Json::Number(n) => n.parse::<serde_json::Number>().map_or(serde_json::Value::Null, serde_json::Value::Number),
        Json::Str(s) => serde_json::Value::String(s.clone()),
        Json::Array(a) => serde_json::Value::Array(a.iter().map(value_of_json).collect()),
        Json::Object(m) => serde_json::Value::Object(
            m.iter().map(|(k, v)| (k.clone(), value_of_json(v))).collect(),
        ),
    }
}

/// Parses `text` with `serde_json::from_str::<serde_json::Value>`.
/// Trusted: the result is `json_parsed` of the text.
#[verifier::external_body]
pub(crate) fn parse_json(text: &str) -> (r: Option<Json>)
    ensures
        match r {
            Some(j) => json_parsed(text@) == Some(j@),
            None => json_parsed(text@) is None,
        },
{
    match serde_json::from_str::<serde_json::Value>(text) {
        Ok(v) => Some(json_of_value(v)),
        Err(_) => None,
    }
}

/// Prints `j` with `serde_json::to_string_pretty` (which cannot fail on a
/// `serde_json::Value`). Trusted: the result is `json_pretty` of the value.
#[verifier::external_body]
fn pretty_json(j: &Json) -> (r: String)
    ensures
        r@ == json_pretty(j@),
{
    serde_json::to_string_pretty(&value_of_json(j)).unwrap_or_default()
}

/// The manifest parsed from the text of `package.json`, or the default
/// manifest when there is no file (`None`) or its text is not JSON.
pub fn manifest_from_text(text: Option<&str>) -> (r: Json)
    ensures
        r@ == match text {
            Some(t) => match json_parsed(t@) {
                Some(j) => j,
                None => default_manifest(),
            },
            None => default_manifest(),
        },
{
    let parsed = match text {
        Some(t) => parse_json(t),
        None => None,
    };
    profile_manifest(parsed)
}

/// The text written to `package.json`: the pretty-printed manifest and a
/// line break.
pub fn manifest_text(manifest: &Json) -> (r: String)
    ensures
        r@ == json_pretty(manifest@) + "\n"@,
{
    let mut r = pretty_json(manifest);
    r.append("\n");
    r
}

/// The string member `key` of a JSON object (its first member of that
/// name); `None` when `j` is not an object, has no such member, or the
/// member is not a string.
pub open spec fn member_text(j: JsonView, key: Seq<char>) -> Option<Seq<char>> {
    match j {
        JsonView::Object(ms) => if key_index(ms, key) < ms.len() {
            match ms[key_index(ms, key) as int].1 {
                JsonView::Str(t) => Some(t),
                _ => None,
            }
        } else {
            None
        },
        _ => None,
    }
}

/// Reads the string member `key` of a JSON object.
pub fn member_str(j: &Json, key: &str) -> (r: Option<String>)
    ensures
        match r {
            Some(t) => member_text(j@, key@) == Some(t@),
            None => member_text(j@, key@) is None,
        },
{
    match j {
        Json::Object(ms) => {
            proof {
                lemma_view_members(ms@);
            }
            let i = key_position(ms, key);
            if i < ms.len() {
                assert(view_members(ms@)[i as int] == (ms@[i as int].0@, view_json(ms@[i as int].1)));
                match &ms[i].1 {
                    Json::Str(t) => Some(t.clone()),
                    _ => None,
                }
            } else {
                None
            }
        },
        _ => None,
    }
}

/// The first candidate directory that holds a package (its
/// `package.json` exists): the plugin found by walking up the
/// `node_modules` directories from the dsh installation.
pub fn resolve_from(candidates: &Vec<(String, bool)>) -> (r: Option<String>)
    ensures
        match r {
            Some(dir) => exists|i: int|
                0 <= i < candidates@.len() && candidates@[i].1 && candidates@[i].0@ == dir@ && (
                forall|k: int| 0 <= k < i ==> !(#[trigger] candidates@[k]).1),
            None => forall|k: int| 0 <= k < candidates@.len() ==> !(#[trigger] candidates@[k]).1,
        },
{
    let mut i: usize = 0;
    while i < candidates.len()
        invariant
            i <= candidates@.len(),
            forall|k: int| 0 <= k < i ==> !(#[trigger] candidates@[k]).1,
        decreases candidates.len() - i,
    {
        if candidates[i].1 {
            return Some(candidates[i].0.clone());
        }
        i = i + 1;
    }
    None
}

/// Name of the bundled plugin.
pub const BUNDLE: &'static str = "dsh-usage-stats";

/// Directory of the profiles inside DSH_HOME, and the web profile in it.
pub const PROFILES_DIR: &'static str = "profiles";

pub const WEB_PROFILE: &'static str = "web";

/// The profile's manifest.
pub const MANIFEST_FILE: &'static str = "package.json";

/// The profile's patch layer, created empty when missing.
pub const PATCH_FILE: &'static str = "cordis.patch.yml";

pub const PATCH_TEMPLATE: &'static str = "# Your patch layer for this dsh profile, applied after every bundle layer:
# a top-level YAML array of loader patch entries (id-targeted config
# overrides, disables, and insert lists; `!!js` expressions allowed).
[]
";

/// The profile's pnpm workspace file, created when missing.
pub const WORKSPACE_FILE: &'static str = "pnpm-workspace.yaml";

pub const WORKSPACE_TEMPLATE: &'static str = "packages:
  - .

nodeLinker: hoisted
autoInstallPeers: false
";

/// Where packages are linked inside the profile.
pub const NODE_MODULES: &'static str = "node_modules";

} // verus!
