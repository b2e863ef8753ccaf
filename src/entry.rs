use vstd::prelude::*;

use crate::builder::{BuildType, Builder};
use crate::paths::{join, join_spec, Layout};
use crate::text::{concat, same_text};

verus! {

/// An auxiliary source component (clang, compiler-rt, ...), fetched on its
/// own and placed under the main source tree.
#[derive(Debug, Clone)]
pub struct Tool {
    pub name: String,
    pub url: String,
    pub branch: Option<String>,
    pub relative_path: Option<String>,
}

impl Tool {
    /// Where the tool goes, relative to the main source directory.
    pub open spec fn rel_path_spec(self) -> Seq<char> {
        match self.relative_path {
            Some(p) => p@,
            None => "tools/"@ + self.name@,
        }
    }

    pub fn rel_path(&self) -> (r: String)
        ensures
            r@ == self.rel_path_spec(),
    {
        match &self.relative_path {
            Some(p) => p.clone(),
            None => concat("tools/", self.name.as_str()),
        }
    }

    /// A copy of the tool, equal to it field by field.
    pub fn duplicate(&self) -> (r: Tool)
        ensures
            r == *self,
    {
        let branch = match &self.branch {
            Some(b) => Some(b.clone()),
            None => None,
        };
        let relative_path = match &self.relative_path {
            Some(p) => Some(p.clone()),
            None => None,
        };
        Tool { name: self.name.clone(), url: self.url.clone(), branch, relative_path }
    }
}

/// A copy of a list of tools, equal to it item by item.
fn copy_tools(tools: &Vec<Tool>) -> (r: Vec<Tool>)
    ensures
        r@ == tools@,
{
    let mut v: Vec<Tool> = Vec::new();
    let mut i: usize = 0;
    while i < tools.len()
        invariant
            i <= tools@.len(),
            v@ == tools@.subrange(0, i as int),
        decreases tools@.len() - i,
    {
        v.push(tools[i].duplicate());
        i = i + 1;
    }
    assert(tools@.subrange(0, tools@.len() as int) == tools@);
    v
}

/// The setting of one entry as the catalog gives it, before validation.
///
/// Exactly one of `url` and `path` must be given. `target` lists the
/// architectures to build, all of them when it is empty. `option` holds
/// further CMake definitions, one flag each, in the order given.
#[derive(Debug)]
pub struct EntrySetting {
    pub url: Option<String>,
    pub path: Option<String>,
    pub tools: Vec<Tool>,
    pub target: Vec<String>,
    pub option: Vec<(String, String)>,
    pub builder: Builder,
    pub build_type: BuildType,
}

/// Why an entry could not be built from its setting, found, or checked out.
#[derive(Debug, Clone, PartialEq, Eq)]
pub enum EntryError {
    /// Both a URL and a path were given.
    ConflictingSource,
    /// Neither a URL nor a path was given for the named entry.
    MissingSource(String),
    /// A local entry's path is not an existing directory.
    NotADirectory(String),
    /// No entry of the catalog has the name.
    NotFound(String),
}

/// A validated entry: its source is fetched from a URL into the cache, or
/// it lies in a local directory.
#[derive(Debug)]
pub enum Entry {
    Remote { name: String, url: String, tools: Vec<Tool>, setting: EntrySetting },
    Local { name: String, path: String, setting: EntrySetting },
}

/// Whether `r` is what validating `setting` under `name` gives: an error when
/// both or neither of URL and path are set, a local entry for a path, a
/// remote one, with the setting's tools, for a URL.
pub open spec fn parsed(name: Seq<char>, setting: EntrySetting, r: Result<Entry, EntryError>) -> bool {
    match (setting.url, setting.path) {
        (Some(_), Some(_)) => r == Err::<Entry, EntryError>(EntryError::ConflictingSource),
        (None, None) => match r {
            Err(EntryError::MissingSource(n)) => n@ == name,
            _ => false,
        },
        (None, Some(p)) => match r {
            Ok(Entry::Local { name: n, path, setting: s }) => n@ == name && path == p && s == setting,
            _ => false,
        },
        (Some(u), None) => match r {
            Ok(Entry::Remote { name: n, url, tools, setting: s }) => n@ == name && url == u
                && tools@ == setting.tools@ && s == setting,
            _ => false,
        },
    }
}

/// Whether a setting names exactly one source.
pub open spec fn valid_setting(setting: EntrySetting) -> bool {
    setting.url is Some != setting.path is Some
}

impl Entry {
    pub open spec fn name_spec(self) -> Seq<char> {
        match self {
            Entry::Remote { name, .. } => name@,
            Entry::Local { name, .. } => name@,
        }
    }

    pub open spec fn setting_spec(self) -> EntrySetting {
        match self {
            Entry::Remote { setting, .. } => setting,
            Entry::Local { setting, .. } => setting,
        }
    }

    /// The source directory: under the cache root for a remote entry, the
    /// given path itself for a local one.
    pub open spec fn src_dir_spec(self, layout: Layout) -> Seq<char> {
        match self {
            Entry::Remote { name, .. } => join_spec(layout.cache_root@, name@),
            Entry::Local { path, .. } => path@,
        }
    }

    pub open spec fn build_dir_spec(self, layout: Layout) -> Seq<char> {
        join_spec(self.src_dir_spec(layout), "build"@)
    }

    pub open spec fn prefix_spec(self, layout: Layout) -> Seq<char> {
        join_spec(layout.data_root@, self.name_spec())
    }

    /// The entry that `setting` gives under `name`, or why it gives none.
    pub fn parse_setting(name: &str, setting: EntrySetting) -> (r: Result<Entry, EntryError>)
        ensures
            parsed(name@, setting, r),
            r is Ok <==> valid_setting(setting),
    {
        if setting.path.is_some() && setting.url.is_some() {
            return Err(EntryError::ConflictingSource);
        }
        if let Some(path) = &setting.path {
            let path = path.clone();
            return Ok(Entry::Local { name: String::from_str(name), path, setting });
        }
        if let Some(url) = &setting.url {
            let url = url.clone();
            let tools = copy_tools(&setting.tools);
            return Ok(Entry::Remote { name: String::from_str(name), url, tools, setting });
        }
        Err(EntryError::MissingSource(String::from_str(name)))
    }

    /// Whether the setting lists tools that a local entry ignores.
    pub fn ignores_tools(&self) -> (r: bool)
        ensures
            r == (self is Local && self.setting_spec().tools@.len() > 0),
    {
        match self {
            Entry::Remote { .. } => false,
            Entry::Local { setting, .. } => setting.tools.len() > 0,
        }
    }

    pub fn setting(&self) -> (r: &EntrySetting)
        ensures
            *r == self.setting_spec(),
    {
        match self {
            Entry::Remote { setting, .. } => setting,
            Entry::Local { setting, .. } => setting,
        }
    }

    pub fn name(&self) -> (r: &str)
        ensures
            r@ == self.name_spec(),
    {
        match self {
            Entry::Remote { name, .. } => name.as_str(),
            Entry::Local { name, .. } => name.as_str(),
        }
    }

    pub fn src_dir(&self, layout: &Layout) -> (r: String)
        ensures
            r@ == self.src_dir_spec(*layout),
    {
        match self {
            Entry::Remote { name, .. } => join(layout.cache_root.as_str(), name.as_str()),
            Entry::Local { path, .. } => path.clone(),
        }
    }

    pub fn build_dir(&self, layout: &Layout) -> (r: String)
        ensures
            r@ == self.build_dir_spec(*layout),
    {
        let src = self.src_dir(layout);
        join(src.as_str(), "build")
    }

    pub fn prefix(&self, layout: &Layout) -> (r: String)
        ensures
            r@ == self.prefix_spec(*layout),
    {
        join(layout.data_root.as_str(), self.name())
    }
}

/// Whether validating the settings one by one gives no error before index `k`.
pub open spec fn valid_before(settings: Seq<(String, EntrySetting)>, k: int) -> bool {
    forall|j: int| 0 <= j < k ==> valid_setting(#[trigger] settings[j].1)
}

/// The entries of a catalog, validated in order; the first setting that
/// fails validation fails the whole catalog with its error.
pub fn parse_entries(settings: Vec<(String, EntrySetting)>) -> (r: Result<Vec<Entry>, EntryError>)
    ensures
        r is Ok <==> valid_before(settings@, settings@.len() as int),
        r is Ok ==> r->Ok_0@.len() == settings@.len() && forall|i: int|
            0 <= i < settings@.len() ==> parsed(
                #[trigger] settings@[i].0@,
                settings@[i].1,
                Ok(r->Ok_0@[i]),
            ),
        r is Err ==> exists|k: int|
            0 <= k < settings@.len() && valid_before(settings@, k) && !valid_setting(
                #[trigger] settings@[k].1,
            ) && parsed(settings@[k].0@, settings@[k].1, Err(r->Err_0)),
{
    let ghost all = settings@;
    let mut rest = settings;
    let mut out: Vec<Entry> = Vec::new();
    while rest.len() > 0
        invariant
            all == settings@,
            out@.len() + rest@.len() == all.len(),
            rest@ == all.subrange(out@.len() as int, all.len() as int),
            valid_before(all, out@.len() as int),
            forall|i: int| 0 <= i < out@.len() ==> parsed(#[trigger] all[i].0@, all[i].1, Ok(out@[i])),
        decreases rest@.len(),
    {
        let ghost k = out@.len() as int;
        let (name, setting) = rest.remove(0);
        assert(all[k] == (name, setting));
        match Entry::parse_setting(name.as_str(), setting) {
            Ok(e) => {
                out.push(e);
                assert(rest@ =~= all.subrange(out@.len() as int, all.len() as int));
            },
            Err(err) => {
                assert(!valid_setting(all[k].1));
                assert(!valid_before(all, all.len() as int));
                assert(parsed(all[k].0@, all[k].1, Err(err)));
                return Err(err);
            },
        }
    }
    Ok(out)
}

/// The first entry named `name`.
pub fn find_entry(entries: Vec<Entry>, name: &str) -> (r: Result<Entry, EntryError>)
    ensures
        r is Ok ==> exists|i: int|
            0 <= i < entries@.len() && r->Ok_0 == entries@[i] && entries@[i].name_spec() == name@
                && forall|j: int| 0 <= j < i ==> (#[trigger] entries@[j]).name_spec() != name@,
        r is Err ==> (forall|i: int| 0 <= i < entries@.len() ==> (#[trigger] entries@[i]).name_spec() != name@),
        r is Err ==> (r->Err_0 matches EntryError::NotFound(n) && n@ == name@),
{
    let ghost all = entries@;
    let mut rest = entries;
    let ghost mut k: int = 0;
    while rest.len() > 0
        invariant
            all == entries@,
            0 <= k <= all.len(),
            rest@ == all.subrange(k, all.len() as int),
            forall|j: int| 0 <= j < k ==> (#[trigger] all[j]).name_spec() != name@,
        decreases rest@.len(),
    {
        let e = rest.remove(0);
        assert(all[k] == e);
        if same_text(e.name(), name) {
            assert(all[k] == e && e.name_spec() == name@);
            return Ok(e);
        }
        proof {
            k = k + 1;
        }
        assert(rest@ =~= all.subrange(k, all.len() as int));
    }
    Err(EntryError::NotFound(String::from_str(name)))
}

} // verus!
