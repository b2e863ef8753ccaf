use vstd::prelude::*;

use crate::entry::{parsed, Entry, EntryError, EntrySetting};
use crate::lifecycle::Fetch;
use crate::paths::{join_spec, Layout};

verus! {

/// A setting with both a URL and a path is rejected as conflicting, and one
/// with neither as missing its source.
pub proof fn lemma_source_must_be_unique(
    name: Seq<char>,
    setting: EntrySetting,
    r: Result<Entry, EntryError>,
)
    requires
        parsed(name, setting, r),
    ensures
        setting.url is Some && setting.path is Some ==> r == Err::<Entry, EntryError>(
            EntryError::ConflictingSource,
        ),
        setting.url is None && setting.path is None ==> (r matches Err(EntryError::MissingSource(n))
            && n@ == name),
{
}

/// A setting with only a path gives a local entry whose source directory is
/// that path exactly, whatever the layout.
pub proof fn lemma_local_src_dir_is_path(
    name: Seq<char>,
    setting: EntrySetting,
    r: Result<Entry, EntryError>,
    layout: Layout,
)
    requires
        setting.url is None,
        setting.path is Some,
        parsed(name, setting, r),
    ensures
        r matches Ok(e) && e is Local && e.src_dir_spec(layout) == setting.path->Some_0@,
{
}

/// A setting with only a URL gives a remote entry whose source directory is
/// the entry's name under the cache root, whatever the URL.
pub proof fn lemma_remote_src_dir_in_cache(
    name: Seq<char>,
    setting: EntrySetting,
    r: Result<Entry, EntryError>,
    layout: Layout,
)
    requires
        setting.url is Some,
        setting.path is None,
        parsed(name, setting, r),
    ensures
        r matches Ok(e) && e is Remote && e.src_dir_spec(layout) == join_spec(layout.cache_root@, name),
{
}

/// For both kinds of entry, the build directory is `build` under the source
/// directory and the prefix is the entry's name under the data root.
pub proof fn lemma_derived_paths(e: Entry, layout: Layout)
    ensures
        e.build_dir_spec(layout) == join_spec(e.src_dir_spec(layout), "build"@),
        e.prefix_spec(layout) == join_spec(layout.data_root@, e.name_spec()),
{
}

/// Whether `rs` are the decisions of a whole checkout, step by step, where
/// `present` tells for each step whether its directory existed.
pub open spec fn checkout_run(
    e: Entry,
    layout: Layout,
    present: Seq<bool>,
    rs: Seq<Result<Option<Fetch>, EntryError>>,
) -> bool {
    &&& present.len() == e.checkout_len_spec()
    &&& rs.len() == present.len()
    &&& forall|i: int| 0 <= i < rs.len() ==> e.checkout_outcome(layout, i as nat, present[i], #[trigger] rs[i])
}

/// Checking out again, once every directory that checkout probes exists,
/// fetches nothing and fails nowhere.
pub proof fn lemma_checkout_again_fetches_nothing(
    e: Entry,
    layout: Layout,
    present: Seq<bool>,
    rs: Seq<Result<Option<Fetch>, EntryError>>,
)
    requires
        checkout_run(e, layout, present, rs),
        forall|i: int| 0 <= i < present.len() ==> #[trigger] present[i],
    ensures
        forall|i: int| 0 <= i < rs.len() ==> #[trigger] rs[i] == Ok::<Option<Fetch>, EntryError>(None),
{
    assert forall|i: int| 0 <= i < rs.len() implies #[trigger] rs[i] == Ok::<Option<Fetch>, EntryError>(
        None,
    ) by {
        assert(present[i]);
    }
}

/// Checkout of a local entry probes its path alone: it fails with
/// `NotADirectory` when the path is no directory, and otherwise succeeds
/// without fetching anything.
pub proof fn lemma_local_checkout(
    e: Entry,
    layout: Layout,
    present: Seq<bool>,
    rs: Seq<Result<Option<Fetch>, EntryError>>,
)
    requires
        e is Local,
        checkout_run(e, layout, present, rs),
    ensures
        rs.len() == 1,
        present[0] ==> rs[0] == Ok::<Option<Fetch>, EntryError>(None),
        !present[0] ==> (rs[0] matches Err(EntryError::NotADirectory(p)) && p == e->Local_path),
{
    assert(e.checkout_outcome(layout, 0, present[0], rs[0]));
}

/// Checkout of a remote entry where nothing exists yet fetches every source
/// once, in order: the main source from the entry's URL into its source
/// directory, then each tool; with no tools, that one fetch is all.
pub proof fn lemma_fresh_checkout_fetches_each_source(
    e: Entry,
    layout: Layout,
    present: Seq<bool>,
    rs: Seq<Result<Option<Fetch>, EntryError>>,
)
    requires
        e is Remote,
        checkout_run(e, layout, present, rs),
        forall|i: int| 0 <= i < present.len() ==> !#[trigger] present[i],
    ensures
        rs.len() == e->Remote_tools@.len() + 1,
        forall|i: int|
            0 <= i < rs.len() ==> (#[trigger] rs[i] matches Ok(Some(f)) && f.url@ == e.url_spec(i as nat)
                && f.dest@ == e.target_spec(layout, i as nat)),
        rs[0] matches Ok(Some(f)) && f.url@ == e->Remote_url@ && f.dest@ == e.src_dir_spec(layout),
{
    assert forall|i: int| 0 <= i < rs.len() implies (#[trigger] rs[i] matches Ok(Some(f)) && f.url@
        == e.url_spec(i as nat) && f.dest@ == e.target_spec(layout, i as nat)) by {
        assert(!present[i]);
        assert(e.checkout_outcome(layout, i as nat, present[i], rs[i]));
    }
    assert(!present[0]);
    assert(e.checkout_outcome(layout, 0, present[0], rs[0]));
}

} // verus!
