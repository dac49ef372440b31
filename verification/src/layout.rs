//! Where an installed release lives on disk, relative to the install root.

use vstd::prelude::*;
use vstd::string::StrSliceExecFns;
use vstd::string::StringExecFns;
use crate::platform::Os;

verus! {

/// The directory that holds one installed version: the binary's name, a
/// hyphen, and the release's version string.
pub open spec fn spec_version_dir(name: Seq<char>, version: Seq<char>) -> Seq<char> {
    name + "-"@ + version
}

/// Whether a separator has to be put between `dir` and a file name: not
/// after an empty directory, nor after one that already ends in `/`.
pub open spec fn spec_needs_separator(dir: Seq<char>) -> bool {
    dir.len() > 0 && dir.last() != '/'
}

/// The executable inside a version directory: the directory, a separator
/// where one is needed, the binary's name, and `.exe` on Windows.
pub open spec fn spec_binary_path(dir: Seq<char>, name: Seq<char>, os: Os) -> Seq<char> {
    if spec_needs_separator(dir) {
        dir + "/"@ + name + os.spec_executable_suffix()
    } else {
        dir + name + os.spec_executable_suffix()
    }
}

/// The entries of the install root that belong to other versions: all but
/// `keep`, in the order given.
pub open spec fn spec_stale_entries(entries: Seq<Seq<char>>, keep: Seq<char>) -> Seq<Seq<char>> {
    entries.filter(spec_is_stale(keep))
}

/// The test that tells the entries of other versions from `keep`.
pub open spec fn spec_is_stale(keep: Seq<char>) -> spec_fn(Seq<char>) -> bool {
    |entry: Seq<char>| entry != keep
}

pub fn version_dir(name: &str, version: &str) -> (dir: String)
    ensures
        dir@ == spec_version_dir(name@, version@),
{
    let mut dir = name.to_owned();
    dir.append("-");
    dir.append(version);
    dir
}

pub fn needs_separator(dir: &str) -> (needed: bool)
    ensures
        needed == spec_needs_separator(dir@),
{
    let len = dir.unicode_len();
    len > 0 && dir.get_char(len - 1) != '/'
}

pub fn binary_path(dir: &str, name: &str, os: Os) -> (path: String)
    ensures
        path@ == spec_binary_path(dir@, name@, os),
{
    let mut path = dir.to_owned();
    if needs_separator(dir) {
        path.append("/");
    }
    path.append(name);
    path.append(os.executable_suffix());
    path
}

/// Every entry that is kept is stale, and every stale entry is kept: the
/// result holds exactly the entries other than `keep`.
pub proof fn lemma_stale_entries(entries: Seq<Seq<char>>, keep: Seq<char>)
    ensures
        !spec_stale_entries(entries, keep).contains(keep),
        forall|entry: Seq<char>|
            entries.contains(entry) && entry != keep ==> #[trigger] spec_stale_entries(
                entries,
                keep,
            ).contains(entry),
        forall|entry: Seq<char>| #[trigger]
            spec_stale_entries(entries, keep).contains(entry) ==> entries.contains(entry),
        spec_stale_entries(entries, keep).len() <= entries.len(),
{
    let pred = spec_is_stale(keep);
    if spec_stale_entries(entries, keep).contains(keep) {
        entries.lemma_filter_contains_rev(pred, keep);
    }
    assert forall|entry: Seq<char>| entries.contains(entry) && entry != keep implies #[trigger]
        spec_stale_entries(entries, keep).contains(entry) by {
        let i = choose|i: int| 0 <= i < entries.len() && entries[i] == entry;
        entries.lemma_filter_contains(pred, i);
    }
    assert forall|entry: Seq<char>| #[trigger]
        spec_stale_entries(entries, keep).contains(entry) implies entries.contains(entry) by {
        entries.lemma_filter_contains_rev(pred, entry);
    }
    entries.lemma_filter_len(pred);
}

/// Picks the entries to delete after an install into `keep`.
pub fn stale_entries(entries: &Vec<String>, keep: &String) -> (stale: Vec<String>)
    ensures
        stale.deep_view() == spec_stale_entries(entries.deep_view(), keep@),
{
    let ghost all = entries.deep_view();
    let ghost pred = spec_is_stale(keep@);
    let mut stale: Vec<String> = Vec::new();
    let mut i: usize = 0;
    proof {
        reveal(Seq::filter);
        assert(all.take(0) =~= Seq::<Seq<char>>::empty());
        assert(stale.deep_view() =~= all.take(0).filter(pred));
    }
    while i < entries.len()
        invariant
            i <= entries.len(),
            all == entries.deep_view(),
            pred == spec_is_stale(keep@),
            stale.deep_view() == all.take(i as int).filter(pred),
        decreases entries.len() - i,
    {
        let ghost before = stale.deep_view();
        proof {
            reveal(Seq::filter);
            assert(all.take(i + 1).drop_last() =~= all.take(i as int));
            assert(all.take(i + 1).last() == entries[i as int]@);
        }
        if entries[i] != *keep {
            stale.push(entries[i].clone());
            proof {
                assert(stale.deep_view() =~= before.push(entries[i as int]@));
            }
        } else {
            proof {
                assert(stale.deep_view() =~= before);
            }
        }
        i += 1;
    }
    proof {
        assert(all.take(i as int) =~= all);
    }
    stale
}

} // verus!
