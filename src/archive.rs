use vstd::prelude::*;
use crate::paths::{join_path, joined};

verus! {

/// What the installer reads of one archive entry.
#[derive(Debug)]
pub struct ArchiveEntry {
    /// The entry's name inside the archive; directories end in `/`.
    pub name: String,
    /// The POSIX permission mode recorded for the entry, if any.
    pub unix_mode: Option<u32>,
}

/// What to do with one archive entry.
#[derive(Debug)]
pub struct EntryStep {
    /// Where the entry lands.
    pub path: String,
    /// Create a directory there (else write the entry's contents to a file,
    /// creating its parent directories as needed).
    pub is_dir: bool,
    /// The permission mode to apply afterwards, verbatim.
    pub mode: Option<u32>,
}

/// The extraction of a whole archive.
#[derive(Debug)]
pub struct InstallLayout {
    /// One step per entry, in archive order.
    pub steps: Vec<EntryStep>,
    /// The single folder that wraps the archive's content, when there is one:
    /// its children move up into the destination once all entries are written,
    /// and the folder itself is removed.
    pub root_folder: Option<String>,
}

/// `s` without its trailing `/` characters.
pub open spec fn trim_slashes(s: Seq<char>) -> Seq<char>
    decreases s.len(),
{
    if s.len() > 0 && s.last() == '/' {
        trim_slashes(s.drop_last())
    } else {
        s
    }
}

/// What stands before the last `/` of `s` (empty when there is none).
pub open spec fn before_last_slash(s: Seq<char>) -> Seq<char>
    decreases s.len(),
{
    if s.len() == 0 {
        Seq::empty()
    } else if s.last() == '/' {
        s.drop_last()
    } else {
        before_last_slash(s.drop_last())
    }
}

/// The directory part of an entry name: `release/bin/` and `release/notes`
/// both lie in `release`; a top-level name has none.
pub open spec fn dir_part(name: Seq<char>) -> Seq<char> {
    before_last_slash(trim_slashes(name))
}

pub open spec fn is_dir_name(name: Seq<char>) -> bool {
    name.len() > 0 && name.last() == '/'
}

/// The folder recorded from the second entry, when it lies in one.
pub open spec fn root_folder_of(destination: Seq<char>, names: Seq<Seq<char>>) -> Option<
    Seq<char>,
> {
    if names.len() < 2 || dir_part(names[1]).len() == 0 || joined(destination, dir_part(names[1]))
        == destination {
        None
    } else {
        Some(joined(destination, dir_part(names[1])))
    }
}

pub open spec fn names_of(entries: Seq<ArchiveEntry>) -> Seq<Seq<char>> {
    entries.map_values(|e: ArchiveEntry| e.name@)
}

/// Extracting `entries` into `destination`: step `i` puts entry `i` at the
/// destination joined with its name, as a directory exactly when the name
/// ends in `/`, with the entry's recorded mode.
pub open spec fn layout_matches(
    r: InstallLayout,
    destination: Seq<char>,
    entries: Seq<ArchiveEntry>,
) -> bool {
    &&& r.steps@.len() == entries.len()
    &&& forall|i: int|
        0 <= i < entries.len() ==> {
            &&& (#[trigger] r.steps@[i]).path@ == joined(destination, entries[i].name@)
            &&& r.steps@[i].is_dir == is_dir_name(entries[i].name@)
            &&& r.steps@[i].mode == entries[i].unix_mode
        }
    &&& match r.root_folder {
        Some(f) => root_folder_of(destination, names_of(entries)) == Some(f@),
        None => root_folder_of(destination, names_of(entries)) is None,
    }
}

fn trim_slashes_len(s: &str) -> (r: usize)
    ensures
        r <= s@.len(),
        s@.subrange(0, r as int) == trim_slashes(s@),
{
    let n = s.unicode_len();
    let mut end: usize = n;
    assert(s@.subrange(0, n as int) =~= s@);
    while end > 0 && s.get_char(end - 1) == '/'
        invariant
            end <= n,
            n == s@.len(),
            trim_slashes(s@.subrange(0, end as int)) == trim_slashes(s@),
        decreases end,
    {
        assert(s@.subrange(0, end as int).drop_last() =~= s@.subrange(0, end - 1));
        end = end - 1;
    }
    end
}

/// The directory part of an entry name (see `dir_part`).
pub fn entry_dir(name: &str) -> (r: String)
    ensures
        r@ == dir_part(name@),
{
    let t = trim_slashes_len(name);
    let ghost ts = name@.subrange(0, t as int);
    let mut k: usize = t;
    while k > 0 && name.get_char(k - 1) != '/'
        invariant
            k <= t,
            t <= name@.len(),
            ts == name@.subrange(0, t as int),
            before_last_slash(name@.subrange(0, k as int)) == before_last_slash(ts),
        decreases k,
    {
        assert(name@.subrange(0, k as int).drop_last() =~= name@.subrange(0, k - 1));
        k = k - 1;
    }
    if k == 0 {
        assert(name@.subrange(0, 0) =~= Seq::<char>::empty());
        String::new()
    } else {
        assert(name@.subrange(0, k as int).drop_last() =~= name@.subrange(0, k - 1));
        String::from_str(name.substring_char(0, k - 1))
    }
}

/// Plans the extraction of an archive whose entries are `entries`, in order,
/// into `destination`.
pub fn unzip_file(destination: &str, entries: &Vec<ArchiveEntry>) -> (r: InstallLayout)
    ensures
        layout_matches(r, destination@, entries@),
{
    let mut steps: Vec<EntryStep> = Vec::new();
    let mut i: usize = 0;
    while i < entries.len()
        invariant
            i <= entries@.len(),
            steps@.len() == i,
            forall|j: int|
                0 <= j < i ==> {
                    &&& (#[trigger] steps@[j]).path@ == joined(destination@, entries@[j].name@)
                    &&& steps@[j].is_dir == is_dir_name(entries@[j].name@)
                    &&& steps@[j].mode == entries@[j].unix_mode
                },
        decreases entries@.len() - i,
    {
        let e = &entries[i];
        let n = e.name.as_str().unicode_len();
        let is_dir = n > 0 && e.name.as_str().get_char(n - 1) == '/';
        steps.push(
            EntryStep {
                path: join_path(destination, e.name.as_str()),
                is_dir,
                mode: e.unix_mode,
            },
        );
        i = i + 1;
    }
    let mut root_folder: Option<String> = None;
    if entries.len() >= 2 {
        let dir = entry_dir(entries[1].name.as_str());
        if dir.as_str().unicode_len() > 0 {
            let folder = join_path(destination, dir.as_str());
            if !(folder == String::from_str(destination)) {
                root_folder = Some(folder);
            }
        }
    }
    proof {
        if entries@.len() >= 2 {
            assert(names_of(entries@)[1] == entries@[1].name@);
        }
    }
    InstallLayout { steps, root_folder }
}

/// Where a child of the root folder goes when the layout is flattened.
pub fn flatten_target(destination: &str, child_name: &str) -> (r: String)
    ensures
        r@ == joined(destination@, child_name@),
{
    join_path(destination, child_name)
}

/// `mode` with the execute bits for owner, group and others added.
pub fn executable_mode(mode: u32) -> (r: u32)
    ensures
        r == mode | 0o111u32,
        r & 0o111u32 == 0o111u32,
        r & mode == mode,
{
    let r = mode | 0o111u32;
    assert(r & 0o111u32 == 0o111u32 && r & mode == mode) by (bit_vector)
        requires
            r == mode | 0o111u32,
    ;
    r
}

/// Permissions survive extraction: an entry whose archive records a mode
/// (say, one with the execute bits set) gets exactly that mode, applied to the
/// path where the entry lands.
pub proof fn lemma_modes_kept(
    r: InstallLayout,
    destination: Seq<char>,
    entries: Seq<ArchiveEntry>,
    i: int,
    m: u32,
)
    requires
        layout_matches(r, destination, entries),
        0 <= i < entries.len(),
        entries[i].unix_mode == Some(m),
    ensures
        r.steps@[i].mode == Some(m),
        r.steps@[i].path@ == joined(destination, entries[i].name@),
        r.steps@[i].is_dir == is_dir_name(entries[i].name@),
{
    assert(r.steps@[i].mode == entries[i].unix_mode);
}

proof fn lemma_before_last_slash_of_leaf(top: Seq<char>, leaf: Seq<char>)
    requires
        !leaf.contains('/'),
    ensures
        before_last_slash(top + seq!['/'] + leaf) == top,
    decreases leaf.len(),
{
    let s = top + seq!['/'] + leaf;
    if leaf.len() == 0 {
        assert(s =~= top.push('/'));
        assert(s.drop_last() =~= top);
    } else {
        assert(leaf.last() != '/') by {
            assert(leaf[leaf.len() - 1] == leaf.last());
        }
        assert(!leaf.drop_last().contains('/')) by {
            if leaf.drop_last().contains('/') {
                let j = choose|j: int| 0 <= j < leaf.drop_last().len() && leaf.drop_last()[j] == '/';
                assert(leaf[j] == '/');
            }
        }
        assert(s.drop_last() =~= top + seq!['/'] + leaf.drop_last());
        lemma_before_last_slash_of_leaf(top, leaf.drop_last());
    }
}

/// The folder that wraps a release: when the second entry of an archive is
/// `top/leaf` or `top/leaf/`, with a non-empty `top` and `leaf` free of `/`,
/// the folder recorded is the destination joined with `top`, so that the
/// content under it moves up into the destination. A name of the form
/// `top/` is a directory, and any other is a file.
pub proof fn lemma_single_root_folder(
    destination: Seq<char>,
    names: Seq<Seq<char>>,
    top: Seq<char>,
    leaf: Seq<char>,
    trailing: bool,
)
    requires
        names.len() >= 2,
        names[1] == (if trailing {
            top + seq!['/'] + leaf + seq!['/']
        } else {
            top + seq!['/'] + leaf
        }),
        top.len() > 0,
        top[0] != '/',
        !top.contains('/'),
        leaf.len() > 0,
        !leaf.contains('/'),
        destination.len() > 0,
    ensures
        dir_part(names[1]) == top,
        root_folder_of(destination, names) == Some(joined(destination, top)),
{
    let base = top + seq!['/'] + leaf;
    assert(base.last() == leaf.last());
    assert(leaf.last() != '/') by {
        assert(leaf[leaf.len() - 1] == leaf.last());
    }
    assert(base.len() > 0);
    assert(trim_slashes(base) == base);
    if trailing {
        let s = base + seq!['/'];
        assert(s.drop_last() =~= base);
        assert(s.last() == '/');
        assert(trim_slashes(s) == trim_slashes(base));
    }
    assert(trim_slashes(names[1]) == base);
    lemma_before_last_slash_of_leaf(top, leaf);
    let j = joined(destination, top);
    assert(j.len() > destination.len());
}

} // verus!
