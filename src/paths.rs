use vstd::prelude::*;

verus! {

/// `name` appended to `base` the way a POSIX path join does: an absolute
/// `name` replaces `base`; otherwise one separator stands between them.
pub open spec fn joined(base: Seq<char>, name: Seq<char>) -> Seq<char> {
    if name.len() > 0 && name[0] == '/' {
        name
    } else if base.len() == 0 || base.last() == '/' {
        base + name
    } else {
        base + seq!['/'] + name
    }
}

/// What one character of a path becomes when `~` stands for `home`.
pub open spec fn expand_char(c: char, home: Seq<char>) -> Seq<char> {
    if c == '~' {
        home
    } else {
        seq![c]
    }
}

/// `s` with every `~` replaced by `home`.
pub open spec fn expand_tilde(s: Seq<char>, home: Seq<char>) -> Seq<char>
    decreases s.len(),
{
    if s.len() == 0 {
        Seq::empty()
    } else {
        expand_tilde(s.drop_last(), home) + expand_char(s.last(), home)
    }
}

/// The directory that stands for `~`: the home directory when it is known,
/// `/root` otherwise.
pub open spec fn home_or_root(home: Option<Seq<char>>) -> Seq<char> {
    match home {
        Some(h) => h,
        None => "/root"@,
    }
}

/// The root directory of the devkit's own files.
pub open spec fn devkit_root_of(home: Option<Seq<char>>) -> Seq<char> {
    home_or_root(home) + "/.cardano-devkit"@
}

/// The default location of the configuration file; an unknown home directory
/// is written as `~`.
pub open spec fn config_path_of(home: Option<Seq<char>>) -> Seq<char> {
    let h = match home {
        Some(h) => h,
        None => "~"@,
    };
    joined(joined(h, ".cardano-devkit"@), "config.json"@)
}

pub open spec fn opt_view(o: Option<&str>) -> Option<Seq<char>> {
    match o {
        Some(s) => Some(s@),
        None => None,
    }
}

/// A path without `~` is left as it is.
pub proof fn lemma_expand_without_tilde(s: Seq<char>, home: Seq<char>)
    requires
        !s.contains('~'),
    ensures
        expand_tilde(s, home) == s,
    decreases s.len(),
{
    if s.len() > 0 {
        assert(!s.drop_last().contains('~')) by {
            if s.drop_last().contains('~') {
                let i = choose|i: int| 0 <= i < s.drop_last().len() && s.drop_last()[i] == '~';
                assert(s[i] == '~');
            }
        }
        lemma_expand_without_tilde(s.drop_last(), home);
        assert(s.last() != '~') by {
            if s.last() == '~' {
                assert(s[s.len() - 1] == '~');
            }
        }
        assert(s.drop_last() + seq![s.last()] =~= s);
    }
}

/// Expanding a path whose only `~` leads it: `~` followed by `rest` becomes
/// the home directory followed by `rest`.
pub proof fn lemma_expand_leading_tilde(rest: Seq<char>, home: Seq<char>)
    requires
        !rest.contains('~'),
    ensures
        expand_tilde(seq!['~'] + rest, home) == home + rest,
    decreases rest.len(),
{
    if rest.len() == 0 {
        let s = seq!['~'] + rest;
        assert(s.drop_last() =~= Seq::<char>::empty());
        assert(expand_tilde(s.drop_last(), home) == Seq::<char>::empty());
        assert(s.last() == '~');
        assert(Seq::<char>::empty() + home =~= home);
        assert(home + rest =~= home);
    } else {
        let s = seq!['~'] + rest;
        assert(s.drop_last() =~= seq!['~'] + rest.drop_last());
        assert(!rest.drop_last().contains('~')) by {
            if rest.drop_last().contains('~') {
                let i = choose|i: int|
                    0 <= i < rest.drop_last().len() && rest.drop_last()[i] == '~';
                assert(rest[i] == '~');
            }
        }
        lemma_expand_leading_tilde(rest.drop_last(), home);
        assert(rest.last() != '~') by {
            if rest.last() == '~' {
                assert(rest[rest.len() - 1] == '~');
            }
        }
        assert(s.last() == rest.last());
        assert(expand_char(s.last(), home) == seq![rest.last()]);
        assert(expand_tilde(s, home) == expand_tilde(s.drop_last(), home) + seq![rest.last()]);
        assert(home + rest.drop_last() + seq![rest.last()] =~= home + rest);
    }
}

/// `base` joined with `name` as a POSIX path join does.
pub fn join_path(base: &str, name: &str) -> (r: String)
    ensures
        r@ == joined(base@, name@),
{
    let nlen = name.unicode_len();
    let blen = base.unicode_len();
    if nlen > 0 && name.get_char(0) == '/' {
        String::from_str(name)
    } else if blen == 0 || base.get_char(blen - 1) == '/' {
        let mut r = String::from_str(base);
        r.append(name);
        r
    } else {
        let mut r = String::from_str(base);
        r.append("/");
        r.append(name);
        proof {
            reveal_strlit("/");
        }
        assert(r@ =~= base@ + seq!['/'] + name@);
        r
    }
}

/// `path` with every `~` replaced by `home`, or by `/root` when no home
/// directory is known.
pub fn expand_home_symbol(path: &str, home: Option<&str>) -> (r: String)
    ensures
        r@ == expand_tilde(path@, home_or_root(opt_view(home))),
{
    let h: &str = match home {
        Some(h) => h,
        None => "/root",
    };
    let ghost hv = home_or_root(opt_view(home));
    assert(h@ == hv);
    let n = path.unicode_len();
    let mut r = String::new();
    let mut i: usize = 0;
    while i < n
        invariant
            i <= n,
            n == path@.len(),
            h@ == hv,
            r@ == expand_tilde(path@.subrange(0, i as int), hv),
        decreases n - i,
    {
        let c = path.get_char(i);
        if c == '~' {
            r.append(h);
        } else {
            r.append(path.substring_char(i, i + 1));
            assert(path@.subrange(i as int, i + 1) =~= seq![c]);
        }
        assert(path@.subrange(0, i + 1).drop_last() =~= path@.subrange(0, i as int));
        i = i + 1;
    }
    assert(path@.subrange(0, n as int) =~= path@);
    r
}

/// Relies on dirs::home_dir: the current user's home directory, when the
/// environment or the user database gives one. Nothing is known of the value.
#[verifier::external_body]
fn home_directory() -> (r: Option<String>) {
    dirs::home_dir().map(|p| p.to_string_lossy().into_owned())
}

/// `path` with every `~` replaced by the current home directory (or `/root`
/// when none can be found).
pub fn resolve_home_symbol(path: &str) -> (r: String)
    ensures
        exists|home: Option<Seq<char>>| r@ == expand_tilde(path@, #[trigger] home_or_root(home)),
        !path@.contains('~') ==> r@ == path@,
{
    let home = home_directory();
    let r = match &home {
        Some(h) => expand_home_symbol(path, Some(h.as_str())),
        None => expand_home_symbol(path, None),
    };
    proof {
        let hv: Option<Seq<char>> = match home {
            Some(h) => Some(h@),
            None => None,
        };
        assert(r@ == expand_tilde(path@, home_or_root(hv)));
        if !path@.contains('~') {
            lemma_expand_without_tilde(path@, home_or_root(hv));
        }
    }
    r
}

/// The devkit root for a given home directory: `<home>/.cardano-devkit`, or
/// `/root/.cardano-devkit` when none is known.
pub fn devkit_root_for(home: Option<&str>) -> (r: String)
    ensures
        r@ == devkit_root_of(opt_view(home)),
{
    let mut r = match home {
        Some(h) => String::from_str(h),
        None => String::from_str("/root"),
    };
    r.append("/.cardano-devkit");
    r
}

/// The devkit root under the current home directory.
pub fn get_devkit_root() -> (r: String)
    ensures
        exists|home: Option<Seq<char>>| r@ == #[trigger] devkit_root_of(home),
{
    let home = home_directory();
    match &home {
        Some(h) => devkit_root_for(Some(h.as_str())),
        None => devkit_root_for(None),
    }
}

/// The default configuration file location for a given home directory.
pub fn config_path_for(home: Option<&str>) -> (r: String)
    ensures
        r@ == config_path_of(opt_view(home)),
{
    let h: &str = match home {
        Some(h) => h,
        None => "~",
    };
    let dir = join_path(h, ".cardano-devkit");
    join_path(dir.as_str(), "config.json")
}

/// The default configuration file location under the current home directory.
pub fn default_config_path() -> (r: String)
    ensures
        exists|home: Option<Seq<char>>| r@ == #[trigger] config_path_of(home),
{
    let home = home_directory();
    match &home {
        Some(h) => config_path_for(Some(h.as_str())),
        None => config_path_for(None),
    }
}

} // verus!
