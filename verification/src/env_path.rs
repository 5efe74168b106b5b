//! The directories added to `PATH` so that tools installed per user are found.
use vstd::prelude::*;
use crate::paths::{home_dir, home_reported, opt_dir, path_join, path_join_spec, Platform};
use crate::text::{chars_of, slice_chars, starts_with, starts_with_spec, str_eq, string_of, strings_view};

verus! {

/// Directories under the home directory that hold user-installed tools, on every Unix.
pub open spec fn unix_dirs_spec() -> Seq<Seq<char>> {
    seq![
        "~/.bun/bin"@,
        "~/.opencode/bin"@,
        "~/.npm-global/bin"@,
        "~/.local/bin"@,
        "~/.cargo/bin"@,
        "~/go/bin"@,
        "~/.nvm/versions/node"@,
    ]
}

/// System directories of Homebrew and `/usr/local` on macOS.
pub open spec fn macos_dirs_spec() -> Seq<Seq<char>> {
    seq!["/opt/homebrew/bin"@, "/opt/homebrew/sbin"@, "/usr/local/bin"@, "/usr/local/sbin"@]
}

/// System directories of snaps and `/usr/local` on Linux.
pub open spec fn linux_dirs_spec() -> Seq<Seq<char>> {
    seq!["/snap/bin"@, "/usr/local/bin"@]
}

/// The text of each of a list of strings.
pub open spec fn strs_view(v: Seq<&str>) -> Seq<Seq<char>> {
    v.map_values(|s: &str| s@)
}

fn push_str_item(v: &mut Vec<&'static str>, s: &'static str)
    ensures
        strs_view(final(v)@) == strs_view(old(v)@).push(s@),
{
    v.push(s);
    assert(strs_view(v@) =~= strs_view(old(v)@).push(s@));
}

/// The home-relative tool directories of every Unix.
pub fn extra_path_dirs_unix() -> (r: Vec<&'static str>)
    ensures
        strs_view(r@) == unix_dirs_spec(),
{
    let mut r: Vec<&'static str> = Vec::new();
    push_str_item(&mut r, "~/.bun/bin");
    push_str_item(&mut r, "~/.opencode/bin");
    push_str_item(&mut r, "~/.npm-global/bin");
    push_str_item(&mut r, "~/.local/bin");
    push_str_item(&mut r, "~/.cargo/bin");
    push_str_item(&mut r, "~/go/bin");
    push_str_item(&mut r, "~/.nvm/versions/node");
    assert(strs_view(r@) =~= unix_dirs_spec());
    r
}

/// The system tool directories of macOS.
pub fn extra_path_dirs_macos() -> (r: Vec<&'static str>)
    ensures
        strs_view(r@) == macos_dirs_spec(),
{
    let mut r: Vec<&'static str> = Vec::new();
    push_str_item(&mut r, "/opt/homebrew/bin");
    push_str_item(&mut r, "/opt/homebrew/sbin");
    push_str_item(&mut r, "/usr/local/bin");
    push_str_item(&mut r, "/usr/local/sbin");
    assert(strs_view(r@) =~= macos_dirs_spec());
    r
}

/// The system tool directories of Linux.
pub fn extra_path_dirs_linux() -> (r: Vec<&'static str>)
    ensures
        strs_view(r@) == linux_dirs_spec(),
{
    let mut r: Vec<&'static str> = Vec::new();
    push_str_item(&mut r, "/snap/bin");
    push_str_item(&mut r, "/usr/local/bin");
    assert(strs_view(r@) =~= linux_dirs_spec());
    r
}

/// The directories to try on `platform`: the Unix ones, then the platform's own.
pub open spec fn candidates_spec(platform: Platform) -> Seq<Seq<char>> {
    match platform {
        Platform::MacOs => unix_dirs_spec() + macos_dirs_spec(),
        Platform::Linux => unix_dirs_spec() + linux_dirs_spec(),
        _ => unix_dirs_spec(),
    }
}

/// The directories to try on `platform`.
pub fn extra_path_candidates(platform: Platform) -> (r: Vec<&'static str>)
    ensures
        strs_view(r@) == candidates_spec(platform),
{
    let mut r = extra_path_dirs_unix();
    let more = match platform {
        Platform::MacOs => extra_path_dirs_macos(),
        Platform::Linux => extra_path_dirs_linux(),
        _ => Vec::new(),
    };
    let ghost base = strs_view(r@);
    let mut i: usize = 0;
    while i < more.len()
        invariant
            i <= more.len(),
            strs_view(r@) == base + strs_view(more@).take(i as int),
        decreases more.len() - i,
    {
        push_str_item(&mut r, more[i]);
        assert(strs_view(more@).take(i + 1) =~= strs_view(more@).take(i as int).push(more@[i as int]@));
        assert(base + strs_view(more@).take(i + 1) =~= (base + strs_view(more@).take(i as int)).push(more@[i as int]@));
        i += 1;
    }
    assert(strs_view(more@).take(more.len() as int) =~= strs_view(more@));
    assert(strs_view(r@) =~= candidates_spec(platform));
    r
}

/// `s` with a leading `~` standing for `home`: `~/rest` is `rest` under
/// `home`, `~` alone is `home`, and any other text is kept. Nothing comes
/// out for a `~` path when there is no home directory.
pub open spec fn expand_tilde_spec(s: Seq<char>, home: Option<Seq<char>>) -> Option<Seq<char>> {
    if starts_with_spec(s, "~/"@) {
        match home {
            Some(h) => Some(path_join_spec(h, s.skip(2))),
            None => None,
        }
    } else if s == "~"@ {
        home
    } else {
        Some(s)
    }
}

/// The view of an optional string.
pub open spec fn opt_view(o: Option<String>) -> Option<Seq<char>> {
    match o {
        Some(s) => Some(s@),
        None => None,
    }
}

/// Expands a leading `~` of `s` with the given home directory.
pub fn expand_tilde_with_home(s: &str, home: Option<String>) -> (r: Option<String>)
    ensures
        opt_view(r) == expand_tilde_spec(s@, opt_view(home)),
{
    let v = chars_of(s);
    let prefix = chars_of("~/");
    proof {
        reveal_strlit("~/");
    }
    if starts_with(&v, &prefix) {
        match home {
            Some(h) => {
                let rest = string_of(&slice_chars(&v, 2, v.len()));
                assert(rest@ =~= s@.skip(2));
                Some(path_join(h.as_str(), rest.as_str()))
            },
            None => None,
        }
    } else if str_eq(s, "~") {
        home
    } else {
        Some(String::from_str(s))
    }
}

/// Expands a leading `~` of `s` to the home directory the platform reports.
pub fn expand_tilde(s: &str) -> (r: Option<String>)
    ensures
        exists|home: Option<Seq<char>>|
            #[trigger] home_reported(home) && opt_view(r) == expand_tilde_spec(s@, home),
{
    let home = home_dir();
    let r = expand_tilde_with_home(s, home);
    assert(opt_view(home) == opt_dir(home));
    assert(home_reported(opt_view(home)) && opt_view(r) == expand_tilde_spec(s@, opt_view(home)));
    r
}

/// Holds when a check whether `path` is a directory (`Path::is_dir`)
/// answered `found`. It records which path an answer belongs to and says
/// nothing of what a check answers: the disk may change between checks.
pub uninterp spec fn dir_reported(path: Seq<char>, found: bool) -> bool;

/// Whether `path` is a directory (`std::path::Path::is_dir`). It depends on
/// the disk; only that this answer is the check of `path` is stated.
#[verifier::external_body]
fn is_dir(path: &str) -> (r: bool)
    ensures
        dir_reported(path@, r),
{
    std::path::Path::new(path).is_dir()
}

/// The expanded candidates, in order, that the checks found to be
/// directories (`answers[k]` is the answer for candidate `k`).
pub open spec fn kept_dirs(paths: Seq<Option<Seq<char>>>, answers: Seq<bool>) -> Seq<Seq<char>>
    decreases paths.len(),
{
    if paths.len() == 0 {
        Seq::empty()
    } else {
        let rest = kept_dirs(paths.drop_last(), answers.take(paths.len() - 1));
        match paths.last() {
            Some(p) => if answers[paths.len() - 1] {
                rest.push(p)
            } else {
                rest
            },
            None => rest,
        }
    }
}

/// Law: the directories kept are exactly the expanded candidates whose check
/// answered that they are directories: each such candidate is kept, and
/// nothing else is.
pub proof fn law_kept_dirs_are_the_found_directories(paths: Seq<Option<Seq<char>>>, answers: Seq<bool>)
    requires
        answers.len() == paths.len(),
    ensures
        forall|k: int|
            0 <= k < paths.len() && answers[k] && #[trigger] paths[k] is Some ==> kept_dirs(
                paths,
                answers,
            ).contains(paths[k]->0),
        forall|x: Seq<char>|
            kept_dirs(paths, answers).contains(x) ==> exists|k: int|
                0 <= k < paths.len() && answers[k] && #[trigger] paths[k] == Some(x),
        kept_dirs(paths, answers).len() <= paths.len(),
    decreases paths.len(),
{
    if paths.len() > 0 {
        let n = paths.len() - 1;
        let pd = paths.drop_last();
        let ad = answers.take(n);
        law_kept_dirs_are_the_found_directories(pd, ad);
        let rest = kept_dirs(pd, ad);
        let r = kept_dirs(paths, answers);
        assert forall|k: int|
            0 <= k < paths.len() && answers[k] && #[trigger] paths[k] is Some implies r.contains(
                paths[k]->0,
            ) by {
            if k < n {
                assert(pd[k] == paths[k] && ad[k] == answers[k]);
                assert(rest.contains(pd[k]->0));
                let j = choose|j: int| 0 <= j < rest.len() && rest[j] == pd[k]->0;
                assert(r[j] == rest[j]);
            } else {
                assert(r[r.len() - 1] == paths[k]->0);
            }
        }
        assert forall|x: Seq<char>| r.contains(x) implies exists|k: int|
            0 <= k < paths.len() && answers[k] && #[trigger] paths[k] == Some(x) by {
            let j = choose|j: int| 0 <= j < r.len() && r[j] == x;
            if j < rest.len() {
                assert(rest[j] == x);
                assert(rest.contains(x));
                let k = choose|k: int| 0 <= k < pd.len() && ad[k] && #[trigger] pd[k] == Some(x);
                assert(paths[k] == Some(x) && answers[k]);
            } else {
                assert(paths[n] == Some(x) && answers[n]);
            }
        }
    }
}

/// The candidates of `platform` with `~` expanded to `home`.
pub open spec fn expanded_candidates(platform: Platform, home: Option<Seq<char>>) -> Seq<Option<Seq<char>>> {
    candidates_spec(platform).map_values(|c: Seq<char>| expand_tilde_spec(c, home))
}

/// The extra directories of `platform` that exist on this machine: the
/// candidates, in order, expanded with the home directory the platform
/// reports, each kept when the check found it to be a directory.
pub fn existing_extra_dirs(platform: Platform) -> (r: Vec<String>)
    ensures
        exists|home: Option<Seq<char>>, answers: Seq<bool>|
            #![trigger home_reported(home), kept_dirs(expanded_candidates(platform, home), answers)]
            {
                &&& home_reported(home)
                &&& answers.len() == candidates_spec(platform).len()
                &&& forall|k: int|
                    0 <= k < answers.len() ==> (#[trigger] expanded_candidates(platform, home)[k] matches Some(
                        p,
                    ) ==> dir_reported(p, answers[k]))
                &&& strings_view(r@) == kept_dirs(expanded_candidates(platform, home), answers)
            },
{
    let cands = extra_path_candidates(platform);
    let home = home_dir();
    let ghost hv = opt_dir(home);
    let ghost all = expanded_candidates(platform, hv);
    let mut out: Vec<String> = Vec::new();
    let ghost mut answers: Seq<bool> = Seq::empty();
    let mut i: usize = 0;
    while i < cands.len()
        invariant
            i <= cands.len(),
            strs_view(cands@) == candidates_spec(platform),
            all == expanded_candidates(platform, hv),
            hv == opt_dir(home),
            answers.len() == i,
            forall|k: int| 0 <= k < i ==> (#[trigger] all[k] matches Some(p) ==> dir_reported(p, answers[k])),
            strings_view(out@) == kept_dirs(all.take(i as int), answers),
        decreases cands.len() - i,
    {
        let h = match &home {
            Some(x) => Some(x.clone()),
            None => None,
        };
        assert(opt_view(h) == hv);
        let e = expand_tilde_with_home(cands[i], h);
        assert(cands@[i as int]@ == candidates_spec(platform)[i as int]);
        assert(opt_view(e) == all[i as int]);
        let ghost before = out@;
        let ghost old_answers = answers;
        match e {
            Some(p) => {
                let d = is_dir(p.as_str());
                proof {
                    answers = answers.push(d);
                }
                if d {
                    out.push(p);
                }
            },
            None => {
                proof {
                    answers = answers.push(false);
                }
            },
        }
        assert(all.take(i + 1).drop_last() =~= all.take(i as int));
        assert(answers.take(i as int) =~= old_answers);
        assert(strings_view(out@) =~= kept_dirs(all.take(i + 1), answers));
        i += 1;
    }
    assert(all.take(cands.len() as int) =~= all);
    assert(home_reported(hv));
    out
}

/// Whether two paths name the same location by their components
/// (`Path == Path`). It is a function of the two texts alone.
pub uninterp spec fn paths_equal(a: Seq<char>, b: Seq<char>) -> bool;

/// Compares two paths by their components (`std::path::Path`'s `==`). Equal
/// texts are equal paths, as `Path` is `Eq`.
#[verifier::external_body]
fn same_path(a: &str, b: &str) -> (r: bool)
    ensures
        r == paths_equal(a@, b@),
        a@ == b@ ==> r,
{
    std::path::Path::new(a) == std::path::Path::new(b)
}

/// `p` is, as a path, one of `list`.
pub open spec fn has_path(list: Seq<Seq<char>>, p: Seq<char>) -> bool {
    exists|i: int| 0 <= i < list.len() && paths_equal(#[trigger] list[i], p)
}

/// `parts` followed by each of `extras` that is not yet, as a path, in the
/// list built so far, in order.
pub open spec fn merge_paths_spec(parts: Seq<Seq<char>>, extras: Seq<Seq<char>>) -> Seq<Seq<char>>
    decreases extras.len(),
{
    if extras.len() == 0 {
        parts
    } else {
        let m = merge_paths_spec(parts, extras.drop_last());
        if has_path(m, extras.last()) {
            m
        } else {
            m.push(extras.last())
        }
    }
}

fn has_path_exec(list: &Vec<String>, p: &String) -> (r: bool)
    ensures
        r == has_path(strings_view(list@), p@),
{
    let ghost lv = strings_view(list@);
    let mut i: usize = 0;
    while i < list.len()
        invariant
            i <= list.len(),
            lv == strings_view(list@),
            forall|k: int| 0 <= k < i ==> !paths_equal(#[trigger] lv[k], p@),
        decreases list.len() - i,
    {
        if same_path(list[i].as_str(), p.as_str()) {
            assert(paths_equal(lv[i as int], p@));
            return true;
        }
        i += 1;
    }
    false
}

/// The entries of `PATH` with the extra directories added after them, each
/// only when it is not already there.
pub fn merge_path_entries(parts: Vec<String>, extras: Vec<String>) -> (r: Vec<String>)
    ensures
        strings_view(r@) == merge_paths_spec(strings_view(parts@), strings_view(extras@)),
{
    let ghost pv = strings_view(parts@);
    let ghost ev = strings_view(extras@);
    let mut r = parts;
    let mut i: usize = 0;
    assert(ev.take(0) =~= Seq::<Seq<char>>::empty());
    while i < extras.len()
        invariant
            i <= extras.len(),
            ev == strings_view(extras@),
            strings_view(r@) == merge_paths_spec(pv, ev.take(i as int)),
        decreases extras.len() - i,
    {
        assert(ev.take(i + 1).drop_last() =~= ev.take(i as int));
        assert(ev.take(i + 1).last() == extras@[i as int]@);
        if !has_path_exec(&r, &extras[i]) {
            let ghost before = strings_view(r@);
            r.push(extras[i].clone());
            assert(strings_view(r@) =~= before.push(extras@[i as int]@));
        }
        i += 1;
    }
    assert(ev.take(extras.len() as int) =~= ev);
    r
}

/// Law: merging keeps the existing entries first and in order, and every
/// extra directory ends up in the result, itself or as an entry naming the
/// same path.
pub proof fn law_merge_keeps_parts_and_adds_extras(parts: Seq<Seq<char>>, extras: Seq<Seq<char>>)
    ensures
        merge_paths_spec(parts, extras).len() >= parts.len(),
        merge_paths_spec(parts, extras).take(parts.len() as int) == parts,
        forall|k: int|
            0 <= k < extras.len() ==> merge_paths_spec(parts, extras).contains(#[trigger] extras[k])
                || has_path(merge_paths_spec(parts, extras), extras[k]),
    decreases extras.len(),
{
    if extras.len() > 0 {
        let d = extras.drop_last();
        law_merge_keeps_parts_and_adds_extras(parts, d);
        let m = merge_paths_spec(parts, d);
        let e = extras.last();
        let r = merge_paths_spec(parts, extras);
        if !has_path(m, e) {
            assert(m.push(e).take(parts.len() as int) =~= m.take(parts.len() as int));
            assert(r[m.len() as int] == e);
        }
        assert forall|k: int| 0 <= k < extras.len() implies r.contains(#[trigger] extras[k])
            || has_path(r, extras[k]) by {
            if k < d.len() {
                assert(extras[k] == d[k]);
                if m.contains(d[k]) {
                    let j = choose|j: int| 0 <= j < m.len() && m[j] == d[k];
                    assert(r[j] == m[j]);
                } else {
                    let j = choose|j: int| 0 <= j < m.len() && paths_equal(#[trigger] m[j], d[k]);
                    assert(r[j] == m[j]);
                }
            } else if has_path(m, e) {
                let j = choose|j: int| 0 <= j < m.len() && paths_equal(#[trigger] m[j], e);
                assert(r[j] == m[j]);
            } else {
                assert(r[m.len() as int] == e);
            }
        }
    } else {
        assert(parts.take(parts.len() as int) =~= parts);
    }
}

} // verus!
