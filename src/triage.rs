//! Which artifacts a run produced, and what is printed about them.

use vstd::prelude::*;
use vstd::string::*;
use crate::flag_form::flag_tokens;
use crate::options::{texts, BuildOptions};
use crate::text::{has_prefix, strip_prefix};

verus! {

/// A modification time: seconds and nanoseconds since the epoch.
#[derive(Clone, Copy, Debug, PartialEq, Eq, Structural)]
pub struct Timestamp {
    pub secs: u64,
    pub nanos: u32,
}

/// `a` is strictly later than `b`.
pub open spec fn later(a: Timestamp, b: Timestamp) -> bool {
    a.secs > b.secs || (a.secs == b.secs && a.nanos > b.nanos)
}

/// What the triage reads of one entry of the artifacts directory.
#[derive(Clone, Debug, PartialEq, Eq)]
pub struct DirEntryInfo {
    pub path: String,
    pub is_file: bool,
    pub modified: Timestamp,
}

/// The entry is a regular file modified strictly after `since`.
pub open spec fn is_new_file(e: DirEntryInfo, since: Timestamp) -> bool {
    e.is_file && later(e.modified, since)
}

/// The paths of the entries that are regular files modified strictly after
/// `since`, in the order of the listing.
pub open spec fn new_paths(es: Seq<DirEntryInfo>, since: Timestamp) -> Seq<Seq<char>>
    decreases es.len(),
{
    if es.len() == 0 {
        Seq::empty()
    } else {
        new_paths(es.drop_last(), since) + if is_new_file(es.last(), since) {
            seq![es.last().path@]
        } else {
            Seq::empty()
        }
    }
}

/// Whether `a` is strictly later than `b`.
pub fn is_later(a: Timestamp, b: Timestamp) -> (r: bool)
    ensures
        r == later(a, b),
{
    a.secs > b.secs || (a.secs == b.secs && a.nanos > b.nanos)
}

/// The artifacts that appeared since `since`: the regular files of the listing
/// `entries` modified strictly after it. Directories and older files are left out.
pub fn new_files_since(entries: &Vec<DirEntryInfo>, since: Timestamp) -> (r: Vec<String>)
    ensures
        texts(r@) == new_paths(entries@, since),
{
    let mut r: Vec<String> = Vec::new();
    let mut i: usize = 0;
    assert(texts(r@) =~= new_paths(entries@.subrange(0, 0), since));
    while i < entries.len()
        invariant
            i <= entries@.len(),
            texts(r@) == new_paths(entries@.subrange(0, i as int), since),
        decreases entries@.len() - i,
    {
        let e = &entries[i];
        let ghost before = r@;
        let ghost pre = entries@.subrange(0, i + 1);
        assert(pre.drop_last() =~= entries@.subrange(0, i as int));
        if e.is_file && is_later(e.modified, since) {
            r.push(e.path.clone());
            assert(texts(r@) =~= texts(before) + seq![e.path@]);
        } else {
            assert(texts(r@) =~= texts(before) + Seq::<Seq<char>>::empty());
        }
        i += 1;
    }
    assert(entries@.subrange(0, i as int) =~= entries@);
    r
}

/// Every path that `new_files_since` reports is that of a new regular file of
/// the listing, and every new regular file of the listing is reported.
pub proof fn lemma_new_paths_exact(es: Seq<DirEntryInfo>, since: Timestamp)
    ensures
        forall|p: Seq<char>|
            new_paths(es, since).contains(p) <==> exists|i: int|
                0 <= i < es.len() && is_new_file(es[i], since) && es[i].path@ == p,
    decreases es.len(),
{
    if es.len() > 0 {
        let init = es.drop_last();
        lemma_new_paths_exact(init, since);
        let tail = if is_new_file(es.last(), since) {
            seq![es.last().path@]
        } else {
            Seq::<Seq<char>>::empty()
        };
        assert forall|p: Seq<char>|
            new_paths(es, since).contains(p) <==> exists|i: int|
                0 <= i < es.len() && is_new_file(es[i], since) && es[i].path@ == p by {
            let s = new_paths(es, since);
            assert(s == new_paths(init, since) + tail);
            if s.contains(p) {
                let k = choose|k: int| 0 <= k < s.len() && s[k] == p;
                if k < new_paths(init, since).len() {
                    assert(new_paths(init, since).contains(p));
                    let i = choose|i: int|
                        0 <= i < init.len() && is_new_file(init[i], since) && init[i].path@ == p;
                    assert(es[i] == init[i]);
                } else {
                    assert(es[es.len() - 1] == es.last());
                }
            }
            if exists|i: int| 0 <= i < es.len() && is_new_file(es[i], since) && es[i].path@ == p {
                let i = choose|i: int|
                    0 <= i < es.len() && is_new_file(es[i], since) && es[i].path@ == p;
                if i < es.len() - 1 {
                    assert(init[i] == es[i]);
                    assert(new_paths(init, since).contains(p));
                    let k = choose|k: int|
                        0 <= k < new_paths(init, since).len() && new_paths(init, since)[k] == p;
                    assert(s[k] == p);
                } else {
                    assert(s[s.len() - 1] == p);
                }
            }
        }
    }
}

/// The newest of the new regular files of the listing, if there is one; of
/// files with the same time, the first listed.
pub fn latest_new_file(entries: &Vec<DirEntryInfo>, since: Timestamp) -> (r: Option<usize>)
    ensures
        r is None <==> forall|i: int| 0 <= i < entries@.len() ==> !is_new_file(#[trigger] entries@[i], since),
        r matches Some(k) ==> k < entries@.len() && is_new_file(entries@[k as int], since) && forall|
            i: int,
        |
            0 <= i < entries@.len() && is_new_file(#[trigger] entries@[i], since) ==> !later(
                entries@[i].modified,
                entries@[k as int].modified,
            ),
{
    let mut best: Option<usize> = None;
    let mut i: usize = 0;
    while i < entries.len()
        invariant
            i <= entries@.len(),
            best is None <==> forall|j: int| 0 <= j < i ==> !is_new_file(#[trigger] entries@[j], since),
            best matches Some(k) ==> k < i && is_new_file(entries@[k as int], since) && forall|j: int|
                0 <= j < i && is_new_file(#[trigger] entries@[j], since) ==> !later(
                    entries@[j].modified,
                    entries@[k as int].modified,
                ),
        decreases entries@.len() - i,
    {
        let e = &entries[i];
        if e.is_file && is_later(e.modified, since) {
            match best {
                None => {
                    best = Some(i);
                },
                Some(k) => {
                    if is_later(e.modified, entries[k].modified) {
                        best = Some(i);
                    }
                },
            }
        }
        i += 1;
    }
    best
}

/// `path` with the current directory `cwd` and its separator taken off the
/// front, where it lies under `cwd`; else `path` itself.
pub fn strip_current_dir_prefix(path: &str, cwd: &str) -> (r: String)
    ensures
        has_prefix(path@, cwd@ + "/"@) ==> path@ == cwd@ + "/"@ + r@,
        !has_prefix(path@, cwd@ + "/"@) ==> r@ == path@,
{
    let prefix = String::from_str(cwd).concat("/");
    match strip_prefix(path, prefix.as_str()) {
        Some(rest) => String::from_str(rest),
        None => String::from_str(path),
    }
}

/// Each token with a space before it, as options stand on a command line.
pub open spec fn spaced(ts: Seq<Seq<char>>) -> Seq<char>
    decreases ts.len(),
{
    if ts.len() == 0 {
        Seq::empty()
    } else {
        spaced(ts.drop_last()) + " "@ + ts.last()
    }
}

/// Each token with a space before it.
pub fn spaced_tokens(ts: &Vec<String>) -> (r: String)
    ensures
        r@ == spaced(texts(ts@)),
{
    let mut s = String::new();
    let mut i: usize = 0;
    assert(texts(ts@.subrange(0, 0)) =~= Seq::<Seq<char>>::empty());
    while i < ts.len()
        invariant
            i <= ts@.len(),
            s@ == spaced(texts(ts@.subrange(0, i as int))),
        decreases ts@.len() - i,
    {
        s.append(" ");
        s.append(ts[i].as_str());
        assert(texts(ts@.subrange(0, i + 1)).drop_last() =~= texts(ts@.subrange(0, i as int)));
        i += 1;
    }
    assert(ts@.subrange(0, i as int) =~= ts@);
    s
}

impl BuildOptions {
    /// The options as they stand on a command line for the host triple `host`:
    /// each option token with a space before it, options at their defaults
    /// left out.
    pub fn to_string(&self, host: &str) -> (r: String)
        ensures
            r@ == spaced(flag_tokens(self@, host@)),
    {
        spaced_tokens(&self.to_flags(host))
    }
}

/// The command line that reproduces a failure: `cargo fuzz run`, the fuzz
/// directory flag, the build options, the target and the failing input.
pub open spec fn reproduce_line(
    fuzz_dir_flag: Seq<char>,
    options: Seq<char>,
    target: Seq<char>,
    artifact: Seq<char>,
) -> Seq<char> {
    "\tcargo fuzz run"@ + fuzz_dir_flag + options + " "@ + target + " "@ + artifact
}

/// The command line that minimizes a failing input.
pub open spec fn minimize_line(
    fuzz_dir_flag: Seq<char>,
    options: Seq<char>,
    target: Seq<char>,
    artifact: Seq<char>,
) -> Seq<char> {
    "\tcargo fuzz tmin"@ + fuzz_dir_flag + options + " "@ + target + " "@ + artifact
}

/// The `--fuzz-dir` flag of the printed commands: nothing for the default fuzz
/// directory, else ` --fuzz-dir <dir>`.
pub fn fuzz_dir_flag(is_default: bool, fuzz_dir: &str) -> (r: String)
    ensures
        r@ == if is_default {
            Seq::<char>::empty()
        } else {
            " --fuzz-dir "@ + fuzz_dir@
        },
{
    if is_default {
        String::new()
    } else {
        String::from_str(" --fuzz-dir ").concat(fuzz_dir)
    }
}

/// The diagnostic printed for one failing input: its path, its debug form when
/// the fuzz target could print one, and the commands that reproduce and
/// minimize it (the latter left out when `with_minimize` is false).
pub fn failure_report(
    artifact: &str,
    debug: &Option<String>,
    fuzz_dir_flag: &str,
    options: &str,
    target: &str,
    with_minimize: bool,
) -> (r: String)
    ensures
        r@ == "\nFailing input:\n\n\t"@ + artifact@ + "\n\n"@ + match debug {
            Some(d) => "Output of `std::fmt::Debug`:\n\n"@ + d@ + "\n\n"@,
            None => Seq::<char>::empty(),
        } + "Reproduce with:\n\n"@ + reproduce_line(fuzz_dir_flag@, options@, target@, artifact@)
            + "\n\n"@ + if with_minimize {
            "Minimize test case with:\n\n"@ + minimize_line(
                fuzz_dir_flag@,
                options@,
                target@,
                artifact@,
            ) + "\n\n"@
        } else {
            Seq::<char>::empty()
        },
{
    let mut s = String::from_str("\nFailing input:\n\n\t");
    s.append(artifact);
    s.append("\n\n");
    let ghost head = s@;
    match debug {
        Some(d) => {
            s.append("Output of `std::fmt::Debug`:\n\n");
            s.append(d.as_str());
            s.append("\n\n");
        },
        None => {},
    }
    assert(s@ =~= head + match debug {
        Some(d) => "Output of `std::fmt::Debug`:\n\n"@ + d@ + "\n\n"@,
        None => Seq::<char>::empty(),
    });
    let ghost with_debug = s@;
    s.append("Reproduce with:\n\n");
    s.append("\tcargo fuzz run");
    s.append(fuzz_dir_flag);
    s.append(options);
    s.append(" ");
    s.append(target);
    s.append(" ");
    s.append(artifact);
    s.append("\n\n");
    assert(s@ =~= with_debug + "Reproduce with:\n\n"@ + reproduce_line(
        fuzz_dir_flag@,
        options@,
        target@,
        artifact@,
    ) + "\n\n"@);
    let ghost with_repro = s@;
    if with_minimize {
        s.append("Minimize test case with:\n\n");
        s.append("\tcargo fuzz tmin");
        s.append(fuzz_dir_flag);
        s.append(options);
        s.append(" ");
        s.append(target);
        s.append(" ");
        s.append(artifact);
        s.append("\n\n");
    }
    assert(s@ =~= with_repro + if with_minimize {
        "Minimize test case with:\n\n"@ + minimize_line(fuzz_dir_flag@, options@, target@, artifact@)
            + "\n\n"@
    } else {
        Seq::<char>::empty()
    });
    s
}

/// The diagnostic printed for a minimized input: its path, its debug form when
/// the fuzz target could print one, and the command that reproduces it.
pub fn minimized_report(
    artifact: &str,
    debug: &Option<String>,
    fuzz_dir_flag: &str,
    options: &str,
    target: &str,
) -> (r: String)
    ensures
        r@ == "Minimized artifact:\n\n\t"@ + artifact@ + "\n\n"@ + match debug {
            Some(d) => "Output of `std::fmt::Debug`:\n\n"@ + d@ + "\n\n"@,
            None => Seq::<char>::empty(),
        } + "Reproduce with:\n\n"@ + reproduce_line(fuzz_dir_flag@, options@, target@, artifact@)
            + "\n\n"@,
{
    let mut s = String::from_str("Minimized artifact:\n\n\t");
    s.append(artifact);
    s.append("\n\n");
    let ghost head = s@;
    match debug {
        Some(d) => {
            s.append("Output of `std::fmt::Debug`:\n\n");
            s.append(d.as_str());
            s.append("\n\n");
        },
        None => {},
    }
    assert(s@ =~= head + match debug {
        Some(d) => "Output of `std::fmt::Debug`:\n\n"@ + d@ + "\n\n"@,
        None => Seq::<char>::empty(),
    });
    let ghost with_debug = s@;
    s.append("Reproduce with:\n\n");
    s.append("\tcargo fuzz run");
    s.append(fuzz_dir_flag);
    s.append(options);
    s.append(" ");
    s.append(target);
    s.append(" ");
    s.append(artifact);
    s.append("\n\n");
    assert(s@ =~= with_debug + "Reproduce with:\n\n"@ + reproduce_line(
        fuzz_dir_flag@,
        options@,
        target@,
        artifact@,
    ) + "\n\n"@);
    s
}

} // verus!
