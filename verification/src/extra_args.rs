//! The "extra args" escape hatch of a profile, and the flags it may not
//! carry: the ones the client itself sets (discovery URL, credentials, mount
//! target, backend) and every `--gateway-*` flag.
use vstd::prelude::*;

use crate::error::{fail2, fails_with, DesktopError};
use crate::profile::MountProfile;
use crate::text::{
    chars_of, join, join_strings, same_text, starts_with_str, string_of_range, strip_front,
    views, CharClass,
};

verus! {

/// Flags the client manages itself, long names and short letters alike.
pub open spec fn managed_list() -> Seq<Seq<char>> {
    seq![
        "a"@,
        "access-key-id"@,
        "s"@,
        "secret-access-key"@,
        "discovery-url"@,
        "m"@,
        "mount"@,
        "mount-point"@,
        "destination"@,
        "f"@,
        "foreground"@,
        "gateway"@,
        "gateway-only"@,
        "fork-name"@,
        "volname"@,
        "n"@,
        "read-only"@,
        "r"@,
        "disk-cache-dir"@,
        "backend"@,
        "macfuse"@,
        "fskit"@,
        "k"@,
        "nfs"@,
        "N"@,
        "smb"@,
        "temporary-fork"@,
    ]
}

/// Long flags that never take a value.
pub open spec fn boolean_list() -> Seq<Seq<char>> {
    seq![
        "acl"@,
        "agent"@,
        "blockserv-auto-degrade"@,
        "browse"@,
        "debug"@,
        "disable-cache-dir"@,
        "ioctl"@,
        "null-permissions"@,
        "session-audit"@,
        "xattr"@,
    ]
}

pub open spec fn strs_view(v: Seq<&str>) -> Seq<Seq<char>> {
    v.map_values(|s: &str| s@)
}

pub fn managed_flags() -> (r: Vec<&'static str>)
    ensures
        strs_view(r@) == managed_list(),
{
    let r = vec![
        "a",
        "access-key-id",
        "s",
        "secret-access-key",
        "discovery-url",
        "m",
        "mount",
        "mount-point",
        "destination",
        "f",
        "foreground",
        "gateway",
        "gateway-only",
        "fork-name",
        "volname",
        "n",
        "read-only",
        "r",
        "disk-cache-dir",
        "backend",
        "macfuse",
        "fskit",
        "k",
        "nfs",
        "N",
        "smb",
        "temporary-fork",
    ];
    assert(strs_view(r@) =~= managed_list());
    r
}

pub fn boolean_long_flags() -> (r: Vec<&'static str>)
    ensures
        strs_view(r@) == boolean_list(),
{
    let r = vec![
        "acl",
        "agent",
        "blockserv-auto-degrade",
        "browse",
        "debug",
        "disable-cache-dir",
        "ioctl",
        "null-permissions",
        "session-audit",
        "xattr",
    ];
    assert(strs_view(r@) =~= boolean_list());
    r
}

pub fn list_has(list: &Vec<&str>, name: &str) -> (r: bool)
    ensures
        r == strs_view(list@).contains(name@),
{
    let mut i: usize = 0;
    while i < list.len()
        invariant
            i <= list@.len(),
            forall|k: int| 0 <= k < i ==> strs_view(list@)[k] != name@,
        decreases list@.len() - i,
    {
        if same_text(list[i], name) {
            assert(strs_view(list@)[i as int] == name@);
            return true;
        }
        i += 1;
    }
    false
}

pub open spec fn managed(name: Seq<char>) -> bool {
    managed_list().contains(name)
}

pub open spec fn boolean_flag(name: Seq<char>) -> bool {
    boolean_list().contains(name)
}

pub open spec fn is_dash(a: Seq<char>) -> bool {
    a.len() > 0 && a[0] == '-'
}

pub open spec fn is_double_dash(a: Seq<char>) -> bool {
    a.len() >= 2 && a[0] == '-' && a[1] == '-'
}

/// The characters of `s` before its first `c`, or all of them.
pub open spec fn before_char(s: Seq<char>, c: char) -> Seq<char>
    decreases s.len(),
{
    if s.len() == 0 {
        s
    } else if s[0] == c {
        Seq::empty()
    } else {
        seq![s[0]] + before_char(s.drop_first(), c)
    }
}

/// The flag name of a `--name` or `--name=value` argument.
pub open spec fn long_name(a: Seq<char>) -> Seq<char> {
    before_char(a.subrange(2, a.len() as int), '=')
}

pub open spec fn long_refused(name: Seq<char>) -> bool {
    managed(name) || "gateway-"@.is_prefix_of(name)
}

/// A short cluster `-xyz` is refused when a managed letter comes before the
/// first `o`: `-o` takes the rest of the cluster as its value.
pub open spec fn cluster_refused(body: Seq<char>) -> bool
    decreases body.len(),
{
    body.len() > 0 && (managed(seq![body[0]]) || (body[0] != 'o' && cluster_refused(
        body.drop_first(),
    )))
}

pub open spec fn short_refused(a: Seq<char>) -> bool {
    cluster_refused(strip_front(a, CharClass::Only('-')))
}

/// The argument after `i` is a value for the flag at `i`.
pub open spec fn value_follows(args: Seq<Seq<char>>, i: int) -> bool {
    i + 1 < args.len() && !is_dash(args[i + 1])
}

/// The arguments of `args[i..]` that the scan refuses, in order.
pub open spec fn refused_from(args: Seq<Seq<char>>, i: int) -> Seq<Seq<char>>
    decreases args.len() - i,
{
    if i < 0 || i >= args.len() {
        Seq::empty()
    } else {
        let arg = args[i];
        if !is_dash(arg) || arg == seq!['-', '-'] {
            seq![arg] + refused_from(args, i + 1)
        } else if is_double_dash(arg) {
            let name = long_name(arg);
            if long_refused(name) {
                if !arg.contains('=') && value_follows(args, i) {
                    seq![arg, args[i + 1]] + refused_from(args, i + 2)
                } else {
                    seq![arg] + refused_from(args, i + 1)
                }
            } else if !arg.contains('=') && !boolean_flag(name) && value_follows(args, i) {
                refused_from(args, i + 2)
            } else {
                refused_from(args, i + 1)
            }
        } else if short_refused(arg) {
            seq![arg] + refused_from(args, i + 1)
        } else {
            refused_from(args, i + 1)
        }
    }
}

pub open spec fn refused(args: Seq<Seq<char>>) -> Seq<Seq<char>> {
    refused_from(args, 0)
}

proof fn lemma_before_char_absent(s: Seq<char>, c: char)
    requires
        forall|i: int| 0 <= i < s.len() ==> s[i] != c,
    ensures
        before_char(s, c) == s,
    decreases s.len(),
{
    if s.len() > 0 {
        assert forall|i: int| 0 <= i < s.drop_first().len() implies s.drop_first()[i] != c by {
            assert(s.drop_first()[i] == s[i + 1]);
        }
        lemma_before_char_absent(s.drop_first(), c);
        assert(seq![s[0]] + s.drop_first() =~= s);
    }
}

/// `--name` on its own is refused when the client manages `name`.
proof fn lemma_long_managed_refused(name: Seq<char>)
    requires
        managed(name),
        name.len() > 0,
        forall|i: int| 0 <= i < name.len() ==> name[i] != '=',
    ensures
        refused(seq!["--"@ + name]) == seq!["--"@ + name],
{
    reveal_strlit("--");
    let a = "--"@ + name;
    let args = seq![a];
    assert(a[0] == '-' && a[1] == '-');
    assert(a.len() > 2);
    assert(a != seq!['-', '-']);
    assert(a.subrange(2, a.len() as int) =~= name);
    lemma_before_char_absent(name, '=');
    assert(long_name(a) == name);
    assert(!a.contains('=')) by {
        if a.contains('=') {
            let i = choose|i: int| 0 <= i < a.len() && a[i] == '=';
            assert(name[i - 2] == a[i]);
        }
    }
    assert(!value_follows(args, 0));
    assert(refused_from(args, 1) =~= Seq::<Seq<char>>::empty());
    assert(refused_from(args, 0) =~= seq![a]);
}

/// `-x` on its own is refused when the client manages the letter `x`.
proof fn lemma_short_managed_refused(letter: char)
    requires
        managed(seq![letter]),
        letter != '-',
    ensures
        refused(seq![seq!['-', letter]]) == seq![seq!['-', letter]],
{
    let a = seq!['-', letter];
    let args = seq![a];
    assert(a.drop_first() =~= seq![letter]);
    assert(seq![letter].drop_first() =~= Seq::<char>::empty());
    assert(strip_front(seq![letter], CharClass::Only('-')) == seq![letter]);
    assert(strip_front(a, CharClass::Only('-')) == seq![letter]);
    assert(cluster_refused(seq![letter])) by {
        assert(seq![seq![letter][0]] =~= seq![letter]);
    }
    assert(a != seq!['-', '-']);
    assert(refused_from(args, 1) =~= Seq::<Seq<char>>::empty());
    assert(refused_from(args, 0) =~= seq![a]);
}

/// Every flag the client puts on a mount command line itself is refused
/// when a profile's extra arguments carry it: the discovery URL, the
/// credentials, the mount point, the volume, fork and cache flags, and each
/// backend flag, as `--name` or, for the short letters, as `-x`.
pub proof fn client_flags_are_refused_in_extra_args()
    ensures
        refused(seq!["--access-key-id"@]) == seq!["--access-key-id"@],
        refused(seq!["--secret-access-key"@]) == seq!["--secret-access-key"@],
        refused(seq!["--discovery-url"@]) == seq!["--discovery-url"@],
        refused(seq!["--mount"@]) == seq!["--mount"@],
        refused(seq!["--destination"@]) == seq!["--destination"@],
        refused(seq!["--fork-name"@]) == seq!["--fork-name"@],
        refused(seq!["--volname"@]) == seq!["--volname"@],
        refused(seq!["--read-only"@]) == seq!["--read-only"@],
        refused(seq!["--disk-cache-dir"@]) == seq!["--disk-cache-dir"@],
        refused(seq!["--backend"@]) == seq!["--backend"@],
        refused(seq!["--macfuse"@]) == seq!["--macfuse"@],
        refused(seq!["--fskit"@]) == seq!["--fskit"@],
        refused(seq!["--nfs"@]) == seq!["--nfs"@],
        refused(seq!["--smb"@]) == seq!["--smb"@],
        refused(seq!["--temporary-fork"@]) == seq!["--temporary-fork"@],
        refused(seq!["-m"@]) == seq!["-m"@],
        refused(seq!["-a"@]) == seq!["-a"@],
        refused(seq!["-s"@]) == seq!["-s"@],
{
    reveal_strlit("--");
    reveal_strlit("access-key-id");
    reveal_strlit("--access-key-id");
    assert(managed_list()[1] == "access-key-id"@);
    assert("--access-key-id"@ =~= "--"@ + "access-key-id"@);
    lemma_long_managed_refused("access-key-id"@);
    reveal_strlit("secret-access-key");
    reveal_strlit("--secret-access-key");
    assert(managed_list()[3] == "secret-access-key"@);
    assert("--secret-access-key"@ =~= "--"@ + "secret-access-key"@);
    lemma_long_managed_refused("secret-access-key"@);
    reveal_strlit("discovery-url");
    reveal_strlit("--discovery-url");
    assert(managed_list()[4] == "discovery-url"@);
    assert("--discovery-url"@ =~= "--"@ + "discovery-url"@);
    lemma_long_managed_refused("discovery-url"@);
    reveal_strlit("mount");
    reveal_strlit("--mount");
    assert(managed_list()[6] == "mount"@);
    assert("--mount"@ =~= "--"@ + "mount"@);
    lemma_long_managed_refused("mount"@);
    reveal_strlit("destination");
    reveal_strlit("--destination");
    assert(managed_list()[8] == "destination"@);
    assert("--destination"@ =~= "--"@ + "destination"@);
    lemma_long_managed_refused("destination"@);
    reveal_strlit("fork-name");
    reveal_strlit("--fork-name");
    assert(managed_list()[13] == "fork-name"@);
    assert("--fork-name"@ =~= "--"@ + "fork-name"@);
    lemma_long_managed_refused("fork-name"@);
    reveal_strlit("volname");
    reveal_strlit("--volname");
    assert(managed_list()[14] == "volname"@);
    assert("--volname"@ =~= "--"@ + "volname"@);
    lemma_long_managed_refused("volname"@);
    reveal_strlit("read-only");
    reveal_strlit("--read-only");
    assert(managed_list()[16] == "read-only"@);
    assert("--read-only"@ =~= "--"@ + "read-only"@);
    lemma_long_managed_refused("read-only"@);
    reveal_strlit("disk-cache-dir");
    reveal_strlit("--disk-cache-dir");
    assert(managed_list()[18] == "disk-cache-dir"@);
    assert("--disk-cache-dir"@ =~= "--"@ + "disk-cache-dir"@);
    lemma_long_managed_refused("disk-cache-dir"@);
    reveal_strlit("backend");
    reveal_strlit("--backend");
    assert(managed_list()[19] == "backend"@);
    assert("--backend"@ =~= "--"@ + "backend"@);
    lemma_long_managed_refused("backend"@);
    reveal_strlit("macfuse");
    reveal_strlit("--macfuse");
    assert(managed_list()[20] == "macfuse"@);
    assert("--macfuse"@ =~= "--"@ + "macfuse"@);
    lemma_long_managed_refused("macfuse"@);
    reveal_strlit("fskit");
    reveal_strlit("--fskit");
    assert(managed_list()[21] == "fskit"@);
    assert("--fskit"@ =~= "--"@ + "fskit"@);
    lemma_long_managed_refused("fskit"@);
    reveal_strlit("nfs");
    reveal_strlit("--nfs");
    assert(managed_list()[23] == "nfs"@);
    assert("--nfs"@ =~= "--"@ + "nfs"@);
    lemma_long_managed_refused("nfs"@);
    reveal_strlit("smb");
    reveal_strlit("--smb");
    assert(managed_list()[25] == "smb"@);
    assert("--smb"@ =~= "--"@ + "smb"@);
    lemma_long_managed_refused("smb"@);
    reveal_strlit("temporary-fork");
    reveal_strlit("--temporary-fork");
    assert(managed_list()[26] == "temporary-fork"@);
    assert("--temporary-fork"@ =~= "--"@ + "temporary-fork"@);
    lemma_long_managed_refused("temporary-fork"@);
    reveal_strlit("m");
    reveal_strlit("-m");
    assert(managed_list()[5] == "m"@);
    assert("m"@ =~= seq!['m']);
    assert("-m"@ =~= seq!['-', 'm']);
    lemma_short_managed_refused('m');
    reveal_strlit("a");
    reveal_strlit("-a");
    assert(managed_list()[0] == "a"@);
    assert("a"@ =~= seq!['a']);
    assert("-a"@ =~= seq!['-', 'a']);
    lemma_short_managed_refused('a');
    reveal_strlit("s");
    reveal_strlit("-s");
    assert(managed_list()[2] == "s"@);
    assert("s"@ =~= seq!['s']);
    assert("-s"@ =~= seq!['-', 's']);
    lemma_short_managed_refused('s');
}

/// The characters of `s` before its first `c`.
fn before_char_exec(s: &[char], from: usize, c: char) -> (r: usize)
    requires
        from <= s@.len(),
    ensures
        from <= r <= s@.len(),
        s@.subrange(from as int, r as int) == before_char(s@.subrange(from as int, s@.len() as int), c),
{
    let mut j: usize = from;
    while j < s.len() && s[j] != c
        invariant
            from <= j <= s@.len(),
            forall|k: int| from <= k < j ==> s@[k] != c,
            before_char(s@.subrange(from as int, s@.len() as int), c) == s@.subrange(
                from as int,
                j as int,
            ) + before_char(s@.subrange(j as int, s@.len() as int), c),
        decreases s@.len() - j,
    {
        proof {
            let t = s@.subrange(j as int, s@.len() as int);
            assert(t.drop_first() =~= s@.subrange(j + 1, s@.len() as int));
            assert(s@.subrange(from as int, j as int) + seq![s@[j as int]] =~= s@.subrange(
                from as int,
                j + 1,
            ));
            assert(s@.subrange(from as int, j as int) + (seq![t[0]] + before_char(t.drop_first(), c))
                =~= s@.subrange(from as int, j + 1) + before_char(t.drop_first(), c));
        }
        j += 1;
    }
    proof {
        let t = s@.subrange(j as int, s@.len() as int);
        assert(before_char(t, c) =~= Seq::<char>::empty()) by {
            if t.len() > 0 {
                assert(t[0] == s@[j as int]);
            }
        }
        assert(s@.subrange(from as int, j as int) + Seq::<char>::empty() =~= s@.subrange(
            from as int,
            j as int,
        ));
    }
    j
}

fn cluster_refused_exec(body: &[char], from: usize, managed_set: &Vec<&str>) -> (r: bool)
    requires
        from <= body@.len(),
        strs_view(managed_set@) == managed_list(),
    ensures
        r == cluster_refused(body@.subrange(from as int, body@.len() as int)),
    decreases body@.len() - from,
{
    let ghost t = body@.subrange(from as int, body@.len() as int);
    if from >= body.len() {
        return false;
    }
    let letter = string_of_range(body, from, from + 1);
    assert(letter@ =~= seq![t[0]]);
    assert(t.drop_first() =~= body@.subrange(from + 1, body@.len() as int));
    if list_has(managed_set, letter.as_str()) {
        return true;
    }
    if body[from] == 'o' {
        return false;
    }
    cluster_refused_exec(body, from + 1, managed_set)
}

/// Whether the argument after `index` is a value for the flag at `index`.
fn next_is_value(args: &[String], index: usize) -> (r: bool)
    requires
        index < args@.len(),
    ensures
        r == value_follows(views(args@), index as int),
{
    if index < args.len() - 1 {
        let v = chars_of(args[index + 1].as_str());
        !(v.len() > 0 && v[0] == '-')
    } else {
        false
    }
}

/// The extra arguments the client refuses to pass through: positionals and
/// bare `--`, managed or `--gateway-*` long flags (with the value that
/// follows them), and short clusters that hold a managed letter before `o`.
pub fn validate_extra_args(args: &[String]) -> (r: Vec<String>)
    ensures
        views(r@) == refused(views(args@)),
{
    let managed_set = managed_flags();
    let boolean_set = boolean_long_flags();
    let ghost a = views(args@);
    let mut rejected: Vec<String> = Vec::new();
    let mut index: usize = 0;
    while index < args.len()
        invariant
            a == views(args@),
            strs_view(managed_set@) == managed_list(),
            strs_view(boolean_set@) == boolean_list(),
            index <= args@.len() + 1,
            views(rejected@) + refused_from(a, index as int) == refused(a),
        decreases args@.len() + 1 - index,
    {
        let ghost before = views(rejected@);
        let arg = &args[index];
        let v = chars_of(arg.as_str());
        assert(v@ == a[index as int]);
        let dash = v.len() > 0 && v[0] == '-';
        let double = v.len() == 2 && v[0] == '-' && v[1] == '-';
        proof {
            if double {
                assert(v@ =~= seq!['-', '-']);
            }
            if v@ == seq!['-', '-'] {
                assert(v@.len() == 2);
            }
        }
        if !dash || double {
            rejected.push(arg.clone());
            assert(views(rejected@) =~= before + seq![a[index as int]]);
            assert(before + seq![a[index as int]] + refused_from(a, index + 1) =~= before + (seq![
                a[index as int],
            ] + refused_from(a, index + 1)));
            index += 1;
            continue;
        }
        if v.len() >= 2 && v[1] == '-' {
            let end = before_char_exec(&v, 2, '=');
            let name = string_of_range(&v, 2, end);
            assert(name@ == long_name(a[index as int]));
            let has_eq = end < v.len();
            proof {
                let body = v@.subrange(2, v@.len() as int);
                lemma_before_char_found(body, '=');
                if has_eq {
                    assert(v@[end as int] == '=');
                    assert(v@.contains('='));
                } else {
                    assert(!body.contains('='));
                    if v@.contains('=') {
                        let k = choose|k: int| 0 <= k < v@.len() && v@[k] == '=';
                        assert(k >= 2);
                        assert(body[k - 2] == '=');
                    }
                }
            }
            let follows = next_is_value(args, index);
            if list_has(&managed_set, name.as_str()) || starts_with_str(name.as_str(), "gateway-") {
                rejected.push(arg.clone());
                if !has_eq && follows {
                    index += 1;
                    rejected.push(args[index].clone());
                    assert(views(rejected@) =~= before + seq![a[index - 1], a[index as int]]);
                    assert(before + seq![a[index - 1], a[index as int]] + refused_from(
                        a,
                        index + 1,
                    ) =~= before + (seq![a[index - 1], a[index as int]] + refused_from(
                        a,
                        index + 1,
                    )));
                } else {
                    assert(views(rejected@) =~= before + seq![a[index as int]]);
                    assert(before + seq![a[index as int]] + refused_from(a, index + 1) =~= before
                        + (seq![a[index as int]] + refused_from(a, index + 1)));
                }
            } else if !has_eq && !list_has(&boolean_set, name.as_str()) && follows {
                index += 1;
            }
            index += 1;
            continue;
        }
        let start = strip_front_len(&v);
        if cluster_refused_exec(&v, start, &managed_set) {
            rejected.push(arg.clone());
            assert(views(rejected@) =~= before + seq![a[index as int]]);
            assert(before + seq![a[index as int]] + refused_from(a, index + 1) =~= before + (seq![
                a[index as int],
            ] + refused_from(a, index + 1)));
        }
        index += 1;
    }
    assert(refused_from(a, index as int) =~= Seq::<Seq<char>>::empty());
    assert(views(rejected@) + Seq::<Seq<char>>::empty() =~= views(rejected@));
    rejected
}

proof fn lemma_before_char_found(s: Seq<char>, c: char)
    ensures
        before_char(s, c).len() <= s.len(),
        before_char(s, c) == s.subrange(0, before_char(s, c).len() as int),
        !before_char(s, c).contains(c),
        before_char(s, c).len() < s.len() ==> s[before_char(s, c).len() as int] == c,
        before_char(s, c).len() == s.len() ==> !s.contains(c),
    decreases s.len(),
{
    if s.len() > 0 && s[0] != c {
        lemma_before_char_found(s.drop_first(), c);
        let r = before_char(s.drop_first(), c);
        assert(before_char(s, c) =~= seq![s[0]] + r);
        assert(s.subrange(0, r.len() + 1 as int) =~= seq![s[0]] + s.drop_first().subrange(
            0,
            r.len() as int,
        ));
        if (seq![s[0]] + r).contains(c) {
            let k = choose|k: int| 0 <= k < r.len() + 1 && (seq![s[0]] + r)[k] == c;
            assert(k > 0);
            assert(r[k - 1] == c);
        }
        if r.len() == s.len() - 1 && s.contains(c) {
            let k = choose|k: int| 0 <= k < s.len() && s[k] == c;
            assert(k > 0);
            assert(s.drop_first()[k - 1] == c);
        }
    } else if s.len() > 0 {
        assert(s.subrange(0, 0) =~= Seq::<char>::empty());
    }
}

/// The index of the first character of `s` that is not '-'.
fn strip_front_len(s: &[char]) -> (r: usize)
    ensures
        r <= s@.len(),
        s@.subrange(r as int, s@.len() as int) == strip_front(s@, CharClass::Only('-')),
{
    let mut i: usize = 0;
    assert(s@.subrange(0, s@.len() as int) =~= s@);
    while i < s.len() && s[i] == '-'
        invariant
            i <= s@.len(),
            strip_front(s@, CharClass::Only('-')) == strip_front(
                s@.subrange(i as int, s@.len() as int),
                CharClass::Only('-'),
            ),
        decreases s@.len() - i,
    {
        assert(s@.subrange(i as int, s@.len() as int).drop_first() =~= s@.subrange(
            i + 1,
            s@.len() as int,
        ));
        i += 1;
    }
    i
}

/// Fails, naming the refused arguments, when the profile's extra arguments
/// hold anything `validate_extra_args` refuses.
pub fn reject_managed_extra_args(profile: &MountProfile) -> (r: Result<(), DesktopError>)
    ensures
        r is Ok <==> refused(views(profile.extra_args@)).len() == 0,
        r is Err ==> fails_with(
            r,
            "managed extra args rejected: "@ + join(refused(views(profile.extra_args@)), ", "@),
        ),
{
    let rejected = validate_extra_args(profile.extra_args.as_slice());
    if rejected.len() == 0 {
        Ok(())
    } else {
        Err(fail2("managed extra args rejected: ", join_strings(&rejected, ", ").as_str()))
    }
}

/// An argument list the scan accepts in full passes through no flag the
/// client manages: every argument that starts with '-' is neither a bare
/// `--`, nor a managed or `--gateway-*` long flag, nor a short cluster with
/// a managed letter before `o`; and no positional stands on its own.
pub proof fn accepted_args_hold_no_managed_flag(args: Seq<Seq<char>>)
    requires
        refused(args).len() == 0,
    ensures
        forall|i: int|
            0 <= i < args.len() && is_dash(#[trigger] args[i]) ==> {
                &&& args[i] != seq!['-', '-']
                &&& is_double_dash(args[i]) ==> !long_refused(long_name(args[i]))
                &&& !is_double_dash(args[i]) ==> !short_refused(args[i])
            },
        args.len() > 0 ==> is_dash(args[0]),
{
    lemma_accepted_from(args, 0);
}

proof fn lemma_accepted_from(args: Seq<Seq<char>>, k: int)
    requires
        0 <= k,
        refused_from(args, k).len() == 0,
    ensures
        forall|i: int|
            k <= i < args.len() && is_dash(#[trigger] args[i]) ==> {
                &&& args[i] != seq!['-', '-']
                &&& is_double_dash(args[i]) ==> !long_refused(long_name(args[i]))
                &&& !is_double_dash(args[i]) ==> !short_refused(args[i])
            },
        k < args.len() ==> is_dash(args[k]),
    decreases args.len() - k,
{
    if k < args.len() {
        let arg = args[k];
        if !is_dash(arg) || arg == seq!['-', '-'] {
            assert((seq![arg] + refused_from(args, k + 1)).len() > 0);
        } else if is_double_dash(arg) {
            let name = long_name(arg);
            if long_refused(name) {
                if !arg.contains('=') && value_follows(args, k) {
                    assert((seq![arg, args[k + 1]] + refused_from(args, k + 2)).len() > 0);
                } else {
                    assert((seq![arg] + refused_from(args, k + 1)).len() > 0);
                }
            } else if !arg.contains('=') && !boolean_flag(name) && value_follows(args, k) {
                lemma_accepted_from(args, k + 2);
            } else {
                lemma_accepted_from(args, k + 1);
            }
        } else if short_refused(arg) {
            assert((seq![arg] + refused_from(args, k + 1)).len() > 0);
        } else {
            lemma_accepted_from(args, k + 1);
        }
    }
}

} // verus!
