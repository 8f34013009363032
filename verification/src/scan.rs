//! The installation scanner: picking the executable archives out of a
//! directory listing and classifying the directory into one of the four
//! scan outcomes, with the archive-absence check taking precedence over the
//! configuration-file checks.

use vstd::prelude::*;

use crate::model::{DirListing, GeneralSettings, ScanResult, ServerInfo, SettingsFile};

verus! {

/// Whether `i` is the position of the last `'.'` in `s`.
pub open spec fn is_last_dot(s: Seq<char>, i: int) -> bool {
    &&& 0 <= i < s.len()
    &&& s[i] == '.'
    &&& forall|j: int| i < j < s.len() ==> s[j] != '.'
}

/// Whether `e` spells the executable-archive extension, ASCII
/// case-insensitively.
pub open spec fn is_jar_extension(e: Seq<char>) -> bool {
    &&& e.len() == 3
    &&& (e[0] == 'j' || e[0] == 'J')
    &&& (e[1] == 'a' || e[1] == 'A')
    &&& (e[2] == 'r' || e[2] == 'R')
}

/// Whether the file name `s` carries the executable-archive extension: its
/// last `'.'` is not the leading character (a bare dot-file has no
/// extension) and what follows it spells the extension.
pub open spec fn is_jar_name(s: Seq<char>) -> bool {
    exists|i: int|
        is_last_dot(s, i) && i > 0 && is_jar_extension(s.subrange(i + 1, s.len() as int))
}

/// The archive file names among `names`, in listing order.
pub open spec fn jar_names(names: Seq<Seq<char>>) -> Seq<Seq<char>> {
    names.filter(|n: Seq<char>| is_jar_name(n))
}

proof fn lemma_jar_names_push(s: Seq<Seq<char>>, x: Seq<char>)
    ensures
        jar_names(s.push(x)) == if is_jar_name(x) {
            jar_names(s).push(x)
        } else {
            jar_names(s)
        },
{
    reveal(Seq::filter);
    assert(s.push(x).drop_last() =~= s);
    assert(s.push(x).last() == x);
}

/// Decides whether `name` carries the executable-archive extension.
pub fn is_jar_file_name(name: &str) -> (r: bool)
    ensures
        r == is_jar_name(name@),
{
    let n = name.unicode_len();
    let mut i: usize = 0;
    let mut last_dot: Option<usize> = None;
    while i < n
        invariant
            0 <= i <= n,
            n == name@.len(),
            match last_dot {
                Option::None => forall|j: int| 0 <= j < i ==> name@[j] != '.',
                Option::Some(d) => {
                    &&& d < i
                    &&& name@[d as int] == '.'
                    &&& forall|j: int| d < j < i ==> name@[j] != '.'
                },
            },
        decreases n - i,
    {
        if name.get_char(i) == '.' {
            last_dot = Some(i);
        }
        i = i + 1;
    }
    match last_dot {
        None => {
            assert(forall|k: int| is_last_dot(name@, k) ==> name@[k] != '.');
            false
        },
        Some(d) => {
            assert(is_last_dot(name@, d as int));
            if d == 0 {
                assert(!is_jar_name(name@)) by {
                    if is_jar_name(name@) {
                        let k = choose|k: int|
                            is_last_dot(name@, k) && k > 0 && is_jar_extension(
                                name@.subrange(k + 1, name@.len() as int),
                            );
                        assert(name@[k] == '.');
                    }
                }
                false
            } else if n - d - 1 != 3 {
                assert(!is_jar_name(name@)) by {
                    if is_jar_name(name@) {
                        let k = choose|k: int|
                            is_last_dot(name@, k) && k > 0 && is_jar_extension(
                                name@.subrange(k + 1, name@.len() as int),
                            );
                        assert(k == d) by {
                            if k < d {
                                assert(name@[d as int] == '.');
                            }
                            if k > d {
                                assert(name@[k] == '.');
                            }
                        }
                    }
                }
                false
            } else {
                let c0 = name.get_char(d + 1);
                let c1 = name.get_char(d + 2);
                let c2 = name.get_char(d + 3);
                let ext_ok = (c0 == 'j' || c0 == 'J') && (c1 == 'a' || c1 == 'A') && (c2 == 'r'
                    || c2 == 'R');
                proof {
                    let e = name@.subrange(d + 1, name@.len() as int);
                    assert(e.len() == 3);
                    assert(e[0] == name@[d + 1] && e[1] == name@[d + 2] && e[2] == name@[d + 3]);
                    if ext_ok {
                        assert(is_jar_name(name@));
                    } else {
                        if is_jar_name(name@) {
                            let k = choose|k: int|
                                is_last_dot(name@, k) && k > 0 && is_jar_extension(
                                    name@.subrange(k + 1, name@.len() as int),
                                );
                            assert(k == d) by {
                                if k < d {
                                    assert(name@[d as int] == '.');
                                }
                                if k > d {
                                    assert(name@[k] == '.');
                                }
                            }
                        }
                    }
                }
                ext_ok
            }
        },
    }
}

/// Keeps the archive file names of `names`, preserving listing order.
pub fn filter_jars(names: &Vec<String>) -> (r: Vec<String>)
    ensures
        r.deep_view() == jar_names(names.deep_view()),
{
    let n = names.len();
    let mut r: Vec<String> = Vec::new();
    let mut i: usize = 0;
    while i < n
        invariant
            0 <= i <= n,
            n == names@.len(),
            r.deep_view() == jar_names(names.deep_view().subrange(0, i as int)),
        decreases n - i,
    {
        proof {
            assert(names.deep_view().subrange(0, i + 1) =~= names.deep_view().subrange(
                0,
                i as int,
            ).push(names.deep_view()[i as int]));
            lemma_jar_names_push(
                names.deep_view().subrange(0, i as int),
                names.deep_view()[i as int],
            );
            assert(names.deep_view()[i as int] == names@[i as int]@);
        }
        if is_jar_file_name(names[i].as_str()) {
            r.push(names[i].clone());
            proof {
                assert(r.deep_view() =~= jar_names(names.deep_view().subrange(0, i + 1)));
            }
        }
        i = i + 1;
    }
    proof {
        assert(names.deep_view().subrange(0, n as int) =~= names.deep_view());
    }
    r
}

/// Whether the reported configuration `config` carries the parsed settings
/// `g`.
pub open spec fn config_matches(config: ServerInfo, g: GeneralSettings) -> bool {
    &&& config.motd@ == g.motd@
    &&& config.server_port == g.server_port
    &&& config.max_players == g.max_players
}

/// What scanning decides for a directory snapshot: a missing directory
/// reads as unconfigured; an unreadable listing is an error; absence of
/// archives is reported before any configuration check; with archives
/// present, a missing settings file reads as unconfigured and an unreadable
/// or malformed one is an error; a single archive yields `Valid` with that
/// archive selected, several yield `NeedCoreSelection` with the selection
/// left open.
pub open spec fn scan_post(
    listing: DirListing,
    settings: SettingsFile,
    r: Result<ScanResult, String>,
) -> bool {
    match listing {
        DirListing::Missing => r matches Ok(s) && s is NoSettings,
        DirListing::Unreadable(e) => r matches Err(m) && m@ == "Read dir error: "@ + e@,
        DirListing::Files(names) => {
            let jars = jar_names(names.deep_view());
            if jars.len() == 0 {
                r matches Ok(s) && s is NoJars
            } else {
                match settings {
                    SettingsFile::Absent => r matches Ok(s) && s is NoSettings,
                    SettingsFile::Unreadable(e) => r matches Err(m) && m@
                        == "Failed to read settings.yml: "@ + e@,
                    SettingsFile::Malformed(e) => r matches Err(m) && m@ == "YAML parse error: "@
                        + e@,
                    SettingsFile::Parsed(g) => {
                        if jars.len() == 1 {
                            r matches Ok(s) && s matches ScanResult::Valid { config, jars: js }
                                && js.deep_view() == jars && config_matches(config, g)
                                && config.core_jar@ == jars[0]
                        } else {
                            r matches Ok(s) && s matches ScanResult::NeedCoreSelection {
                                jars: js,
                                config,
                            } && js.deep_view() == jars && config_matches(config, g)
                                && config.core_jar@ == Seq::<char>::empty()
                        }
                    },
                }
            }
        },
    }
}

/// A name is among the archives picked out of a listing exactly when the
/// listing holds it and it carries the archive extension.
pub proof fn lemma_jar_names_membership(s: Seq<Seq<char>>)
    ensures
        forall|x: Seq<char>| #[trigger]
            jar_names(s).contains(x) <==> (s.contains(x) && is_jar_name(x)),
    decreases s.len(),
{
    broadcast use vstd::seq_lib::lemma_seq_contains_after_push;

    if s.len() == 0 {
        reveal(Seq::filter);
        assert(forall|x: Seq<char>| !s.contains(x));
    } else {
        let p = s.drop_last();
        lemma_jar_names_membership(p);
        lemma_jar_names_push(p, s.last());
        assert(s =~= p.push(s.last()));
    }
}

/// Picking the archives out of a listing without repeated names yields no
/// repeated names.
pub proof fn lemma_jar_names_no_duplicates(s: Seq<Seq<char>>)
    requires
        s.no_duplicates(),
    ensures
        jar_names(s).no_duplicates(),
    decreases s.len(),
{
    broadcast use vstd::seq_lib::lemma_seq_contains_after_push;

    if s.len() > 0 {
        let p = s.drop_last();
        let x = s.last();
        assert(p.no_duplicates());
        lemma_jar_names_no_duplicates(p);
        lemma_jar_names_push(p, x);
        lemma_jar_names_membership(p);
        assert(s =~= p.push(x));
        if is_jar_name(x) {
            assert(!p.contains(x)) by {
                if p.contains(x) {
                    let i = choose|i: int| 0 <= i < p.len() && p[i] == x;
                    assert(s[i] == s[s.len() - 1]);
                }
            }
            assert(!jar_names(p).contains(x));
            let q = jar_names(p).push(x);
            assert forall|i: int, j: int|
                0 <= i < q.len() && 0 <= j < q.len() && i != j implies q[i] != q[j] by {
                if i < q.len() - 1 && j < q.len() - 1 {
                    assert(q[i] == jar_names(p)[i] && q[j] == jar_names(p)[j]);
                } else if i == q.len() - 1 {
                    assert(jar_names(p).contains(jar_names(p)[j]));
                } else {
                    assert(jar_names(p).contains(jar_names(p)[i]));
                }
            }
        }
    }
}

/// A directory with no archive in its listing always scans to `NoJars`,
/// whatever its settings file holds.
pub proof fn lemma_scan_no_archives(
    listing: DirListing,
    settings: SettingsFile,
    r: Result<ScanResult, String>,
)
    requires
        listing matches DirListing::Files(names) && jar_names(names.deep_view()).len() == 0,
        scan_post(listing, settings, r),
    ensures
        r matches Ok(s) && s is NoJars,
{
}

/// A directory with two or more archives and a parsed settings file always
/// scans to `NeedCoreSelection`: the outcome lists the archives of the
/// listing exactly (each exactly once when the listing repeats no name) and
/// leaves the selected archive empty.
pub proof fn lemma_scan_needs_selection(
    names: Vec<String>,
    g: GeneralSettings,
    r: Result<ScanResult, String>,
)
    requires
        jar_names(names.deep_view()).len() >= 2,
        scan_post(DirListing::Files(names), SettingsFile::Parsed(g), r),
    ensures
        r matches Ok(s) && s matches ScanResult::NeedCoreSelection { jars, config } && {
            &&& jars.deep_view() == jar_names(names.deep_view())
            &&& forall|x: Seq<char>| #[trigger]
                jars.deep_view().contains(x) <==> (names.deep_view().contains(x) && is_jar_name(x))
            &&& names.deep_view().no_duplicates() ==> jars.deep_view().no_duplicates()
            &&& config.core_jar@.len() == 0
            &&& config_matches(config, g)
        },
{
    lemma_jar_names_membership(names.deep_view());
    if names.deep_view().no_duplicates() {
        lemma_jar_names_no_duplicates(names.deep_view());
    }
}

/// A directory with exactly one archive and a parsed settings file always
/// scans to `Valid`, with that archive selected as the core and listed
/// among the outcome's archives.
pub proof fn lemma_scan_valid(names: Vec<String>, g: GeneralSettings, r: Result<ScanResult, String>)
    requires
        jar_names(names.deep_view()).len() == 1,
        scan_post(DirListing::Files(names), SettingsFile::Parsed(g), r),
    ensures
        r matches Ok(s) && s matches ScanResult::Valid { jars, config } && {
            &&& jars.deep_view() == jar_names(names.deep_view())
            &&& jars.deep_view().len() == 1
            &&& config.core_jar@ == jars.deep_view()[0]
            &&& jars.deep_view().contains(config.core_jar@)
            &&& config.core_jar@.len() > 0
            &&& config_matches(config, g)
        },
{
    match r {
        Ok(s) => match s {
            ScanResult::Valid { jars, config } => {
                assert(jars.deep_view().contains(config.core_jar@)) by {
                    assert(jars.deep_view()[0] == config.core_jar@);
                }
                assert(config.core_jar@.len() > 0) by {
                    lemma_jar_names_membership(names.deep_view());
                    assert(is_jar_name(config.core_jar@));
                    let i = choose|i: int|
                        is_last_dot(config.core_jar@, i) && i > 0 && is_jar_extension(
                            config.core_jar@.subrange(i + 1, config.core_jar@.len() as int),
                        );
                }
            },
            _ => {},
        },
        _ => {},
    }
}

/// Classifies an installation directory from a snapshot of its listing and
/// of its settings file.
pub fn scan_server_folder(listing: &DirListing, settings: &SettingsFile) -> (r: Result<
    ScanResult,
    String,
>)
    ensures
        scan_post(*listing, *settings, r),
{
    match listing {
        DirListing::Missing => Ok(ScanResult::NoSettings),
        DirListing::Unreadable(e) => {
            let mut m = String::from_str("Read dir error: ");
            m.append(e.as_str());
            Err(m)
        },
        DirListing::Files(names) => {
            let jars = filter_jars(names);
            if jars.len() == 0 {
                Ok(ScanResult::NoJars)
            } else {
                match settings {
                    SettingsFile::Absent => Ok(ScanResult::NoSettings),
                    SettingsFile::Unreadable(e) => {
                        let mut m = String::from_str("Failed to read settings.yml: ");
                        m.append(e.as_str());
                        Err(m)
                    },
                    SettingsFile::Malformed(e) => {
                        let mut m = String::from_str("YAML parse error: ");
                        m.append(e.as_str());
                        Err(m)
                    },
                    SettingsFile::Parsed(g) => {
                        if jars.len() == 1 {
                            proof {
                                assert(jars.deep_view()[0] == jars@[0]@);
                            }
                            let core = jars[0].clone();
                            let info = ServerInfo {
                                motd: g.motd.clone(),
                                server_port: g.server_port,
                                max_players: g.max_players,
                                core_jar: core,
                            };
                            Ok(ScanResult::Valid { config: info, jars })
                        } else {
                            let info = ServerInfo {
                                motd: g.motd.clone(),
                                server_port: g.server_port,
                                max_players: g.max_players,
                                core_jar: String::new(),
                            };
                            Ok(ScanResult::NeedCoreSelection { jars, config: info })
                        }
                    },
                }
            }
        },
    }
}

} // verus!
