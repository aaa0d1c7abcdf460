//! Where the application keeps its files, below the user's home directory.
//! Paths are texts whose components are separated as the system separates
//! them: by `\\` on Windows, by `/` elsewhere.

use crate::platform::TargetOs;
use vstd::prelude::*;

verus! {

/// Whether `c` separates path components on `os`: `/` everywhere, and `\\`
/// too on Windows.
pub open spec fn is_separator(os: TargetOs, c: char) -> bool {
    c == '/' || (os == TargetOs::Windows && c == '\\')
}

/// The separator that is put between components on `os`.
pub open spec fn separator(os: TargetOs) -> Seq<char> {
    if os == TargetOs::Windows {
        "\\"@
    } else {
        "/"@
    }
}

/// Whether `c` is an ASCII letter.
pub open spec fn is_ascii_letter(c: char) -> bool {
    ('a' <= c && c <= 'z') || ('A' <= c && c <= 'Z')
}

/// Whether `base` is, on `os`, a drive and nothing else (such as `C:`), after
/// which a component follows without a separator.
pub open spec fn is_bare_drive(os: TargetOs, base: Seq<char>) -> bool {
    os == TargetOs::Windows && base.len() == 2 && is_ascii_letter(base[0]) && base[1] == ':'
}

/// `base` with the relative component `part` appended, as appending a
/// component to a path does on `os`: the system's separator is put between
/// them unless `base` is empty, already ends with a separator, or is a bare
/// drive.
pub open spec fn joined(os: TargetOs, base: Seq<char>, part: Seq<char>) -> Seq<char> {
    if base.len() == 0 || is_separator(os, base.last()) || is_bare_drive(os, base) {
        base + part
    } else {
        base + separator(os) + part
    }
}

/// The home directory, or the current directory (`.`) when it is unknown.
pub open spec fn home_or_current(home: Option<Seq<char>>) -> Seq<char> {
    match home {
        Some(h) => h,
        None => "."@,
    }
}

/// The directory of the configuration file.
pub open spec fn config_dir(os: TargetOs, home: Seq<char>) -> Seq<char> {
    joined(os, joined(os, home, "cci-config"@), "opencode"@)
}

/// The configuration file.
pub open spec fn config_file(os: TargetOs, home: Seq<char>) -> Seq<char> {
    joined(os, config_dir(os, home), "opencode.jsonc"@)
}

/// The directory of the application's preferences.
pub open spec fn preferences_dir(os: TargetOs, home: Seq<char>) -> Seq<char> {
    joined(os, joined(os, home, "cci-tech"@), "open-persona-v3"@)
}

/// The directory of agent definitions.
pub open spec fn agents_dir(os: TargetOs, home: Seq<char>) -> Seq<char> {
    joined(os, preferences_dir(os, home), "agents"@)
}

/// The directory that holds configuration backups.
pub open spec fn backups_dir(os: TargetOs, home: Seq<char>) -> Seq<char> {
    joined(os, preferences_dir(os, home), "backups"@)
}

/// The directory of the backup taken at the time `stamp` names.
pub open spec fn backup_dir(os: TargetOs, home: Seq<char>, stamp: Seq<char>) -> Seq<char> {
    joined(os, backups_dir(os, home), stamp)
}

/// The copy of the configuration file in the backup taken at `stamp`.
pub open spec fn backup_file(os: TargetOs, home: Seq<char>, stamp: Seq<char>) -> Seq<char> {
    joined(os, backup_dir(os, home, stamp), "opencode.jsonc"@)
}

/// The directory that downloaded sidecar builds are installed in.
pub open spec fn sidecar_dir(os: TargetOs, home: Seq<char>) -> Seq<char> {
    joined(os, preferences_dir(os, home), "sidecars"@)
}

fn is_separator_char(os: TargetOs, c: char) -> (b: bool)
    ensures
        b == is_separator(os, c),
{
    c == '/' || (os == TargetOs::Windows && c == '\\')
}

/// Appends the component `part` to the path `base`, on `os`.
pub fn join(os: TargetOs, base: &str, part: &str) -> (p: String)
    ensures
        p@ == joined(os, base@, part@),
{
    let mut p = String::new();
    p.append(base);
    let n = base.unicode_len();
    let mut need_sep = n > 0 && !is_separator_char(os, base.get_char(n - 1));
    if need_sep && os == TargetOs::Windows && n == 2 {
        let d = base.get_char(0);
        if (('a' <= d && d <= 'z') || ('A' <= d && d <= 'Z')) && base.get_char(1) == ':' {
            need_sep = false;
        }
    }
    if need_sep {
        proof {
            reveal_strlit("\\");
            reveal_strlit("/");
        }
        if os == TargetOs::Windows {
            p.append("\\");
        } else {
            p.append("/");
        }
    }
    p.append(part);
    p
}

/// The home directory, or `.` when it is unknown.
pub fn resolve_home(home: Option<String>) -> (h: String)
    ensures
        h@ == home_or_current(
            match home {
                Some(s) => Some(s@),
                None => None,
            },
        ),
{
    match home {
        Some(h) => h,
        None => {
            proof {
                reveal_strlit(".");
            }
            let mut h = String::new();
            h.append(".");
            h
        },
    }
}

/// The directory of the configuration file below `home`.
pub fn config_dir_path(os: TargetOs, home: &str) -> (p: String)
    ensures
        p@ == config_dir(os, home@),
{
    proof {
        reveal_strlit("cci-config");
        reveal_strlit("opencode");
    }
    let a = join(os, home, "cci-config");
    join(os, a.as_str(), "opencode")
}

/// The configuration file below `home`.
pub fn config_file_path(os: TargetOs, home: &str) -> (p: String)
    ensures
        p@ == config_file(os, home@),
{
    proof {
        reveal_strlit("opencode.jsonc");
    }
    let d = config_dir_path(os, home);
    join(os, d.as_str(), "opencode.jsonc")
}

/// The preferences directory below `home`.
pub fn preferences_dir_path(os: TargetOs, home: &str) -> (p: String)
    ensures
        p@ == preferences_dir(os, home@),
{
    proof {
        reveal_strlit("cci-tech");
        reveal_strlit("open-persona-v3");
    }
    let a = join(os, home, "cci-tech");
    join(os, a.as_str(), "open-persona-v3")
}

/// The agents directory below `home`.
pub fn agents_dir_path(os: TargetOs, home: &str) -> (p: String)
    ensures
        p@ == agents_dir(os, home@),
{
    proof {
        reveal_strlit("agents");
    }
    let d = preferences_dir_path(os, home);
    join(os, d.as_str(), "agents")
}

/// The backups directory below `home`.
pub fn backups_dir_path(os: TargetOs, home: &str) -> (p: String)
    ensures
        p@ == backups_dir(os, home@),
{
    proof {
        reveal_strlit("backups");
    }
    let d = preferences_dir_path(os, home);
    join(os, d.as_str(), "backups")
}

/// The directory of the backup taken at `stamp`, below `home`.
pub fn backup_dir_path(os: TargetOs, home: &str, stamp: &str) -> (p: String)
    ensures
        p@ == backup_dir(os, home@, stamp@),
{
    let d = backups_dir_path(os, home);
    join(os, d.as_str(), stamp)
}

/// The backup copy of the configuration file taken at `stamp`, below `home`.
pub fn backup_file_path(os: TargetOs, home: &str, stamp: &str) -> (p: String)
    ensures
        p@ == backup_file(os, home@, stamp@),
{
    proof {
        reveal_strlit("opencode.jsonc");
    }
    let d = backup_dir_path(os, home, stamp);
    join(os, d.as_str(), "opencode.jsonc")
}

/// The directory below `home` that downloaded sidecar builds are installed in.
pub fn user_sidecar_dir(os: TargetOs, home: &str) -> (p: String)
    ensures
        p@ == sidecar_dir(os, home@),
{
    proof {
        reveal_strlit("sidecars");
    }
    let d = preferences_dir_path(os, home);
    join(os, d.as_str(), "sidecars")
}

/// The directories that are made sure to exist before the sidecar starts:
/// the configuration directory, the agents directory and the backups directory.
pub fn sidecar_setup_dirs(os: TargetOs, home: &str) -> (dirs: Vec<String>)
    ensures
        dirs@.map_values(|d: String| d@) == seq![config_dir(os, home@), agents_dir(os, home@), backups_dir(os, home@)],
{
    let mut dirs: Vec<String> = Vec::new();
    dirs.push(config_dir_path(os, home));
    dirs.push(agents_dir_path(os, home));
    dirs.push(backups_dir_path(os, home));
    assert(dirs@.map_values(|d: String| d@) =~= seq![config_dir(os, home@), agents_dir(os, home@), backups_dir(os, home@)]);
    dirs
}

/// The text that a missing configuration file is created with, and that a
/// reset writes.
pub open spec fn default_config() -> Seq<char> {
    "{\n  \"$schema\": \"https://opencode.ai/config.json\",\n  \"model\": \"\",\n  \"small_model\": \"\",\n  \"provider\": {}\n}"@
}

/// The default configuration text.
pub fn default_config_text() -> (t: &'static str)
    ensures
        t@ == default_config(),
{
    "{\n  \"$schema\": \"https://opencode.ai/config.json\",\n  \"model\": \"\",\n  \"small_model\": \"\",\n  \"provider\": {}\n}"
}

/// The file to create, and its text, when the configuration file below `home`
/// does not exist yet: none when it exists, else the configuration file with
/// the default text.
pub fn missing_config_write(os: TargetOs, home: &str, exists: bool) -> (w: Option<(String, &'static str)>)
    ensures
        exists ==> w is None,
        !exists ==> (w matches Some((path, text)) && path@ == config_file(os, home@) && text@
            == default_config()),
{
    if exists {
        None
    } else {
        Some((config_file_path(os, home), default_config_text()))
    }
}

/// Every file and directory of the application lies below the home directory:
/// each of its paths starts with the home directory.
pub proof fn lemma_paths_below_home(os: TargetOs, home: Seq<char>, stamp: Seq<char>)
    requires
        home.len() > 0,
    ensures
        config_file(os, home).subrange(0, home.len() as int) == home,
        backup_file(os, home, stamp).subrange(0, home.len() as int) == home,
        agents_dir(os, home).subrange(0, home.len() as int) == home,
        sidecar_dir(os, home).subrange(0, home.len() as int) == home,
{
    assert(joined(os, home, "cci-config"@).subrange(0, home.len() as int) =~= home);
    assert(joined(os, home, "cci-tech"@).subrange(0, home.len() as int) =~= home);
    lemma_join_keeps_prefix(os, joined(os, home, "cci-config"@), "opencode"@, home);
    lemma_join_keeps_prefix(os, config_dir(os, home), "opencode.jsonc"@, home);
    lemma_join_keeps_prefix(os, joined(os, home, "cci-tech"@), "open-persona-v3"@, home);
    lemma_join_keeps_prefix(os, preferences_dir(os, home), "agents"@, home);
    lemma_join_keeps_prefix(os, preferences_dir(os, home), "sidecars"@, home);
    lemma_join_keeps_prefix(os, preferences_dir(os, home), "backups"@, home);
    lemma_join_keeps_prefix(os, backups_dir(os, home), stamp, home);
    lemma_join_keeps_prefix(os, backup_dir(os, home, stamp), "opencode.jsonc"@, home);
}

/// Appending a component keeps every prefix of the path.
pub proof fn lemma_join_keeps_prefix(os: TargetOs, base: Seq<char>, part: Seq<char>, prefix: Seq<char>)
    requires
        prefix.len() <= base.len(),
        base.subrange(0, prefix.len() as int) == prefix,
    ensures
        joined(os, base, part).len() >= base.len(),
        joined(os, base, part).subrange(0, prefix.len() as int) == prefix,
{
    if base.len() > 0 {
        assert(joined(os, base, part).subrange(0, prefix.len() as int) =~= base.subrange(
            0,
            prefix.len() as int,
        ));
    } else {
        assert(prefix.len() == 0);
        assert(joined(os, base, part).subrange(0, 0) =~= prefix);
    }
}


/// A backup copy is never the configuration file itself: below the home
/// directory one lies under `cci-config`, the other under `cci-tech`.
pub proof fn lemma_backup_file_is_not_config_file(os: TargetOs, home: Seq<char>, stamp: Seq<char>)
    ensures
        config_file(os, home) != backup_file(os, home, stamp),
{
    reveal_strlit("cci-config");
    reveal_strlit("cci-tech");
    let a = joined(os, home, "cci-config"@);
    let b = joined(os, home, "cci-tech"@);
    let k = a.len() - 10;
    assert(b.len() - 8 == k);
    assert(a[k + 4] == 'c');
    assert(b[k + 4] == 't');
    assert(a.subrange(0, a.len() as int) =~= a);
    assert(b.subrange(0, b.len() as int) =~= b);
    lemma_join_keeps_prefix(os, a, "opencode"@, a);
    lemma_join_keeps_prefix(os, config_dir(os, home), "opencode.jsonc"@, a);
    lemma_join_keeps_prefix(os, b, "open-persona-v3"@, b);
    lemma_join_keeps_prefix(os, preferences_dir(os, home), "backups"@, b);
    lemma_join_keeps_prefix(os, backups_dir(os, home), stamp, b);
    lemma_join_keeps_prefix(os, backup_dir(os, home, stamp), "opencode.jsonc"@, b);
    let c = config_file(os, home);
    let d = backup_file(os, home, stamp);
    assert(c[k + 4] == c.subrange(0, a.len() as int)[k + 4]);
    assert(d[k + 4] == d.subrange(0, b.len() as int)[k + 4]);
}

} // verus!
