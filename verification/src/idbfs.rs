//! The directory that a browser keeps for the machine: its mount path and the
//! scripts that mount and synchronize it.

use vstd::prelude::*;
use vstd::string::{StrSliceExecFns, StringExecFns};
use crate::text::{trim_text, trimmed};

verus! {

/// A text without the slashes at its end.
pub open spec fn without_trailing_slashes(text: Seq<char>) -> Seq<char>
    decreases text.len(),
{
    if text.len() > 0 && text.last() == '/' {
        without_trailing_slashes(text.drop_last())
    } else {
        text
    }
}

/// A text without the `./` at its start, where it starts with that.
pub open spec fn without_dot_prefix(text: Seq<char>) -> Seq<char> {
    if text.len() >= 2 && text[0] == '.' && text[1] == '/' {
        text.subrange(2, text.len() as int)
    } else {
        text
    }
}

/// The absolute path under which a directory is mounted: the path without
/// white space around it, without slashes at its end and without a leading
/// `./`, made absolute; `/` where nothing is left.
pub open spec fn mount_path(path: Seq<char>) -> Seq<char> {
    let rest = without_dot_prefix(without_trailing_slashes(trimmed(path)));
    if rest.len() == 0 {
        seq!['/']
    } else if rest[0] == '/' {
        rest
    } else {
        seq!['/'] + rest
    }
}

/// Computes the mount path of a directory.
pub fn normalize_mount_path(path: &str) -> (r: String)
    ensures
        r@ == mount_path(path@),
{
    let text = trim_text(path);
    let mut end = text.unicode_len();
    assert(text@.subrange(0, end as int) =~= text@);
    while end > 0 && text.get_char(end - 1) == '/'
        invariant
            end <= text@.len(),
            without_trailing_slashes(text@) == without_trailing_slashes(
                text@.subrange(0, end as int),
            ),
        decreases end,
    {
        proof {
            let current = text@.subrange(0, end as int);
            assert(current.last() == '/');
            assert(current.drop_last() =~= text@.subrange(0, end - 1));
        }
        end = end - 1;
    }
    proof {
        let current = text@.subrange(0, end as int);
        if end > 0 {
            assert(current.last() == text@[end - 1]);
        }
        assert(without_trailing_slashes(current) == current);
        reveal_strlit("/");
    }
    let start: usize = if end >= 2 && text.get_char(0) == '.' && text.get_char(1) == '/' {
        2
    } else {
        0
    };
    let rest = text.substring_char(start, end);
    proof {
        let current = text@.subrange(0, end as int);
        assert(rest@ =~= without_dot_prefix(current));
    }
    if start == end {
        String::from_str("/")
    } else if rest.get_char(0) == '/' {
        rest.to_owned()
    } else {
        let mut out = String::from_str("/");
        out.append(rest);
        out
    }
}

/// The mount path of a directory that is kept in browser storage.
pub fn init_idbfs_for_path(path: &str) -> (r: Result<String, String>)
    ensures
        r matches Ok(mounted) && mounted@ == mount_path(path@),
{
    Ok(normalize_mount_path(path))
}

/// The script that mounts browser storage at a mount path and fills the
/// directory from it.
pub open spec fn mount_script(mount_path: Seq<char>) -> Seq<char> {
    "(function() {\n  if (typeof FS === 'undefined' || typeof IDBFS === 'undefined') {\n    console.warn('[anisette-rs] FS/IDBFS unavailable');\n    return;\n  }\n  var mp = \""@
        + mount_path
        + "\";\n  try { FS.mkdirTree(mp); } catch (_e) {}\n  try { FS.mount(IDBFS, {}, mp); } catch (_e) {}\n  FS.syncfs(true, function(err) {\n    if (err) {\n      console.error('[anisette-rs] IDBFS initial sync failed', err);\n    } else {\n      console.log('[anisette-rs] IDBFS ready at ' + mp);\n    }\n  });\n})();"@
}

/// Writes the script that mounts browser storage at `mount_path`.
pub fn idbfs_mount_script(mount_path: &str) -> (r: String)
    ensures
        r@ == mount_script(mount_path@),
{
    let mut script = String::from_str(
        "(function() {\n  if (typeof FS === 'undefined' || typeof IDBFS === 'undefined') {\n    console.warn('[anisette-rs] FS/IDBFS unavailable');\n    return;\n  }\n  var mp = \"",
    );
    script.append(mount_path);
    script.append(
        "\";\n  try { FS.mkdirTree(mp); } catch (_e) {}\n  try { FS.mount(IDBFS, {}, mp); } catch (_e) {}\n  FS.syncfs(true, function(err) {\n    if (err) {\n      console.error('[anisette-rs] IDBFS initial sync failed', err);\n    } else {\n      console.log('[anisette-rs] IDBFS ready at ' + mp);\n    }\n  });\n})();",
    );
    script
}

/// The script that synchronizes the mounted directory with browser storage:
/// from storage to the directory where `populate` holds, else the other way.
pub open spec fn sync_script(populate: bool) -> Seq<char> {
    "(function() {\n  if (typeof FS === 'undefined') {\n    return;\n  }\n  FS.syncfs("@ + (if populate {
        "true"@
    } else {
        "false"@
    })
        + ", function(err) {\n    if (err) {\n      console.error('[anisette-rs] IDBFS sync failed', err);\n    } else {\n      console.log('[anisette-rs] IDBFS sync done');\n    }\n  });\n})();"@
}

/// Writes the script that synchronizes the mounted directory with browser
/// storage. Running it is the caller's part.
pub fn sync_idbfs(populate_from_storage: bool) -> (r: Result<String, String>)
    ensures
        r matches Ok(script) && script@ == sync_script(populate_from_storage),
{
    let mut script = String::from_str(
        "(function() {\n  if (typeof FS === 'undefined') {\n    return;\n  }\n  FS.syncfs(",
    );
    if populate_from_storage {
        script.append("true");
    } else {
        script.append("false");
    }
    script.append(
        ", function(err) {\n    if (err) {\n      console.error('[anisette-rs] IDBFS sync failed', err);\n    } else {\n      console.log('[anisette-rs] IDBFS sync done');\n    }\n  });\n})();",
    );
    Ok(script)
}

} // verus!
