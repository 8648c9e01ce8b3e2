//! The static registry of well-known configuration files and the static
//! category catalog, with per-index specifications that pin every field, and
//! the invariant that registry ids are unique.

use vstd::prelude::*;
use vstd::string::StringExecFns;

use crate::models::{ConfigCategory, ConfigFile};
use crate::text::str_eq;

verus! {

/// The number of entries in the file registry.
pub const REGISTRY_LEN: usize = 6;

/// The number of entries in the category catalog.
pub const CATEGORY_LEN: usize = 6;

/// The id of registry entry `i`.
pub open spec fn entry_id(i: int) -> Seq<char> {
    if i == 0 {
        "bashrc"@
    } else if i == 1 {
        "zshrc"@
    } else if i == 2 {
        "profile"@
    } else if i == 3 {
        "gitconfig"@
    } else if i == 4 {
        "vimrc"@
    } else {
        "sshconfig"@
    }
}

/// The display name of registry entry `i`.
pub open spec fn entry_name(i: int) -> Seq<char> {
    if i == 0 {
        ".bashrc"@
    } else if i == 1 {
        ".zshrc"@
    } else if i == 2 {
        ".profile"@
    } else if i == 3 {
        ".gitconfig"@
    } else if i == 4 {
        ".vimrc"@
    } else {
        "config"@
    }
}

/// The path template of registry entry `i`, with a leading home marker.
pub open spec fn entry_path(i: int) -> Seq<char> {
    if i == 0 {
        "~/.bashrc"@
    } else if i == 1 {
        "~/.zshrc"@
    } else if i == 2 {
        "~/.profile"@
    } else if i == 3 {
        "~/.gitconfig"@
    } else if i == 4 {
        "~/.vimrc"@
    } else {
        "~/.ssh/config"@
    }
}

/// The category id of registry entry `i`.
pub open spec fn entry_category(i: int) -> Seq<char> {
    if i == 0 || i == 1 || i == 2 {
        "shell"@
    } else if i == 3 {
        "git"@
    } else if i == 4 {
        "editor"@
    } else {
        "ssh"@
    }
}

/// The description of registry entry `i`.
pub open spec fn entry_description(i: int) -> Seq<char> {
    if i == 0 {
        "Bash shell configuration"@
    } else if i == 1 {
        "Zsh shell configuration"@
    } else if i == 2 {
        "Shell environment variables"@
    } else if i == 3 {
        "Git global configuration"@
    } else if i == 4 {
        "Vim editor configuration"@
    } else {
        "SSH client configuration"@
    }
}

/// The static fields of `f` are those of registry entry `i`.
pub open spec fn entry_static_matches(f: ConfigFile, i: int) -> bool {
    &&& f.id@ == entry_id(i)
    &&& f.name@ == entry_name(i)
    &&& f.path@ == entry_path(i)
    &&& f.category@ == entry_category(i)
    &&& f.description@ == entry_description(i)
}

/// `f` is registry entry `i` with every live field at its default.
pub open spec fn entry_matches(f: ConfigFile, i: int) -> bool {
    &&& entry_static_matches(f, i)
    &&& f.last_modified == 0
    &&& f.size == 0
    &&& !f.is_symlink
    &&& !f.backup_exists
    &&& f.content is None
}

/// Some registry entry carries the id `id`.
pub open spec fn is_registered(id: Seq<char>) -> bool {
    exists|i: int| 0 <= i < REGISTRY_LEN && entry_id(i) == id
}

/// Registry entry `i`, with live fields at their defaults.
pub fn registry_entry(i: usize) -> (r: ConfigFile)
    requires
        i < REGISTRY_LEN,
    ensures
        entry_matches(r, i as int),
{
    let (id, name, path, category, description): (&str, &str, &str, &str, &str) = match i {
        0 => ("bashrc", ".bashrc", "~/.bashrc", "shell", "Bash shell configuration"),
        1 => ("zshrc", ".zshrc", "~/.zshrc", "shell", "Zsh shell configuration"),
        2 => ("profile", ".profile", "~/.profile", "shell", "Shell environment variables"),
        3 => ("gitconfig", ".gitconfig", "~/.gitconfig", "git", "Git global configuration"),
        4 => ("vimrc", ".vimrc", "~/.vimrc", "editor", "Vim editor configuration"),
        _ => ("sshconfig", "config", "~/.ssh/config", "ssh", "SSH client configuration"),
    };
    ConfigFile {
        id: String::from_str(id),
        name: String::from_str(name),
        path: String::from_str(path),
        category: String::from_str(category),
        description: String::from_str(description),
        last_modified: 0,
        size: 0,
        is_symlink: false,
        backup_exists: false,
        content: None,
    }
}

/// All registry entries, in declaration order, with live fields at defaults.
pub fn registry_entries() -> (r: Vec<ConfigFile>)
    ensures
        r@.len() == REGISTRY_LEN,
        forall|i: int| 0 <= i < REGISTRY_LEN ==> entry_matches(#[trigger] r@[i], i),
{
    let mut out: Vec<ConfigFile> = Vec::new();
    let mut i: usize = 0;
    while i < REGISTRY_LEN
        invariant
            i <= REGISTRY_LEN,
            out@.len() == i,
            forall|k: int| 0 <= k < i ==> entry_matches(#[trigger] out@[k], k),
        decreases REGISTRY_LEN - i,
    {
        out.push(registry_entry(i));
        i += 1;
    }
    out
}

/// The index of the registry entry whose id is `file_id`, if any.
pub fn find_entry_index(file_id: &str) -> (r: Option<usize>)
    ensures
        r matches Some(i) ==> i < REGISTRY_LEN && entry_id(i as int) == file_id@,
        r is None <==> !is_registered(file_id@),
{
    let mut i: usize = 0;
    while i < REGISTRY_LEN
        invariant
            i <= REGISTRY_LEN,
            forall|k: int| 0 <= k < i ==> entry_id(k) != file_id@,
        decreases REGISTRY_LEN - i,
    {
        let e = registry_entry(i);
        if str_eq(file_id, e.id.as_str()) {
            return Some(i);
        }
        i += 1;
    }
    proof {
        assert(forall|k: int| 0 <= k < REGISTRY_LEN ==> entry_id(k) != file_id@);
    }
    None
}

/// Registry ids are globally unique: no two entries share an id. This is the
/// invariant that lets callers use an id as the one stable identifier.
pub proof fn lemma_registry_ids_unique()
    ensures
        forall|i: int, j: int|
            0 <= i < REGISTRY_LEN && 0 <= j < REGISTRY_LEN && i != j ==> entry_id(i) != entry_id(
                j,
            ),
{
    reveal_strlit("bashrc");
    reveal_strlit("zshrc");
    reveal_strlit("profile");
    reveal_strlit("gitconfig");
    reveal_strlit("vimrc");
    reveal_strlit("sshconfig");
    assert forall|i: int, j: int|
        0 <= i < REGISTRY_LEN && 0 <= j < REGISTRY_LEN && i != j implies entry_id(i) != entry_id(
        j,
    ) by {
        assert("bashrc"@.len() == 6);
        assert("zshrc"@.len() == 5);
        assert("profile"@.len() == 7);
        assert("gitconfig"@.len() == 9);
        assert("vimrc"@.len() == 5);
        assert("sshconfig"@.len() == 9);
        assert("zshrc"@ != "vimrc"@) by {
            assert("zshrc"@[0] == 'z' && "vimrc"@[0] == 'v');
        }
        assert("gitconfig"@ != "sshconfig"@) by {
            assert("gitconfig"@[0] == 'g' && "sshconfig"@[0] == 's');
        }
    }
}

/// The id of category `i`.
pub open spec fn cat_id(i: int) -> Seq<char> {
    if i == 0 {
        "shell"@
    } else if i == 1 {
        "editor"@
    } else if i == 2 {
        "git"@
    } else if i == 3 {
        "ssh"@
    } else if i == 4 {
        "system"@
    } else {
        "app"@
    }
}

/// The display name of category `i`.
pub open spec fn cat_name(i: int) -> Seq<char> {
    if i == 0 {
        "Shell configuration"@
    } else if i == 1 {
        "Editor configuration"@
    } else if i == 2 {
        "Git configuration"@
    } else if i == 3 {
        "SSH configuration"@
    } else if i == 4 {
        "System configuration"@
    } else {
        "Application configuration"@
    }
}

/// The icon token of category `i`.
pub open spec fn cat_icon(i: int) -> Seq<char> {
    if i == 0 {
        "Terminal"@
    } else if i == 1 {
        "FileText"@
    } else if i == 2 {
        "GitBranch"@
    } else if i == 3 {
        "Key"@
    } else if i == 4 {
        "Settings"@
    } else {
        "Package"@
    }
}

/// The color token of category `i`.
pub open spec fn cat_color(i: int) -> Seq<char> {
    if i == 0 {
        "bg-green-500"@
    } else if i == 1 {
        "bg-blue-500"@
    } else if i == 2 {
        "bg-orange-500"@
    } else if i == 3 {
        "bg-purple-500"@
    } else if i == 4 {
        "bg-red-500"@
    } else {
        "bg-indigo-500"@
    }
}

/// The description of category `i`.
pub open spec fn cat_description(i: int) -> Seq<char> {
    if i == 0 {
        "Shell environment configuration files"@
    } else if i == 1 {
        "Text editor configuration"@
    } else if i == 2 {
        "Git version control configuration"@
    } else if i == 3 {
        "SSH client configuration"@
    } else if i == 4 {
        "System-level configuration files"@
    } else {
        "Application configuration"@
    }
}

/// Every field of `c` is that of category `i`.
pub open spec fn category_matches(c: ConfigCategory, i: int) -> bool {
    &&& c.id@ == cat_id(i)
    &&& c.name@ == cat_name(i)
    &&& c.icon@ == cat_icon(i)
    &&& c.color@ == cat_color(i)
    &&& c.description@ == cat_description(i)
}

fn category_entry(i: usize) -> (r: ConfigCategory)
    requires
        i < CATEGORY_LEN,
    ensures
        category_matches(r, i as int),
{
    let (id, name, icon, color, description): (&str, &str, &str, &str, &str) = match i {
        0 => (
            "shell",
            "Shell configuration",
            "Terminal",
            "bg-green-500",
            "Shell environment configuration files",
        ),
        1 => ("editor", "Editor configuration", "FileText", "bg-blue-500", "Text editor configuration"),
        2 => ("git", "Git configuration", "GitBranch", "bg-orange-500", "Git version control configuration"),
        3 => ("ssh", "SSH configuration", "Key", "bg-purple-500", "SSH client configuration"),
        4 => ("system", "System configuration", "Settings", "bg-red-500", "System-level configuration files"),
        _ => ("app", "Application configuration", "Package", "bg-indigo-500", "Application configuration"),
    };
    ConfigCategory {
        id: String::from_str(id),
        name: String::from_str(name),
        icon: String::from_str(icon),
        color: String::from_str(color),
        description: String::from_str(description),
    }
}

/// The six fixed categories, in declaration order.
pub fn category_table() -> (r: Vec<ConfigCategory>)
    ensures
        r@.len() == CATEGORY_LEN,
        forall|i: int| 0 <= i < CATEGORY_LEN ==> category_matches(#[trigger] r@[i], i),
{
    let mut out: Vec<ConfigCategory> = Vec::new();
    let mut i: usize = 0;
    while i < CATEGORY_LEN
        invariant
            i <= CATEGORY_LEN,
            out@.len() == i,
            forall|k: int| 0 <= k < i ==> category_matches(#[trigger] out@[k], k),
        decreases CATEGORY_LEN - i,
    {
        out.push(category_entry(i));
        i += 1;
    }
    out
}

} // verus!
