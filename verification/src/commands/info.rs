//! The description of a file that is about to be registered.
//!
//! The host looks at the file system; the library decides what the
//! description holds: which name is shown, whether the file's text is kept
//! with it, what a missing file or a missing icon comes to.

use crate::models::{FileInfo, Item};
use crate::utils::{
    extension_of, file_name_of, find_last, is_one_of, last_index_of, lowercase_text, lowercased,
};
use vstd::prelude::*;

verus! {

/// A file's text is kept with its description only below this size.
pub const CONTENT_LIMIT: u64 = 1048576;

/// What is said of a path at which nothing exists, before the path.
pub const FILE_NOT_FOUND: &'static str = "File not found: ";

/// What is said of a path that has no file name.
pub const INVALID_FILE_NAME: &'static str = "Invalid file name";

/// What the file system says of a path.
#[derive(Debug, Clone, Copy, PartialEq, Eq)]
pub struct FileMetadata {
    /// Whether it is a regular file.
    pub is_file: bool,
    /// Its length in bytes.
    pub len: u64,
}

/// What the host found out about the file to describe.
#[derive(Debug)]
pub struct FileFacts {
    /// Whether anything exists at the path.
    pub exists: bool,
    /// Its metadata, or why they could not be read.
    pub metadata: Result<FileMetadata, String>,
    /// Its icon as a data URI, or why none could be made.
    pub icon: Result<String, String>,
    /// Its text, where the host read it and it is valid text.
    pub text: Option<String>,
}

/// The extensions of the files whose text is kept with their description.
pub open spec fn text_extensions() -> Seq<Seq<char>> {
    seq![
        "txt"@,
        "md"@,
        "json"@,
        "js"@,
        "ts"@,
        "html"@,
        "css"@,
        "py"@,
        "rs"@,
        "c"@,
        "cpp"@,
        "h"@,
        "hpp"@,
        "go"@,
        "sql"@,
        "yml"@,
        "yaml"@,
        "toml"@,
        "xml"@,
    ]
}

/// The extensions that are left out of the name that is shown.
pub open spec fn common_extensions() -> Seq<Seq<char>> {
    seq![
        "exe"@,
        "js"@,
        "ts"@,
        "html"@,
        "css"@,
        "py"@,
        "rs"@,
        "c"@,
        "cpp"@,
        "h"@,
        "hpp"@,
        "go"@,
        "sql"@,
        "yml"@,
        "yaml"@,
        "toml"@,
        "xml"@,
        "txt"@,
        "md"@,
        "json"@,
    ]
}

/// The text extensions, as values to work with.
pub fn text_extensions_list() -> (list: Vec<&'static str>)
    ensures
        list.deep_view() == text_extensions(),
{
    let list = vec![
        "txt",
        "md",
        "json",
        "js",
        "ts",
        "html",
        "css",
        "py",
        "rs",
        "c",
        "cpp",
        "h",
        "hpp",
        "go",
        "sql",
        "yml",
        "yaml",
        "toml",
        "xml",
    ];
    assert(list.deep_view() =~= text_extensions());
    list
}

/// The common extensions, as values to work with.
pub fn common_extensions_list() -> (list: Vec<&'static str>)
    ensures
        list.deep_view() == common_extensions(),
{
    let list = vec![
        "exe",
        "js",
        "ts",
        "html",
        "css",
        "py",
        "rs",
        "c",
        "cpp",
        "h",
        "hpp",
        "go",
        "sql",
        "yml",
        "yaml",
        "toml",
        "xml",
        "txt",
        "md",
        "json",
    ];
    assert(list.deep_view() =~= common_extensions());
    list
}

/// Whether the text of a file is kept with its description: only for a
/// regular file below the size limit whose extension, in lower case, is
/// `lower_extension` and one of the text extensions.
pub open spec fn keeps_content(metadata: FileMetadata, lower_extension: Seq<char>) -> bool {
    metadata.is_file && metadata.len < CONTENT_LIMIT && text_extensions().contains(lower_extension)
}

/// The name that is shown for the file name `name`: the name without its
/// last dot and what follows it, where that, in lower case, is one of the
/// common extensions; else the whole name.
pub open spec fn display_name_of(name: Seq<char>) -> Seq<char> {
    let dot = last_index_of(name, '.');
    if dot >= 0 && common_extensions().contains(lowercased(name.skip(dot + 1))) {
        name.take(dot)
    } else {
        name
    }
}

/// Decides whether the host is to read the text of a file, from its
/// metadata and its extension in lower case.
pub fn keeps_content_of(metadata: &FileMetadata, lower_extension: &String) -> (keep: bool)
    ensures
        keep == keeps_content(*metadata, lower_extension@),
{
    metadata.is_file && metadata.len < CONTENT_LIMIT && is_one_of(
        &text_extensions_list(),
        lower_extension,
    )
}

/// Decides whether the host is to read the text of the file at `path`: the
/// answer is [`keeps_content`] for the extension that the platform reads
/// from the path, in lower case; a path without extension has the empty
/// one.
pub fn wants_content(path: &str, metadata: &FileMetadata) -> (keep: bool)
    ensures
        exists|extension: Seq<char>|
            keep == #[trigger] keeps_content(*metadata, lowercased(extension)),
        keep ==> metadata.is_file && metadata.len < CONTENT_LIMIT,
{
    let extension = match extension_of(path) {
        Some(extension) => extension,
        None => String::new(),
    };
    let keep = keeps_content_of(metadata, &lowercase_text(extension.as_str()));
    assert(keep == keeps_content(*metadata, lowercased(extension@)));
    keep
}

/// The name that is shown for `name`, where `dot` is the place of its last
/// dot and `lower_extension` what follows that dot, in lower case.
pub fn display_name_from(name: &str, dot: Option<usize>, lower_extension: &String) -> (shown: String)
    ensures
        shown@ == match dot {
            Some(d) => if d <= name@.len() && common_extensions().contains(lower_extension@) {
                name@.take(d as int)
            } else {
                name@
            },
            None => name@,
        },
{
    match dot {
        Some(d) => {
            if d <= name.unicode_len() && is_one_of(&common_extensions_list(), lower_extension) {
                String::from_str(name.substring_char(0, d))
            } else {
                String::from_str(name)
            }
        },
        None => String::from_str(name),
    }
}

/// The name that is shown for the file name `name`.
pub fn display_name(name: &str) -> (shown: String)
    ensures
        shown@ == display_name_of(name@),
{
    let dot = find_last(name, '.');
    match dot {
        Some(d) => {
            let len = name.unicode_len();
            let lower = lowercase_text(name.substring_char(d + 1, len));
            display_name_from(name, dot, &lower)
        },
        None => String::from_str(name),
    }
}

/// The description of a file with the file name `name` and the extension
/// `lower_extension`, in lower case and empty where the file has none. It
/// has no identifier, category or usage counter yet; a missing icon is an
/// empty one; the text is kept only where [`keeps_content`] says so.
pub open spec fn described(
    path: Seq<char>,
    name: Seq<char>,
    lower_extension: Seq<char>,
    metadata: FileMetadata,
    icon: Result<String, String>,
    text: Option<String>,
) -> Item {
    Item {
        id: Seq::<char>::empty(),
        name,
        display_name: display_name_of(name),
        path,
        size: metadata.len,
        file_type: lower_extension,
        icon: match icon {
            Ok(uri) => uri@,
            Err(_) => Seq::<char>::empty(),
        },
        content: if keeps_content(metadata, lower_extension) {
            crate::models::text_of(text)
        } else {
            None
        },
        category: None,
        open_count: None,
        created_at: None,
    }
}

/// What describing a file comes to, from what the host found out and from
/// what the platform reads from the path: its file name `name`, if it has
/// one, and its extension in lower case. The refusals come in this order:
/// nothing exists at the path; its metadata could not be read; it has no
/// file name.
pub open spec fn description(
    path: Seq<char>,
    name: Option<Seq<char>>,
    lower_extension: Seq<char>,
    facts: FileFacts,
) -> Result<Item, Seq<char>> {
    if !facts.exists {
        Err(FILE_NOT_FOUND@ + path)
    } else {
        match facts.metadata {
            Err(reason) => Err(reason@),
            Ok(metadata) => match name {
                None => Err(INVALID_FILE_NAME@),
                Some(n) => Ok(described(path, n, lower_extension, metadata, facts.icon, facts.text)),
            },
        }
    }
}

/// Whether `r` gives the description or the refusal `expected`.
pub open spec fn gives(r: Result<FileInfo, String>, expected: Result<Item, Seq<char>>) -> bool {
    match expected {
        Ok(item) => r matches Ok(file) && file@ == item,
        Err(refusal) => r matches Err(e) && e@ == refusal,
    }
}

/// Builds the description of a file from its parts (see [`described`]).
pub fn describe_file(
    path: String,
    name: String,
    lower_extension: String,
    metadata: &FileMetadata,
    icon: Result<String, String>,
    text: Option<String>,
) -> (file: FileInfo)
    ensures
        file@ == described(path@, name@, lower_extension@, *metadata, icon, text),
{
    let shown = display_name(name.as_str());
    let icon = match icon {
        Ok(uri) => uri,
        Err(_) => String::new(),
    };
    let content = if keeps_content_of(metadata, &lower_extension) {
        text
    } else {
        None
    };
    FileInfo {
        id: String::new(),
        name,
        display_name: shown,
        path,
        size: metadata.len,
        file_type: lower_extension,
        icon,
        content,
        category: None,
        open_count: None,
        created_at: None,
    }
}

/// Describes the file at `path` from what the host found out about it and
/// from what the platform reads from the path: `name` is its file name, if
/// it has one, and `lower_extension` its extension in lower case, empty
/// where it has none (see [`description`]).
pub fn describe_named(
    path: String,
    name: Option<String>,
    lower_extension: String,
    facts: FileFacts,
) -> (r: Result<FileInfo, String>)
    ensures
        gives(r, description(path@, crate::models::text_of(name), lower_extension@, facts)),
{
    if !facts.exists {
        return Err(String::from_str(FILE_NOT_FOUND).concat(path.as_str()));
    }
    let metadata = match facts.metadata {
        Ok(metadata) => metadata,
        Err(reason) => {
            return Err(reason);
        },
    };
    match name {
        Some(name) => Ok(
            describe_file(path, name, lower_extension, &metadata, facts.icon, facts.text),
        ),
        None => Err(String::from_str(INVALID_FILE_NAME)),
    }
}

/// Describes the file at `path`, an absolute path with any shortcut
/// already followed, from what the host found out about it. The file name
/// and the extension are what the platform reads from the path; the type
/// of the file is its extension in lower case.
///
/// Fails where nothing exists at the path, where its metadata could not be
/// read (with the host's reason) and where the path has no file name. A
/// missing icon and a text that was not read never fail it.
pub fn get_file_info(path: String, facts: FileFacts) -> (r: Result<FileInfo, String>)
    ensures
        exists|name: Option<Seq<char>>, extension: Seq<char>|
            gives(r, #[trigger] description(path@, name, lowercased(extension), facts)),
        !facts.exists ==> (r matches Err(e) && e@ == FILE_NOT_FOUND@ + path@),
        facts.exists ==> match facts.metadata {
            Err(reason) => r matches Err(e) && e@ == reason@,
            Ok(metadata) => match r {
                Err(e) => e@ == INVALID_FILE_NAME@,
                Ok(file) => {
                    &&& file@.id == Seq::<char>::empty()
                    &&& file@.display_name == display_name_of(file@.name)
                    &&& file@.path == path@
                    &&& file@.size == metadata.len
                    &&& file@.icon == match facts.icon {
                        Ok(uri) => uri@,
                        Err(_) => Seq::<char>::empty(),
                    }
                    &&& file@.content == if keeps_content(metadata, file@.file_type) {
                        crate::models::text_of(facts.text)
                    } else {
                        None
                    }
                    &&& file@.category is None
                    &&& file@.open_count is None
                    &&& file@.created_at is None
                },
            },
        },
{
    let name = file_name_of(path.as_str());
    let extension = match extension_of(path.as_str()) {
        Some(extension) => extension,
        None => String::new(),
    };
    let lower_extension = lowercase_text(extension.as_str());
    let ghost read = crate::models::text_of(name);
    let r = describe_named(path, name, lower_extension, facts);
    assert(gives(r, description(path@, read, lowercased(extension@), facts)));
    r
}

} // verus!
