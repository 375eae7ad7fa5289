//! The two entity kinds of the registry, and the mathematical values that
//! contracts use to speak about them.

use vstd::prelude::*;

verus! {

/// A registered file or shortcut.
#[derive(Debug, Clone, PartialEq, Eq)]
pub struct FileInfo {
    /// Caller-assigned unique identifier.
    pub id: String,
    /// File-system name.
    pub name: String,
    /// Human label: the name without a recognised extension.
    pub display_name: String,
    /// Absolute path once stored.
    pub path: String,
    /// Length in bytes.
    pub size: u64,
    /// Extension in lower case; may be empty.
    pub file_type: String,
    /// Data URI of the icon, or empty.
    pub icon: String,
    /// Inline text snapshot of small text files.
    pub content: Option<String>,
    /// Identifier of the owning category; the default category when absent.
    pub category: Option<String>,
    /// Usage counter; zero when absent.
    pub open_count: Option<u64>,
    /// Creation time, if known.
    pub created_at: Option<i64>,
}

/// A named, optionally nested group of items.
#[derive(Debug, Clone, PartialEq, Eq)]
pub struct Category {
    /// Unique identifier.
    pub id: String,
    /// Identifier of the parent category, if nested.
    pub parent_id: Option<String>,
    /// Display label.
    pub name: String,
    /// Data URI of the icon, if any.
    pub icon: Option<String>,
    /// Position among the categories, ascending.
    pub sort_order: i32,
}

/// What a desktop notification is to show.
#[derive(Debug, Clone, PartialEq, Eq)]
pub struct NotificationParams {
    /// Its heading.
    pub title: String,
    /// Its text.
    pub body: String,
    /// The icon to show with it; none where absent or empty.
    pub icon: Option<String>,
}

/// The value of a [`FileInfo`]: its texts as character sequences.
pub ghost struct Item {
    pub id: Seq<char>,
    pub name: Seq<char>,
    pub display_name: Seq<char>,
    pub path: Seq<char>,
    pub size: u64,
    pub file_type: Seq<char>,
    pub icon: Seq<char>,
    pub content: Option<Seq<char>>,
    pub category: Option<Seq<char>>,
    pub open_count: Option<u64>,
    pub created_at: Option<i64>,
}

/// The value of a [`Category`].
pub ghost struct Group {
    pub id: Seq<char>,
    pub parent_id: Option<Seq<char>>,
    pub name: Seq<char>,
    pub icon: Option<Seq<char>>,
    pub sort_order: i32,
}

/// The characters of an optional text.
pub open spec fn text_of(s: Option<String>) -> Option<Seq<char>> {
    match s {
        Some(t) => Some(t@),
        None => None,
    }
}

impl View for FileInfo {
    type V = Item;

    open spec fn view(&self) -> Item {
        Item {
            id: self.id@,
            name: self.name@,
            display_name: self.display_name@,
            path: self.path@,
            size: self.size,
            file_type: self.file_type@,
            icon: self.icon@,
            content: text_of(self.content),
            category: text_of(self.category),
            open_count: self.open_count,
            created_at: self.created_at,
        }
    }
}

impl DeepView for FileInfo {
    type V = Item;

    open spec fn deep_view(&self) -> Item {
        self@
    }
}

impl View for Category {
    type V = Group;

    open spec fn view(&self) -> Group {
        Group {
            id: self.id@,
            parent_id: text_of(self.parent_id),
            name: self.name@,
            icon: text_of(self.icon),
            sort_order: self.sort_order,
        }
    }
}

impl DeepView for Category {
    type V = Group;

    open spec fn deep_view(&self) -> Group {
        self@
    }
}

} // verus!
