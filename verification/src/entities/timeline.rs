//! A timeline: one user-ordered column over a server.

use vstd::prelude::*;
use crate::text::{clone_opt, opt_view, str_eq};

verus! {

/// What a timeline shows.
#[derive(Clone, Copy, Debug, PartialEq, Eq, Structural)]
pub enum Kind {
    Home,
    Notifications,
    Local,
    Public,
    Favourites,
    List,
    Bookmarks,
    Direct,
    Tag,
}

/// The lower-case name under which a kind is stored and shown.
pub open spec fn kind_name(kind: Kind) -> Seq<char> {
    match kind {
        Kind::Home => "home"@,
        Kind::Notifications => "notifications"@,
        Kind::Local => "local"@,
        Kind::Public => "public"@,
        Kind::Favourites => "favourites"@,
        Kind::List => "list"@,
        Kind::Bookmarks => "bookmarks"@,
        Kind::Direct => "direct"@,
        Kind::Tag => "tag"@,
    }
}

/// The kind that a name stands for, if any.
pub open spec fn kind_of_name(name: Seq<char>) -> Option<Kind> {
    if name == "home"@ {
        Some(Kind::Home)
    } else if name == "notifications"@ {
        Some(Kind::Notifications)
    } else if name == "local"@ {
        Some(Kind::Local)
    } else if name == "public"@ {
        Some(Kind::Public)
    } else if name == "favourites"@ {
        Some(Kind::Favourites)
    } else if name == "list"@ {
        Some(Kind::List)
    } else if name == "bookmarks"@ {
        Some(Kind::Bookmarks)
    } else if name == "direct"@ {
        Some(Kind::Direct)
    } else if name == "tag"@ {
        Some(Kind::Tag)
    } else {
        None
    }
}

impl Kind {
    /// The name of this kind.
    pub fn to_string(&self) -> (name: String)
        ensures
            name@ == kind_name(*self),
    {
        match self {
            Kind::Home => "home".to_owned(),
            Kind::Notifications => "notifications".to_owned(),
            Kind::Local => "local".to_owned(),
            Kind::Public => "public".to_owned(),
            Kind::Favourites => "favourites".to_owned(),
            Kind::List => "list".to_owned(),
            Kind::Bookmarks => "bookmarks".to_owned(),
            Kind::Direct => "direct".to_owned(),
            Kind::Tag => "tag".to_owned(),
        }
    }

    /// Reads a kind from its name; any other text is an error.
    pub fn from_str(s: &str) -> (parsed: Result<Kind, String>)
        ensures
            match kind_of_name(s@) {
                Some(kind) => parsed == Ok::<Kind, String>(kind),
                None => parsed is Err && parsed->Err_0@ == "Unknown timeline kind"@,
            },
    {
        if str_eq(s, "home") {
            Ok(Kind::Home)
        } else if str_eq(s, "notifications") {
            Ok(Kind::Notifications)
        } else if str_eq(s, "local") {
            Ok(Kind::Local)
        } else if str_eq(s, "public") {
            Ok(Kind::Public)
        } else if str_eq(s, "favourites") {
            Ok(Kind::Favourites)
        } else if str_eq(s, "list") {
            Ok(Kind::List)
        } else if str_eq(s, "bookmarks") {
            Ok(Kind::Bookmarks)
        } else if str_eq(s, "direct") {
            Ok(Kind::Direct)
        } else if str_eq(s, "tag") {
            Ok(Kind::Tag)
        } else {
            Err("Unknown timeline kind".to_owned())
        }
    }
}

/// Every kind is read back from its own name.
pub proof fn lemma_kind_name_round_trip(kind: Kind)
    ensures
        kind_of_name(kind_name(kind)) == Some(kind),
{
    reveal_strlit("home");
    reveal_strlit("notifications");
    reveal_strlit("local");
    reveal_strlit("public");
    reveal_strlit("favourites");
    reveal_strlit("list");
    reveal_strlit("bookmarks");
    reveal_strlit("direct");
    reveal_strlit("tag");
    assert("home"@.len() == 4 && "home"@[0] == 'h');
    assert("notifications"@.len() == 13);
    assert("local"@.len() == 5);
    assert("public"@.len() == 6 && "public"@[0] == 'p');
    assert("favourites"@.len() == 10);
    assert("list"@.len() == 4 && "list"@[0] == 'l');
    assert("bookmarks"@.len() == 9);
    assert("direct"@.len() == 6 && "direct"@[0] == 'd');
    assert("tag"@.len() == 3);
}

/// How wide a timeline's column is drawn.
#[derive(Clone, Copy, Debug, PartialEq, Eq, Structural)]
pub enum ColumnWidth {
    XS,
    SM,
    MD,
    LG,
}

/// The lower-case name under which a column width is stored and shown.
pub open spec fn column_width_name(width: ColumnWidth) -> Seq<char> {
    match width {
        ColumnWidth::XS => "xs"@,
        ColumnWidth::SM => "sm"@,
        ColumnWidth::MD => "md"@,
        ColumnWidth::LG => "lg"@,
    }
}

/// The column width that a name stands for, if any.
pub open spec fn column_width_of_name(name: Seq<char>) -> Option<ColumnWidth> {
    if name == "xs"@ {
        Some(ColumnWidth::XS)
    } else if name == "sm"@ {
        Some(ColumnWidth::SM)
    } else if name == "md"@ {
        Some(ColumnWidth::MD)
    } else if name == "lg"@ {
        Some(ColumnWidth::LG)
    } else {
        None
    }
}

impl ColumnWidth {
    /// The name of this width.
    pub fn to_string(&self) -> (name: String)
        ensures
            name@ == column_width_name(*self),
    {
        match self {
            ColumnWidth::XS => "xs".to_owned(),
            ColumnWidth::SM => "sm".to_owned(),
            ColumnWidth::MD => "md".to_owned(),
            ColumnWidth::LG => "lg".to_owned(),
        }
    }

    /// Reads a column width from its name; any other text is an error.
    pub fn from_str(s: &str) -> (parsed: Result<ColumnWidth, String>)
        ensures
            match column_width_of_name(s@) {
                Some(width) => parsed == Ok::<ColumnWidth, String>(width),
                None => parsed is Err && parsed->Err_0@ == "Unknown timeline column width"@,
            },
    {
        if str_eq(s, "xs") {
            Ok(ColumnWidth::XS)
        } else if str_eq(s, "sm") {
            Ok(ColumnWidth::SM)
        } else if str_eq(s, "md") {
            Ok(ColumnWidth::MD)
        } else if str_eq(s, "lg") {
            Ok(ColumnWidth::LG)
        } else {
            Err("Unknown timeline column width".to_owned())
        }
    }
}

/// Every column width is read back from its own name.
pub proof fn lemma_column_width_name_round_trip(width: ColumnWidth)
    ensures
        column_width_of_name(column_width_name(width)) == Some(width),
{
    reveal_strlit("xs");
    reveal_strlit("sm");
    reveal_strlit("md");
    reveal_strlit("lg");
    assert("xs"@[0] == 'x');
    assert("sm"@[0] == 's');
    assert("md"@[0] == 'm');
    assert("lg"@[0] == 'l');
}

/// One timeline as it is stored.
#[derive(Debug)]
pub struct Timeline {
    pub id: i64,
    pub server_id: i64,
    pub kind: Kind,
    pub name: String,
    /// The key by which timelines are ordered; no two timelines share one.
    pub sort: i64,
    /// The remote list that a `List` timeline follows.
    pub list_id: Option<String>,
    pub column_width: ColumnWidth,
    pub show_boosts: bool,
    pub show_replies: bool,
}

/// What a timeline holds, with its strings as sequences of characters.
pub struct TimelineView {
    pub id: i64,
    pub server_id: i64,
    pub kind: Kind,
    pub name: Seq<char>,
    pub sort: i64,
    pub list_id: Option<Seq<char>>,
    pub column_width: ColumnWidth,
    pub show_boosts: bool,
    pub show_replies: bool,
}

impl TimelineView {
    /// The same timeline under another sort key.
    pub open spec fn with_sort(self, sort: i64) -> TimelineView {
        TimelineView { sort, ..self }
    }
}

impl TimelineView {
    /// The same timeline drawn at another width.
    pub open spec fn with_column_width(self, column_width: ColumnWidth) -> TimelineView {
        TimelineView { column_width, ..self }
    }

    /// The same timeline, showing or hiding boosts.
    pub open spec fn with_show_boosts(self, show_boosts: bool) -> TimelineView {
        TimelineView { show_boosts, ..self }
    }

    /// The same timeline, showing or hiding replies.
    pub open spec fn with_show_replies(self, show_replies: bool) -> TimelineView {
        TimelineView { show_replies, ..self }
    }
}

impl View for Timeline {
    type V = TimelineView;

    open spec fn view(&self) -> TimelineView {
        TimelineView {
            id: self.id,
            server_id: self.server_id,
            kind: self.kind,
            name: self.name@,
            sort: self.sort,
            list_id: opt_view(self.list_id),
            column_width: self.column_width,
            show_boosts: self.show_boosts,
            show_replies: self.show_replies,
        }
    }
}

impl Timeline {
    /// A timeline that shows boosts and replies.
    pub fn new(
        id: i64,
        server_id: i64,
        kind: Kind,
        name: String,
        sort: i64,
        list_id: Option<String>,
        column_width: ColumnWidth,
    ) -> (timeline: Timeline)
        ensures
            timeline@ == (TimelineView {
                id,
                server_id,
                kind,
                name: name@,
                sort,
                list_id: opt_view(list_id),
                column_width,
                show_boosts: true,
                show_replies: true,
            }),
    {
        Timeline {
            id,
            server_id,
            kind,
            name,
            sort,
            list_id,
            column_width,
            show_boosts: true,
            show_replies: true,
        }
    }

    /// A copy of this timeline under another sort key.
    pub fn with_sort(&self, sort: i64) -> (moved: Timeline)
        ensures
            moved@ == self@.with_sort(sort),
    {
        Timeline {
            id: self.id,
            server_id: self.server_id,
            kind: self.kind,
            name: self.name.clone(),
            sort,
            list_id: clone_opt(&self.list_id),
            column_width: self.column_width,
            show_boosts: self.show_boosts,
            show_replies: self.show_replies,
        }
    }

    /// A copy of this timeline drawn at another width.
    pub fn with_column_width(&self, column_width: ColumnWidth) -> (changed: Timeline)
        ensures
            changed@ == self@.with_column_width(column_width),
    {
        let mut changed = self.clone();
        changed.column_width = column_width;
        changed
    }

    /// A copy of this timeline that shows or hides boosts.
    pub fn with_show_boosts(&self, show_boosts: bool) -> (changed: Timeline)
        ensures
            changed@ == self@.with_show_boosts(show_boosts),
    {
        let mut changed = self.clone();
        changed.show_boosts = show_boosts;
        changed
    }

    /// A copy of this timeline that shows or hides replies.
    pub fn with_show_replies(&self, show_replies: bool) -> (changed: Timeline)
        ensures
            changed@ == self@.with_show_replies(show_replies),
    {
        let mut changed = self.clone();
        changed.show_replies = show_replies;
        changed
    }

    /// Whether the timeline names what its kind needs: a `List` timeline
    /// needs the list it follows.
    pub fn is_valid(&self) -> (valid: bool)
        ensures
            valid == names_its_list(self@.kind, self@.list_id is Some),
    {
        names_list(self.kind, self.list_id.is_some())
    }
}

/// Whether a timeline of this kind is complete with or without a list: a
/// `List` timeline needs the list it follows, and no other kind needs one.
pub open spec fn names_its_list(kind: Kind, has_list: bool) -> bool {
    kind == Kind::List ==> has_list
}

/// Whether a timeline of this kind is complete with or without a list.
pub fn names_list(kind: Kind, has_list: bool) -> (complete: bool)
    ensures
        complete == names_its_list(kind, has_list),
{
    match kind {
        Kind::List => has_list,
        _ => true,
    }
}

impl Clone for Timeline {
    fn clone(&self) -> (copy: Timeline)
        ensures
            copy == *self,
    {
        Timeline {
            id: self.id,
            server_id: self.server_id,
            kind: self.kind,
            name: self.name.clone(),
            sort: self.sort,
            list_id: clone_opt(&self.list_id),
            column_width: self.column_width,
            show_boosts: self.show_boosts,
            show_replies: self.show_replies,
        }
    }
}

} // verus!
