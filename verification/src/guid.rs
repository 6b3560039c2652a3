//! The built-in roots, and the two spellings of an item's identifier: the
//! guid that the store keeps and the record id that goes over the wire.

use vstd::prelude::*;
use crate::text::str_eq;

verus! {

/// The synthetic root and the four user roots.
#[derive(Clone, Copy, Debug, PartialEq, Eq, Structural)]
pub enum BookmarkRootGuid {
    Root,
    Menu,
    Toolbar,
    Unfiled,
    Mobile,
}

/// The guid of the synthetic root.
pub open spec fn root_guid() -> Seq<char> {
    "root________"@
}

/// The guid of the menu.
pub open spec fn menu_guid() -> Seq<char> {
    "menu________"@
}

/// The guid of the toolbar.
pub open spec fn toolbar_guid() -> Seq<char> {
    "toolbar_____"@
}

/// The guid of the folder for unfiled bookmarks.
pub open spec fn unfiled_guid() -> Seq<char> {
    "unfiled_____"@
}

/// The guid of the folder for mobile bookmarks.
pub open spec fn mobile_guid() -> Seq<char> {
    "mobile______"@
}

/// Whether `guid` names the synthetic root or one of the four user roots.
pub open spec fn is_root_guid(guid: Seq<char>) -> bool {
    guid == root_guid() || guid == menu_guid() || guid == toolbar_guid() || guid
        == unfiled_guid() || guid == mobile_guid()
}

/// Whether `guid` names one of the four user roots.
pub open spec fn is_user_root_guid(guid: Seq<char>) -> bool {
    guid == menu_guid() || guid == toolbar_guid() || guid == unfiled_guid() || guid
        == mobile_guid()
}

/// The five root guids differ from one another.
pub proof fn lemma_root_guids_distinct()
    ensures
        root_guid() != menu_guid(),
        root_guid() != toolbar_guid(),
        root_guid() != unfiled_guid(),
        root_guid() != mobile_guid(),
        menu_guid() != toolbar_guid(),
        menu_guid() != unfiled_guid(),
        menu_guid() != mobile_guid(),
        toolbar_guid() != unfiled_guid(),
        toolbar_guid() != mobile_guid(),
        unfiled_guid() != mobile_guid(),
        !is_user_root_guid(root_guid()),
{
    reveal_strlit("root________");
    reveal_strlit("menu________");
    reveal_strlit("toolbar_____");
    reveal_strlit("unfiled_____");
    reveal_strlit("mobile______");
    assert(root_guid()[0] == 'r');
    assert(menu_guid()[0] == 'm' && menu_guid()[1] == 'e');
    assert(toolbar_guid()[0] == 't');
    assert(unfiled_guid()[0] == 'u');
    assert(mobile_guid()[0] == 'm' && mobile_guid()[1] == 'o');
}

impl BookmarkRootGuid {
    /// The guid under which the store keeps this root.
    pub open spec fn guid(self) -> Seq<char> {
        match self {
            BookmarkRootGuid::Root => root_guid(),
            BookmarkRootGuid::Menu => menu_guid(),
            BookmarkRootGuid::Toolbar => toolbar_guid(),
            BookmarkRootGuid::Unfiled => unfiled_guid(),
            BookmarkRootGuid::Mobile => mobile_guid(),
        }
    }

    /// The guid under which the store keeps this root.
    pub fn as_str(self) -> (r: &'static str)
        ensures
            r@ == self.guid(),
    {
        match self {
            BookmarkRootGuid::Root => "root________",
            BookmarkRootGuid::Menu => "menu________",
            BookmarkRootGuid::Toolbar => "toolbar_____",
            BookmarkRootGuid::Unfiled => "unfiled_____",
            BookmarkRootGuid::Mobile => "mobile______",
        }
    }

    /// The guid under which the store keeps this root, as an owned string.
    pub fn as_guid(self) -> (r: String)
        ensures
            r@ == self.guid(),
    {
        self.as_str().to_owned()
    }

    /// The root that `guid` names, if it names one.
    pub fn from_guid(guid: &str) -> (r: Option<BookmarkRootGuid>)
        ensures
            r matches Some(root) ==> root.guid() == guid@,
            r is None <==> !is_root_guid(guid@),
    {
        if str_eq(guid, "root________") {
            Some(BookmarkRootGuid::Root)
        } else if str_eq(guid, "menu________") {
            Some(BookmarkRootGuid::Menu)
        } else if str_eq(guid, "toolbar_____") {
            Some(BookmarkRootGuid::Toolbar)
        } else if str_eq(guid, "unfiled_____") {
            Some(BookmarkRootGuid::Unfiled)
        } else if str_eq(guid, "mobile______") {
            Some(BookmarkRootGuid::Mobile)
        } else {
            None
        }
    }
}

/// Whether `guid` names the synthetic root.
pub fn is_root(guid: &str) -> (r: bool)
    ensures
        r == (guid@ == root_guid()),
{
    str_eq(guid, "root________")
}

/// The guid that the record id `id` stands for. The roots travel under
/// short names; every other id is the guid itself.
pub open spec fn guid_of_record_id(id: Seq<char>) -> Seq<char> {
    if id == "places"@ || id == "root"@ {
        root_guid()
    } else if id == "menu"@ {
        menu_guid()
    } else if id == "toolbar"@ {
        toolbar_guid()
    } else if id == "unfiled"@ {
        unfiled_guid()
    } else if id == "mobile"@ {
        mobile_guid()
    } else {
        id
    }
}

/// The record id under which `guid` travels.
pub open spec fn record_id_of_guid(guid: Seq<char>) -> Seq<char> {
    if guid == root_guid() {
        "places"@
    } else if guid == menu_guid() {
        "menu"@
    } else if guid == toolbar_guid() {
        "toolbar"@
    } else if guid == unfiled_guid() {
        "unfiled"@
    } else if guid == mobile_guid() {
        "mobile"@
    } else {
        guid
    }
}

/// An item's identifier as records spell it.
pub struct BookmarkRecordId;

impl BookmarkRecordId {
    /// The guid that the record id `id` stands for.
    pub fn from_payload_id(id: &str) -> (guid: String)
        ensures
            guid@ == guid_of_record_id(id@),
    {
        if str_eq(id, "places") || str_eq(id, "root") {
            BookmarkRootGuid::Root.as_guid()
        } else if str_eq(id, "menu") {
            BookmarkRootGuid::Menu.as_guid()
        } else if str_eq(id, "toolbar") {
            BookmarkRootGuid::Toolbar.as_guid()
        } else if str_eq(id, "unfiled") {
            BookmarkRootGuid::Unfiled.as_guid()
        } else if str_eq(id, "mobile") {
            BookmarkRootGuid::Mobile.as_guid()
        } else {
            id.to_owned()
        }
    }

    /// The record id under which `guid` travels.
    pub fn into_payload_id(guid: &str) -> (id: String)
        ensures
            id@ == record_id_of_guid(guid@),
    {
        proof {
            lemma_root_guids_distinct();
        }
        match BookmarkRootGuid::from_guid(guid) {
            Some(BookmarkRootGuid::Root) => "places".to_owned(),
            Some(BookmarkRootGuid::Menu) => "menu".to_owned(),
            Some(BookmarkRootGuid::Toolbar) => "toolbar".to_owned(),
            Some(BookmarkRootGuid::Unfiled) => "unfiled".to_owned(),
            Some(BookmarkRootGuid::Mobile) => "mobile".to_owned(),
            None => guid.to_owned(),
        }
    }
}

/// A guid that is no root's travels as itself and comes back as itself,
/// unless a root's short name is its text.
pub proof fn lemma_record_id_round_trip(guid: Seq<char>)
    requires
        !is_root_guid(guid),
        guid != "places"@,
        guid != "root"@,
        guid != "menu"@,
        guid != "toolbar"@,
        guid != "unfiled"@,
        guid != "mobile"@,
    ensures
        guid_of_record_id(record_id_of_guid(guid)) == guid,
{
}

/// A root's guid travels under its short name and comes back as itself.
pub proof fn lemma_root_record_id_round_trip(root: BookmarkRootGuid)
    ensures
        guid_of_record_id(record_id_of_guid(root.guid())) == root.guid(),
{
    lemma_root_guids_distinct();
    reveal_strlit("places");
    reveal_strlit("root");
    reveal_strlit("menu");
    reveal_strlit("toolbar");
    reveal_strlit("unfiled");
    reveal_strlit("mobile");
    assert("places"@.len() == 6);
    assert("root"@.len() == 4 && "root"@[0] == 'r');
    assert("menu"@.len() == 4 && "menu"@[0] == 'm');
    assert("toolbar"@.len() == 7);
    assert("unfiled"@.len() == 7);
    assert("mobile"@.len() == 6);
    assert("toolbar"@[0] == 't' && "unfiled"@[0] == 'u');
    assert("places"@[0] == 'p' && "mobile"@[0] == 'm');
}

/// Whether a URL has the `place:` scheme, which makes a bookmark a query.
pub open spec fn is_query_url(url: Seq<char>) -> bool {
    url.len() >= 6 && url[0] == 'p' && url[1] == 'l' && url[2] == 'a' && url[3] == 'c' && url[4]
        == 'e' && url[5] == ':'
}

/// Whether a URL has the `place:` scheme.
pub fn has_query_scheme(url: &str) -> (r: bool)
    ensures
        r == is_query_url(url@),
{
    let n = url.unicode_len();
    if n < 6 {
        return false;
    }
    url.get_char(0) == 'p' && url.get_char(1) == 'l' && url.get_char(2) == 'a' && url.get_char(3)
        == 'c' && url.get_char(4) == 'e' && url.get_char(5) == ':'
}

} // verus!
