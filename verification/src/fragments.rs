//! Pieces of SQL for a store that keeps its tables in a relational
//! database, and numbers as text.

use vstd::prelude::*;
use crate::guid::BookmarkRootGuid;

verus! {

/// The digit for a number below ten.
pub open spec fn digit(d: nat) -> Seq<char> {
    if d == 0 {
        "0"@
    } else if d == 1 {
        "1"@
    } else if d == 2 {
        "2"@
    } else if d == 3 {
        "3"@
    } else if d == 4 {
        "4"@
    } else if d == 5 {
        "5"@
    } else if d == 6 {
        "6"@
    } else if d == 7 {
        "7"@
    } else if d == 8 {
        "8"@
    } else {
        "9"@
    }
}

/// A natural number in decimal.
pub open spec fn digits(n: nat) -> Seq<char>
    decreases n,
{
    if n < 10 {
        digit(n)
    } else {
        digits(n / 10) + digit(n % 10)
    }
}

/// An integer in decimal, with a minus sign where it is negative.
pub open spec fn decimal(n: int) -> Seq<char> {
    if n < 0 {
        "-"@ + digits((-n) as nat)
    } else {
        digits(n as nat)
    }
}

fn digit_str(d: u64) -> (r: &'static str)
    requires
        d < 10,
    ensures
        r@ == digit(d as nat),
{
    if d == 0 {
        "0"
    } else if d == 1 {
        "1"
    } else if d == 2 {
        "2"
    } else if d == 3 {
        "3"
    } else if d == 4 {
        "4"
    } else if d == 5 {
        "5"
    } else if d == 6 {
        "6"
    } else if d == 7 {
        "7"
    } else if d == 8 {
        "8"
    } else {
        "9"
    }
}

/// A natural number in decimal.
pub fn unsigned_to_string(n: u64) -> (r: String)
    ensures
        r@ == digits(n as nat),
    decreases n,
{
    if n < 10 {
        digit_str(n).to_owned()
    } else {
        let mut text = unsigned_to_string(n / 10);
        text.append(digit_str(n % 10));
        text
    }
}

/// An integer in decimal.
pub fn signed_to_string(n: i64) -> (r: String)
    ensures
        r@ == decimal(n as int),
{
    if n < 0 {
        let magnitude: u64 = if n == i64::MIN {
            9_223_372_036_854_775_808u64
        } else {
            (-n) as u64
        };
        let mut text = "-".to_owned();
        let rest = unsigned_to_string(magnitude);
        text.append(rest.as_str());
        text
    } else {
        unsigned_to_string(n as u64)
    }
}

/// A named common table expression for the local items: the synthetic
/// root, and with each item its children, a level further down. It can
/// stand in a `WITH RECURSIVE` clause.
pub struct LocalItemsFragment(pub &'static str);

impl LocalItemsFragment {
    /// The text of the expression.
    pub open spec fn sql(self) -> Seq<char> {
        self.0@
            + "(id, guid, parentId, parentGuid, position, type, title, parentTitle, placeId, dateAdded, lastModified, syncChangeCounter, level) AS (SELECT b.id, b.guid, 0, NULL, b.position, b.type, b.title, NULL, b.fk, b.dateAdded, b.lastModified, b.syncChangeCounter, 0 FROM moz_bookmarks b WHERE b.guid = '"@
            + BookmarkRootGuid::Root.guid()
            + "' UNION ALL SELECT b.id, b.guid, s.id, s.guid, b.position, b.type, b.title, s.title, b.fk, b.dateAdded, b.lastModified, b.syncChangeCounter, s.level + 1 FROM moz_bookmarks b JOIN "@
            + self.0@ + " s ON s.id = b.parent)"@
    }

    /// The text of the expression.
    pub fn to_sql(&self) -> (r: String)
        ensures
            r@ == self.sql(),
    {
        let mut text = self.0.to_owned();
        text.append(
            "(id, guid, parentId, parentGuid, position, type, title, parentTitle, placeId, dateAdded, lastModified, syncChangeCounter, level) AS (SELECT b.id, b.guid, 0, NULL, b.position, b.type, b.title, NULL, b.fk, b.dateAdded, b.lastModified, b.syncChangeCounter, 0 FROM moz_bookmarks b WHERE b.guid = '",
        );
        text.append(BookmarkRootGuid::Root.as_str());
        text.append(
            "' UNION ALL SELECT b.id, b.guid, s.id, s.guid, b.position, b.type, b.title, s.title, b.fk, b.dateAdded, b.lastModified, b.syncChangeCounter, s.level + 1 FROM moz_bookmarks b JOIN ",
        );
        text.append(self.0);
        text.append(" s ON s.id = b.parent)");
        text
    }
}

/// An expression for a local item's URL. The text names the column that
/// holds the URL or the key of the place, not the URL or the key itself.
pub enum UrlOrPlaceIdFragment {
    /// The name of the column that holds the URL.
    Url(&'static str),
    /// The name of the column that holds the key of the place; the URL is
    /// looked up.
    PlaceId(&'static str),
}

impl UrlOrPlaceIdFragment {
    /// The text of the expression.
    pub open spec fn sql(self) -> Seq<char> {
        match self {
            UrlOrPlaceIdFragment::Url(s) => s@,
            UrlOrPlaceIdFragment::PlaceId(s) => "(SELECT h.url FROM moz_places h WHERE h.id = "@
                + s@ + ")"@,
        }
    }

    /// The text of the expression.
    pub fn to_sql(&self) -> (r: String)
        ensures
            r@ == self.sql(),
    {
        match self {
            UrlOrPlaceIdFragment::Url(s) => (*s).to_owned(),
            UrlOrPlaceIdFragment::PlaceId(s) => {
                let mut text = "(SELECT h.url FROM moz_places h WHERE h.id = ".to_owned();
                text.append(*s);
                text.append(")");
                text
            },
        }
    }
}

/// An expression that turns the type of a local item into the kind as
/// which the item is synced: a bookmark whose URL has the `place:` scheme is
/// a query.
pub struct ItemKindFragment {
    /// The name of the column that holds the item's type.
    pub type_column_name: &'static str,
    /// The expression for the item's URL.
    pub url_or_place_id_fragment: UrlOrPlaceIdFragment,
}

/// An expression for the kind of a local item.
pub fn item_kind_fragment(
    type_column_name: &'static str,
    url_or_place_id_fragment: UrlOrPlaceIdFragment,
) -> (r: ItemKindFragment)
    ensures
        r.type_column_name == type_column_name,
        r.url_or_place_id_fragment == url_or_place_id_fragment,
{
    ItemKindFragment { type_column_name, url_or_place_id_fragment }
}

impl ItemKindFragment {
    /// The text of the expression. The numbers are those under which the
    /// types and the kinds are stored.
    pub open spec fn sql(self) -> Seq<char> {
        "(CASE "@ + self.type_column_name@ + " WHEN 1 THEN (CASE substr("@
            + self.url_or_place_id_fragment.sql()
            + ", 1, 6) WHEN 'place:' THEN 2 ELSE 1 END) WHEN 2 THEN 3 ELSE 5 END)"@
    }

    /// The text of the expression.
    pub fn to_sql(&self) -> (r: String)
        ensures
            r@ == self.sql(),
    {
        let mut text = "(CASE ".to_owned();
        text.append(self.type_column_name);
        text.append(" WHEN 1 THEN (CASE substr(");
        let url = self.url_or_place_id_fragment.to_sql();
        text.append(url.as_str());
        text.append(", 1, 6) WHEN 'place:' THEN 2 ELSE 1 END) WHEN 2 THEN 3 ELSE 5 END)");
        text
    }
}

/// A list of the guids of the given roots.
pub struct RootsFragment<'a>(pub &'a [BookmarkRootGuid]);

/// The first `n` of the guids, each in quotes, with commas between them.
pub open spec fn quoted_guids(roots: Seq<BookmarkRootGuid>, n: int) -> Seq<char>
    decreases n,
{
    if n <= 0 {
        Seq::empty()
    } else if n == 1 {
        "'"@ + roots[0].guid() + "'"@
    } else {
        quoted_guids(roots, n - 1) + ","@ + "'"@ + roots[n - 1].guid() + "'"@
    }
}

impl<'a> RootsFragment<'a> {
    /// The text of the list.
    pub open spec fn sql(self) -> Seq<char> {
        "("@ + quoted_guids(self.0@, self.0@.len() as int) + ")"@
    }

    /// The text of the list.
    pub fn to_sql(&self) -> (r: String)
        ensures
            r@ == self.sql(),
    {
        let mut text = "(".to_owned();
        let mut i: usize = 0;
        assert("("@ + quoted_guids(self.0@, 0) =~= "("@);
        while i < self.0.len()
            invariant
                i <= self.0.len(),
                text@ == "("@ + quoted_guids(self.0@, i as int),
            decreases self.0.len() - i,
        {
            let ghost before = text@;
            if i != 0 {
                text.append(",");
            }
            text.append("'");
            text.append(self.0[i].as_str());
            text.append("'");
            assert(text@ =~= "("@ + quoted_guids(self.0@, i + 1));
            i += 1;
        }
        text.append(")");
        text
    }
}

} // verus!
