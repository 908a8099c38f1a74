use vstd::prelude::*;

use crate::text::{ends_with, find_space, push_text, space_index, text_pushed, trim_text, trimmed};

verus! {

/// An installed application, as the launcher lists it.
#[derive(Debug, Clone, PartialEq, Eq)]
pub struct App {
    pub id: String,
    pub title: String,
    pub icon: Option<String>,
    pub path: String,
}

impl App {
    /// An app without an icon.
    pub fn new(id: &str, title: &str, path: &str) -> (r: Self)
        ensures
            r.id@ == id@,
            r.title@ == title@,
            r.icon is None,
            r.path@ == path@,
    {
        App {
            id: String::from_str(id),
            title: String::from_str(title),
            icon: None,
            path: String::from_str(path),
        }
    }

    pub fn set_icon(self, icon: &str) -> (r: Self)
        ensures
            r == (App { icon: r.icon, ..self }),
            r.icon is Some && r.icon->0@ == icon@,
    {
        App { icon: Some(String::from_str(icon)), ..self }
    }
}

/// Some id of `seen` is `id`.
pub open spec fn id_seen(seen: Seq<String>, id: Seq<char>) -> bool {
    exists|i: int| 0 <= i < seen.len() && (#[trigger] seen[i])@ == id
}

/// Tells whether `seen` holds `id`.
fn contains_id(seen: &Vec<String>, id: &String) -> (r: bool)
    ensures
        r == id_seen(seen@, id@),
{
    let mut i: usize = 0;
    while i < seen.len()
        invariant
            i <= seen.len(),
            forall|j: int| 0 <= j < i ==> (#[trigger] seen@[j])@ != id@,
        decreases seen.len() - i,
    {
        if seen[i] == *id {
            return true;
        }
        i += 1;
    }
    false
}

/// Decides whether a desktop entry is indexed. An entry whose app id was not seen
/// yet and that is displayed has its id recorded in `seen`; it is indexed when it
/// is also of type `Application`.
pub fn take_desktop_entry(
    seen: &mut Vec<String>,
    app_id: &str,
    no_display: bool,
    entry_type: Option<&str>,
) -> (r: bool)
    ensures
        !id_seen(old(seen)@, app_id@) && !no_display ==> text_pushed(
            old(seen)@,
            final(seen)@,
            app_id@,
        ),
        id_seen(old(seen)@, app_id@) || no_display ==> final(seen)@ == old(seen)@,
        r == (!id_seen(old(seen)@, app_id@) && !no_display && entry_type is Some
            && entry_type->0@ == "Application"@),
{
    let id = String::from_str(app_id);
    if contains_id(seen, &id) || no_display {
        return false;
    }
    push_text(seen, app_id);
    match entry_type {
        Some(t) => String::from_str(t) == String::from_str("Application"),
        None => false,
    }
}

/// The first word of a file listing that starts with the file's inode number.
pub open spec fn listing_id(listing: Seq<char>) -> Seq<char> {
    listing.subrange(0, space_index(listing))
}

/// The id of an app from the listing `ls -i` prints for its entry file: the text
/// before the first space, or `None` when that text is blank.
pub fn app_id_from_listing(listing: &str) -> (r: Option<String>)
    ensures
        r is Some <==> trimmed(listing_id(listing@)).len() > 0,
        r is Some ==> r->0@ == listing_id(listing@),
{
    let k = find_space(listing);
    let id = listing.substring_char(0, k);
    let blank = trim_text(id);
    if blank.unicode_len() > 0 {
        Some(String::from_str(id))
    } else {
        None
    }
}

/// Relies on `str::ends_with`: whether the text ends with the given suffix.
#[verifier::external_body]
fn text_ends_with(s: &str, suffix: &str) -> (r: bool)
    ensures
        r == ends_with(s@, suffix@),
{
    s.ends_with(suffix)
}

/// An icon is copied into the index unless it is a compressed SVG.
pub fn keeps_icon(icon_path: &str) -> (r: bool)
    ensures
        r == !ends_with(icon_path@, ".svgz"@),
{
    !text_ends_with(icon_path, ".svgz")
}

/// The name under which an app's icon is stored in the index: its id, a dot and
/// the icon's file type.
pub fn indexed_icon_name(id: &str, file_type: &str) -> (r: String)
    ensures
        r@ == id@ + "."@ + file_type@,
{
    String::from_str(id).concat(".").concat(file_type)
}

} // verus!
