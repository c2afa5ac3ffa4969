//! Where a day's image is kept: a fixed directory below the user's
//! application-data root, one file per date stamp.

use vstd::prelude::*;
use vstd::string::*;

verus! {

/// The directories from the application-data root down to the cache, outermost
/// first.
pub open spec fn cache_dir_names() -> Seq<Seq<char>> {
    seq!["BingWallpaper"@, "Images"@]
}

/// The name of the cache file for a date stamp.
pub open spec fn cache_file_name_text(fullstartdate: Seq<char>) -> Seq<char> {
    fullstartdate + ".jpg"@
}

/// The names in a list of strings, each by its characters.
pub open spec fn names_of(components: Seq<String>) -> Seq<Seq<char>> {
    Seq::new(components.len(), |i: int| components[i]@)
}

/// The cache directory, as the names to descend through below the
/// application-data root.
pub fn cache_dir_components() -> (components: Vec<String>)
    ensures
        names_of(components@) == cache_dir_names(),
{
    let mut components: Vec<String> = Vec::new();
    components.push(String::from_str("BingWallpaper"));
    components.push(String::from_str("Images"));
    assert(names_of(components@) =~= cache_dir_names());
    components
}

/// The cache file's name for a date stamp.
pub fn cache_file_name(fullstartdate: &str) -> (name: String)
    ensures
        name@ == cache_file_name_text(fullstartdate@),
{
    let mut name = String::from_str(fullstartdate);
    name.append(".jpg");
    name
}

} // verus!
