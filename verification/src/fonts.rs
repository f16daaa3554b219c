//! Where the font store keeps its files.

use crate::layout::{font_folder_path, get_font_folder_path, path_in, Config};
use crate::layout::file_in;
use crate::text::join3;
use vstd::prelude::*;

verus! {

/// The weight whose file stands for a font family.
pub open spec fn regular_weight() -> Seq<char> {
    "400"@
}

/// The name of the file that holds one weight of a font family.
pub open spec fn font_file_name(family: Seq<char>, weight: Seq<char>) -> Seq<char> {
    family + " - "@ + weight + ".ttf"@
}

/// The directory of a font family.
pub open spec fn family_dir(config: Config, family: Seq<char>) -> Seq<char> {
    file_in(font_folder_path(config), family)
}

/// The path of the file that holds one weight of a font family.
pub open spec fn font_path(config: Config, family: Seq<char>, weight: Seq<char>) -> Seq<char> {
    file_in(family_dir(config, family), font_file_name(family, weight))
}

/// The version that a font registry has when its file names none.
#[allow(non_snake_case)]
pub fn fontsJSONVersion() -> (version: String)
    ensures
        version@ == "0.11"@,
{
    String::from_str("0.11")
}

/// The directory of a font family.
pub fn font_family_folder(config: &Config, family: &str) -> (path: String)
    ensures
        path@ == family_dir(*config, family@),
{
    let fonts = get_font_folder_path(config);
    path_in(fonts.as_str(), family)
}

/// The path of the file that holds one weight of a font family.
pub fn font_file_path(config: &Config, family: &str, weight: &str) -> (path: String)
    ensures
        path@ == font_path(*config, family@, weight@),
{
    let dir = font_family_folder(config, family);
    let name = join3(family, " - ", weight).concat(".ttf");
    path_in(dir.as_str(), name.as_str())
}

/// The path of the file that stands for a font family, if the family is
/// installed.
pub fn get_font_url(config: &Config, family: &str, installed: bool) -> (url: Option<String>)
    ensures
        installed ==> url is Some && url->0@ == font_path(*config, family@, regular_weight()),
        !installed ==> url is None,
{
    if installed {
        Some(font_file_path(config, family, "400"))
    } else {
        None
    }
}

} // verus!
