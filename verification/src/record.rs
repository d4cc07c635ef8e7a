//! One manufacturer of the registry, as the three texts that the listing
//! shows.

use vstd::prelude::*;
use vstd::string::StringExecFns;
use crate::text::{is_substring, str_contains};

verus! {

/// Key of a manufacturer's legal name in a registry entry.
pub const MANUFACTURER_NAME: &'static str = "Mfr_Name";

/// Key of a manufacturer's common name in a registry entry.
pub const MANUFACTURER_COMMON_NAME: &'static str = "Mfr_CommonName";

/// Key of a manufacturer's country of origin in a registry entry.
pub const MANUFACTURER_COUNTRY: &'static str = "Country";

/// A manufacturer as mathematics sees it: three texts, each of which may be
/// absent.
pub struct Record {
    pub name: Option<Seq<char>>,
    pub common_name: Option<Seq<char>>,
    pub country: Option<Seq<char>>,
}

/// A manufacturer: legal name, common name and country of origin. A field is
/// absent where the registry entry has no text under its key.
#[derive(Clone, Copy, Debug, PartialEq, Eq)]
pub struct AutoManufacturer<'a> {
    pub name: Option<&'a str>,
    pub common_name: Option<&'a str>,
    pub country: Option<&'a str>,
}

/// What a field shows: its text, or nothing where it is absent.
pub open spec fn shown(field: Option<Seq<char>>) -> Seq<char> {
    match field {
        Some(text) => text,
        None => Seq::empty(),
    }
}

/// The characters of an optional text.
pub open spec fn field_view(field: Option<&str>) -> Option<Seq<char>> {
    match field {
        Some(text) => Some(text@),
        None => None,
    }
}

impl Record {
    /// The filter keeps a record when the filter text occurs in its legal
    /// name; an absent legal name counts as the empty text.
    pub open spec fn matches(self, needle: Seq<char>) -> bool {
        is_substring(needle, shown(self.name))
    }

    /// The block of text that shows one record: a line for each field, each
    /// absent field shown as nothing, and an empty line after them.
    pub open spec fn block(self) -> Seq<char> {
        "\t Manufacturer Name: "@ + shown(self.name) + "\n"@
            + "\t Manufacturer Common Name: "@ + shown(self.common_name) + "\n"@
            + "\t Country: "@ + shown(self.country) + "\n"@
            + "\n"@
    }
}

impl<'a> View for AutoManufacturer<'a> {
    type V = Record;

    open spec fn view(&self) -> Record {
        Record {
            name: field_view(self.name),
            common_name: field_view(self.common_name),
            country: field_view(self.country),
        }
    }
}

/// The records that a run of manufacturers stands for, in the same order.
pub open spec fn views<'a>(manufacturers: Seq<AutoManufacturer<'a>>) -> Seq<Record> {
    manufacturers.map_values(|m: AutoManufacturer<'a>| m@)
}

/// The text of a field, empty where the field is absent.
fn text_of<'a>(field: Option<&'a str>) -> (text: &'a str)
    ensures
        text@ == shown(field_view(field)),
{
    match field {
        Some(text) => text,
        None => {
            proof {
                reveal_strlit("");
            }
            ""
        },
    }
}

impl<'a> AutoManufacturer<'a> {
    /// Whether the filter keeps this manufacturer: the filter text occurs in
    /// the legal name. The common name and the country are not searched.
    pub fn contains(&self, needle: &str) -> (kept: bool)
        ensures
            kept == self@.matches(needle@),
    {
        str_contains(text_of(self.name), needle)
    }

    /// The block of lines that shows this manufacturer.
    pub fn display(&self) -> (out: String)
        ensures
            out@ == self@.block(),
    {
        let mut out = String::from_str("\t Manufacturer Name: ");
        out.append(text_of(self.name));
        out.append("\n");
        out.append("\t Manufacturer Common Name: ");
        out.append(text_of(self.common_name));
        out.append("\n");
        out.append("\t Country: ");
        out.append(text_of(self.country));
        out.append("\n");
        out.append("\n");
        out
    }
}

} // verus!
