//! Grouped key-value documents, as the `ini` crate parses and holds them.
//!
//! Everything in this module is taken on trust from that crate: the parser is
//! named, not described, and the two lookups are stated over the sections
//! that a document holds.

use ini::{Ini, ParseError, Properties};
use vstd::prelude::*;

verus! {

/// `ini::Ini`, held without a look inside: what a document holds is known
/// through [`ini_sections`] alone.
#[verifier::external_type_specification]
#[verifier::external_body]
pub struct ExIni(ini::Ini);

/// `ini::Properties`, one section of a document, known through
/// [`section_values`] alone.
#[verifier::external_type_specification]
#[verifier::external_body]
pub struct ExProperties(ini::Properties);

/// `ini::ParseError`, of which nothing is known but that it is an error.
#[verifier::external_type_specification]
#[verifier::external_body]
pub struct ExParseError(ini::ParseError);

/// The keys of one section, each with the value that a lookup of it finds.
pub type Section = Map<Seq<char>, Seq<char>>;

/// The sections of a document by name, each as a lookup of that name finds
/// it. The general section, which has no name, is under `None`.
pub type Sections = Map<Option<Seq<char>>, Section>;

/// The sections that an `ini::Ini` holds.
pub uninterp spec fn ini_sections(document: ini::Ini) -> Sections;

/// The keys and values that an `ini::Properties` holds.
pub uninterp spec fn section_values(section: ini::Properties) -> Section;

/// What `Ini::load_from_str` makes of `text`: the sections of the document,
/// or `None` where it reports a parse error.
pub uninterp spec fn ini_parse(text: Seq<char>) -> Option<Sections>;

/// `Ini::load_from_str`: the result is the named parse of the text.
pub assume_specification[ ini::Ini::load_from_str ](buf: &str) -> (loaded: Result<Ini, ParseError>)
    ensures
        match loaded {
            Ok(document) => ini_parse(buf@) == Some(ini_sections(document)),
            Err(_) => ini_parse(buf@) is None,
        },
;

/// `Ini::section` with a section name: the section of that name, `None`
/// where the document has none.
#[verifier::external_body]
pub(crate) fn ini_section<'a>(document: &'a Ini, name: &str) -> (section: Option<&'a Properties>)
    ensures
        match section {
            Some(section) => ini_sections(*document).contains_key(Some(name@))
                && section_values(*section) == ini_sections(*document)[Some(name@)],
            None => !ini_sections(*document).contains_key(Some(name@)),
        },
{
    document.section(Some(name))
}

/// `Properties::get`: the value under `key`, `None` where the section has no
/// such key.
#[verifier::external_body]
pub(crate) fn section_get<'a>(section: &'a Properties, key: &str) -> (value: Option<&'a str>)
    ensures
        match value {
            Some(value) => section_values(*section).contains_key(key@)
                && section_values(*section)[key@] == value@,
            None => !section_values(*section).contains_key(key@),
        },
{
    section.get(key)
}

} // verus!
