//! The profile registry of a browser: an INI document whose sections name
//! the installations, each with the relative path of its default profile.

use vstd::prelude::*;
use vstd::string::*;

use crate::text::{owned_text, starts_with, text_of, text_of_slice};

verus! {

/// `ini::Ini`, a parsed document. What it holds is spoken of through
/// `document_sections` alone.
#[verifier::external_type_specification]
#[verifier::external_body]
pub struct ExIni(ini::Ini);

/// `ini::Properties`, the keys and values of one section. What it holds is
/// spoken of through `property_values` alone.
#[verifier::external_type_specification]
#[verifier::external_body]
pub struct ExProperties(ini::Properties);

/// `ini::ParseError`, the parser's report on a text that is no document.
/// Nothing of it is read.
#[verifier::external_type_specification]
#[verifier::external_body]
pub struct ExParseError(ini::ParseError);

/// A section of a document: its name, which the general section in front
/// of the first header lacks, and for each of its keys the first value
/// given for it.
pub ghost struct SectionModel {
    pub name: Option<Seq<char>>,
    pub values: Map<Seq<char>, Seq<char>>,
}

/// The sections that a parsed document holds, in the order of the text.
pub uninterp spec fn document_sections(document: ini::Ini) -> Seq<SectionModel>;

/// For each key of a section, the first value given for it.
pub uninterp spec fn property_values(properties: ini::Properties) -> Map<Seq<char>, Seq<char>>;

/// The sections that a text parses to, where it is a well-formed document.
pub uninterp spec fn parsed_sections(text: Seq<char>) -> Option<Seq<SectionModel>>;

/// `ini::Ini::load_from_str`: parses a text with the default options. What
/// it returns depends on the text alone: the document, or an error where
/// the text is not well formed.
#[verifier::external_body]
fn load_document(text: &str) -> (r: Result<ini::Ini, ini::ParseError>)
    ensures
        match r {
            Ok(document) => parsed_sections(text@) == Some(document_sections(document)),
            Err(_) => parsed_sections(text@) is None,
        },
{
    ini::Ini::load_from_str(text)
}

/// `ini::Ini::iter`: every section of the document in the order of the
/// text, each as its name and its properties.
#[verifier::external_body]
fn sections_of<'a>(document: &'a ini::Ini) -> (out: Vec<(Option<&'a str>, &'a ini::Properties)>)
    ensures
        out@.len() == document_sections(*document).len(),
        forall|i: int|
            0 <= i < out@.len() ==> {
                &&& text_of_slice((#[trigger] out@[i]).0) == document_sections(*document)[i].name
                &&& property_values(*out@[i].1) == document_sections(*document)[i].values
            },
{
    document.iter().collect()
}

/// `ini::Properties::get`: the first value that the section gives for a
/// key, if it gives any.
#[verifier::external_body]
fn property<'a>(properties: &'a ini::Properties, key: &str) -> (out: Option<&'a str>)
    ensures
        text_of_slice(out) == value_in(property_values(*properties), key@),
{
    properties.get(key)
}

/// The value that a map of properties gives for a key.
pub open spec fn value_in(values: Map<Seq<char>, Seq<char>>, key: Seq<char>) -> Option<Seq<char>> {
    if values.contains_key(key) {
        Some(values[key])
    } else {
        None
    }
}

/// What the locator reads of one section: its name and its default profile.
#[derive(Debug)]
pub struct RegistrySection {
    pub name: Option<String>,
    pub default_profile: Option<String>,
}

/// A `RegistrySection` with its strings as sequences of characters.
pub ghost struct RegistrySectionView {
    pub name: Option<Seq<char>>,
    pub default_profile: Option<Seq<char>>,
}

impl View for RegistrySection {
    type V = RegistrySectionView;

    open spec fn view(&self) -> RegistrySectionView {
        RegistrySectionView {
            name: text_of(self.name),
            default_profile: text_of(self.default_profile),
        }
    }
}

/// Why a registry gives no profiles.
#[derive(Debug, Clone, Copy, PartialEq, Eq, Structural)]
pub enum RegistryError {
    /// The text is not a well-formed document.
    Unparsable,
    /// The section at this index names an installation, but no default
    /// profile.
    MissingDefault { section: usize },
}

/// What the locator reads of a section of a document.
pub open spec fn summary_of(section: SectionModel) -> RegistrySectionView {
    RegistrySectionView {
        name: section.name,
        default_profile: value_in(section.values, "Default"@),
    }
}

/// What the locator reads of the sections of a document.
pub open spec fn summaries_of(sections: Seq<SectionModel>) -> Seq<RegistrySectionView> {
    sections.map_values(|s: SectionModel| summary_of(s))
}

/// A section names an installation when its name begins with `Install`.
pub open spec fn names_installation(section: RegistrySectionView) -> bool {
    section.name matches Some(name) && "Install"@.is_prefix_of(name)
}

/// An installation's section that gives no default profile.
pub open spec fn lacks_default(section: RegistrySectionView) -> bool {
    names_installation(section) && section.default_profile is None
}

/// `names_installation` as a predicate to filter by.
pub open spec fn installations() -> spec_fn(RegistrySectionView) -> bool {
    |s: RegistrySectionView| names_installation(s)
}

/// The default profiles of the installations, in the order of their
/// sections.
pub open spec fn default_profiles_of(sections: Seq<RegistrySectionView>) -> Seq<Seq<char>> {
    sections.filter(installations()).map_values(|s: RegistrySectionView| s.default_profile->0)
}

/// The strings of a vector as sequences of characters.
pub open spec fn texts_of(strings: Seq<String>) -> Seq<Seq<char>> {
    strings.map_values(|s: String| s@)
}

/// The relation between the sections of a registry and what the locator
/// makes of them: the default profiles of all installations where each has
/// one, and else the first section that lacks one.
pub open spec fn is_defaults_outcome(
    sections: Seq<RegistrySectionView>,
    outcome: Result<Seq<Seq<char>>, RegistryError>,
) -> bool {
    match outcome {
        Ok(profiles) => {
            &&& forall|i: int| 0 <= i < sections.len() ==> !lacks_default(#[trigger] sections[i])
            &&& profiles == default_profiles_of(sections)
        },
        Err(RegistryError::MissingDefault { section }) => {
            &&& section < sections.len()
            &&& lacks_default(sections[section as int])
            &&& forall|i: int| 0 <= i < section ==> !lacks_default(#[trigger] sections[i])
        },
        Err(RegistryError::Unparsable) => false,
    }
}

/// The views of the sections of a vector.
pub open spec fn section_views(sections: Seq<RegistrySection>) -> Seq<RegistrySectionView> {
    sections.map_values(|s: RegistrySection| s@)
}

/// What came of reading defaults, with its strings as sequences of
/// characters.
pub open spec fn outcome_view(outcome: Result<Vec<String>, RegistryError>) -> Result<
    Seq<Seq<char>>,
    RegistryError,
> {
    match outcome {
        Ok(profiles) => Ok(texts_of(profiles@)),
        Err(e) => Err(e),
    }
}

/// Collects the default profile of every installation, in the order of the
/// sections; fails at the first installation that names none.
pub fn install_defaults(sections: &Vec<RegistrySection>) -> (r: Result<Vec<String>, RegistryError>)
    ensures
        is_defaults_outcome(section_views(sections@), outcome_view(r)),
{
    let ghost views = section_views(sections@);
    let mut profiles: Vec<String> = Vec::new();
    let mut i: usize = 0;
    while i < sections.len()
        invariant
            i <= sections.len(),
            views == section_views(sections@),
            forall|j: int| 0 <= j < i ==> !lacks_default(#[trigger] views[j]),
            texts_of(profiles@) == default_profiles_of(views.take(i as int)),
        decreases sections.len() - i,
    {
        let section = &sections[i];
        assert(views.take(i + 1) =~= views.take(i as int).push(views[i as int]));
        proof {
            Seq::lemma_filter_push(views.take(i as int), views[i as int], installations());
        }
        let is_install = match &section.name {
            Some(name) => starts_with(name.as_str(), "Install"),
            None => false,
        };
        if is_install {
            match &section.default_profile {
                Some(profile) => {
                    profiles.push(String::from_str(profile.as_str()));
                    assert(default_profiles_of(views.take(i + 1)) =~= default_profiles_of(
                        views.take(i as int),
                    ).push(profile@));
                },
                None => {
                    return Err(RegistryError::MissingDefault { section: i });
                },
            }
        }
        i = i + 1;
    }
    assert(views.take(i as int) =~= views);
    Ok(profiles)
}

/// What the locator reads of each section of a parsed document.
fn summaries(document: &ini::Ini) -> (out: Vec<RegistrySection>)
    ensures
        section_views(out@) == summaries_of(document_sections(*document)),
{
    let entries = sections_of(document);
    let mut out: Vec<RegistrySection> = Vec::new();
    let mut i: usize = 0;
    while i < entries.len()
        invariant
            i <= entries.len(),
            entries@.len() == document_sections(*document).len(),
            forall|j: int|
                0 <= j < entries@.len() ==> {
                    &&& text_of_slice((#[trigger] entries@[j]).0) == document_sections(
                        *document,
                    )[j].name
                    &&& property_values(*entries@[j].1) == document_sections(*document)[j].values
                },
            out@.len() == i,
            forall|j: int|
                0 <= j < i ==> (#[trigger] out@[j])@ == summary_of(
                    document_sections(*document)[j],
                ),
        decreases entries.len() - i,
    {
        let name = owned_text(entries[i].0);
        let default_profile = owned_text(property(entries[i].1, "Default"));
        out.push(RegistrySection { name, default_profile });
        i = i + 1;
    }
    out
}

/// Reads the default profile of every installation out of a registry's
/// text.
pub fn parse_profile_ini(text: &str) -> (r: Result<Vec<String>, RegistryError>)
    ensures
        match parsed_sections(text@) {
            Some(sections) => is_defaults_outcome(summaries_of(sections), outcome_view(r)),
            None => r == Err::<Vec<String>, RegistryError>(RegistryError::Unparsable),
        },
{
    match load_document(text) {
        Ok(document) => {
            let sections = summaries(&document);
            install_defaults(&sections)
        },
        Err(_) => Err(RegistryError::Unparsable),
    }
}

} // verus!
