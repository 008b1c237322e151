//! The configuration document: named sections in order, each an ordered list
//! of keys with optional values, kept in a `configparser::ini::Ini`.

use vstd::prelude::*;
use configparser::ini::{Ini, IniDefault, WriteOptions};
use crate::sattel::text::{copy_option, join, option_text, same_text};

verus! {

/// One key of a section, with its value if it has one.
#[derive(Clone, Debug, PartialEq, Eq)]
pub struct Entry {
    pub key: String,
    pub value: Option<String>,
}

/// Mathematical value of an [`Entry`].
pub struct EntryView {
    pub key: Seq<char>,
    pub value: Option<Seq<char>>,
}

/// One named section with its keys in order.
#[derive(Clone, Debug, PartialEq, Eq)]
pub struct Section {
    pub name: String,
    pub entries: Vec<Entry>,
}

/// Mathematical value of a [`Section`].
pub struct SectionView {
    pub name: Seq<char>,
    pub entries: Seq<EntryView>,
}

impl View for Entry {
    type V = EntryView;

    open spec fn view(&self) -> EntryView {
        EntryView { key: self.key@, value: option_text(self.value) }
    }
}

/// The mathematical values of a list of entries.
pub open spec fn entries_view(entries: Seq<Entry>) -> Seq<EntryView> {
    Seq::new(entries.len(), |i: int| entries[i]@)
}

impl View for Section {
    type V = SectionView;

    open spec fn view(&self) -> SectionView {
        SectionView { name: self.name@, entries: entries_view(self.entries@) }
    }
}

/// The mathematical values of a list of sections.
pub open spec fn sections_view(sections: Seq<Section>) -> Seq<SectionView> {
    Seq::new(sections.len(), |i: int| sections[i]@)
}

// ---------------------------------------------------------------------------
// The document as a mathematical value
// ---------------------------------------------------------------------------

/// Name of the section whose keys stand in for keys that other sections omit.
pub open spec fn default_section() -> Seq<char> {
    "DEFAULT"@
}

/// No key occurs twice.
pub open spec fn distinct_keys(entries: Seq<EntryView>) -> bool {
    forall|i: int, j: int|
        0 <= i < j < entries.len() ==> (#[trigger] entries[i]).key != (#[trigger] entries[j]).key
}

/// No section name occurs twice, and no key occurs twice within a section.
pub open spec fn well_formed(doc: Seq<SectionView>) -> bool {
    &&& forall|i: int, j: int|
        0 <= i < j < doc.len() ==> (#[trigger] doc[i]).name != (#[trigger] doc[j]).name
    &&& forall|i: int| 0 <= i < doc.len() ==> distinct_keys((#[trigger] doc[i]).entries)
}

/// Whether a section of that name exists.
pub open spec fn has_section(doc: Seq<SectionView>, name: Seq<char>) -> bool {
    exists|i: int| 0 <= i < doc.len() && (#[trigger] doc[i]).name == name
}

/// Position of the section of that name, where one exists.
pub open spec fn section_at(doc: Seq<SectionView>, name: Seq<char>) -> int {
    choose|i: int| 0 <= i < doc.len() && (#[trigger] doc[i]).name == name
}

/// The entries of the section of that name, where one exists.
pub open spec fn section_entries(doc: Seq<SectionView>, name: Seq<char>) -> Seq<EntryView> {
    doc[section_at(doc, name)].entries
}

/// Whether the key occurs among the entries.
pub open spec fn has_key(entries: Seq<EntryView>, key: Seq<char>) -> bool {
    exists|i: int| 0 <= i < entries.len() && (#[trigger] entries[i]).key == key
}

/// Position of the key among the entries, where it occurs.
pub open spec fn key_at(entries: Seq<EntryView>, key: Seq<char>) -> int {
    choose|i: int| 0 <= i < entries.len() && (#[trigger] entries[i]).key == key
}

/// What the entries hold for a key: `None` where the key does not occur,
/// `Some(None)` where it occurs without a value.
pub open spec fn entry_value(entries: Seq<EntryView>, key: Seq<char>) -> Option<Option<Seq<char>>> {
    if has_key(entries, key) {
        Some(entries[key_at(entries, key)].value)
    } else {
        None
    }
}

/// What the document holds for a key of a section: `None` where the section
/// or the key does not exist, `Some(None)` where the key has no value.
pub open spec fn lookup(doc: Seq<SectionView>, section: Seq<char>, key: Seq<char>) -> Option<
    Option<Seq<char>>,
> {
    if has_section(doc, section) {
        entry_value(section_entries(doc, section), key)
    } else {
        None
    }
}

/// The entries after a key was set: an existing key keeps its place, a new
/// one comes last.
pub open spec fn entries_set(entries: Seq<EntryView>, key: Seq<char>, value: Option<Seq<char>>) -> Seq<
    EntryView,
> {
    if has_key(entries, key) {
        entries.update(key_at(entries, key), EntryView { key, value })
    } else {
        entries.push(EntryView { key, value })
    }
}

/// The document after a key of a section was set: an existing section keeps
/// its place, a new one comes last.
pub open spec fn doc_set(
    doc: Seq<SectionView>,
    section: Seq<char>,
    key: Seq<char>,
    value: Option<Seq<char>>,
) -> Seq<SectionView> {
    if has_section(doc, section) {
        let i = section_at(doc, section);
        doc.update(i, SectionView { name: section, entries: entries_set(doc[i].entries, key, value) })
    } else {
        doc.push(SectionView { name: section, entries: seq![EntryView { key, value }] })
    }
}

/// The document after a section was removed: the last section takes the
/// place of the removed one.
pub open spec fn doc_remove(doc: Seq<SectionView>, section: Seq<char>) -> Seq<SectionView> {
    if has_section(doc, section) {
        let i = section_at(doc, section);
        doc.update(i, doc.last()).drop_last()
    } else {
        doc
    }
}

// ---------------------------------------------------------------------------
// The store behind the document
// ---------------------------------------------------------------------------

#[verifier::external_type_specification]
#[verifier::external_body]
pub struct ExIni(Ini);

/// The sections that an `Ini` holds, in the order in which it walks them.
pub uninterp spec fn ini_contents(ini: Ini) -> Seq<SectionView>;

/// The name of the section that an `Ini` treats as its default section.
pub uninterp spec fn ini_default_section(ini: Ini) -> Seq<char>;

/// Whether an `Ini` is case-sensitive and has every other setting, but for the
/// name of its default section, as `IniDefault::default()` gives it.
pub uninterp spec fn ini_strict(ini: Ini) -> bool;

/// What `Ini::read` makes of a text on a strict `Ini` with the given default
/// section: the sections it found, or the message it fails with.
pub uninterp spec fn ini_parse(text: Seq<char>, default_section: Seq<char>) -> Result<
    Seq<SectionView>,
    Seq<char>,
>;

/// What `Ini::getboolcoerce` makes of a stored value on a strict `Ini`:
/// a truth value, or nothing where it reads none from the value.
pub uninterp spec fn ini_bool_of(value: Seq<char>) -> Option<bool>;

/// The text that `Ini::pretty_writes` gives for these sections on a strict
/// `Ini` with that default section and these write options, with the line
/// terminator that the crate was built for.
pub uninterp spec fn ini_pretty_text(
    doc: Seq<SectionView>,
    default_section: Seq<char>,
    spaced: bool,
    indent: nat,
    blank_lines: nat,
) -> Seq<char>;

/// The message with which `Ini::getboolcoerce` rejects a value.
pub open spec fn bool_error_text(section: Seq<char>, key: Seq<char>) -> Seq<char> {
    "Unable to parse value into bool at "@ + section + ":"@ + key
}

/// `Ini::new_from_defaults` on `IniDefault::default()` with case sensitivity
/// switched on and the given default section: the new `Ini` holds no section.
#[verifier::external_body]
fn ini_new(default_section: &str) -> (ini: Ini)
    ensures
        ini_contents(ini) == Seq::<SectionView>::empty(),
        ini_default_section(ini) == default_section@,
        ini_strict(ini),
{
    let mut defaults = IniDefault::default();
    defaults.case_sensitive = true;
    defaults.default_section = default_section.to_owned();
    Ini::new_from_defaults(defaults)
}

/// `Ini::read`: on success the `Ini` holds what the text describes and
/// nothing else; on failure it gives the crate's message and holds what it
/// held. The settings stay as they are.
#[verifier::external_body]
fn ini_read(ini: &mut Ini, text: String) -> (outcome: Result<(), String>)
    requires
        ini_strict(*old(ini)),
    ensures
        ini_strict(*final(ini)),
        ini_default_section(*final(ini)) == ini_default_section(*old(ini)),
        match ini_parse(text@, ini_default_section(*old(ini))) {
            Ok(doc) => outcome is Ok && ini_contents(*final(ini)) == doc,
            Err(message) => outcome is Err && outcome->Err_0@ == message && ini_contents(
                *final(ini),
            ) == ini_contents(*old(ini)),
        },
{
    ini.read(text).map(|_| ())
}

/// `Ini::get_map_ref`, each section and key copied out in the map's order.
/// The map never holds a section name twice, nor a key twice within a section.
#[verifier::external_body]
fn ini_sections(ini: &Ini) -> (sections: Vec<Section>)
    ensures
        sections_view(sections@) == ini_contents(*ini),
        well_formed(sections_view(sections@)),
{
    ini.get_map_ref().iter().map(|(name, entries)| Section {
        name: name.clone(),
        entries: entries.iter().map(|(key, value)| Entry { key: key.clone(), value: value.clone() }).collect(),
    }).collect()
}

/// `Ini::set` on a case-sensitive `Ini`: the key gets the value in place if the
/// section has it, else it is added last; a section that does not exist is
/// added last. The settings stay as they are. The call inserts into maps and
/// nothing else, so it is taken not to unwind.
#[verifier::external_body]
fn ini_set(ini: &mut Ini, section: &str, key: &str, value: Option<String>)
    requires
        ini_strict(*old(ini)),
    ensures
        ini_strict(*final(ini)),
        ini_default_section(*final(ini)) == ini_default_section(*old(ini)),
        ini_contents(*final(ini)) == doc_set(ini_contents(*old(ini)), section@, key@, option_text(value)),
    no_unwind
{
    ini.set(section, key, value);
}

/// `Ini::remove_section` on a case-sensitive `Ini` built over an `IndexMap`:
/// the section leaves by `swap_remove`, so the last section takes its place,
/// and its entries are returned in their order. The settings stay as they
/// are. The call removes from a map and nothing else, so it is taken not to
/// unwind.
#[verifier::external_body]
fn ini_remove_section(ini: &mut Ini, section: &str) -> (removed: Option<Vec<Entry>>)
    requires
        ini_strict(*old(ini)),
    ensures
        ini_strict(*final(ini)),
        ini_default_section(*final(ini)) == ini_default_section(*old(ini)),
        ini_contents(*final(ini)) == doc_remove(ini_contents(*old(ini)), section@),
        match removed {
            Some(entries) => has_section(ini_contents(*old(ini)), section@) && entries_view(entries@)
                == section_entries(ini_contents(*old(ini)), section@),
            None => !has_section(ini_contents(*old(ini)), section@),
        },
    no_unwind
{
    ini.remove_section(section).map(|entries| entries.into_iter().map(|(key, value)| Entry { key, value }).collect())
}

/// `Ini::getboolcoerce` on a strict `Ini`: a key that has a value gives the
/// truth value read from it, or the crate's message where none is read; a key
/// or section that does not exist, or a key without a value, gives nothing.
/// The words `true` and `false` stand in the crate's lists of what reads as
/// true and as false, so a value of exactly that spelling reads as itself.
#[verifier::external_body]
fn ini_getboolcoerce(ini: &Ini, section: &str, key: &str) -> (outcome: Result<Option<bool>, String>)
    requires
        ini_strict(*ini),
    ensures
        match lookup(ini_contents(*ini), section@, key@) {
            Some(Some(value)) => match ini_bool_of(value) {
                Some(truth) => outcome is Ok && outcome->Ok_0 == Some(truth),
                None => outcome is Err && outcome->Err_0@ == bool_error_text(section@, key@),
            },
            _ => outcome is Ok && outcome->Ok_0 is None,
        },
        lookup(ini_contents(*ini), section@, key@) == Some(Some("true"@)) ==> outcome is Ok
            && outcome->Ok_0 == Some(true),
        lookup(ini_contents(*ini), section@, key@) == Some(Some("false"@)) ==> outcome is Ok
            && outcome->Ok_0 == Some(false),
{
    ini.getboolcoerce(section, key)
}

/// `Ini::pretty_writes` with `WriteOptions::new_with_params`: the text
/// depends on nothing but the sections, the name of the default section and
/// the three options. The number of blank lines is bounded because the crate
/// repeats its line terminator that many times in memory.
#[verifier::external_body]
fn ini_pretty(ini: &Ini, spaced: bool, indent: usize, blank_lines: usize) -> (text: String)
    requires
        ini_strict(*ini),
        blank_lines <= 1024,
    ensures
        text@ == ini_pretty_text(
            ini_contents(*ini),
            ini_default_section(*ini),
            spaced,
            indent as nat,
            blank_lines as nat,
        ),
{
    ini.pretty_writes(&WriteOptions::new_with_params(spaced, indent, blank_lines))
}

// ---------------------------------------------------------------------------
// The document
// ---------------------------------------------------------------------------

/// What a text describes: its sections, or the message that says why it does
/// not describe any.
pub open spec fn parsed(text: Seq<char>) -> Result<Seq<SectionView>, Seq<char>> {
    ini_parse(text, default_section())
}

/// The text of a document: the header of the default section on a line of
/// its own, then what `Ini::pretty_writes` gives for the sections with
/// spaces around the delimiter, an indentation of four, and one blank line
/// between sections.
pub open spec fn rendered(doc: Seq<SectionView>, line_ending: Seq<char>) -> Seq<char> {
    "[DEFAULT]"@ + line_ending + ini_pretty_text(doc, default_section(), true, 4, 1)
}

/// A configuration document in memory.
pub struct Document {
    ini: Ini,
}

impl View for Document {
    type V = Seq<SectionView>;

    closed spec fn view(&self) -> Seq<SectionView> {
        ini_contents(self.ini)
    }
}

impl Document {
    #[verifier::type_invariant]
    spec fn configured(&self) -> bool {
        ini_strict(self.ini) && ini_default_section(self.ini) == default_section()
    }

    /// A document without sections.
    pub fn new() -> (doc: Document)
        ensures
            doc@ == Seq::<SectionView>::empty(),
    {
        Document { ini: ini_new("DEFAULT") }
    }

    /// Reads a document from its text.
    pub fn parse(text: &str) -> (outcome: Result<Document, String>)
        ensures
            match parsed(text@) {
                Ok(doc) => outcome is Ok && outcome->Ok_0@ == doc,
                Err(message) => outcome is Err && outcome->Err_0@ == message,
            },
    {
        let mut ini = ini_new("DEFAULT");
        match ini_read(&mut ini, text.to_owned()) {
            Ok(()) => Ok(Document { ini }),
            Err(message) => Err(message),
        }
    }

    /// The sections with their entries, in order.
    pub fn sections(&self) -> (sections: Vec<Section>)
        ensures
            sections_view(sections@) == self@,
            well_formed(self@),
    {
        ini_sections(&self.ini)
    }

    /// Sets a key of a section, creating the section or the key where it
    /// does not exist.
    pub fn set(&mut self, section: &str, key: &str, value: Option<String>)
        ensures
            final(self)@ == doc_set(old(self)@, section@, key@, option_text(value)),
    {
        proof {
            use_type_invariant(&*self);
        }
        ini_set(&mut self.ini, section, key, value);
    }

    /// Removes a section and hands out the entries it held.
    pub fn remove_section(&mut self, section: &str) -> (removed: Option<Vec<Entry>>)
        ensures
            final(self)@ == doc_remove(old(self)@, section@),
            match removed {
                Some(entries) => has_section(old(self)@, section@) && entries_view(entries@)
                    == section_entries(old(self)@, section@),
                None => !has_section(old(self)@, section@),
            },
    {
        proof {
            use_type_invariant(&*self);
        }
        ini_remove_section(&mut self.ini, section)
    }

    /// Reads a key of a section as a truth value. The values `true` and
    /// `false`, as saving writes them, read as themselves.
    pub fn flag(&self, section: &str, key: &str) -> (outcome: Result<Option<bool>, String>)
        ensures
            match flag_of(self@, section@, key@) {
                Ok(truth) => outcome is Ok && outcome->Ok_0 == truth,
                Err(message) => outcome is Err && outcome->Err_0@ == message,
            },
            lookup(self@, section@, key@) == Some(Some("true"@)) ==> outcome is Ok && outcome->Ok_0
                == Some(true),
            lookup(self@, section@, key@) == Some(Some("false"@)) ==> outcome is Ok && outcome->Ok_0
                == Some(false),
    {
        proof {
            use_type_invariant(self);
        }
        ini_getboolcoerce(&self.ini, section, key)
    }

    /// The document as text. `line_ending` ends the header of the default
    /// section only; every other line ends as the store was built to end
    /// lines, so pass the line terminator of the host.
    pub fn render(&self, line_ending: &str) -> (text: String)
        ensures
            text@ == rendered(self@, line_ending@),
    {
        proof {
            use_type_invariant(self);
        }
        let body = ini_pretty(&self.ini, true, 4, 1);
        let header = join("[DEFAULT]", line_ending);
        let text = join(header.as_str(), body.as_str());
        assert(text@ == "[DEFAULT]"@ + line_ending@ + body@);
        text
    }
}

/// What a key of a section is as a truth value: nothing where the key has no
/// value or does not exist, a message where its value reads as neither.
pub open spec fn flag_of(doc: Seq<SectionView>, section: Seq<char>, key: Seq<char>) -> Result<
    Option<bool>,
    Seq<char>,
> {
    match lookup(doc, section, key) {
        Some(Some(value)) => match ini_bool_of(value) {
            Some(truth) => Ok(Some(truth)),
            None => Err(bool_error_text(section, key)),
        },
        _ => Ok(None),
    }
}

// ---------------------------------------------------------------------------
// Looking things up in a copy of the sections
// ---------------------------------------------------------------------------

/// The characters of what a lookup gave.
pub open spec fn value_view(value: Option<Option<String>>) -> Option<Option<Seq<char>>> {
    match value {
        Some(inner) => Some(option_text(inner)),
        None => None,
    }
}

/// In a well-formed document a name is found at one position only.
pub proof fn lemma_section_at(doc: Seq<SectionView>, name: Seq<char>, i: int)
    requires
        well_formed(doc),
        0 <= i < doc.len(),
        doc[i].name == name,
    ensures
        has_section(doc, name),
        section_at(doc, name) == i,
{
    let j = section_at(doc, name);
    assert(0 <= j < doc.len() && doc[j].name == name);
    if i < j {
        assert(doc[i].name != doc[j].name);
    } else if j < i {
        assert(doc[j].name != doc[i].name);
    }
}

/// Among distinct keys a key is found at one position only.
pub proof fn lemma_key_at(entries: Seq<EntryView>, key: Seq<char>, i: int)
    requires
        distinct_keys(entries),
        0 <= i < entries.len(),
        entries[i].key == key,
    ensures
        has_key(entries, key),
        key_at(entries, key) == i,
        entry_value(entries, key) == Some(entries[i].value),
{
    let j = key_at(entries, key);
    assert(0 <= j < entries.len() && entries[j].key == key);
    if i < j {
        assert(entries[i].key != entries[j].key);
    } else if j < i {
        assert(entries[j].key != entries[i].key);
    }
}

/// Position of the section of that name.
pub(crate) fn find_section(sections: &Vec<Section>, name: &str) -> (found: Option<usize>)
    requires
        well_formed(sections_view(sections@)),
    ensures
        match found {
            Some(i) => i < sections.len() && has_section(sections_view(sections@), name@)
                && section_at(sections_view(sections@), name@) == i,
            None => !has_section(sections_view(sections@), name@),
        },
{
    let ghost doc = sections_view(sections@);
    let mut i: usize = 0;
    while i < sections.len()
        invariant
            i <= sections.len(),
            doc == sections_view(sections@),
            well_formed(doc),
            forall|k: int| 0 <= k < i ==> (#[trigger] doc[k]).name != name@,
        decreases sections.len() - i,
    {
        if same_text(sections[i].name.as_str(), name) {
            proof {
                lemma_section_at(doc, name@, i as int);
            }
            return Some(i);
        }
        i = i + 1;
    }
    None
}

/// Position of the key among the entries.
pub(crate) fn find_entry(entries: &Vec<Entry>, key: &str) -> (found: Option<usize>)
    requires
        distinct_keys(entries_view(entries@)),
    ensures
        match found {
            Some(i) => i < entries.len() && has_key(entries_view(entries@), key@) && key_at(
                entries_view(entries@),
                key@,
            ) == i,
            None => !has_key(entries_view(entries@), key@),
        },
{
    let ghost list = entries_view(entries@);
    let mut i: usize = 0;
    while i < entries.len()
        invariant
            i <= entries.len(),
            list == entries_view(entries@),
            distinct_keys(list),
            forall|k: int| 0 <= k < i ==> (#[trigger] list[k]).key != key@,
        decreases entries.len() - i,
    {
        if same_text(entries[i].key.as_str(), key) {
            proof {
                lemma_key_at(list, key@, i as int);
            }
            return Some(i);
        }
        i = i + 1;
    }
    None
}

/// What the entries hold for a key.
pub(crate) fn value_among(entries: &Vec<Entry>, key: &str) -> (value: Option<Option<String>>)
    requires
        distinct_keys(entries_view(entries@)),
    ensures
        value_view(value) == entry_value(entries_view(entries@), key@),
{
    match find_entry(entries, key) {
        Some(i) => Some(copy_option(&entries[i].value)),
        None => None,
    }
}

/// What the sections hold for a key of a section.
pub(crate) fn value_in(sections: &Vec<Section>, section: &str, key: &str) -> (value: Option<Option<String>>)
    requires
        well_formed(sections_view(sections@)),
    ensures
        value_view(value) == lookup(sections_view(sections@), section@, key@),
{
    match find_section(sections, section) {
        Some(i) => {
            assert(sections_view(sections@)[i as int].entries == entries_view(sections[i as int].entries@));
            value_among(&sections[i].entries, key)
        },
        None => None,
    }
}

impl Document {
    /// Whether a section of that name exists.
    pub fn has_section(&self, section: &str) -> (exists: bool)
        ensures
            exists == has_section(self@, section@),
    {
        let sections = self.sections();
        find_section(&sections, section).is_some()
    }

    /// What the document holds for a key of a section.
    pub fn get(&self, section: &str, key: &str) -> (value: Option<Option<String>>)
        ensures
            value_view(value) == lookup(self@, section@, key@),
    {
        let sections = self.sections();
        value_in(&sections, section, key)
    }
}

// ---------------------------------------------------------------------------
// What setting and removing do to lookups
// ---------------------------------------------------------------------------

/// Setting a key among distinct keys keeps the keys distinct, gives the key
/// its new value and leaves every other key as it was.
pub proof fn lemma_entries_set(entries: Seq<EntryView>, key: Seq<char>, value: Option<Seq<char>>, other: Seq<char>)
    requires
        distinct_keys(entries),
    ensures
        distinct_keys(entries_set(entries, key, value)),
        entry_value(entries_set(entries, key, value), other) == if other == key {
            Some(value)
        } else {
            entry_value(entries, other)
        },
{
    let after = entries_set(entries, key, value);
    if has_key(entries, key) {
        let j = key_at(entries, key);
        assert(after.len() == entries.len());
        assert forall|a: int| 0 <= a < after.len() implies (#[trigger] after[a]).key == entries[a].key by {}
        assert forall|a: int, b: int| 0 <= a < b < after.len() implies (#[trigger] after[a]).key != (
        #[trigger] after[b]).key by {
            assert(entries[a].key != entries[b].key);
        }
        if has_key(entries, other) {
            let m = key_at(entries, other);
            lemma_key_at(entries, other, m);
            lemma_key_at(after, other, m);
            if other == key {
                lemma_key_at(entries, key, j);
            }
        } else {
            if has_key(after, other) {
                let m = key_at(after, other);
                assert(entries[m].key == other);
                assert(false);
            }
        }
    } else {
        let n = entries.len() as int;
        assert(after.len() == n + 1);
        assert forall|a: int, b: int| 0 <= a < b < after.len() implies (#[trigger] after[a]).key != (
        #[trigger] after[b]).key by {
            if b < n {
                assert(entries[a].key != entries[b].key);
            } else {
                assert(after[a] == entries[a]);
                assert(entries[a].key != key);
            }
        }
        if other == key {
            lemma_key_at(after, key, n);
        } else if has_key(entries, other) {
            let m = key_at(entries, other);
            assert(after[m] == entries[m]);
            lemma_key_at(after, other, m);
        } else {
            if has_key(after, other) {
                let m = key_at(after, other);
                if m < n {
                    assert(after[m] == entries[m]);
                    assert(entries[m].key == other);
                }
                assert(false);
            }
        }
    }
}

/// Setting a key of a section in a well-formed document keeps it
/// well-formed, creates the section where it was missing, gives the key its
/// new value and leaves every other key of every section as it was.
pub proof fn lemma_doc_set(
    doc: Seq<SectionView>,
    section: Seq<char>,
    key: Seq<char>,
    value: Option<Seq<char>>,
    other_section: Seq<char>,
    other_key: Seq<char>,
)
    requires
        well_formed(doc),
    ensures
        well_formed(doc_set(doc, section, key, value)),
        has_section(doc_set(doc, section, key, value), other_section) == (has_section(doc, other_section)
            || other_section == section),
        lookup(doc_set(doc, section, key, value), other_section, other_key) == if other_section == section
            && other_key == key {
            Some(value)
        } else {
            lookup(doc, other_section, other_key)
        },
{
    let after = doc_set(doc, section, key, value);
    if has_section(doc, section) {
        let i = section_at(doc, section);
        lemma_entries_set(doc[i].entries, key, value, other_key);
        assert(after.len() == doc.len());
        assert forall|a: int| 0 <= a < after.len() implies (#[trigger] after[a]).name == doc[a].name by {}
        assert forall|a: int, b: int| 0 <= a < b < after.len() implies (#[trigger] after[a]).name != (
        #[trigger] after[b]).name by {
            assert(doc[a].name != doc[b].name);
        }
        assert forall|a: int| 0 <= a < after.len() implies distinct_keys((#[trigger] after[a]).entries) by {
            if a != i {
                assert(after[a] == doc[a]);
            }
        }
        if has_section(doc, other_section) {
            let m = section_at(doc, other_section);
            lemma_section_at(doc, other_section, m);
            lemma_section_at(after, other_section, m);
            if other_section == section {
                lemma_section_at(doc, section, i);
            } else {
                assert(after[m] == doc[m]);
            }
        } else {
            if has_section(after, other_section) {
                let m = section_at(after, other_section);
                assert(doc[m].name == other_section);
                assert(false);
            }
        }
    } else {
        let n = doc.len() as int;
        let fresh = seq![EntryView { key, value }];
        assert(after.len() == n + 1);
        assert(after[n].entries == fresh);
        assert(distinct_keys(fresh));
        assert forall|a: int, b: int| 0 <= a < b < after.len() implies (#[trigger] after[a]).name != (
        #[trigger] after[b]).name by {
            if b < n {
                assert(doc[a].name != doc[b].name);
            } else {
                assert(after[a] == doc[a]);
                assert(doc[a].name != section);
            }
        }
        assert forall|a: int| 0 <= a < after.len() implies distinct_keys((#[trigger] after[a]).entries) by {
            if a < n {
                assert(after[a] == doc[a]);
            }
        }
        if other_section == section {
            lemma_section_at(after, section, n);
            if other_key == key {
                lemma_key_at(fresh, key, 0);
            } else {
                if has_key(fresh, other_key) {
                    let m = key_at(fresh, other_key);
                    assert(fresh[m].key == key);
                    assert(false);
                }
            }
        } else if has_section(doc, other_section) {
            let m = section_at(doc, other_section);
            assert(after[m] == doc[m]);
            lemma_section_at(after, other_section, m);
        } else {
            if has_section(after, other_section) {
                let m = section_at(after, other_section);
                if m < n {
                    assert(after[m] == doc[m]);
                    assert(doc[m].name == other_section);
                }
                assert(false);
            }
        }
    }
}

/// Removing a section from a well-formed document keeps it well-formed,
/// takes the section away and leaves every other section as it was.
pub proof fn lemma_doc_remove(
    doc: Seq<SectionView>,
    section: Seq<char>,
    other_section: Seq<char>,
    other_key: Seq<char>,
)
    requires
        well_formed(doc),
    ensures
        well_formed(doc_remove(doc, section)),
        has_section(doc_remove(doc, section), other_section) == (has_section(doc, other_section)
            && other_section != section),
        lookup(doc_remove(doc, section), other_section, other_key) == if other_section == section {
            None
        } else {
            lookup(doc, other_section, other_key)
        },
{
    let after = doc_remove(doc, section);
    if has_section(doc, section) {
        let i = section_at(doc, section);
        let last = doc.len() - 1;
        lemma_section_at(doc, section, i);
        assert(after.len() == last);
        // Where each section of the shortened document came from.
        assert forall|a: int| 0 <= a < after.len() implies #[trigger] after[a] == doc[if a == i {
            last
        } else {
            a
        }] by {}
        assert forall|a: int, b: int| 0 <= a < b < after.len() implies (#[trigger] after[a]).name != (
        #[trigger] after[b]).name by {
            let from_a = if a == i {
                last
            } else {
                a
            };
            let from_b = if b == i {
                last
            } else {
                b
            };
            assert(after[a] == doc[from_a]);
            assert(after[b] == doc[from_b]);
            if from_a < from_b {
                assert(doc[from_a].name != doc[from_b].name);
            } else {
                assert(doc[from_b].name != doc[from_a].name);
            }
        }
        assert forall|a: int| 0 <= a < after.len() implies distinct_keys((#[trigger] after[a]).entries) by {
            assert(after[a] == doc[if a == i {
                last
            } else {
                a
            }]);
        }
        if has_section(after, other_section) {
            let m = section_at(after, other_section);
            let from = if m == i {
                last
            } else {
                m
            };
            assert(after[m] == doc[from]);
            lemma_section_at(doc, other_section, from);
            lemma_section_at(after, other_section, m);
            if other_section == section {
                assert(from == i);
                assert(false);
            }
        } else if has_section(doc, other_section) && other_section != section {
            let m = section_at(doc, other_section);
            lemma_section_at(doc, other_section, m);
            let to = if m == last {
                i
            } else {
                m
            };
            assert(m != i);
            assert(after[to] == doc[m]);
            assert(false);
        }
    } else {
        if has_section(doc, other_section) {
            assert(other_section != section);
        }
    }
}

/// Setting a key to the value that it has changes nothing.
pub proof fn lemma_doc_set_same(doc: Seq<SectionView>, section: Seq<char>, key: Seq<char>, value: Option<Seq<char>>)
    requires
        lookup(doc, section, key) == Some(value),
    ensures
        doc_set(doc, section, key, value) == doc,
{
    let i = section_at(doc, section);
    let held = doc[i].entries;
    let j = key_at(held, key);
    assert(held[j] == EntryView { key, value });
    assert(entries_set(held, key, value) =~= held);
    assert(doc[i] == SectionView { name: section, entries: held });
    assert(doc_set(doc, section, key, value) =~= doc);
}

/// Setting a key moves no section: each section keeps its place and its
/// name, every section but the one that was set stays as it was, and at most
/// one section, that of the key, is added at the end.
pub proof fn lemma_doc_set_keeps_places(
    doc: Seq<SectionView>,
    section: Seq<char>,
    key: Seq<char>,
    value: Option<Seq<char>>,
    j: int,
)
    requires
        0 <= j < doc_set(doc, section, key, value).len(),
    ensures
        doc.len() <= doc_set(doc, section, key, value).len() <= doc.len() + 1,
        j < doc.len() ==> doc_set(doc, section, key, value)[j].name == doc[j].name,
        j < doc.len() && doc[j].name != section ==> doc_set(doc, section, key, value)[j] == doc[j],
        j >= doc.len() ==> doc_set(doc, section, key, value)[j].name == section,
{
    if has_section(doc, section) {
        let i = section_at(doc, section);
        assert(doc[i].name == section);
    }
}

} // verus!
