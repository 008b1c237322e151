//! The configuration store: settings and crawler definitions read from a
//! configuration document, and the edits that are saved back to it.

use vstd::prelude::*;
use crate::sattel::document::{
    default_section, ini_bool_of, distinct_keys, doc_remove, doc_set, entries_set, entries_view, entry_value,
    find_section, flag_of, has_key, has_section, key_at, lemma_doc_remove, lemma_doc_set,
    lemma_doc_set_keeps_places, lemma_doc_set_same, lemma_entries_set, lemma_section_at, lookup, parsed, rendered, section_at, section_entries,
    sections_view, value_among, value_view, well_formed, Document, EntryView, Section, SectionView,
};
use crate::sattel::text::{
    after_prefix, copy_option, has_prefix, join, option_text, same_text, starts_with,
};
use vstd::string::StrSliceExecFns;

verus! {

/// One crawler definition.
#[derive(Clone, Debug, PartialEq, Eq)]
pub struct Crawler {
    pub name: String,
    pub target: String,
    pub crawler_type: String,
    pub videos: bool,
    pub auth: String,
}

/// Mathematical value of a [`Crawler`].
pub struct CrawlerView {
    pub name: Seq<char>,
    pub target: Seq<char>,
    pub crawler_type: Seq<char>,
    pub videos: bool,
    pub auth: Seq<char>,
}

impl View for Crawler {
    type V = CrawlerView;

    open spec fn view(&self) -> CrawlerView {
        CrawlerView {
            name: self.name@,
            target: self.target@,
            crawler_type: self.crawler_type@,
            videos: self.videos,
            auth: self.auth@,
        }
    }
}

/// Settings that hold for all crawlers.
#[derive(Clone, Debug, PartialEq, Eq)]
pub struct Settings {
    pub working_dir: String,
}

/// Mathematical value of [`Settings`].
pub struct SettingsView {
    pub working_dir: Seq<char>,
}

impl View for Settings {
    type V = SettingsView;

    open spec fn view(&self) -> SettingsView {
        SettingsView { working_dir: self.working_dir@ }
    }
}

/// The settings and the crawler definitions of one document.
#[derive(Clone, Debug, PartialEq, Eq)]
pub struct Config {
    pub settings: Settings,
    pub crawlers: Vec<Crawler>,
}

/// Mathematical value of a [`Config`].
pub struct ConfigView {
    pub settings: SettingsView,
    pub crawlers: Seq<CrawlerView>,
}

/// The mathematical values of a list of crawlers.
pub open spec fn crawlers_view(crawlers: Seq<Crawler>) -> Seq<CrawlerView> {
    Seq::new(crawlers.len(), |i: int| crawlers[i]@)
}

impl View for Config {
    type V = ConfigView;

    open spec fn view(&self) -> ConfigView {
        ConfigView { settings: self.settings@, crawlers: crawlers_view(self.crawlers@) }
    }
}

/// Why the configuration could not be read or written.
#[derive(Clone, Debug, PartialEq, Eq)]
pub enum Error {
    FailedConfigParse(String),
    FailedConfigWrite(String),
    ConfigEmptyAttr(String),
    ConfigMissingAttr(String),
    CrawlerDoesNotExist(String),
}

/// Mathematical value of an [`Error`].
pub enum ErrorView {
    FailedConfigParse(Seq<char>),
    FailedConfigWrite(Seq<char>),
    ConfigEmptyAttr(Seq<char>),
    ConfigMissingAttr(Seq<char>),
    CrawlerDoesNotExist(Seq<char>),
}

impl View for Error {
    type V = ErrorView;

    open spec fn view(&self) -> ErrorView {
        match *self {
            Error::FailedConfigParse(text) => ErrorView::FailedConfigParse(text@),
            Error::FailedConfigWrite(text) => ErrorView::FailedConfigWrite(text@),
            Error::ConfigEmptyAttr(text) => ErrorView::ConfigEmptyAttr(text@),
            Error::ConfigMissingAttr(text) => ErrorView::ConfigMissingAttr(text@),
            Error::CrawlerDoesNotExist(text) => ErrorView::CrawlerDoesNotExist(text@),
        }
    }
}

impl ErrorView {
    /// The error in words.
    pub open spec fn message(self) -> Seq<char> {
        match self {
            ErrorView::FailedConfigParse(text) => "failed parsing config: "@ + text,
            ErrorView::FailedConfigWrite(text) => "failed writing config: "@ + text,
            ErrorView::ConfigEmptyAttr(text) => "config attribute can't be empty: "@ + text,
            ErrorView::ConfigMissingAttr(text) => "config missing attribute: "@ + text,
            ErrorView::CrawlerDoesNotExist(text) => "crawler does not exist: "@ + text,
        }
    }
}

impl Error {
    /// The error in words.
    pub fn message(&self) -> (text: String)
        ensures
            text@ == self@.message(),
    {
        match self {
            Error::FailedConfigParse(text) => join("failed parsing config: ", text.as_str()),
            Error::FailedConfigWrite(text) => join("failed writing config: ", text.as_str()),
            Error::ConfigEmptyAttr(text) => join("config attribute can't be empty: ", text.as_str()),
            Error::ConfigMissingAttr(text) => join("config missing attribute: ", text.as_str()),
            Error::CrawlerDoesNotExist(text) => join("crawler does not exist: ", text.as_str()),
        }
    }
}

// ---------------------------------------------------------------------------
// What a document means
// ---------------------------------------------------------------------------

/// What the name of a section begins with where the section defines a crawler.
pub open spec fn crawl_prefix() -> Seq<char> {
    "crawl:"@
}

/// Whether a section of that name defines a crawler.
pub open spec fn is_crawl_section(name: Seq<char>) -> bool {
    has_prefix(name, crawl_prefix())
}

/// The crawler's name: what follows the prefix in its section's name.
pub open spec fn crawler_name(section: Seq<char>) -> Seq<char> {
    section.subrange(crawl_prefix().len() as int, section.len() as int)
}

/// Name of the section that defines the crawler of that name.
pub open spec fn crawl_section(name: Seq<char>) -> Seq<char> {
    crawl_prefix() + name
}

/// Whether a crawler type is one of those that exist.
pub open spec fn is_crawler_type(text: Seq<char>) -> bool {
    text == "kit-ilias-web"@ || text == "kit-ipd"@ || text == "ilias-web"@ || text == "local"@
}

/// How an error names an attribute of a crawler.
pub open spec fn attr_of_crawler(attr: Seq<char>, crawler: Seq<char>) -> Seq<char> {
    attr + " of crawler '"@ + crawler + "'"@
}

/// The message for a crawler type that does not exist.
pub open spec fn unknown_type_text(crawler: Seq<char>, crawler_type: Seq<char>) -> Seq<char> {
    "crawler '"@ + crawler + "': crawler type '"@ + crawler_type + "' does not exist"@
}

/// The message for an auth section that does not exist.
pub open spec fn unknown_auth_text(crawler: Seq<char>, auth: Seq<char>) -> Seq<char> {
    "crawler '"@ + crawler + "': auth section '"@ + auth + "' does not exist"@
}

/// The working directory that a document sets: that of its default section,
/// or `.` where the default section has none.
pub open spec fn working_dir_of(doc: Seq<SectionView>) -> Seq<char> {
    match lookup(doc, default_section(), "working_dir"@) {
        Some(Some(dir)) => dir,
        _ => "."@,
    }
}

/// A key of a section, or of the default section where the section lacks the key.
pub open spec fn inherited(doc: Seq<SectionView>, i: int, key: Seq<char>) -> Option<Option<Seq<char>>> {
    let own = entry_value(doc[i].entries, key);
    if own is Some {
        own
    } else {
        lookup(doc, default_section(), key)
    }
}

/// Whether a crawler fetches videos: what its section says, else what the
/// default section says, else no.
pub open spec fn videos_of(doc: Seq<SectionView>, i: int) -> Result<bool, Seq<char>> {
    match flag_of(doc, doc[i].name, "videos"@) {
        Err(message) => Err(message),
        Ok(Some(videos)) => Ok(videos),
        Ok(None) => match flag_of(doc, default_section(), "videos"@) {
            Err(message) => Err(message),
            Ok(Some(videos)) => Ok(videos),
            Ok(None) => Ok(false),
        },
    }
}

/// The crawler that section `i` defines, or the first thing that is wrong with it.
pub open spec fn crawler_of(doc: Seq<SectionView>, i: int) -> Result<CrawlerView, ErrorView> {
    let name = crawler_name(doc[i].name);
    match entry_value(doc[i].entries, "target"@) {
        Some(Some(target)) => match videos_of(doc, i) {
            Err(message) => Err(ErrorView::FailedConfigParse(message)),
            Ok(videos) => match inherited(doc, i, "type"@) {
                None => Err(ErrorView::ConfigEmptyAttr(attr_of_crawler("type"@, name))),
                Some(None) => Err(ErrorView::ConfigMissingAttr(attr_of_crawler("type"@, name))),
                Some(Some(crawler_type)) => if !is_crawler_type(crawler_type) {
                    Err(ErrorView::FailedConfigParse(unknown_type_text(name, crawler_type)))
                } else {
                    match inherited(doc, i, "auth"@) {
                        None => Err(ErrorView::ConfigEmptyAttr(attr_of_crawler("auth"@, name))),
                        Some(None) => Err(
                            ErrorView::ConfigMissingAttr(attr_of_crawler("auth"@, name)),
                        ),
                        Some(Some(auth)) => if !has_section(doc, auth) {
                            Err(ErrorView::FailedConfigParse(unknown_auth_text(name, auth)))
                        } else {
                            Ok(CrawlerView { name, target, crawler_type, videos, auth })
                        },
                    }
                },
            },
        },
        _ => Err(ErrorView::ConfigMissingAttr(attr_of_crawler("target"@, name))),
    }
}

/// The crawlers that the first `n` sections define, in order, or what is
/// wrong with the first of them that is not valid.
pub open spec fn crawlers_of(doc: Seq<SectionView>, n: int) -> Result<Seq<CrawlerView>, ErrorView>
    decreases n,
{
    if n <= 0 {
        Ok(Seq::empty())
    } else {
        match crawlers_of(doc, n - 1) {
            Err(error) => Err(error),
            Ok(crawlers) => if is_crawl_section(doc[n - 1].name) {
                match crawler_of(doc, n - 1) {
                    Err(error) => Err(error),
                    Ok(crawler) => Ok(crawlers.push(crawler)),
                }
            } else {
                Ok(crawlers)
            },
        }
    }
}

/// The settings and crawlers that a document defines, or what is wrong with it.
pub open spec fn config_of(doc: Seq<SectionView>) -> Result<ConfigView, ErrorView> {
    if !has_section(doc, default_section()) {
        Err(ErrorView::FailedConfigParse("no default section"@))
    } else {
        match crawlers_of(doc, doc.len() as int) {
            Err(error) => Err(error),
            Ok(crawlers) => Ok(
                ConfigView { settings: SettingsView { working_dir: working_dir_of(doc) }, crawlers },
            ),
        }
    }
}

/// The settings and crawlers that a text defines, or what is wrong with it.
pub open spec fn config_of_text(text: Seq<char>) -> Result<ConfigView, ErrorView> {
    match parsed(text) {
        Err(message) => Err(ErrorView::FailedConfigParse(message)),
        Ok(doc) => config_of(doc),
    }
}

/// The mathematical value of an outcome of reading a configuration.
pub open spec fn config_outcome(outcome: Result<Config, Error>) -> Result<ConfigView, ErrorView> {
    match outcome {
        Ok(config) => Ok(config@),
        Err(error) => Err(error@),
    }
}

/// The mathematical value of an outcome of reading one crawler.
pub open spec fn crawler_outcome(outcome: Result<Crawler, Error>) -> Result<CrawlerView, ErrorView> {
    match outcome {
        Ok(crawler) => Ok(crawler@),
        Err(error) => Err(error@),
    }
}

// ---------------------------------------------------------------------------
// Reading a configuration
// ---------------------------------------------------------------------------

/// Whether a crawler type is one of those that exist.
pub fn is_known_type(text: &str) -> (known: bool)
    ensures
        known == is_crawler_type(text@),
{
    same_text(text, "kit-ilias-web") || same_text(text, "kit-ipd") || same_text(text, "ilias-web")
        || same_text(text, "local")
}

/// Name of the section that defines the crawler of that name.
pub fn section_name(crawler: &str) -> (section: String)
    ensures
        section@ == crawl_section(crawler@),
{
    join("crawl:", crawler)
}

/// How an error names an attribute of a crawler.
fn attr_label(attr: &str, crawler: &str) -> (label: String)
    ensures
        label@ == attr_of_crawler(attr@, crawler@),
{
    let head = join(attr, " of crawler '");
    let body = join(head.as_str(), crawler);
    join(body.as_str(), "'")
}

/// The message that a value named by a crawler does not exist.
fn quoted_message(crawler: &str, what: &str, value: &str) -> (text: String)
    ensures
        text@ == "crawler '"@ + crawler@ + what@ + value@ + "' does not exist"@,
{
    let a = join("crawler '", crawler);
    let b = join(a.as_str(), what);
    let c = join(b.as_str(), value);
    join(c.as_str(), "' does not exist")
}

/// A key of section `i`, or of the default section where section `i` lacks the key.
fn inherited_value(sections: &Vec<Section>, i: usize, default_at: usize, key: &str) -> (value: Option<
    Option<String>,
>)
    requires
        well_formed(sections_view(sections@)),
        i < sections.len(),
        default_at < sections.len(),
        has_section(sections_view(sections@), default_section()),
        section_at(sections_view(sections@), default_section()) == default_at,
    ensures
        value_view(value) == inherited(sections_view(sections@), i as int, key@),
{
    let ghost doc = sections_view(sections@);
    assert(doc[i as int].entries == entries_view(sections[i as int].entries@));
    assert(doc[default_at as int].entries == entries_view(sections[default_at as int].entries@));
    let own = value_among(&sections[i].entries, key);
    if own.is_some() {
        own
    } else {
        value_among(&sections[default_at].entries, key)
    }
}

/// The crawler that section `i` defines, or the first thing that is wrong with it.
fn crawler_in(doc: &Document, sections: &Vec<Section>, i: usize, default_at: usize) -> (outcome: Result<
    Crawler,
    Error,
>)
    requires
        sections_view(sections@) == doc@,
        well_formed(doc@),
        i < sections.len(),
        default_at < sections.len(),
        has_section(doc@, default_section()),
        section_at(doc@, default_section()) == default_at,
        is_crawl_section(sections[i as int].name@),
    ensures
        crawler_outcome(outcome) == crawler_of(doc@, i as int),
{
    let section = &sections[i];
    assert(doc@[i as int].entries == entries_view(section.entries@));
    assert(doc@[i as int].name == section.name@);
    let skip = "crawl:".unicode_len();
    let name = after_prefix(section.name.as_str(), skip);
    let target = match value_among(&section.entries, "target") {
        Some(Some(target)) => target,
        _ => {
            return Err(Error::ConfigMissingAttr(attr_label("target", name.as_str())));
        },
    };
    let videos = match doc.flag(section.name.as_str(), "videos") {
        Err(message) => {
            return Err(Error::FailedConfigParse(message));
        },
        Ok(Some(videos)) => videos,
        Ok(None) => match doc.flag("DEFAULT", "videos") {
            Err(message) => {
                return Err(Error::FailedConfigParse(message));
            },
            Ok(Some(videos)) => videos,
            Ok(None) => false,
        },
    };
    let crawler_type = match inherited_value(sections, i, default_at, "type") {
        None => {
            return Err(Error::ConfigEmptyAttr(attr_label("type", name.as_str())));
        },
        Some(None) => {
            return Err(Error::ConfigMissingAttr(attr_label("type", name.as_str())));
        },
        Some(Some(crawler_type)) => crawler_type,
    };
    if !is_known_type(crawler_type.as_str()) {
        return Err(
            Error::FailedConfigParse(
                quoted_message(name.as_str(), "': crawler type '", crawler_type.as_str()),
            ),
        );
    }
    let auth = match inherited_value(sections, i, default_at, "auth") {
        None => {
            return Err(Error::ConfigEmptyAttr(attr_label("auth", name.as_str())));
        },
        Some(None) => {
            return Err(Error::ConfigMissingAttr(attr_label("auth", name.as_str())));
        },
        Some(Some(auth)) => auth,
    };
    if find_section(sections, auth.as_str()).is_none() {
        return Err(
            Error::FailedConfigParse(quoted_message(name.as_str(), "': auth section '", auth.as_str())),
        );
    }
    Ok(Crawler { name, target, crawler_type, videos, auth })
}

/// The settings and crawlers that a document defines, or the first thing
/// that is wrong with it.
pub fn read_config(doc: &Document) -> (outcome: Result<Config, Error>)
    ensures
        config_outcome(outcome) == config_of(doc@),
{
    let sections = doc.sections();
    let default_at = match find_section(&sections, "DEFAULT") {
        Some(at) => at,
        None => {
            return Err(Error::FailedConfigParse("no default section".to_owned()));
        },
    };
    assert(doc@[default_at as int].entries == entries_view(sections[default_at as int].entries@));
    let working_dir = match value_among(&sections[default_at].entries, "working_dir") {
        Some(Some(dir)) => dir,
        _ => ".".to_owned(),
    };
    let mut crawlers: Vec<Crawler> = Vec::new();
    assert(crawlers_view(crawlers@) =~= Seq::<CrawlerView>::empty());
    let mut i: usize = 0;
    while i < sections.len()
        invariant
            i <= sections.len(),
            sections_view(sections@) == doc@,
            well_formed(doc@),
            default_at < sections.len(),
            has_section(doc@, default_section()),
            section_at(doc@, default_section()) == default_at,
            crawlers_of(doc@, i as int) == Ok::<Seq<CrawlerView>, ErrorView>(crawlers_view(crawlers@)),
        decreases sections.len() - i,
    {
        assert(doc@[i as int].name == sections[i as int].name@);
        if starts_with(sections[i].name.as_str(), "crawl:") {
            match crawler_in(doc, &sections, i, default_at) {
                Err(error) => {
                    proof {
                        lemma_first_error_stays(doc@, i as int + 1, sections.len() as int);
                    }
                    return Err(error);
                },
                Ok(crawler) => {
                    let ghost before = crawlers_view(crawlers@);
                    crawlers.push(crawler);
                    assert(crawlers_view(crawlers@) =~= before.push(crawler@));
                },
            }
        }
        i = i + 1;
    }
    Ok(Config { settings: Settings { working_dir }, crawlers })
}

/// Once a section is not valid, the sections after it change nothing.
pub proof fn lemma_first_error_stays(doc: Seq<SectionView>, n: int, m: int)
    requires
        0 <= n <= m,
        crawlers_of(doc, n) is Err,
    ensures
        crawlers_of(doc, m) == crawlers_of(doc, n),
    decreases m - n,
{
    if n < m {
        lemma_first_error_stays(doc, n, m - 1);
    }
}

/// Reads the text of a configuration file: its settings and its crawlers in
/// the order of their sections, or the first thing that is wrong with it.
pub fn parse_config(text: &str) -> (outcome: Result<Config, Error>)
    ensures
        config_outcome(outcome) == config_of_text(text@),
{
    match Document::parse(text) {
        Err(message) => Err(Error::FailedConfigParse(message)),
        Ok(doc) => read_config(&doc),
    }
}

// ---------------------------------------------------------------------------
// Editing a configuration
// ---------------------------------------------------------------------------

/// How a truth value is written into a document.
pub open spec fn bool_text(truth: bool) -> Seq<char> {
    if truth {
        "true"@
    } else {
        "false"@
    }
}

/// The document after the settings were written into it: the working
/// directory goes into the default section unless it is `.`.
pub open spec fn settings_applied(doc: Seq<SectionView>, settings: SettingsView) -> Seq<SectionView> {
    if settings.working_dir != "."@ {
        doc_set(doc, default_section(), "working_dir"@, Some(settings.working_dir))
    } else {
        doc
    }
}

/// The document after the first `n` of the entries were set in a section, one by one.
pub open spec fn entries_moved(
    doc: Seq<SectionView>,
    section: Seq<char>,
    entries: Seq<EntryView>,
    n: int,
) -> Seq<SectionView>
    decreases n,
{
    if n <= 0 {
        doc
    } else {
        doc_set(entries_moved(doc, section, entries, n - 1), section, entries[n - 1].key, entries[n - 1].value)
    }
}

/// The document after the section of crawler `from` was removed and all that
/// it held was set in the section of crawler `to`.
pub open spec fn crawler_renamed(doc: Seq<SectionView>, from: Seq<char>, to: Seq<char>) -> Seq<
    SectionView,
> {
    let moved = section_entries(doc, crawl_section(from));
    entries_moved(doc_remove(doc, crawl_section(from)), crawl_section(to), moved, moved.len() as int)
}

/// The document after a crawler's target, videos, type and auth were
/// written into its section.
pub open spec fn crawler_written(doc: Seq<SectionView>, crawler: CrawlerView) -> Seq<SectionView> {
    let section = crawl_section(crawler.name);
    let with_target = doc_set(doc, section, "target"@, Some(crawler.target));
    let with_videos = doc_set(with_target, section, "videos"@, Some(bool_text(crawler.videos)));
    let with_type = doc_set(with_videos, section, "type"@, Some(crawler.crawler_type));
    doc_set(with_type, section, "auth"@, Some(crawler.auth))
}

/// The document after a crawler was saved, under a new name where `previous`
/// names another crawler; or the error where that other crawler does not exist.
pub open spec fn crawler_saved(
    doc: Seq<SectionView>,
    previous: Option<Seq<char>>,
    crawler: CrawlerView,
) -> Result<Seq<SectionView>, ErrorView> {
    match previous {
        Some(old_name) => if old_name == crawler.name {
            Ok(crawler_written(doc, crawler))
        } else if !has_section(doc, crawl_section(old_name)) {
            Err(ErrorView::CrawlerDoesNotExist(old_name))
        } else {
            Ok(crawler_written(crawler_renamed(doc, old_name, crawler.name), crawler))
        },
        None => Ok(crawler_written(doc, crawler)),
    }
}

/// The document after a crawler was deleted, or the error where it does not exist.
pub open spec fn crawler_deleted(doc: Seq<SectionView>, name: Seq<char>) -> Result<
    Seq<SectionView>,
    ErrorView,
> {
    if has_section(doc, crawl_section(name)) {
        Ok(doc_remove(doc, crawl_section(name)))
    } else {
        Err(ErrorView::CrawlerDoesNotExist(name))
    }
}

/// The sections that a text describes, where they make up a valid
/// configuration; else what is wrong with the text.
pub open spec fn valid_document(text: Seq<char>) -> Result<Seq<SectionView>, ErrorView> {
    match parsed(text) {
        Err(message) => Err(ErrorView::FailedConfigParse(message)),
        Ok(doc) => match config_of(doc) {
            Err(error) => Err(error),
            Ok(_) => Ok(doc),
        },
    }
}

/// The text of an edited document, where the edit went through and left a
/// valid configuration; else the error that stopped the edit, or what is
/// wrong with the edited document.
pub open spec fn edited_text(edited: Result<Seq<SectionView>, ErrorView>, line_ending: Seq<char>) -> Result<
    Seq<char>,
    ErrorView,
> {
    match edited {
        Err(error) => Err(error),
        Ok(doc) => match config_of(doc) {
            Err(error) => Err(error),
            Ok(_) => Ok(rendered(doc, line_ending)),
        },
    }
}

/// The new text of a configuration file after its settings were saved.
pub open spec fn settings_saved(text: Seq<char>, settings: SettingsView, line_ending: Seq<char>) -> Result<
    Seq<char>,
    ErrorView,
> {
    match valid_document(text) {
        Err(error) => Err(error),
        Ok(doc) => edited_text(
            Ok::<Seq<SectionView>, ErrorView>(settings_applied(doc, settings)),
            line_ending,
        ),
    }
}

/// The new text of a configuration file after a crawler was saved.
pub open spec fn crawler_saved_text(
    text: Seq<char>,
    previous: Option<Seq<char>>,
    crawler: CrawlerView,
    line_ending: Seq<char>,
) -> Result<Seq<char>, ErrorView> {
    match valid_document(text) {
        Err(error) => Err(error),
        Ok(doc) => edited_text(crawler_saved(doc, previous, crawler), line_ending),
    }
}

/// The new text of a configuration file after a crawler was deleted.
pub open spec fn crawler_deleted_text(text: Seq<char>, name: Seq<char>, line_ending: Seq<char>) -> Result<
    Seq<char>,
    ErrorView,
> {
    match valid_document(text) {
        Err(error) => Err(error),
        Ok(doc) => edited_text(crawler_deleted(doc, name), line_ending),
    }
}

/// Whether a configuration file defines a crawler of that name.
pub open spec fn crawler_in_text(text: Seq<char>, name: Seq<char>) -> Result<bool, ErrorView> {
    match valid_document(text) {
        Err(error) => Err(error),
        Ok(doc) => Ok(has_section(doc, crawl_section(name))),
    }
}

/// The mathematical value of an outcome that is a text.
pub open spec fn text_outcome(outcome: Result<String, Error>) -> Result<Seq<char>, ErrorView> {
    match outcome {
        Ok(text) => Ok(text@),
        Err(error) => Err(error@),
    }
}

/// The mathematical value of an outcome that is a truth value.
pub open spec fn bool_outcome(outcome: Result<bool, Error>) -> Result<bool, ErrorView> {
    match outcome {
        Ok(truth) => Ok(truth),
        Err(error) => Err(error@),
    }
}

/// The mathematical value of an outcome that is a document.
pub open spec fn document_outcome(outcome: Result<Document, Error>) -> Result<Seq<SectionView>, ErrorView> {
    match outcome {
        Ok(doc) => Ok(doc@),
        Err(error) => Err(error@),
    }
}

/// How a truth value is written into a document.
pub fn bool_string(truth: bool) -> (text: String)
    ensures
        text@ == bool_text(truth),
{
    if truth {
        "true".to_owned()
    } else {
        "false".to_owned()
    }
}

/// Reads a document from the text of a configuration file and makes sure
/// that it is a valid configuration.
pub fn load_document(text: &str) -> (outcome: Result<Document, Error>)
    ensures
        document_outcome(outcome) == valid_document(text@),
{
    match Document::parse(text) {
        Err(message) => Err(Error::FailedConfigParse(message)),
        Ok(doc) => match read_config(&doc) {
            Err(error) => Err(error),
            Ok(_) => Ok(doc),
        },
    }
}

/// Writes the settings into a document.
pub fn apply_settings(doc: &mut Document, settings: &Settings)
    ensures
        final(doc)@ == settings_applied(old(doc)@, settings@),
{
    if !same_text(settings.working_dir.as_str(), ".") {
        doc.set("DEFAULT", "working_dir", Some(settings.working_dir.clone()));
    }
}

/// Writes a crawler's target, videos, type and auth into its section.
pub fn write_crawler(doc: &mut Document, crawler: &Crawler)
    ensures
        final(doc)@ == crawler_written(old(doc)@, crawler@),
{
    let section = section_name(crawler.name.as_str());
    doc.set(section.as_str(), "target", Some(crawler.target.clone()));
    doc.set(section.as_str(), "videos", Some(bool_string(crawler.videos)));
    doc.set(section.as_str(), "type", Some(crawler.crawler_type.clone()));
    doc.set(section.as_str(), "auth", Some(crawler.auth.clone()));
}

/// Moves all that the section of crawler `from` holds into the section of
/// crawler `to`, and removes the section of `from`. Says whether `from`
/// existed; where it did not, the document stays as it was.
pub fn rename_crawler(doc: &mut Document, from: &str, to: &str) -> (existed: bool)
    ensures
        existed == has_section(old(doc)@, crawl_section(from@)),
        existed ==> final(doc)@ == crawler_renamed(old(doc)@, from@, to@),
        !existed ==> final(doc)@ == old(doc)@,
{
    let old_section = section_name(from);
    let new_section = section_name(to);
    match doc.remove_section(old_section.as_str()) {
        None => false,
        Some(entries) => {
            let ghost start = doc@;
            let ghost moved = entries_view(entries@);
            let mut i: usize = 0;
            while i < entries.len()
                invariant
                    i <= entries.len(),
                    moved == entries_view(entries@),
                    new_section@ == crawl_section(to@),
                    doc@ == entries_moved(start, crawl_section(to@), moved, i as int),
                decreases entries.len() - i,
            {
                let value = copy_option(&entries[i].value);
                doc.set(new_section.as_str(), entries[i].key.as_str(), value);
                i = i + 1;
            }
            true
        },
    }
}

/// Saves a crawler into a document, under a new name where `previous` names
/// another crawler. Where that other crawler does not exist, the document
/// stays as it was.
pub fn save_crawler_in(doc: &mut Document, previous: &Option<String>, crawler: &Crawler) -> (outcome: Result<
    (),
    Error,
>)
    ensures
        match crawler_saved(old(doc)@, option_text(*previous), crawler@) {
            Ok(saved) => outcome is Ok && final(doc)@ == saved,
            Err(error) => outcome is Err && outcome->Err_0@ == error && final(doc)@ == old(doc)@,
        },
{
    match previous {
        Some(old_name) => {
            if !same_text(old_name.as_str(), crawler.name.as_str()) {
                if !rename_crawler(doc, old_name.as_str(), crawler.name.as_str()) {
                    return Err(Error::CrawlerDoesNotExist(old_name.clone()));
                }
            }
        },
        None => {},
    }
    write_crawler(doc, crawler);
    Ok(())
}

/// Removes a crawler's section from a document. Where the crawler does not
/// exist, the document stays as it was.
pub fn delete_crawler_in(doc: &mut Document, name: &str) -> (outcome: Result<(), Error>)
    ensures
        match crawler_deleted(old(doc)@, name@) {
            Ok(deleted) => outcome is Ok && final(doc)@ == deleted,
            Err(error) => outcome is Err && outcome->Err_0@ == error && final(doc)@ == old(doc)@,
        },
{
    let section = section_name(name);
    match doc.remove_section(section.as_str()) {
        Some(_) => Ok(()),
        None => Err(Error::CrawlerDoesNotExist(name.to_owned())),
    }
}

/// The text of an edited document, where the document is a valid
/// configuration; else what is wrong with it.
pub fn render_valid(doc: &Document, line_ending: &str) -> (outcome: Result<String, Error>)
    ensures
        text_outcome(outcome) == edited_text(Ok::<Seq<SectionView>, ErrorView>(doc@), line_ending@),
{
    match read_config(doc) {
        Err(error) => Err(error),
        Ok(_) => Ok(doc.render(line_ending)),
    }
}

/// Saves the settings: reads the current text of the configuration file
/// again, writes the settings into it and gives the whole new text. Nothing
/// is given where the current text is not a valid configuration.
/// `line_ending` is the line terminator of the host.
pub fn save_settings(text: &str, settings: &Settings, line_ending: &str) -> (outcome: Result<String, Error>)
    ensures
        text_outcome(outcome) == settings_saved(text@, settings@, line_ending@),
{
    match load_document(text) {
        Err(error) => Err(error),
        Ok(doc) => {
            let mut doc = doc;
            apply_settings(&mut doc, settings);
            render_valid(&doc, line_ending)
        },
    }
}

/// Saves a crawler: reads the current text of the configuration file again,
/// moves the crawler's section where it has a new name, writes target,
/// videos, type and auth into it and gives the whole new text. Nothing is
/// given where the document would then be no valid configuration: where the
/// crawler's type does not exist or its auth names no section.
/// `line_ending` is the line terminator of the host.
pub fn save_crawler(
    text: &str,
    old_crawler_name: Option<String>,
    new_crawler: Crawler,
    line_ending: &str,
) -> (outcome: Result<String, Error>)
    ensures
        text_outcome(outcome) == crawler_saved_text(
            text@,
            option_text(old_crawler_name),
            new_crawler@,
            line_ending@,
        ),
{
    match load_document(text) {
        Err(error) => Err(error),
        Ok(doc) => {
            let mut doc = doc;
            match save_crawler_in(&mut doc, &old_crawler_name, &new_crawler) {
                Err(error) => Err(error),
                Ok(()) => render_valid(&doc, line_ending),
            }
        },
    }
}

/// Whether the configuration file defines a crawler of that name.
pub fn crawler_exists(text: &str, crawler_name: &str) -> (outcome: Result<bool, Error>)
    ensures
        bool_outcome(outcome) == crawler_in_text(text@, crawler_name@),
{
    match load_document(text) {
        Err(error) => Err(error),
        Ok(doc) => {
            let section = section_name(crawler_name);
            Ok(doc.has_section(section.as_str()))
        },
    }
}

/// Deletes a crawler: reads the current text of the configuration file
/// again, removes the crawler's section and gives the whole new text.
/// Nothing is given where the document would then be no valid configuration.
/// `line_ending` is the line terminator of the host.
pub fn delete_crawler(text: &str, crawler_name: String, line_ending: &str) -> (outcome: Result<String, Error>)
    ensures
        text_outcome(outcome) == crawler_deleted_text(text@, crawler_name@, line_ending@),
{
    match load_document(text) {
        Err(error) => Err(error),
        Ok(doc) => {
            let mut doc = doc;
            match delete_crawler_in(&mut doc, crawler_name.as_str()) {
                Err(error) => Err(error),
                Ok(()) => render_valid(&doc, line_ending),
            }
        },
    }
}

// ---------------------------------------------------------------------------
// What holds of every document
// ---------------------------------------------------------------------------

/// A section that is not a valid crawler makes the sections up to it and
/// beyond it fail.
pub proof fn lemma_invalid_section_fails(doc: Seq<SectionView>, i: int, n: int)
    requires
        0 <= i < n,
        is_crawl_section(doc[i].name),
        crawler_of(doc, i) is Err,
    ensures
        crawlers_of(doc, n) is Err,
    decreases n,
{
    if n - 1 > i {
        lemma_invalid_section_fails(doc, i, n - 1);
    }
}

/// Where the first `n` sections are read as crawlers, each crawler section
/// among them is valid.
pub proof fn lemma_valid_sections(doc: Seq<SectionView>, n: int, i: int)
    requires
        0 <= i < n,
        is_crawl_section(doc[i].name),
        crawlers_of(doc, n) is Ok,
    ensures
        crawler_of(doc, i) is Ok,
{
    if crawler_of(doc, i) is Err {
        lemma_invalid_section_fails(doc, i, n);
    }
}

/// Where every crawler section among the first `n` is valid, they are read
/// as crawlers.
pub proof fn lemma_all_valid_reads(doc: Seq<SectionView>, n: int)
    requires
        forall|i: int| 0 <= i < n && is_crawl_section(#[trigger] doc[i].name) ==> crawler_of(doc, i) is Ok,
    ensures
        crawlers_of(doc, n) is Ok,
    decreases n,
{
    if n > 0 {
        lemma_all_valid_reads(doc, n - 1);
        if is_crawl_section(doc[n - 1].name) {
            assert(crawler_of(doc, n - 1) is Ok);
        }
    }
}

/// A document is a valid configuration if and only if it has a default
/// section and each of its crawler sections is valid.
pub proof fn lemma_valid_configuration(doc: Seq<SectionView>)
    ensures
        config_of(doc) is Ok <==> has_section(doc, default_section()) && forall|i: int|
            0 <= i < doc.len() && is_crawl_section(#[trigger] doc[i].name) ==> crawler_of(doc, i) is Ok,
{
    if config_of(doc) is Ok {
        assert forall|i: int| 0 <= i < doc.len() && is_crawl_section(#[trigger] doc[i].name) implies crawler_of(
            doc,
            i,
        ) is Ok by {
            lemma_valid_sections(doc, doc.len() as int, i);
        }
    }
    if has_section(doc, default_section()) && forall|i: int|
        0 <= i < doc.len() && is_crawl_section(#[trigger] doc[i].name) ==> crawler_of(doc, i) is Ok {
        lemma_all_valid_reads(doc, doc.len() as int);
    }
}

/// A crawler whose auth names no section of the document, or that has no
/// auth at all, makes the document fail validation, whatever else the
/// document holds.
pub proof fn lemma_dangling_auth_fails(doc: Seq<SectionView>, i: int)
    requires
        0 <= i < doc.len(),
        is_crawl_section(doc[i].name),
        match inherited(doc, i, "auth"@) {
            Some(Some(auth)) => !has_section(doc, auth),
            _ => true,
        },
    ensures
        config_of(doc) is Err,
{
    lemma_invalid_section_fails(doc, i, doc.len() as int);
}

/// A crawler whose type is none of those that exist, or that has no type at
/// all, makes the document fail validation, whatever else the document holds.
pub proof fn lemma_unknown_type_fails(doc: Seq<SectionView>, i: int)
    requires
        0 <= i < doc.len(),
        is_crawl_section(doc[i].name),
        match inherited(doc, i, "type"@) {
            Some(Some(crawler_type)) => !is_crawler_type(crawler_type),
            _ => true,
        },
    ensures
        config_of(doc) is Err,
{
    lemma_invalid_section_fails(doc, i, doc.len() as int);
}

/// Every crawler that is read has a type that exists and an auth that names
/// a section of the document.
pub proof fn lemma_read_crawlers_are_valid(doc: Seq<SectionView>, i: int)
    requires
        0 <= i < doc.len(),
        is_crawl_section(doc[i].name),
        config_of(doc) is Ok,
    ensures
        crawler_of(doc, i) is Ok,
        is_crawler_type(crawler_of(doc, i)->Ok_0.crawler_type),
        has_section(doc, crawler_of(doc, i)->Ok_0.auth),
        crawler_of(doc, i)->Ok_0.name == crawler_name(doc[i].name),
{
    lemma_valid_sections(doc, doc.len() as int, i);
}

/// Two crawlers with different names have different sections.
pub proof fn lemma_crawl_sections_differ(a: Seq<char>, b: Seq<char>)
    requires
        a != b,
    ensures
        crawl_section(a) != crawl_section(b),
{
    let p = crawl_prefix();
    assert(crawl_section(a).subrange(p.len() as int, crawl_section(a).len() as int) =~= a);
    assert(crawl_section(b).subrange(p.len() as int, crawl_section(b).len() as int) =~= b);
}

/// The section of a crawler is a crawler section, and gives the crawler's name back.
pub proof fn lemma_crawl_section_name(name: Seq<char>)
    ensures
        is_crawl_section(crawl_section(name)),
        crawler_name(crawl_section(name)) == name,
{
    let p = crawl_prefix();
    assert(crawl_section(name).subrange(0, p.len() as int) =~= p);
    assert(crawl_section(name).subrange(p.len() as int, crawl_section(name).len() as int) =~= name);
}

/// Setting entries with distinct keys in a section, one by one, keeps a
/// well-formed document well-formed; each key that was set holds its value,
/// and every other key of every section is as it was.
pub proof fn lemma_entries_moved(
    doc: Seq<SectionView>,
    section: Seq<char>,
    entries: Seq<EntryView>,
    n: int,
    other_section: Seq<char>,
    other_key: Seq<char>,
)
    requires
        well_formed(doc),
        distinct_keys(entries),
        0 <= n <= entries.len(),
    ensures
        well_formed(entries_moved(doc, section, entries, n)),
        has_section(entries_moved(doc, section, entries, n), other_section) == (has_section(
            doc,
            other_section,
        ) || (other_section == section && n > 0)),
        lookup(entries_moved(doc, section, entries, n), other_section, other_key) == if other_section
            == section && entry_value(entries.take(n), other_key) is Some {
            entry_value(entries.take(n), other_key)
        } else {
            lookup(doc, other_section, other_key)
        },
    decreases n,
{
    if n <= 0 {
        assert(entries.take(0).len() == 0);
        assert(!has_key(entries.take(0), other_key));
    } else {
        let before = entries_moved(doc, section, entries, n - 1);
        let e = entries[n - 1];
        lemma_entries_moved(doc, section, entries, n - 1, other_section, other_key);
        lemma_doc_set(before, section, e.key, e.value, other_section, other_key);
        let head = entries.take(n - 1);
        assert(distinct_keys(head)) by {
            assert forall|a: int, b: int| 0 <= a < b < head.len() implies (#[trigger] head[a]).key != (
            #[trigger] head[b]).key by {
                assert(entries[a].key != entries[b].key);
            }
        }
        assert(!has_key(head, e.key)) by {
            if has_key(head, e.key) {
                let m = key_at(head, e.key);
                assert(entries[m].key != entries[n - 1].key);
            }
        }
        assert(entries.take(n) =~= entries_set(head, e.key, e.value));
        lemma_entries_set(head, e.key, e.value, other_key);
    }
}

/// Renaming a crawler: after a crawler was saved under a new name, the
/// section of the old name is gone, and the section of the new name holds
/// every key that the old one held. Target, videos, type and auth have the
/// values that were saved; every other key has the value it had under the
/// old name.
pub proof fn lemma_rename_keeps_keys(
    doc: Seq<SectionView>,
    old_name: Seq<char>,
    crawler: CrawlerView,
    key: Seq<char>,
)
    requires
        well_formed(doc),
        old_name != crawler.name,
        has_section(doc, crawl_section(old_name)),
    ensures
        crawler_saved(doc, Some(old_name), crawler) is Ok,
        ({
            let saved = crawler_saved(doc, Some(old_name), crawler)->Ok_0;
            let from = crawl_section(old_name);
            let to = crawl_section(crawler.name);
            &&& well_formed(saved)
            &&& !has_section(saved, from)
            &&& has_section(saved, to)
            &&& lookup(doc, from, key) is Some ==> lookup(saved, to, key) is Some
            &&& lookup(saved, to, key) == if key == "auth"@ {
                Some(Some(crawler.auth))
            } else if key == "type"@ {
                Some(Some(crawler.crawler_type))
            } else if key == "videos"@ {
                Some(Some(bool_text(crawler.videos)))
            } else if key == "target"@ {
                Some(Some(crawler.target))
            } else if lookup(doc, from, key) is Some {
                lookup(doc, from, key)
            } else {
                lookup(doc, to, key)
            }
        }),
{
    let from = crawl_section(old_name);
    let to = crawl_section(crawler.name);
    lemma_crawl_sections_differ(old_name, crawler.name);
    let held = section_entries(doc, from);
    let i = section_at(doc, from);
    assert(distinct_keys(held));
    assert(held.take(held.len() as int) =~= held);
    let removed = doc_remove(doc, from);
    let moved = entries_moved(removed, to, held, held.len() as int);
    let with_target = doc_set(moved, to, "target"@, Some(crawler.target));
    let with_videos = doc_set(with_target, to, "videos"@, Some(bool_text(crawler.videos)));
    let with_type = doc_set(with_videos, to, "type"@, Some(crawler.crawler_type));
    let saved = doc_set(with_type, to, "auth"@, Some(crawler.auth));
    assert(crawler_saved(doc, Some(old_name), crawler) == Ok::<Seq<SectionView>, ErrorView>(saved));

    lemma_doc_remove(doc, from, from, key);
    lemma_doc_remove(doc, from, to, key);
    lemma_entries_moved(removed, to, held, held.len() as int, from, key);
    lemma_entries_moved(removed, to, held, held.len() as int, to, key);
    lemma_doc_set(moved, to, "target"@, Some(crawler.target), from, key);
    lemma_doc_set(moved, to, "target"@, Some(crawler.target), to, key);
    lemma_doc_set(with_target, to, "videos"@, Some(bool_text(crawler.videos)), from, key);
    lemma_doc_set(with_target, to, "videos"@, Some(bool_text(crawler.videos)), to, key);
    lemma_doc_set(with_videos, to, "type"@, Some(crawler.crawler_type), from, key);
    lemma_doc_set(with_videos, to, "type"@, Some(crawler.crawler_type), to, key);
    lemma_doc_set(with_type, to, "auth"@, Some(crawler.auth), from, key);
    lemma_doc_set(with_type, to, "auth"@, Some(crawler.auth), to, key);
}

/// Saving a crawler under its own name, or deleting one, leaves every other
/// section of the document as it was.
pub proof fn lemma_edits_keep_other_sections(
    doc: Seq<SectionView>,
    crawler: CrawlerView,
    deleted: Seq<char>,
    section: Seq<char>,
    key: Seq<char>,
)
    requires
        well_formed(doc),
    ensures
        section != crawl_section(crawler.name) ==> lookup(crawler_written(doc, crawler), section, key)
            == lookup(doc, section, key) && has_section(crawler_written(doc, crawler), section)
            == has_section(doc, section),
        section != crawl_section(deleted) ==> lookup(doc_remove(doc, crawl_section(deleted)), section, key)
            == lookup(doc, section, key) && has_section(doc_remove(doc, crawl_section(deleted)), section)
            == has_section(doc, section),
        !has_section(doc_remove(doc, crawl_section(deleted)), crawl_section(deleted)),
{
    let to = crawl_section(crawler.name);
    let with_target = doc_set(doc, to, "target"@, Some(crawler.target));
    let with_videos = doc_set(with_target, to, "videos"@, Some(bool_text(crawler.videos)));
    lemma_doc_set(doc, to, "target"@, Some(crawler.target), section, key);
    lemma_doc_set(with_target, to, "videos"@, Some(bool_text(crawler.videos)), section, key);
    let with_type = doc_set(with_videos, to, "type"@, Some(crawler.crawler_type));
    lemma_doc_set(with_videos, to, "type"@, Some(crawler.crawler_type), section, key);
    lemma_doc_set(with_type, to, "auth"@, Some(crawler.auth), section, key);
    lemma_doc_remove(doc, crawl_section(deleted), section, key);
    lemma_doc_remove(doc, crawl_section(deleted), crawl_section(deleted), key);
}

/// Saving the settings that were read from a document leaves the document
/// exactly as it was, and with it the configuration that is read from it.
pub proof fn lemma_resaving_settings_changes_nothing(doc: Seq<SectionView>)
    requires
        config_of(doc) is Ok,
    ensures
        settings_applied(doc, config_of(doc)->Ok_0.settings) == doc,
        config_of(settings_applied(doc, config_of(doc)->Ok_0.settings)) == config_of(doc),
{
    let dir = working_dir_of(doc);
    if dir != "."@ {
        lemma_doc_set_same(doc, default_section(), "working_dir"@, Some(dir));
    }
}

/// The names of the four keys that a saved crawler writes differ from each other.
pub proof fn lemma_crawler_keys_differ()
    ensures
        "target"@ != "videos"@,
        "target"@ != "type"@,
        "target"@ != "auth"@,
        "videos"@ != "type"@,
        "videos"@ != "auth"@,
        "type"@ != "auth"@,
{
    reveal_strlit("target");
    reveal_strlit("videos");
    reveal_strlit("type");
    reveal_strlit("auth");
    assert("target"@.len() == 6 && "videos"@.len() == 6 && "type"@.len() == 4 && "auth"@.len() == 4);
    assert("target"@[0] != "videos"@[0]);
    assert("type"@[0] != "auth"@[0]);
}

/// What a saved crawler's section holds for the four keys that saving writes.
pub proof fn lemma_written_keys(doc: Seq<SectionView>, crawler: CrawlerView)
    requires
        well_formed(doc),
    ensures
        well_formed(crawler_written(doc, crawler)),
        has_section(crawler_written(doc, crawler), crawl_section(crawler.name)),
        lookup(crawler_written(doc, crawler), crawl_section(crawler.name), "target"@) == Some(
            Some(crawler.target),
        ),
        lookup(crawler_written(doc, crawler), crawl_section(crawler.name), "videos"@) == Some(
            Some(bool_text(crawler.videos)),
        ),
        lookup(crawler_written(doc, crawler), crawl_section(crawler.name), "type"@) == Some(
            Some(crawler.crawler_type),
        ),
        lookup(crawler_written(doc, crawler), crawl_section(crawler.name), "auth"@) == Some(
            Some(crawler.auth),
        ),
{
    lemma_crawler_keys_differ();
    let to = crawl_section(crawler.name);
    let target = Some(crawler.target);
    let videos = Some(bool_text(crawler.videos));
    let kind = Some(crawler.crawler_type);
    let auth = Some(crawler.auth);
    let with_target = doc_set(doc, to, "target"@, target);
    let with_videos = doc_set(with_target, to, "videos"@, videos);
    let with_type = doc_set(with_videos, to, "type"@, kind);
    lemma_doc_set(doc, to, "target"@, target, to, "target"@);
    lemma_doc_set(with_target, to, "videos"@, videos, to, "target"@);
    lemma_doc_set(with_target, to, "videos"@, videos, to, "videos"@);
    lemma_doc_set(with_videos, to, "type"@, kind, to, "target"@);
    lemma_doc_set(with_videos, to, "type"@, kind, to, "videos"@);
    lemma_doc_set(with_videos, to, "type"@, kind, to, "type"@);
    lemma_doc_set(with_type, to, "auth"@, auth, to, "target"@);
    lemma_doc_set(with_type, to, "auth"@, auth, to, "videos"@);
    lemma_doc_set(with_type, to, "auth"@, auth, to, "type"@);
    lemma_doc_set(with_type, to, "auth"@, auth, to, "auth"@);
}

/// Saving a crawler a second time changes nothing.
pub proof fn lemma_saving_twice_changes_nothing(doc: Seq<SectionView>, crawler: CrawlerView)
    requires
        well_formed(doc),
    ensures
        crawler_written(crawler_written(doc, crawler), crawler) == crawler_written(doc, crawler),
{
    lemma_written_keys(doc, crawler);
    let to = crawl_section(crawler.name);
    let saved = crawler_written(doc, crawler);
    lemma_doc_set_same(saved, to, "target"@, Some(crawler.target));
    lemma_doc_set_same(saved, to, "videos"@, Some(bool_text(crawler.videos)));
    lemma_doc_set_same(saved, to, "type"@, Some(crawler.crawler_type));
    lemma_doc_set_same(saved, to, "auth"@, Some(crawler.auth));
}

/// Saving settings changes at most the working directory of the default
/// section: every other key of every section is as it was.
pub proof fn lemma_settings_touch_one_key(
    doc: Seq<SectionView>,
    settings: SettingsView,
    section: Seq<char>,
    key: Seq<char>,
)
    requires
        well_formed(doc),
        section != default_section() || key != "working_dir"@,
    ensures
        lookup(settings_applied(doc, settings), section, key) == lookup(doc, section, key),
        settings.working_dir != "."@ ==> lookup(
            settings_applied(doc, settings),
            default_section(),
            "working_dir"@,
        ) == Some(Some(settings.working_dir)),
{
    lemma_doc_set(doc, default_section(), "working_dir"@, Some(settings.working_dir), section, key);
    lemma_doc_set(
        doc,
        default_section(),
        "working_dir"@,
        Some(settings.working_dir),
        default_section(),
        "working_dir"@,
    );
}

/// A section name that begins with the crawler prefix is that prefix and
/// the crawler's name: two crawler sections with one crawler name are one.
pub proof fn lemma_section_of_its_crawler(section: Seq<char>)
    requires
        is_crawl_section(section),
    ensures
        section == crawl_section(crawler_name(section)),
{
    assert(section =~= crawl_section(crawler_name(section)));
}

/// Each crawler that is read from the first `n` sections is defined by one
/// of these sections and named after it.
pub proof fn lemma_crawler_has_section(doc: Seq<SectionView>, n: int, k: int)
    requires
        0 <= n <= doc.len(),
        crawlers_of(doc, n) is Ok,
        0 <= k < crawlers_of(doc, n)->Ok_0.len(),
    ensures
        exists|i: int|
            0 <= i < n && is_crawl_section((#[trigger] doc[i]).name) && crawler_of(doc, i) == Ok::<
                CrawlerView,
                ErrorView,
            >(crawlers_of(doc, n)->Ok_0[k]),
    decreases n,
{
    if n > 0 {
        let before = crawlers_of(doc, n - 1)->Ok_0;
        if is_crawl_section(doc[n - 1].name) && k == before.len() {
            assert(is_crawl_section(doc[n - 1].name) && crawler_of(doc, n - 1) == Ok::<
                CrawlerView,
                ErrorView,
            >(crawlers_of(doc, n)->Ok_0[k]));
        } else {
            lemma_crawler_has_section(doc, n - 1, k);
        }
    }
}

/// Crawler names are unique: no two crawlers that are read from a document
/// have the same name.
pub proof fn lemma_crawler_names_unique(doc: Seq<SectionView>, n: int, a: int, b: int)
    requires
        well_formed(doc),
        0 <= n <= doc.len(),
        crawlers_of(doc, n) is Ok,
        0 <= a < b < crawlers_of(doc, n)->Ok_0.len(),
    ensures
        crawlers_of(doc, n)->Ok_0[a].name != crawlers_of(doc, n)->Ok_0[b].name,
    decreases n,
{
    if n > 0 {
        let before = crawlers_of(doc, n - 1)->Ok_0;
        if is_crawl_section(doc[n - 1].name) && b == before.len() {
            lemma_crawler_has_section(doc, n - 1, a);
            let i = choose|i: int|
                0 <= i < n - 1 && is_crawl_section((#[trigger] doc[i]).name) && crawler_of(doc, i) == Ok::<
                    CrawlerView,
                    ErrorView,
                >(before[a]);
            assert(doc[i].name != doc[n - 1].name);
            lemma_section_of_its_crawler(doc[i].name);
            lemma_section_of_its_crawler(doc[n - 1].name);
        } else {
            lemma_crawler_names_unique(doc, n - 1, a, b);
        }
    }
}

/// The default section is no crawler section.
pub proof fn lemma_default_is_no_crawler(name: Seq<char>)
    ensures
        crawl_section(name) != default_section(),
        !is_crawl_section(default_section()),
{
    reveal_strlit("crawl:");
    reveal_strlit("DEFAULT");
    assert(crawl_section(name)[0] == 'c');
    assert(default_section()[0] == 'D');
    if is_crawl_section(default_section()) {
        assert(default_section().subrange(0, 6)[0] == 'c');
    }
}

/// Saving a crawler moves no section: each section keeps its place and its
/// name, every section but the crawler's stays as it was, and at most one
/// section, the crawler's, is added at the end.
pub proof fn lemma_written_keeps_places(doc: Seq<SectionView>, crawler: CrawlerView, j: int)
    requires
        0 <= j < crawler_written(doc, crawler).len(),
    ensures
        doc.len() <= crawler_written(doc, crawler).len(),
        j < doc.len() ==> crawler_written(doc, crawler)[j].name == doc[j].name,
        j < doc.len() && doc[j].name != crawl_section(crawler.name) ==> crawler_written(doc, crawler)[j]
            == doc[j],
        j >= doc.len() ==> crawler_written(doc, crawler)[j].name == crawl_section(crawler.name),
{
    let to = crawl_section(crawler.name);
    let with_target = doc_set(doc, to, "target"@, Some(crawler.target));
    let with_videos = doc_set(with_target, to, "videos"@, Some(bool_text(crawler.videos)));
    let with_type = doc_set(with_videos, to, "type"@, Some(crawler.crawler_type));
    lemma_doc_set_keeps_places(with_type, to, "auth"@, Some(crawler.auth), j);
    if j < with_type.len() {
        lemma_doc_set_keeps_places(with_videos, to, "type"@, Some(crawler.crawler_type), j);
    }
    if j < with_videos.len() {
        lemma_doc_set_keeps_places(with_target, to, "videos"@, Some(bool_text(crawler.videos)), j);
    }
    if j < with_target.len() {
        lemma_doc_set_keeps_places(doc, to, "target"@, Some(crawler.target), j);
    }
    if with_type.len() > 0 {
        lemma_doc_set_keeps_places(with_videos, to, "type"@, Some(crawler.crawler_type), 0);
    }
    if with_videos.len() > 0 {
        lemma_doc_set_keeps_places(with_target, to, "videos"@, Some(bool_text(crawler.videos)), 0);
    }
    if with_target.len() > 0 {
        lemma_doc_set_keeps_places(doc, to, "target"@, Some(crawler.target), 0);
    }
}

/// A saved crawler reads back: where the crawler's type exists and its auth
/// names a section, and a written truth value is read as that truth value,
/// the crawler's section in the saved document defines the crawler that was
/// saved.
pub proof fn lemma_saved_crawler_reads_back(doc: Seq<SectionView>, crawler: CrawlerView)
    requires
        well_formed(doc),
        is_crawler_type(crawler.crawler_type),
        has_section(doc, crawler.auth) || crawler.auth == crawl_section(crawler.name),
    ensures
        has_section(crawler_written(doc, crawler), crawl_section(crawler.name)),
        ini_bool_of(bool_text(crawler.videos)) == Some(crawler.videos) ==> crawler_of(
            crawler_written(doc, crawler),
            section_at(crawler_written(doc, crawler), crawl_section(crawler.name)),
        ) == Ok::<CrawlerView, ErrorView>(crawler),
{
    let to = crawl_section(crawler.name);
    let saved = crawler_written(doc, crawler);
    lemma_written_keys(doc, crawler);
    lemma_crawl_section_name(crawler.name);
    let i = section_at(saved, to);
    assert(saved[i].name == to);
    assert(section_entries(saved, to) == saved[i].entries);
    if has_section(doc, crawler.auth) && crawler.auth != to {
        lemma_edits_keep_other_sections(doc, crawler, crawler.name, crawler.auth, "auth"@);
    }
    assert(has_section(saved, crawler.auth));
}

/// Saving a crawler leaves every other crawler as it was read.
pub proof fn lemma_other_crawlers_stay(doc: Seq<SectionView>, crawler: CrawlerView, j: int)
    requires
        well_formed(doc),
        0 <= j < doc.len(),
        doc[j].name != crawl_section(crawler.name),
        crawler_of(doc, j) is Ok,
    ensures
        j < crawler_written(doc, crawler).len(),
        crawler_of(crawler_written(doc, crawler), j) == crawler_of(doc, j),
{
    let to = crawl_section(crawler.name);
    let saved = crawler_written(doc, crawler);
    lemma_default_is_no_crawler(crawler.name);
    if saved.len() > 0 {
        lemma_written_keeps_places(doc, crawler, 0);
    }
    lemma_written_keeps_places(doc, crawler, j);
    lemma_written_keys(doc, crawler);
    lemma_edits_keep_other_sections(doc, crawler, crawler.name, doc[j].name, "videos"@);
    lemma_edits_keep_other_sections(doc, crawler, crawler.name, default_section(), "videos"@);
    lemma_edits_keep_other_sections(doc, crawler, crawler.name, default_section(), "type"@);
    lemma_edits_keep_other_sections(doc, crawler, crawler.name, default_section(), "auth"@);
    let auth = crawler_of(doc, j)->Ok_0.auth;
    assert(has_section(doc, auth));
    if auth != to {
        lemma_edits_keep_other_sections(doc, crawler, crawler.name, auth, "auth"@);
    }
    assert(has_section(saved, auth));
}

/// Saving a valid crawler into a valid configuration gives a valid
/// configuration, where a written truth value is read as that truth value.
pub proof fn lemma_saved_configuration_is_valid(doc: Seq<SectionView>, crawler: CrawlerView)
    requires
        well_formed(doc),
        config_of(doc) is Ok,
        is_crawler_type(crawler.crawler_type),
        has_section(doc, crawler.auth) || crawler.auth == crawl_section(crawler.name),
    ensures
        ini_bool_of(bool_text(crawler.videos)) == Some(crawler.videos) ==> config_of(
            crawler_written(doc, crawler),
        ) is Ok,
{
    if ini_bool_of(bool_text(crawler.videos)) == Some(crawler.videos) {
        let to = crawl_section(crawler.name);
        let saved = crawler_written(doc, crawler);
        lemma_written_keys(doc, crawler);
        lemma_saved_crawler_reads_back(doc, crawler);
        lemma_default_is_no_crawler(crawler.name);
        lemma_edits_keep_other_sections(doc, crawler, crawler.name, default_section(), "auth"@);
        assert(has_section(saved, default_section()));
        assert forall|i: int| 0 <= i < saved.len() && is_crawl_section(#[trigger] saved[i].name) implies crawler_of(
            saved,
            i,
        ) is Ok by {
            lemma_written_keeps_places(doc, crawler, i);
            if saved[i].name == to {
                lemma_section_at(saved, to, i);
            } else {
                lemma_valid_sections(doc, doc.len() as int, i);
                lemma_other_crawlers_stay(doc, crawler, i);
            }
        }
        lemma_all_valid_reads(saved, saved.len() as int);
    }
}

/// Each valid crawler section among the first `n` gives one of the crawlers
/// that are read from them.
pub proof fn lemma_section_has_crawler(doc: Seq<SectionView>, n: int, i: int)
    requires
        0 <= i < n <= doc.len(),
        is_crawl_section(doc[i].name),
        crawlers_of(doc, n) is Ok,
    ensures
        crawler_of(doc, i) is Ok,
        exists|k: int|
            0 <= k < crawlers_of(doc, n)->Ok_0.len() && #[trigger] crawlers_of(doc, n)->Ok_0[k]
                == crawler_of(doc, i)->Ok_0,
    decreases n,
{
    lemma_valid_sections(doc, n, i);
    let before = crawlers_of(doc, n - 1)->Ok_0;
    let all = crawlers_of(doc, n)->Ok_0;
    if i == n - 1 {
        assert(all[before.len() as int] == crawler_of(doc, i)->Ok_0);
    } else {
        lemma_section_has_crawler(doc, n - 1, i);
        let k = choose|k: int| 0 <= k < before.len() && #[trigger] before[k] == crawler_of(doc, i)->Ok_0;
        assert(all[k] == crawler_of(doc, i)->Ok_0);
    }
}

/// A save that goes through has written the crawler: where the saved
/// document is a valid configuration, the crawler's section defines a
/// crawler with the name, target, type and auth that were saved, and that
/// crawler is among those that are read from the document. Its videos are
/// those that were saved where a written truth value is read as that truth
/// value.
pub proof fn lemma_saved_crawler_is_read(doc: Seq<SectionView>, crawler: CrawlerView)
    requires
        well_formed(doc),
        config_of(crawler_written(doc, crawler)) is Ok,
    ensures
        ({
            let saved = crawler_written(doc, crawler);
            let at = section_at(saved, crawl_section(crawler.name));
            let read = crawler_of(saved, at);
            &&& has_section(saved, crawl_section(crawler.name))
            &&& read is Ok
            &&& read->Ok_0.name == crawler.name
            &&& read->Ok_0.target == crawler.target
            &&& read->Ok_0.crawler_type == crawler.crawler_type
            &&& read->Ok_0.auth == crawler.auth
            &&& ini_bool_of(bool_text(crawler.videos)) == Some(crawler.videos) ==> read->Ok_0 == crawler
            &&& exists|k: int|
                0 <= k < config_of(saved)->Ok_0.crawlers.len() && #[trigger] config_of(
                    saved,
                )->Ok_0.crawlers[k] == read->Ok_0
        }),
{
    let to = crawl_section(crawler.name);
    let saved = crawler_written(doc, crawler);
    lemma_written_keys(doc, crawler);
    lemma_crawl_section_name(crawler.name);
    let at = section_at(saved, to);
    assert(saved[at].name == to);
    assert(section_entries(saved, to) == saved[at].entries);
    lemma_section_has_crawler(saved, saved.len() as int, at);
    let read = crawler_of(saved, at);
    assert(read is Ok);
    assert(read->Ok_0.name == crawler.name);
    assert(read->Ok_0.target == crawler.target);
    assert(read->Ok_0.crawler_type == crawler.crawler_type);
    assert(read->Ok_0.auth == crawler.auth);
    if ini_bool_of(bool_text(crawler.videos)) == Some(crawler.videos) {
        assert(read->Ok_0.videos == crawler.videos);
    }
    let all = crawlers_of(saved, saved.len() as int)->Ok_0;
    assert(config_of(saved)->Ok_0.crawlers == all);
    let k = choose|k: int| 0 <= k < all.len() && #[trigger] all[k] == read->Ok_0;
    assert(config_of(saved)->Ok_0.crawlers[k] == read->Ok_0);
}

/// An edit gives a text only of a valid configuration.
pub proof fn lemma_edits_write_valid_configurations(
    edited: Result<Seq<SectionView>, ErrorView>,
    line_ending: Seq<char>,
)
    ensures
        edited_text(edited, line_ending) is Ok <==> edited is Ok && config_of(edited->Ok_0) is Ok,
        edited_text(edited, line_ending) is Ok ==> edited_text(edited, line_ending)->Ok_0 == rendered(
            edited->Ok_0,
            line_ending,
        ),
{
}

} // verus!
