//! The options that the language server is started with: a document of named
//! sections, each a list of named settings.

use vstd::prelude::*;
use vstd::string::*;

verus! {

/// The value of one setting.
#[derive(Debug, Clone, PartialEq, Eq)]
pub enum Setting {
    Flag(bool),
    Number(u64),
    Text(String),
}

/// A `Setting` with its text as a sequence of characters.
pub enum SettingView {
    Flag(bool),
    Number(u64),
    Text(Seq<char>),
}

impl View for Setting {
    type V = SettingView;

    open spec fn view(&self) -> SettingView {
        match self {
            Setting::Flag(on) => SettingView::Flag(*on),
            Setting::Number(n) => SettingView::Number(*n),
            Setting::Text(text) => SettingView::Text(text@),
        }
    }
}

/// A setting under its key.
#[derive(Debug, Clone, PartialEq, Eq)]
pub struct Entry {
    pub key: String,
    pub value: Setting,
}

/// An `Entry` as plain values.
pub struct EntryView {
    pub key: Seq<char>,
    pub value: SettingView,
}

impl View for Entry {
    type V = EntryView;

    open spec fn view(&self) -> EntryView {
        EntryView { key: self.key@, value: self.value@ }
    }
}

/// A top-level key of the document with the settings below it.
#[derive(Debug, Clone, PartialEq, Eq)]
pub struct Section {
    pub name: String,
    pub entries: Vec<Entry>,
}

/// A `Section` as plain values.
pub struct SectionView {
    pub name: Seq<char>,
    pub entries: Seq<EntryView>,
}

impl View for Section {
    type V = SectionView;

    open spec fn view(&self) -> SectionView {
        SectionView { name: self.name@, entries: self.entries@.map_values(|e: Entry| e@) }
    }
}

/// The whole document: its sections in the order they were written.
#[derive(Debug, Clone, PartialEq, Eq)]
pub struct InitializationOptions {
    pub sections: Vec<Section>,
}

impl View for InitializationOptions {
    type V = Seq<SectionView>;

    open spec fn view(&self) -> Seq<SectionView> {
        self.sections@.map_values(|s: Section| s@)
    }
}

/// The port that the server is told of. The server is spoken to over its
/// standard streams, so nothing connects to it.
pub const SERVER_PORT: u64 = 12345;

/// The host address that goes with `SERVER_PORT`.
pub const SERVER_HOST: &'static str = "127.0.0.1";

/// The section that names the server's network endpoint.
pub open spec fn server_options() -> SectionView {
    SectionView {
        name: "serverOptions"@,
        entries: seq![
            EntryView { key: "port"@, value: SettingView::Number(SERVER_PORT) },
            EntryView { key: "host"@, value: SettingView::Text(SERVER_HOST@) },
        ],
    }
}

/// A section that holds the one setting `enabled`.
pub open spec fn feature(name: Seq<char>, enabled: bool) -> SectionView {
    SectionView {
        name,
        entries: seq![EntryView { key: "enabled"@, value: SettingView::Flag(enabled) }],
    }
}

/// The document that the server is started with: the endpoint, and inlay
/// hints, code actions and code lenses switched on.
pub open spec fn initialization_options() -> Seq<SectionView> {
    seq![
        server_options(),
        feature("inlayHints"@, true),
        feature("codeActions"@, true),
        feature("codeLens"@, true),
    ]
}

/// The top-level keys of a document, in order.
pub open spec fn section_names(document: Seq<SectionView>) -> Seq<Seq<char>> {
    document.map_values(|section: SectionView| section.name)
}

/// The document has four top-level keys, no two of them alike:
/// `serverOptions`, `inlayHints`, `codeActions` and `codeLens`.
pub proof fn lemma_four_sections()
    ensures
        initialization_options().len() == 4,
        section_names(initialization_options()) == seq![
            "serverOptions"@,
            "inlayHints"@,
            "codeActions"@,
            "codeLens"@,
        ],
        section_names(initialization_options()).no_duplicates(),
{
    reveal_strlit("serverOptions");
    reveal_strlit("inlayHints");
    reveal_strlit("codeActions");
    reveal_strlit("codeLens");
    let names = section_names(initialization_options());
    assert(names =~= seq!["serverOptions"@, "inlayHints"@, "codeActions"@, "codeLens"@]);
    assert(names[0].len() == 13);
    assert(names[1].len() == 10);
    assert(names[2].len() == 11);
    assert(names[3].len() == 8);
}

/// Builds the section that names the server's network endpoint.
fn build_server_options() -> (section: Section)
    ensures
        section@ == server_options(),
{
    let mut entries: Vec<Entry> = Vec::new();
    entries.push(Entry { key: String::from_str("port"), value: Setting::Number(SERVER_PORT) });
    entries.push(
        Entry { key: String::from_str("host"), value: Setting::Text(String::from_str(SERVER_HOST)) },
    );
    let section = Section { name: String::from_str("serverOptions"), entries };
    assert(section@.entries =~= server_options().entries);
    section
}

/// Builds a section that holds the one setting `enabled`.
fn build_feature(name: &str, enabled: bool) -> (section: Section)
    ensures
        section@ == feature(name@, enabled),
{
    let mut entries: Vec<Entry> = Vec::new();
    entries.push(Entry { key: String::from_str("enabled"), value: Setting::Flag(enabled) });
    let section = Section { name: String::from_str(name), entries };
    assert(section@.entries =~= feature(name@, enabled).entries);
    section
}

/// Builds the document that the server is started with.
pub fn build_initialization_options() -> (options: InitializationOptions)
    ensures
        options@ == initialization_options(),
{
    let mut sections: Vec<Section> = Vec::new();
    sections.push(build_server_options());
    sections.push(build_feature("inlayHints", true));
    sections.push(build_feature("codeActions", true));
    sections.push(build_feature("codeLens", true));
    let options = InitializationOptions { sections };
    assert(options@ =~= initialization_options());
    options
}

} // verus!
