//! Supported-language discovery: from the entries of a module directory to
//! the language identifiers that they stand for.

use vstd::prelude::*;

verus! {

/// One entry of the language-module directory, as the caller read it.
#[derive(Debug, PartialEq, Eq)]
pub struct ModuleEntry {
    /// The entry's file name, without any leading directories.
    pub name: String,
    /// Whether the entry is a regular file.
    pub is_file: bool,
}

/// The mathematical model of a [`ModuleEntry`].
pub struct ModuleEntryView {
    pub name: Seq<char>,
    pub is_file: bool,
}

impl View for ModuleEntry {
    type V = ModuleEntryView;

    open spec fn view(&self) -> ModuleEntryView {
        ModuleEntryView { name: self.name@, is_file: self.is_file }
    }
}

impl DeepView for ModuleEntry {
    type V = ModuleEntryView;

    open spec fn deep_view(&self) -> ModuleEntryView {
        self@
    }
}

/// The extension that marks a file as a module definition: `nix`.
pub open spec fn module_extension() -> Seq<char> {
    seq!['n', 'i', 'x']
}

/// A name carries `extension` when it is a non-empty stem, a dot and the
/// extension, in that order.
pub open spec fn has_extension(name: Seq<char>, extension: Seq<char>) -> bool {
    &&& name.len() > extension.len() + 1
    &&& name.skip(name.len() - extension.len() - 1) == seq!['.'] + extension
}

/// What is left of a name that carries `extension` once the dot and the
/// extension are taken off.
pub open spec fn stem(name: Seq<char>, extension: Seq<char>) -> Seq<char> {
    name.take(name.len() - extension.len() - 1)
}

/// The language identifier of one entry: the stem of a regular file that
/// carries the extension, and the raw name of anything else.
pub open spec fn language_of(entry: ModuleEntryView, extension: Seq<char>) -> Seq<char> {
    if entry.is_file && has_extension(entry.name, extension) {
        stem(entry.name, extension)
    } else {
        entry.name
    }
}

/// The language identifiers of a directory listing, entry by entry.
pub open spec fn discovered(entries: Seq<ModuleEntryView>, extension: Seq<char>) -> Seq<
    Seq<char>,
> {
    entries.map_values(|entry: ModuleEntryView| language_of(entry, extension))
}

/// Discovery depends on the contents of the directory alone: two listings
/// that hold the same entries, in whatever order and however often, yield the
/// same set of languages. In particular a second listing of an unchanged
/// directory yields the set that the first one did.
pub proof fn lemma_discovery_repeatable(
    first: Seq<ModuleEntryView>,
    second: Seq<ModuleEntryView>,
    extension: Seq<char>,
)
    requires
        first.to_set() == second.to_set(),
    ensures
        discovered(first, extension).to_set() == discovered(second, extension).to_set(),
{
    lemma_discovered_within(first, second, extension);
    lemma_discovered_within(second, first, extension);
}

/// Every language found in a listing is found in any listing that holds at
/// least the same entries.
proof fn lemma_discovered_within(
    part: Seq<ModuleEntryView>,
    whole: Seq<ModuleEntryView>,
    extension: Seq<char>,
)
    requires
        part.to_set().subset_of(whole.to_set()),
    ensures
        discovered(part, extension).to_set().subset_of(discovered(whole, extension).to_set()),
{
    let found = discovered(part, extension);
    let all = discovered(whole, extension);
    assert forall|language: Seq<char>| found.to_set().contains(language) implies all.to_set()
        .contains(language) by {
        let i = choose|i: int| 0 <= i < found.len() && found[i] == language;
        assert(part.to_set().contains(part[i]));
        let j = choose|j: int| 0 <= j < whole.len() && whole[j] == part[i];
        assert(all[j] == language);
    }
}

/// Computes the language identifier of one directory entry.
pub fn language_of_entry(entry: &ModuleEntry, extension: &str) -> (language: String)
    ensures
        language@ == language_of(entry@, extension@),
{
    let name = entry.name.as_str();
    if !entry.is_file {
        return entry.name.clone();
    }
    let name_len: usize = name.unicode_len();
    let extension_len: usize = extension.unicode_len();
    if name_len <= extension_len || name_len - extension_len <= 1 {
        return entry.name.clone();
    }
    let stem_len: usize = name_len - extension_len - 1;
    if name.get_char(stem_len) != '.' {
        assert(name@.skip(stem_len as int)[0] == name@[stem_len as int]);
        return entry.name.clone();
    }
    let mut matched: usize = 0;
    while matched < extension_len
        invariant
            matched <= extension_len,
            name@ == entry.name@,
            name_len == name@.len(),
            extension_len == extension@.len(),
            stem_len + 1 + extension_len == name_len,
            forall|k: int| 0 <= k < matched ==> name@[stem_len + 1 + k] == extension@[k],
        decreases extension_len - matched,
    {
        if name.get_char(stem_len + 1 + matched) != extension.get_char(matched) {
            assert((seq!['.'] + extension@)[1 + matched] == extension@[matched as int]);
            return entry.name.clone();
        }
        matched += 1;
    }
    assert(name@.skip(stem_len as int) =~= seq!['.'] + extension@);
    name.substring_char(0, stem_len).to_owned()
}

/// Computes the language identifiers of a directory listing for a given
/// module-definition extension, one identifier per entry and in the order
/// of the listing.
pub fn discover_languages(entries: &Vec<ModuleEntry>, extension: &str) -> (languages: Vec<String>)
    ensures
        languages.deep_view() == discovered(entries.deep_view(), extension@),
{
    let mut languages: Vec<String> = Vec::new();
    let mut i: usize = 0;
    while i < entries.len()
        invariant
            i <= entries.len(),
            languages.deep_view() == discovered(entries.deep_view().take(i as int), extension@),
        decreases entries.len() - i,
    {
        let language = language_of_entry(&entries[i], extension);
        let ghost before = languages.deep_view();
        languages.push(language);
        assert(languages.deep_view() =~= before.push(language@));
        i += 1;
    }
    languages
}

/// Computes the languages that a development-environment source tree
/// supports from the listing of its language-module directory.
pub fn supported_langs_of_devenv(entries: &Vec<ModuleEntry>) -> (languages: Vec<String>)
    ensures
        languages.deep_view() == discovered(entries.deep_view(), module_extension()),
{
    proof {
        reveal_strlit("nix");
    }
    assert("nix"@ =~= module_extension());
    discover_languages(entries, "nix")
}

} // verus!
