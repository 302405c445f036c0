//! The language-to-packages table and the resolution of a validated request
//! into one flat package list.

use crate::json::{describe, parse_table_entries, parsed_table};
use vstd::hash_map::StringHashMap;
use vstd::prelude::*;

verus! {

/// The table that a list of entries stands for: each entry maps its language
/// to its packages, and of two entries for one language the later one counts.
pub open spec fn table_of_entries(entries: Seq<(Seq<char>, Seq<Seq<char>>)>) -> Map<
    Seq<char>,
    Seq<Seq<char>>,
>
    decreases entries.len(),
{
    if entries.len() == 0 {
        Map::empty()
    } else {
        table_of_entries(entries.drop_last()).insert(entries.last().0, entries.last().1)
    }
}

/// What one language adds to the package list: its packages, or nothing
/// where the table has no entry for it.
pub open spec fn contribution(
    table: Map<Seq<char>, Seq<Seq<char>>>,
    language: Seq<char>,
) -> Seq<Seq<char>> {
    if table.contains_key(language) {
        table[language]
    } else {
        Seq::empty()
    }
}

/// The package list of a request: the contributions of its languages, one
/// after the other in request order.
pub open spec fn resolved(
    requested: Seq<Seq<char>>,
    table: Map<Seq<char>, Seq<Seq<char>>>,
) -> Seq<Seq<char>> {
    requested.flat_map(|language: Seq<char>| contribution(table, language))
}

/// A mapping from language identifiers to the packages that each language
/// needs, in the order in which the packages were given.
pub struct PackageTable {
    entries: StringHashMap<Vec<String>>,
}

impl View for PackageTable {
    type V = Map<Seq<char>, Seq<Seq<char>>>;

    closed spec fn view(&self) -> Map<Seq<char>, Seq<Seq<char>>> {
        self.entries@.map_values(|packages: Vec<String>| packages.deep_view())
    }
}

/// A package table that could not be read.
#[derive(Debug, PartialEq, Eq)]
pub struct TableError {
    /// The parser's account of what is wrong with the text.
    pub detail: String,
}

impl PackageTable {
    /// The table without any entry.
    pub fn new() -> (table: Self)
        ensures
            table@ == Map::<Seq<char>, Seq<Seq<char>>>::empty(),
    {
        PackageTable { entries: StringHashMap::new() }
    }

    /// Sets the packages of a language, replacing any earlier entry for it.
    pub fn insert(&mut self, language: String, packages: Vec<String>)
        ensures
            final(self)@ == old(self)@.insert(language@, packages.deep_view()),
    {
        self.entries.insert(language, packages);
    }

    /// Looks up the packages of a language.
    pub fn get(&self, language: &str) -> (found: Option<&Vec<String>>)
        ensures
            match found {
                Some(packages) => self@.contains_key(language@) && packages.deep_view()
                    == self@[language@],
                None => !self@.contains_key(language@),
            },
    {
        self.entries.get(language)
    }

    /// Builds the table that a list of entries stands for.
    pub fn from_entries(entries: Vec<(String, Vec<String>)>) -> (table: Self)
        ensures
            table@ == table_of_entries(entries.deep_view()),
    {
        let ghost given = entries.deep_view();
        let mut table = PackageTable::new();
        for entry in it: entries
            invariant
                given == entries.deep_view(),
                table@ == table_of_entries(given.take(it.index() as int)),
        {
            let (language, packages) = entry;
            proof {
                let i = it.index() as int;
                assert(given.take(i + 1).drop_last() =~= given.take(i));
            }
            table.insert(language, packages);
        }
        assert(given.take(entries.len() as int) =~= given);
        table
    }
}

/// An empty request resolves to an empty package list, whatever the table.
pub proof fn lemma_resolved_empty(table: Map<Seq<char>, Seq<Seq<char>>>)
    ensures
        resolved(Seq::empty(), table) == Seq::<Seq<char>>::empty(),
{
}

/// A request of one language resolves to that language's contribution.
pub proof fn lemma_resolved_single(language: Seq<char>, table: Map<Seq<char>, Seq<Seq<char>>>)
    ensures
        resolved(seq![language], table) == contribution(table, language),
{
    let f = |language: Seq<char>| contribution(table, language);
    Seq::<Seq<char>>::empty().lemma_flat_map_push(f, language);
}

/// Resolution follows the request in order: two requests in a row resolve to
/// the packages of the first followed by the packages of the second.
pub proof fn lemma_resolved_concat(
    first: Seq<Seq<char>>,
    second: Seq<Seq<char>>,
    table: Map<Seq<char>, Seq<Seq<char>>>,
)
    ensures
        resolved(first + second, table) == resolved(first, table) + resolved(second, table),
    decreases second.len(),
{
    let f = |language: Seq<char>| contribution(table, language);
    if second.len() > 0 {
        let front = second.drop_last();
        let last = second.last();
        lemma_resolved_concat(first, front, table);
        assert(second =~= front.push(last));
        (first + front).lemma_flat_map_push(f, last);
        front.lemma_flat_map_push(f, last);
    }
}

/// Resolves a validated request into its flat package list: the packages of
/// each requested language that the table knows, in request order, with
/// nothing removed and nothing reordered.
pub fn flatten_pkgs(languages: &Vec<String>, pkgs: PackageTable) -> (merged: Vec<String>)
    ensures
        merged.deep_view() == resolved(languages.deep_view(), pkgs@),
{
    let ghost requested = languages.deep_view();
    let mut merged: Vec<String> = Vec::new();
    let mut i: usize = 0;
    while i < languages.len()
        invariant
            i <= languages.len(),
            requested == languages.deep_view(),
            merged.deep_view() == resolved(requested.take(i as int), pkgs@),
        decreases languages.len() - i,
    {
        let ghost before = merged.deep_view();
        proof {
            let done = requested.take(i as int);
            assert(requested.take(i + 1) =~= done.push(requested[i as int]));
            done.lemma_flat_map_push(
                |language: Seq<char>| contribution(pkgs@, language),
                requested[i as int],
            );
        }
        if let Some(packages) = pkgs.get(languages[i].as_str()) {
            let mut j: usize = 0;
            while j < packages.len()
                invariant
                    j <= packages.len(),
                    merged.deep_view() == before + packages.deep_view().take(j as int),
                decreases packages.len() - j,
            {
                let ghost copied = merged.deep_view();
                merged.push(packages[j].clone());
                assert(merged.deep_view() =~= copied.push(packages[j as int]@));
                j += 1;
            }
        }
        i += 1;
    }
    assert(requested.take(languages.len() as int) =~= requested);
    merged
}

/// Reads the language-to-packages table from its JSON text: an object whose
/// keys are language identifiers and whose values are arrays of package
/// names.
///
/// The text must be such a document. The table is bundled with the program,
/// so a text that is none is a defect of the build and no input to handle:
/// callers that cannot vouch for the text use
/// [`try_query_pkgs_of_supported_langs`].
pub fn query_pkgs_of_supported_langs(json: &str) -> (table: PackageTable)
    requires
        parsed_table(json@) is Some,
    ensures
        parsed_table(json@) == Some(table@),
{
    match parse_table_entries(json) {
        Ok(entries) => PackageTable::from_entries(entries),
        Err(_) => unreached(),
    }
}

/// Tests whether a text is a language-to-packages table, and reads the table
/// where it is one. A text that is none gives the parser's account of what is
/// wrong with it, and never a partial or an empty table.
///
/// The text is parsed twice, once to test it and once to read it.
pub fn try_query_pkgs_of_supported_langs(json: &str) -> (r: Result<PackageTable, TableError>)
    ensures
        match r {
            Ok(table) => parsed_table(json@) == Some(table@),
            Err(_) => parsed_table(json@) is None,
        },
{
    match parse_table_entries(json) {
        Ok(_) => Ok(query_pkgs_of_supported_langs(json)),
        Err(error) => Err(TableError { detail: describe(&error) }),
    }
}

} // verus!
