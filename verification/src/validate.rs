//! Validation of requested language names against the supported set.

use crate::text::{debug_list, debug_text};
use vstd::hash_set::StringHashSet;
use vstd::prelude::*;

verus! {

/// The requested names that the supported set lacks, in request order and
/// with their repetitions.
pub open spec fn unsupported(requested: Seq<Seq<char>>, supported: Set<Seq<char>>) -> Seq<
    Seq<char>,
> {
    requested.filter(|language: Seq<char>| !supported.contains(language))
}

/// Every requested name is in the supported set.
pub open spec fn all_supported(requested: Seq<Seq<char>>, supported: Set<Seq<char>>) -> bool {
    forall|i: int| 0 <= i < requested.len() ==> supported.contains(#[trigger] requested[i])
}

/// A request that names unsupported languages.
#[derive(Debug, PartialEq, Eq)]
pub struct ValidationError {
    /// Every requested name that is not supported, in request order.
    pub invalid: Vec<String>,
}

impl ValidationError {
    /// The one line that tells a user which names to correct.
    pub fn message(&self) -> (text: String)
        ensures
            text@ == "Languages "@ + debug_text(self.invalid.deep_view())
                + " are not supported"@,
    {
        let mut text = String::from_str("Languages ");
        let listed = debug_list(&self.invalid);
        text.append(listed.as_str());
        text.append(" are not supported");
        text
    }
}

/// A request is free of unsupported names exactly when every name in it is
/// supported.
pub proof fn lemma_unsupported_empty_iff_all_supported(
    requested: Seq<Seq<char>>,
    supported: Set<Seq<char>>,
)
    ensures
        unsupported(requested, supported).len() == 0 <==> all_supported(requested, supported),
    decreases requested.len(),
{
    reveal(Seq::filter);
    if requested.len() > 0 {
        let front = requested.drop_last();
        lemma_unsupported_empty_iff_all_supported(front, supported);
        if all_supported(requested, supported) {
            assert(all_supported(front, supported)) by {
                assert forall|i: int| 0 <= i < front.len() implies supported.contains(
                    #[trigger] front[i],
                ) by {
                    assert(front[i] == requested[i]);
                }
            }
        }
        if unsupported(requested, supported).len() == 0 {
            assert(all_supported(requested, supported)) by {
                assert forall|i: int| 0 <= i < requested.len() implies supported.contains(
                    #[trigger] requested[i],
                ) by {
                    if i < front.len() {
                        assert(front[i] == requested[i]);
                    }
                }
            }
        }
    }
}

/// The empty request is valid whatever is supported: it names nothing, so
/// nothing in it is unsupported.
pub proof fn lemma_empty_request_is_valid(supported: Set<Seq<char>>)
    ensures
        all_supported(Seq::empty(), supported),
        unsupported(Seq::empty(), supported) == Seq::<Seq<char>>::empty(),
{
    reveal(Seq::filter);
}

/// The list of unsupported names has no false positives and no false
/// negatives: a name is on it exactly when it was requested and is not
/// supported.
pub proof fn lemma_unsupported_membership(
    requested: Seq<Seq<char>>,
    supported: Set<Seq<char>>,
    language: Seq<char>,
)
    ensures
        unsupported(requested, supported).contains(language) <==> requested.contains(language)
            && !supported.contains(language),
{
    let pred = |language: Seq<char>| !supported.contains(language);
    let listed = requested.filter(pred);
    if listed.contains(language) {
        let i = choose|i: int| 0 <= i < listed.len() && listed[i] == language;
        requested.lemma_filter_pred(pred, i);
        requested.lemma_filter_contains_rev(pred, language);
    }
    if requested.contains(language) && !supported.contains(language) {
        let i = choose|i: int| 0 <= i < requested.len() && requested[i] == language;
        requested.lemma_filter_contains(pred, i);
    }
}

/// The list of unsupported names keeps the order of the request: the list
/// for two requests in a row is the list for the first followed by the list
/// for the second.
pub proof fn lemma_unsupported_concat(
    first: Seq<Seq<char>>,
    second: Seq<Seq<char>>,
    supported: Set<Seq<char>>,
)
    ensures
        unsupported(first + second, supported) == unsupported(first, supported) + unsupported(
            second,
            supported,
        ),
{
    Seq::filter_distributes_over_add(
        first,
        second,
        |language: Seq<char>| !supported.contains(language),
    );
}

/// A request of one name is reported exactly when that name is not supported.
pub proof fn lemma_unsupported_single(language: Seq<char>, supported: Set<Seq<char>>)
    ensures
        unsupported(seq![language], supported) == if supported.contains(language) {
            Seq::<Seq<char>>::empty()
        } else {
            seq![language]
        },
{
    let pred = |language: Seq<char>| !supported.contains(language);
    Seq::<Seq<char>>::empty().lemma_filter_push(language, pred);
    reveal(Seq::filter);
}

/// Checks the requested languages against the supported ones.
///
/// Returns the request unchanged when every name in it is supported, and
/// otherwise one error that lists every unsupported name.
pub fn ensure_languages(langs: Vec<String>, supported_langs: Vec<String>) -> (r: Result<
    Vec<String>,
    ValidationError,
>)
    ensures
        ({
            let requested = langs.deep_view();
            let supported = supported_langs.deep_view().to_set();
            match r {
                Ok(accepted) => {
                    &&& all_supported(requested, supported)
                    &&& accepted == langs
                },
                Err(e) => {
                    &&& !all_supported(requested, supported)
                    &&& e.invalid.deep_view() == unsupported(requested, supported)
                    &&& e.invalid.len() > 0
                },
            }
        }),
{
    let ghost requested = langs.deep_view();
    let ghost offered = supported_langs.deep_view();
    let mut supported = StringHashSet::new();
    for language in it: supported_langs
        invariant
            offered == supported_langs.deep_view(),
            supported@ == offered.take(it.index() as int).to_set(),
    {
        proof {
            let inserted = offered.take(it.index() as int);
            assert(offered.take(it.index() + 1) =~= inserted.push(language@));
            inserted.lemma_push_to_set_commute(language@);
        }
        supported.insert(language);
    }
    assert(offered.take(supported_langs.len() as int) =~= offered);

    let mut invalid: Vec<String> = Vec::new();
    let mut i: usize = 0;
    while i < langs.len()
        invariant
            i <= langs.len(),
            requested == langs.deep_view(),
            invalid.deep_view() == unsupported(requested.take(i as int), supported@),
        decreases langs.len() - i,
    {
        proof {
            let checked = requested.take(i as int);
            assert(requested.take(i + 1) =~= checked.push(requested[i as int]));
            checked.lemma_filter_push(
                requested[i as int],
                |language: Seq<char>| !supported@.contains(language),
            );
        }
        if !supported.contains(langs[i].as_str()) {
            invalid.push(langs[i].clone());
        }
        i += 1;
    }
    assert(requested.take(langs.len() as int) =~= requested);
    proof {
        lemma_unsupported_empty_iff_all_supported(requested, supported@);
    }
    if invalid.len() == 0 {
        Ok(langs)
    } else {
        Err(ValidationError { invalid })
    }
}

} // verus!
