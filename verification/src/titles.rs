//! The catalog of recognised game titles and the lookup that decides what a
//! requested title leads to: the browsable guide, a known-but-absent notice,
//! or a rejection.

use vstd::prelude::*;

use crate::models::{first_where, lemma_first_where};
use vstd::view::View as _;

verus! {

/// The read-only catalog: each entry pairs the title key with the stylised
/// name of its guide, or `None` where no guide exists yet.
#[derive(Debug)]
pub struct TitleCatalog {
    pub entries: Vec<(String, Option<String>)>,
}

impl View for TitleCatalog {
    type V = Seq<(Seq<char>, Option<Seq<char>>)>;

    open spec fn view(&self) -> Seq<(Seq<char>, Option<Seq<char>>)> {
        self.entries@.map_values(
            |e: (String, Option<String>)|
                (
                    e.0@,
                    match e.1 {
                        Some(s) => Some(s@),
                        None => None,
                    },
                ),
        )
    }
}

/// The stylised name recorded for `query`, if the catalog knows the key:
/// `None` for an unknown key, `Some(entry)` for the first matching entry.
pub open spec fn catalog_lookup(
    entries: Seq<(Seq<char>, Option<Seq<char>>)>,
    query: Seq<char>,
) -> Option<Option<Seq<char>>> {
    match first_where(entries, |e: (Seq<char>, Option<Seq<char>>)| e.0 == query) {
        Some(i) => Some(entries[i].1),
        None => None,
    }
}

/// What a requested title leads to.
#[derive(Debug, Clone)]
pub enum TitleAction {
    /// The title's guide exists: start the browser.
    LaunchGuide,
    /// The title is recognised but has no guide yet; `label` is the name to
    /// report, stylised when the catalog has one.
    KnownNotImplemented { label: String },
    /// The title is not recognised at all.
    Unknown,
}

/// The catalog the program starts with: one browsable guide and five
/// recognised titles without one.
pub fn valid_titles() -> (catalog: TitleCatalog)
    ensures
        catalog@.len() == 6,
        catalog@[0].0 == "chaos_head"@,
        catalog@[0].1 == Some("Chaos;Head"@),
        catalog@[1].0 == "steins_gate"@ && catalog@[1].1 is None,
        catalog@[2].0 == "robotics_notes"@ && catalog@[2].1 is None,
        catalog@[3].0 == "chaos_child"@ && catalog@[3].1 is None,
        catalog@[4].0 == "occultic_nine"@ && catalog@[4].1 is None,
        catalog@[5].0 == "anonymous_code"@ && catalog@[5].1 is None,
{
    let entries: Vec<(String, Option<String>)> = vec![
        ("chaos_head".to_string(), Some("Chaos;Head".to_string())),
        ("steins_gate".to_string(), None),
        ("robotics_notes".to_string(), None),
        ("chaos_child".to_string(), None),
        ("occultic_nine".to_string(), None),
        ("anonymous_code".to_string(), None),
    ];
    TitleCatalog { entries }
}

impl TitleCatalog {
    /// Decide what `query` leads to: the guide when the first matching entry
    /// carries a stylised name and the key is the browsable one; a
    /// known-but-absent notice, labelled with the stylised name where one
    /// exists and with the query itself where none does; or a rejection for
    /// a key the catalog does not hold.
    pub fn resolve_title(&self, query: &str) -> (action: TitleAction)
        ensures
            match catalog_lookup(self@, query@) {
                Some(entry) => match entry {
                    Some(stylized) => {
                        if query@ == "chaos_head"@ {
                            action is LaunchGuide
                        } else {
                            action matches TitleAction::KnownNotImplemented { label } && label@
                                == stylized
                        }
                    },
                    None => action matches TitleAction::KnownNotImplemented { label } && label@
                        == query@,
                },
                None => action is Unknown,
            },
    {
        let ghost entries = self@;
        let ghost matcher = |e: (Seq<char>, Option<Seq<char>>)| e.0 == query@;
        let owned: String = query.to_owned();
        let mut i: usize = 0;
        while i < self.entries.len()
            invariant
                entries == self@,
                matcher == (|e: (Seq<char>, Option<Seq<char>>)| e.0 == query@),
                owned@ == query@,
                entries.len() == self.entries@.len(),
                i <= entries.len(),
                forall|j: int| 0 <= j < i ==> !matcher(#[trigger] entries[j]),
            decreases entries.len() - i,
        {
            proof {
                assert(entries[i as int].0 == self.entries@[i as int].0@);
            }
            if self.entries[i].0 == owned {
                proof {
                    assert(matcher(entries[i as int]));
                    lemma_first_where(entries, matcher);
                    assert(first_where(entries, matcher) == Some(i as int));
                }
                match &self.entries[i].1 {
                    Some(stylized) => {
                        let launch_key: String = "chaos_head".to_string();
                        if owned == launch_key {
                            return TitleAction::LaunchGuide;
                        }
                        return TitleAction::KnownNotImplemented { label: stylized.clone() };
                    },
                    None => {
                        return TitleAction::KnownNotImplemented { label: owned };
                    },
                }
            }
            i += 1;
        }
        proof {
            lemma_first_where(entries, matcher);
        }
        TitleAction::Unknown
    }
}

} // verus!
