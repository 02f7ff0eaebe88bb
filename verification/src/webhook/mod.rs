//! What the relay knows of webhook events: their payloads, their fixed texts,
//! the runs that failed, and where each repository's notifications go.

use vstd::prelude::*;

use jid::BareJid;

use crate::config::RepoSettings;
use crate::text::same_text;

pub mod format;
pub mod payload;
pub mod types;
pub mod workflow_runs_store;

verus! {

/// The room of each repository in a list of settings. Where a repository is
/// named more than once, its first entry counts.
pub open spec fn mapping_of(settings: Seq<RepoSettings>) -> Map<Seq<char>, BareJid>
    decreases settings.len(),
{
    if settings.len() == 0 {
        Map::empty()
    } else {
        mapping_of(settings.drop_first()).insert(settings[0].repo@, settings[0].room)
    }
}

/// The first entry that names a repository decides its room; a repository that
/// no entry names has none.
pub proof fn lemma_mapping_of(settings: Seq<RepoSettings>, repo: Seq<char>, first: int)
    requires
        0 <= first <= settings.len(),
        forall|i: int| 0 <= i < first ==> settings[i].repo@ != repo,
        first < settings.len() ==> settings[first].repo@ == repo,
    ensures
        first < settings.len() ==> mapping_of(settings).dom().contains(repo) && mapping_of(
            settings,
        )[repo] == settings[first].room,
        first == settings.len() ==> !mapping_of(settings).dom().contains(repo),
    decreases settings.len(),
{
    if settings.len() > 0 && first > 0 {
        let rest = settings.drop_first();
        assert forall|i: int| 0 <= i < first - 1 implies rest[i].repo@ != repo by {
            assert(rest[i] == settings[i + 1]);
        }
        lemma_mapping_of(rest, repo, first - 1);
        assert(settings[0].repo@ != repo);
    }
}

/// Where the notifications of each repository go.
#[derive(Debug, Clone)]
pub struct RepoMapping {
    entries: Vec<RepoSettings>,
}

impl View for RepoMapping {
    type V = Map<Seq<char>, BareJid>;

    closed spec fn view(&self) -> Map<Seq<char>, BareJid> {
        mapping_of(self.entries@)
    }
}

impl RepoMapping {
    pub fn new(mapping: Vec<RepoSettings>) -> (directory: Self)
        ensures
            directory@ == mapping_of(mapping@),
    {
        RepoMapping { entries: mapping }
    }

    pub fn get(&self, room: &str) -> (found: Option<&BareJid>)
        ensures
            match found {
                Some(address) => self@.dom().contains(room@) && self@[room@] == *address,
                None => !self@.dom().contains(room@),
            },
    {
        let mut index: usize = 0;
        while index < self.entries.len()
            invariant
                index <= self.entries.len(),
                forall|i: int| 0 <= i < index ==> self.entries[i].repo@ != room@,
            decreases self.entries.len() - index,
        {
            if same_text(self.entries[index].repo.as_str(), room) {
                proof {
                    lemma_mapping_of(self.entries@, room@, index as int);
                }
                return Some(&self.entries[index].room);
            }
            index = index + 1;
        }
        proof {
            lemma_mapping_of(self.entries@, room@, index as int);
        }
        None
    }
}

} // verus!
