//! The chain-metadata document: per chain id, the governance contract's
//! recorded addresses and parameters. The initialisation path inserts or
//! overwrites one chain's entry and leaves every other chain's entry as
//! it was.

use vstd::prelude::*;
use vstd::string::*;

verus! {

/// The governance record kept for one chain.
#[derive(Debug)]
pub struct GovernanceEntry {
    /// The governance program's address.
    pub address: String,
    /// The governance program's configuration account.
    pub config_account: String,
    /// The governance contract's address on the governance chain.
    pub governance_address: String,
    /// The name of the chain in charge of the governance.
    pub governance_chain: String,
    /// Minimum value, in seconds, for a proposal ETA.
    pub minimum_proposal_eta_delay: u32,
    /// The account holding the operator role.
    pub operator: String,
    /// The program's upgrade authority.
    pub upgrade_authority: String,
}

/// The mathematical value of a `GovernanceEntry`: each string as its
/// sequence of characters.
pub struct GovernanceEntryView {
    pub address: Seq<char>,
    pub config_account: Seq<char>,
    pub governance_address: Seq<char>,
    pub governance_chain: Seq<char>,
    pub minimum_proposal_eta_delay: u32,
    pub operator: Seq<char>,
    pub upgrade_authority: Seq<char>,
}

impl View for GovernanceEntry {
    type V = GovernanceEntryView;

    open spec fn view(&self) -> GovernanceEntryView {
        GovernanceEntryView {
            address: self.address@,
            config_account: self.config_account@,
            governance_address: self.governance_address@,
            governance_chain: self.governance_chain@,
            minimum_proposal_eta_delay: self.minimum_proposal_eta_delay,
            operator: self.operator@,
            upgrade_authority: self.upgrade_authority@,
        }
    }
}

impl GovernanceEntry {
    /// Assemble the governance record that initialisation writes for a
    /// chain: each argument becomes the field of the same name.
    pub fn new(
        address: String,
        config_account: String,
        governance_address: String,
        governance_chain: String,
        minimum_proposal_eta_delay: u32,
        operator: String,
        upgrade_authority: String,
    ) -> (r: GovernanceEntry)
        ensures
            r@ == (GovernanceEntryView {
                address: address@,
                config_account: config_account@,
                governance_address: governance_address@,
                governance_chain: governance_chain@,
                minimum_proposal_eta_delay,
                operator: operator@,
                upgrade_authority: upgrade_authority@,
            }),
    {
        GovernanceEntry {
            address,
            config_account,
            governance_address,
            governance_chain,
            minimum_proposal_eta_delay,
            operator,
            upgrade_authority,
        }
    }
}

/// One chain's slot in the document.
#[derive(Debug)]
pub struct ChainEntry {
    pub chain_id: String,
    pub governance: GovernanceEntry,
}

/// No two slots carry the same chain id.
pub open spec fn unique_chain_ids(s: Seq<ChainEntry>) -> bool {
    forall|i: int, j: int| 0 <= i < j < s.len() ==> s[i].chain_id@ != s[j].chain_id@
}

/// The map a sequence of slots denotes: later slots win, though under
/// `unique_chain_ids` the order never matters.
pub open spec fn entries_map(s: Seq<ChainEntry>) -> Map<Seq<char>, GovernanceEntryView>
    decreases s.len(),
{
    if s.len() == 0 {
        Map::empty()
    } else {
        entries_map(s.drop_last()).insert(s.last().chain_id@, s.last().governance@)
    }
}

/// The chain-metadata document, as the library sees it: a map from chain
/// id to that chain's governance record.
#[derive(Debug)]
pub struct ChainsInfo {
    entries: Vec<ChainEntry>,
}

impl View for ChainsInfo {
    type V = Map<Seq<char>, GovernanceEntryView>;

    closed spec fn view(&self) -> Map<Seq<char>, GovernanceEntryView> {
        entries_map(self.entries@)
    }
}

proof fn lemma_entries_map_contains(s: Seq<ChainEntry>, k: Seq<char>)
    ensures
        entries_map(s).contains_key(k) <==> (exists|i: int|
            0 <= i < s.len() && s[i].chain_id@ == k),
    decreases s.len(),
{
    if s.len() > 0 {
        lemma_entries_map_contains(s.drop_last(), k);
        if s.last().chain_id@ == k {
            assert(s[s.len() - 1].chain_id@ == k);
        } else {
            if entries_map(s).contains_key(k) {
                let i = choose|i: int|
                    0 <= i < s.drop_last().len() && s.drop_last()[i].chain_id@ == k;
                assert(s[i].chain_id@ == k);
            }
            if exists|i: int| 0 <= i < s.len() && s[i].chain_id@ == k {
                let i = choose|i: int| 0 <= i < s.len() && s[i].chain_id@ == k;
                assert(s.drop_last()[i].chain_id@ == k);
            }
        }
    }
}

proof fn lemma_unique_drop_last(s: Seq<ChainEntry>)
    requires
        unique_chain_ids(s),
        s.len() > 0,
    ensures
        unique_chain_ids(s.drop_last()),
{
    assert forall|i: int, j: int|
        0 <= i < j < s.drop_last().len() implies s.drop_last()[i].chain_id@
        != s.drop_last()[j].chain_id@ by {
        assert(s[i].chain_id@ != s[j].chain_id@);
    }
}

proof fn lemma_entries_map_at(s: Seq<ChainEntry>, i: int)
    requires
        unique_chain_ids(s),
        0 <= i < s.len(),
    ensures
        entries_map(s).contains_key(s[i].chain_id@),
        entries_map(s)[s[i].chain_id@] == s[i].governance@,
    decreases s.len(),
{
    if i < s.len() - 1 {
        lemma_unique_drop_last(s);
        lemma_entries_map_at(s.drop_last(), i);
        assert(s.last().chain_id@ != s[i].chain_id@);
        assert(s.drop_last()[i] == s[i]);
    }
}

proof fn lemma_entries_map_push(s: Seq<ChainEntry>, e: ChainEntry)
    ensures
        entries_map(s.push(e)) == entries_map(s).insert(e.chain_id@, e.governance@),
{
    assert(s.push(e).drop_last() =~= s);
    assert(s.push(e).last() == e);
}

proof fn lemma_entries_map_update(s: Seq<ChainEntry>, i: int, e: ChainEntry)
    requires
        unique_chain_ids(s),
        0 <= i < s.len(),
        e.chain_id@ == s[i].chain_id@,
    ensures
        entries_map(s.update(i, e)) == entries_map(s).insert(e.chain_id@, e.governance@),
    decreases s.len(),
{
    let u = s.update(i, e);
    let base = entries_map(s.drop_last());
    if i == s.len() - 1 {
        assert(u.drop_last() =~= s.drop_last());
        assert(u.last() == e);
        assert(base.insert(s.last().chain_id@, s.last().governance@).insert(
            e.chain_id@,
            e.governance@,
        ) =~= base.insert(e.chain_id@, e.governance@));
        assert(entries_map(u) =~= entries_map(s).insert(e.chain_id@, e.governance@));
    } else {
        lemma_unique_drop_last(s);
        assert(s.drop_last()[i] == s[i]);
        lemma_entries_map_update(s.drop_last(), i, e);
        assert(u.drop_last() =~= s.drop_last().update(i, e));
        assert(u.last() == s.last());
        assert(s.last().chain_id@ != e.chain_id@);
        assert(entries_map(u) =~= entries_map(s).insert(e.chain_id@, e.governance@));
    }
}

proof fn lemma_entries_map_len(s: Seq<ChainEntry>)
    requires
        unique_chain_ids(s),
    ensures
        entries_map(s).dom().finite(),
        entries_map(s).dom().len() == s.len(),
    decreases s.len(),
{
    if s.len() == 0 {
        assert(entries_map(s).dom() =~= Set::<Seq<char>>::empty());
    } else {
        lemma_unique_drop_last(s);
        lemma_entries_map_len(s.drop_last());
        lemma_entries_map_contains(s.drop_last(), s.last().chain_id@);
        assert(!entries_map(s.drop_last()).contains_key(s.last().chain_id@)) by {
            if exists|i: int|
                0 <= i < s.drop_last().len() && s.drop_last()[i].chain_id@
                    == s.last().chain_id@ {
                let i = choose|i: int|
                    0 <= i < s.drop_last().len() && s.drop_last()[i].chain_id@
                        == s.last().chain_id@;
                assert(s[i].chain_id@ == s[s.len() - 1].chain_id@);
            }
        }
        assert(entries_map(s).dom() =~= entries_map(s.drop_last()).dom().insert(
            s.last().chain_id@,
        ));
    }
}

impl ChainsInfo {
    /// The document's structural invariant: one slot per chain id.
    pub closed spec fn wf(&self) -> bool {
        unique_chain_ids(self.entries@)
    }

    /// An empty document, for when no metadata file exists yet.
    pub fn new() -> (r: ChainsInfo)
        ensures
            r.wf(),
            r@ == Map::<Seq<char>, GovernanceEntryView>::empty(),
    {
        ChainsInfo { entries: Vec::new() }
    }

    fn find_index(entries: &Vec<ChainEntry>, chain_id: &String) -> (r: Option<usize>)
        ensures
            match r {
                Some(i) => i < entries@.len() && entries@[i as int].chain_id@ == chain_id@,
                None => forall|j: int|
                    0 <= j < entries@.len() ==> entries@[j].chain_id@ != chain_id@,
            },
    {
        let n: usize = entries.len();
        let mut i: usize = 0;
        while i < n
            invariant
                n == entries@.len(),
                0 <= i <= n,
                forall|j: int| 0 <= j < i ==> entries@[j].chain_id@ != chain_id@,
            decreases n - i,
        {
            if entries[i].chain_id == *chain_id {
                return Some(i);
            }
            i += 1;
        }
        None
    }

    /// The governance record of one chain, if the document has it.
    pub fn get(&self, chain_id: &String) -> (r: Option<&GovernanceEntry>)
        requires
            self.wf(),
        ensures
            match r {
                Some(e) => self@.contains_key(chain_id@) && e@ == self@[chain_id@],
                None => !self@.contains_key(chain_id@),
            },
    {
        proof {
            lemma_entries_map_contains(self.entries@, chain_id@);
        }
        match Self::find_index(&self.entries, chain_id) {
            Some(i) => {
                proof {
                    lemma_entries_map_at(self.entries@, i as int);
                }
                Some(&self.entries[i].governance)
            },
            None => None,
        }
    }

    /// How many chains the document records.
    pub fn chain_count(&self) -> (r: usize)
        requires
            self.wf(),
        ensures
            self@.dom().finite(),
            r == self@.dom().len(),
    {
        proof {
            lemma_entries_map_len(self.entries@);
        }
        self.entries.len()
    }

    /// Insert or overwrite one chain's governance record: the document
    /// afterwards maps `chain_id` to `entry` and every other chain id to
    /// what it mapped to before.
    pub fn set_governance(&mut self, chain_id: String, entry: GovernanceEntry)
        requires
            old(self).wf(),
        ensures
            final(self).wf(),
            final(self)@ == old(self)@.insert(chain_id@, entry@),
    {
        match Self::find_index(&self.entries, &chain_id) {
            Some(i) => {
                let ghost s0 = self.entries@;
                let e = ChainEntry { chain_id, governance: entry };
                proof {
                    lemma_entries_map_update(s0, i as int, e);
                }
                self.entries[i] = e;
                proof {
                    assert forall|a: int, b: int|
                        0 <= a < b < self.entries@.len() implies self.entries@[a].chain_id@
                        != self.entries@[b].chain_id@ by {
                        assert(s0[a].chain_id@ != s0[b].chain_id@);
                    }
                }
            },
            None => {
                let ghost s0 = self.entries@;
                let e = ChainEntry { chain_id, governance: entry };
                proof {
                    lemma_entries_map_push(s0, e);
                }
                self.entries.push(e);
                proof {
                    assert forall|a: int, b: int|
                        0 <= a < b < self.entries@.len() implies self.entries@[a].chain_id@
                        != self.entries@[b].chain_id@ by {
                        if b < s0.len() {
                            assert(s0[a].chain_id@ != s0[b].chain_id@);
                        }
                    }
                }
            },
        }
    }
}

/// Law: writing one chain's governance record twice leaves a single
/// record — the second write overwrites the first — and the records of
/// all other chains are exactly what they were.
pub proof fn lemma_set_governance_overwrites(
    m: Map<Seq<char>, GovernanceEntryView>,
    chain_id: Seq<char>,
    first: GovernanceEntryView,
    second: GovernanceEntryView,
)
    ensures
        m.insert(chain_id, first).insert(chain_id, second) == m.insert(chain_id, second),
        m.insert(chain_id, second)[chain_id] == second,
        forall|other: Seq<char>|
            m.contains_key(other) && other != chain_id ==> m.insert(chain_id, second).contains_key(
                other,
            ) && m.insert(chain_id, second)[other] == m[other],
{
    assert(m.insert(chain_id, first).insert(chain_id, second) =~= m.insert(chain_id, second));
}

} // verus!

