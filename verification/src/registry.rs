//! The agent registry: binds agent names to Ed25519 verifying keys and
//! tracks each agent's reputation.
use crate::error::{result_view, HiveError, HiveErrorView};
use crate::text::{chars_to_string, push_str};
use crate::types::{AgentId, PublicKeyHex};
use vstd::prelude::*;

verus! {

/// What the registry knows of one agent.
#[derive(Debug, Clone)]
pub struct AgentProfile {
    pub agent_id: AgentId,
    pub public_key: PublicKeyHex,
    pub reputation_score: u32,
    pub tasks_completed: u64,
    pub tasks_slashed: u64,
}

/// A profile, with its texts as character sequences.
pub struct ProfileView {
    pub agent_id: Seq<char>,
    pub public_key: Seq<char>,
    pub reputation_score: u32,
    pub tasks_completed: u64,
    pub tasks_slashed: u64,
}

impl View for AgentProfile {
    type V = ProfileView;

    open spec fn view(&self) -> ProfileView {
        ProfileView {
            agent_id: self.agent_id@,
            public_key: self.public_key@,
            reputation_score: self.reputation_score,
            tasks_completed: self.tasks_completed,
            tasks_slashed: self.tasks_slashed,
        }
    }
}

/// The registry of agent identities and reputations.
#[derive(Debug, Clone)]
pub struct AgentRegistry {
    agents: Vec<AgentProfile>,
}

/// The reputation an agent is registered with.
pub open spec fn initial_reputation() -> u32 {
    80
}

/// The reputation reported for an agent the registry does not know.
pub open spec fn unknown_reputation() -> u32 {
    50
}

/// The profile of a newly registered agent.
pub open spec fn new_profile(id: Seq<char>, public_key: Seq<char>) -> ProfileView {
    ProfileView {
        agent_id: id,
        public_key,
        reputation_score: initial_reputation(),
        tasks_completed: 0,
        tasks_slashed: 0,
    }
}

/// The profile after one settled task: a completed task earns 2 reputation
/// (up to 100), a slashed one costs 25 (down to 0).
pub open spec fn settled_profile(p: ProfileView, success: bool) -> ProfileView {
    if success {
        ProfileView {
            tasks_completed: (p.tasks_completed + 1) as u64,
            reputation_score: if p.reputation_score + 2 > 100 {
                100
            } else {
                (p.reputation_score + 2) as u32
            },
            ..p
        }
    } else {
        ProfileView {
            tasks_slashed: (p.tasks_slashed + 1) as u64,
            reputation_score: if p.reputation_score < 25 {
                0
            } else {
                (p.reputation_score - 25) as u32
            },
            ..p
        }
    }
}

/// The reputation the registry reports for `id`.
pub open spec fn reputation_of(m: Map<Seq<char>, ProfileView>, id: Seq<char>) -> u32 {
    if m.contains_key(id) {
        m[id].reputation_score
    } else {
        unknown_reputation()
    }
}

/// What checking that `provided` is the key registered for `id` gives.
pub open spec fn identity_check(
    m: Map<Seq<char>, ProfileView>,
    id: Seq<char>,
    provided: Seq<char>,
) -> Result<(), HiveErrorView> {
    if !m.contains_key(id) {
        Err(
            HiveErrorView::Agent(
                "Agent '"@ + id + "' is not registered in the Swarm identity registry"@,
            ),
        )
    } else if m[id].public_key == provided {
        Ok(())
    } else {
        Err(
            HiveErrorView::Agent(
                "Public key spoofing detected: Agent '"@ + id + "' registered with pubkey '"@
                    + m[id].public_key + "', but provided '"@ + provided + "'"@,
            ),
        )
    }
}

/// The map from agent names to profiles that a list of profiles stands for.
pub open spec fn profile_map(s: Seq<AgentProfile>) -> Map<Seq<char>, ProfileView>
    decreases s.len(),
{
    if s.len() == 0 {
        Map::empty()
    } else {
        profile_map(s.drop_last()).insert(s.last().agent_id@, s.last()@)
    }
}

/// No two profiles share a name.
pub open spec fn unique_ids(s: Seq<AgentProfile>) -> bool {
    forall|i: int, j: int|
        0 <= i < s.len() && 0 <= j < s.len() && i != j ==> s[i].agent_id@ != s[j].agent_id@
}

proof fn lemma_profile_map_absent(s: Seq<AgentProfile>, k: Seq<char>)
    requires
        forall|i: int| 0 <= i < s.len() ==> s[i].agent_id@ != k,
    ensures
        !profile_map(s).contains_key(k),
    decreases s.len(),
{
    if s.len() > 0 {
        lemma_profile_map_absent(s.drop_last(), k);
    }
}

proof fn lemma_profile_map_at(s: Seq<AgentProfile>, i: int)
    requires
        unique_ids(s),
        0 <= i < s.len(),
    ensures
        profile_map(s).contains_key(s[i].agent_id@),
        profile_map(s)[s[i].agent_id@] == s[i]@,
    decreases s.len(),
{
    if i < s.len() - 1 {
        lemma_profile_map_at(s.drop_last(), i);
    }
}

proof fn lemma_profile_map_values(s: Seq<AgentProfile>, k: Seq<char>)
    requires
        profile_map(s).contains_key(k),
    ensures
        exists|i: int| 0 <= i < s.len() && s[i].agent_id@ == k && profile_map(s)[k] == s[i]@,
    decreases s.len(),
{
    if s.len() > 0 && k != s.last().agent_id@ {
        lemma_profile_map_values(s.drop_last(), k);
        let i = choose|i: int|
            0 <= i < s.drop_last().len() && s.drop_last()[i].agent_id@ == k && profile_map(
                s.drop_last(),
            )[k] == s.drop_last()[i]@;
        assert(s[i] == s.drop_last()[i]);
    } else if s.len() > 0 {
        assert(s[s.len() - 1] == s.last());
    }
}

proof fn lemma_profile_map_update(s: Seq<AgentProfile>, i: int, p: AgentProfile)
    requires
        unique_ids(s),
        0 <= i < s.len(),
        p.agent_id@ == s[i].agent_id@,
    ensures
        profile_map(s.update(i, p)) == profile_map(s).insert(p.agent_id@, p@),
    decreases s.len(),
{
    let t = s.update(i, p);
    if i == s.len() - 1 {
        assert(t.drop_last() =~= s.drop_last());
        assert(profile_map(t) =~= profile_map(s).insert(p.agent_id@, p@));
    } else {
        lemma_profile_map_update(s.drop_last(), i, p);
        assert(t.drop_last() =~= s.drop_last().update(i, p));
        assert(profile_map(t) =~= profile_map(s).insert(p.agent_id@, p@));
    }
}

impl View for AgentRegistry {
    type V = Map<Seq<char>, ProfileView>;

    closed spec fn view(&self) -> Map<Seq<char>, ProfileView> {
        profile_map(self.agents@)
    }
}

impl AgentRegistry {
    /// Every registered name has one profile, and every reputation lies in 0..=100.
    pub closed spec fn wf(&self) -> bool {
        &&& unique_ids(self.agents@)
        &&& forall|i: int| 0 <= i < self.agents@.len() ==> #[trigger] self.agents@[i].reputation_score
            <= 100
    }

    /// An empty registry.
    pub fn new() -> (r: Self)
        ensures
            r.wf(),
            r@ == Map::<Seq<char>, ProfileView>::empty(),
    {
        AgentRegistry { agents: Vec::new() }
    }

    /// The position of the profile named `agent_id`, if any.
    fn position(&self, agent_id: &str) -> (r: Option<usize>)
        requires
            self.wf(),
        ensures
            r matches Some(i) ==> i < self.agents@.len() && self.agents@[i as int].agent_id@
                == agent_id@ && self@.contains_key(agent_id@) && self@[agent_id@]
                == self.agents@[i as int]@,
            r is None ==> !self@.contains_key(agent_id@),
    {
        let key = String::from_str(agent_id);
        let mut i: usize = 0;
        while i < self.agents.len()
            invariant
                self.wf(),
                i <= self.agents@.len(),
                key@ == agent_id@,
                forall|j: int| 0 <= j < i ==> self.agents@[j].agent_id@ != agent_id@,
            decreases self.agents.len() - i,
        {
            if self.agents[i].agent_id == key {
                proof {
                    lemma_profile_map_at(self.agents@, i as int);
                }
                return Some(i);
            }
            i = i + 1;
        }
        proof {
            lemma_profile_map_absent(self.agents@, agent_id@);
        }
        None
    }

    /// Registers `agent_id` with `public_key` and the base reputation, unless
    /// the name is already registered, in which case nothing changes.
    pub fn register_agent(&mut self, agent_id: &str, public_key: &str)
        requires
            old(self).wf(),
        ensures
            final(self).wf(),
            old(self)@.contains_key(agent_id@) ==> final(self)@ == old(self)@,
            !old(self)@.contains_key(agent_id@) ==> final(self)@ == old(self)@.insert(
                agent_id@,
                new_profile(agent_id@, public_key@),
            ),
    {
        match self.position(agent_id) {
            Some(_) => {},
            None => {
                let p = AgentProfile {
                    agent_id: String::from_str(agent_id),
                    public_key: String::from_str(public_key),
                    reputation_score: 80,
                    tasks_completed: 0,
                    tasks_slashed: 0,
                };
                let ghost before = self.agents@;
                proof {
                    assert forall|i: int| 0 <= i < before.len() implies before[i].agent_id@
                        != agent_id@ by {
                        if before[i].agent_id@ == agent_id@ {
                            lemma_profile_map_at(before, i);
                        }
                    }
                }
                self.agents.push(p);
                assert(self.agents@.drop_last() == before);
            },
        }
    }

    /// The key registered for `agent_id`.
    pub fn get_public_key(&self, agent_id: &str) -> (r: Option<&PublicKeyHex>)
        requires
            self.wf(),
        ensures
            r matches Some(k) ==> self@.contains_key(agent_id@) && k@ == self@[agent_id@].public_key,
            r is None ==> !self@.contains_key(agent_id@),
    {
        match self.position(agent_id) {
            Some(i) => Some(&self.agents[i].public_key),
            None => None,
        }
    }

    /// The reputation of `agent_id`, or 50 for an unknown agent.
    pub fn get_reputation(&self, agent_id: &str) -> (r: u32)
        requires
            self.wf(),
        ensures
            r == reputation_of(self@, agent_id@),
            r <= 100,
    {
        match self.position(agent_id) {
            Some(i) => self.agents[i].reputation_score,
            None => 50,
        }
    }

    /// Records the outcome of a task settled by `agent_id`; an unknown agent
    /// is ignored.
    pub fn record_settlement(&mut self, agent_id: &str, success: bool)
        requires
            old(self).wf(),
            old(self)@.contains_key(agent_id@) ==> (if success {
                old(self)@[agent_id@].tasks_completed < u64::MAX
            } else {
                old(self)@[agent_id@].tasks_slashed < u64::MAX
            }),
        ensures
            final(self).wf(),
            old(self)@.contains_key(agent_id@) ==> final(self)@ == old(self)@.insert(
                agent_id@,
                settled_profile(old(self)@[agent_id@], success),
            ),
            !old(self)@.contains_key(agent_id@) ==> final(self)@ == old(self)@,
    {
        match self.position(agent_id) {
            Some(i) => {
                let old_p = &self.agents[i];
                let rep = old_p.reputation_score;
                let p = if success {
                    AgentProfile {
                        agent_id: old_p.agent_id.clone(),
                        public_key: old_p.public_key.clone(),
                        reputation_score: if rep + 2 > 100 {
                            100
                        } else {
                            rep + 2
                        },
                        tasks_completed: old_p.tasks_completed + 1,
                        tasks_slashed: old_p.tasks_slashed,
                    }
                } else {
                    AgentProfile {
                        agent_id: old_p.agent_id.clone(),
                        public_key: old_p.public_key.clone(),
                        reputation_score: rep.saturating_sub(25),
                        tasks_completed: old_p.tasks_completed,
                        tasks_slashed: old_p.tasks_slashed + 1,
                    }
                };
                let ghost before = self.agents@;
                proof {
                    lemma_profile_map_update(before, i as int, p);
                }
                self.agents.set(i, p);
                assert(self.agents@ == before.update(i as int, p));
            },
            None => {},
        }
    }

    /// Checks that `provided_pubkey` is the key registered for `agent_id`.
    pub fn verify_agent_identity(&self, agent_id: &str, provided_pubkey: &str) -> (r: Result<
        (),
        HiveError,
    >)
        requires
            self.wf(),
        ensures
            result_view(r) == identity_check(self@, agent_id@, provided_pubkey@),
    {
        match self.position(agent_id) {
            Some(i) => {
                let provided = String::from_str(provided_pubkey);
                if self.agents[i].public_key == provided {
                    Ok(())
                } else {
                    let mut v: Vec<char> = Vec::new();
                    push_str(&mut v, "Public key spoofing detected: Agent '");
                    push_str(&mut v, agent_id);
                    push_str(&mut v, "' registered with pubkey '");
                    push_str(&mut v, self.agents[i].public_key.as_str());
                    push_str(&mut v, "', but provided '");
                    push_str(&mut v, provided_pubkey);
                    push_str(&mut v, "'");
                    Err(HiveError::AgentError(chars_to_string(&v)))
                }
            },
            None => {
                let mut v: Vec<char> = Vec::new();
                push_str(&mut v, "Agent '");
                push_str(&mut v, agent_id);
                push_str(&mut v, "' is not registered in the Swarm identity registry");
                Err(HiveError::AgentError(chars_to_string(&v)))
            },
        }
    }
}

impl Default for AgentRegistry {
    /// An empty registry.
    fn default() -> (r: Self)
        ensures
            r.wf(),
            r@ == Map::<Seq<char>, ProfileView>::empty(),
    {
        AgentRegistry::new()
    }
}

// ---------------------------------------------------------------------------
// Laws
// ---------------------------------------------------------------------------

/// Every reputation the registry holds lies in 0..=100.
pub proof fn lemma_reputation_bounded(reg: AgentRegistry, id: Seq<char>)
    requires
        reg.wf(),
        reg@.contains_key(id),
    ensures
        reg@[id].reputation_score <= 100,
{
    lemma_profile_map_values(reg.agents@, id);
}

/// Identity binding: once `id` is registered with `key`, checking `id`
/// against `key` succeeds, and checking it against any other key reports
/// spoofing.
pub proof fn lemma_identity_binding(
    m: Map<Seq<char>, ProfileView>,
    id: Seq<char>,
    key: Seq<char>,
    other: Seq<char>,
)
    requires
        m.contains_key(id),
        m[id].public_key == key,
        other != key,
    ensures
        identity_check(m, id, key) == Ok::<(), HiveErrorView>(()),
        identity_check(m, id, other) is Err,
{
}

/// An unregistered name fails every identity check, and once registered it
/// passes the check with the key it was registered with.
pub proof fn lemma_registration_binds_key(
    m: Map<Seq<char>, ProfileView>,
    id: Seq<char>,
    key: Seq<char>,
    provided: Seq<char>,
)
    ensures
        !m.contains_key(id) ==> identity_check(m, id, provided) is Err,
        !m.contains_key(id) ==> identity_check(m.insert(id, new_profile(id, key)), id, key)
            == Ok::<(), HiveErrorView>(()),
{
}

} // verus!
