//! The balance ledger of the swarm's agent accounts.
use crate::types::AgentId;
use vstd::prelude::*;

verus! {

/// One agent's account.
#[derive(Debug, Clone)]
struct Account {
    agent: AgentId,
    balance: u64,
}

/// Balances of agent accounts. An account that was never credited holds 0.
#[derive(Debug)]
pub struct SwarmLedger {
    balances: Vec<Account>,
}

/// The balance of `agent` in a ledger map: 0 when it has no account.
pub open spec fn balance(m: Map<Seq<char>, u64>, agent: Seq<char>) -> nat {
    if m.contains_key(agent) {
        m[agent] as nat
    } else {
        0
    }
}

/// The accounts after a withdrawal attempt of `amount` from `agent`: debited
/// when the balance covers it, otherwise unchanged but for an empty account
/// opened for an agent that had none.
pub open spec fn after_withdraw(m: Map<Seq<char>, u64>, agent: Seq<char>, amount: u64) -> Map<
    Seq<char>,
    u64,
> {
    if balance(m, agent) >= amount {
        m.insert(agent, (balance(m, agent) - amount) as u64)
    } else if m.contains_key(agent) {
        m
    } else {
        m.insert(agent, 0)
    }
}

/// The accounts after crediting `amount` to `agent`.
pub open spec fn after_deposit(m: Map<Seq<char>, u64>, agent: Seq<char>, amount: u64) -> Map<
    Seq<char>,
    u64,
> {
    m.insert(agent, (balance(m, agent) + amount) as u64)
}

spec fn account_map(s: Seq<Account>) -> Map<Seq<char>, u64>
    decreases s.len(),
{
    if s.len() == 0 {
        Map::empty()
    } else {
        account_map(s.drop_last()).insert(s.last().agent@, s.last().balance)
    }
}

spec fn account_sum(s: Seq<Account>) -> int
    decreases s.len(),
{
    if s.len() == 0 {
        0
    } else {
        account_sum(s.drop_last()) + s.last().balance
    }
}

spec fn unique_accounts(s: Seq<Account>) -> bool {
    forall|i: int, j: int|
        0 <= i < s.len() && 0 <= j < s.len() && i != j ==> s[i].agent@ != s[j].agent@
}

proof fn lemma_account_absent(s: Seq<Account>, k: Seq<char>)
    requires
        forall|i: int| 0 <= i < s.len() ==> s[i].agent@ != k,
    ensures
        !account_map(s).contains_key(k),
    decreases s.len(),
{
    if s.len() > 0 {
        lemma_account_absent(s.drop_last(), k);
    }
}

proof fn lemma_account_at(s: Seq<Account>, i: int)
    requires
        unique_accounts(s),
        0 <= i < s.len(),
    ensures
        account_map(s).contains_key(s[i].agent@),
        account_map(s)[s[i].agent@] == s[i].balance,
    decreases s.len(),
{
    if i < s.len() - 1 {
        lemma_account_at(s.drop_last(), i);
    }
}

proof fn lemma_account_update(s: Seq<Account>, i: int, a: Account)
    requires
        unique_accounts(s),
        0 <= i < s.len(),
        a.agent@ == s[i].agent@,
    ensures
        account_map(s.update(i, a)) == account_map(s).insert(a.agent@, a.balance),
        account_sum(s.update(i, a)) == account_sum(s) - s[i].balance + a.balance,
    decreases s.len(),
{
    let t = s.update(i, a);
    if i == s.len() - 1 {
        assert(t.drop_last() =~= s.drop_last());
        assert(account_map(t) =~= account_map(s).insert(a.agent@, a.balance));
    } else {
        lemma_account_update(s.drop_last(), i, a);
        assert(t.drop_last() =~= s.drop_last().update(i, a));
        assert(account_map(t) =~= account_map(s).insert(a.agent@, a.balance));
    }
}

proof fn lemma_account_sum_bounds(s: Seq<Account>, i: int)
    requires
        0 <= i < s.len(),
    ensures
        account_sum(s) >= s[i].balance,
        account_sum(s) >= 0,
    decreases s.len(),
{
    assert(account_sum(s) == account_sum(s.drop_last()) + s.last().balance);
    if i < s.len() - 1 {
        lemma_account_sum_bounds(s.drop_last(), i);
        assert(s.drop_last()[i] == s[i]);
    } else {
        assert(s[i] == s.last());
        if s.len() > 1 {
            lemma_account_sum_bounds(s.drop_last(), 0);
        } else {
            assert(s.drop_last().len() == 0);
            assert(account_sum(s.drop_last()) == 0);
        }
    }
}

proof fn lemma_account_values(s: Seq<Account>, k: Seq<char>)
    requires
        account_map(s).contains_key(k),
    ensures
        exists|i: int| 0 <= i < s.len() && account_map(s)[k] == s[i].balance,
    decreases s.len(),
{
    if s.len() > 0 && k != s.last().agent@ {
        lemma_account_values(s.drop_last(), k);
        let i = choose|i: int|
            0 <= i < s.drop_last().len() && account_map(s.drop_last())[k] == s.drop_last()[i].balance;
        assert(s[i] == s.drop_last()[i]);
    } else if s.len() > 0 {
        assert(s[s.len() - 1] == s.last());
    }
}

impl View for SwarmLedger {
    type V = Map<Seq<char>, u64>;

    closed spec fn view(&self) -> Map<Seq<char>, u64> {
        account_map(self.balances@)
    }
}

impl SwarmLedger {
    /// Every agent has at most one account.
    pub closed spec fn wf(&self) -> bool {
        unique_accounts(self.balances@)
    }

    /// The sum of all balances.
    pub closed spec fn total(&self) -> int {
        account_sum(self.balances@)
    }

    /// An empty ledger.
    pub fn new() -> (r: Self)
        ensures
            r.wf(),
            r@ == Map::<Seq<char>, u64>::empty(),
            r.total() == 0,
    {
        SwarmLedger { balances: Vec::new() }
    }

    /// The position of `agent`'s account, if it has one.
    fn position(&self, agent: &AgentId) -> (r: Option<usize>)
        requires
            self.wf(),
        ensures
            r matches Some(i) ==> i < self.balances@.len() && self.balances@[i as int].agent@
                == agent@ && self@.contains_key(agent@) && self@[agent@]
                == self.balances@[i as int].balance,
            r is None ==> !self@.contains_key(agent@),
    {
        let mut i: usize = 0;
        while i < self.balances.len()
            invariant
                self.wf(),
                i <= self.balances@.len(),
                forall|j: int| 0 <= j < i ==> self.balances@[j].agent@ != agent@,
            decreases self.balances.len() - i,
        {
            if self.balances[i].agent == *agent {
                proof {
                    lemma_account_at(self.balances@, i as int);
                }
                return Some(i);
            }
            i = i + 1;
        }
        proof {
            lemma_account_absent(self.balances@, agent@);
        }
        None
    }

    /// The position of `agent`'s account, opening an empty one if it has none.
    fn entry(&mut self, agent: &AgentId) -> (r: usize)
        requires
            old(self).wf(),
        ensures
            final(self).wf(),
            r < final(self).balances@.len(),
            final(self).balances@[r as int].agent@ == agent@,
            final(self)@ == (if old(self)@.contains_key(agent@) {
                old(self)@
            } else {
                old(self)@.insert(agent@, 0)
            }),
            final(self)@.contains_key(agent@),
            final(self)@[agent@] == final(self).balances@[r as int].balance,
            final(self)@[agent@] == balance(old(self)@, agent@),
            final(self).total() == old(self).total(),
    {
        match self.position(agent) {
            Some(i) => i,
            None => {
                let ghost before = self.balances@;
                proof {
                    assert forall|i: int| 0 <= i < before.len() implies before[i].agent@
                        != agent@ by {
                        if before[i].agent@ == agent@ {
                            lemma_account_at(before, i);
                        }
                    }
                }
                self.balances.push(Account { agent: agent.clone(), balance: 0 });
                assert(self.balances@.drop_last() == before);
                self.balances.len() - 1
            },
        }
    }

    /// Credits `amount` to `agent`.
    pub fn deposit(&mut self, agent: &AgentId, amount: u64)
        requires
            old(self).wf(),
            balance(old(self)@, agent@) + amount <= u64::MAX,
        ensures
            final(self).wf(),
            final(self)@ == after_deposit(old(self)@, agent@, amount),
            final(self).total() == old(self).total() + amount,
    {
        let i = self.entry(agent);
        let a = Account { agent: self.balances[i].agent.clone(), balance: self.balances[i].balance + amount };
        let ghost before = self.balances@;
        proof {
            lemma_account_update(before, i as int, a);
        }
        self.balances.set(i, a);
    }

    /// Debits `amount` from `agent` when the balance covers it, and says
    /// whether it did.
    pub fn withdraw(&mut self, agent: &AgentId, amount: u64) -> (r: bool)
        requires
            old(self).wf(),
        ensures
            final(self).wf(),
            r == (balance(old(self)@, agent@) >= amount),
            final(self)@ == after_withdraw(old(self)@, agent@, amount),
            final(self).total() == (if r {
                old(self).total() - amount
            } else {
                old(self).total()
            }),
    {
        let i = self.entry(agent);
        if self.balances[i].balance >= amount {
            let a = Account {
                agent: self.balances[i].agent.clone(),
                balance: self.balances[i].balance - amount,
            };
            let ghost before = self.balances@;
            proof {
                lemma_account_update(before, i as int, a);
            }
            self.balances.set(i, a);
            true
        } else {
            false
        }
    }

    /// Moves `amount` from `from` to `to` when `from`'s balance covers it,
    /// and says whether it did.
    pub fn transfer(&mut self, from: &AgentId, to: &AgentId, amount: u64) -> (r: bool)
        requires
            old(self).wf(),
            balance(old(self)@, from@) >= amount ==> balance(
                after_withdraw(old(self)@, from@, amount),
                to@,
            ) + amount <= u64::MAX,
        ensures
            final(self).wf(),
            r == (balance(old(self)@, from@) >= amount),
            r ==> final(self)@ == after_deposit(
                after_withdraw(old(self)@, from@, amount),
                to@,
                amount,
            ),
            !r ==> final(self)@ == after_withdraw(old(self)@, from@, amount),
            final(self).total() == old(self).total(),
    {
        if self.withdraw(from, amount) {
            self.deposit(to, amount);
            true
        } else {
            false
        }
    }

    /// The balance of `agent`, 0 when it has no account.
    pub fn balance_of(&self, agent: &AgentId) -> (r: u64)
        requires
            self.wf(),
        ensures
            r == balance(self@, agent@),
    {
        match self.position(agent) {
            Some(i) => self.balances[i].balance,
            None => 0,
        }
    }
}

impl Default for SwarmLedger {
    /// An empty ledger.
    fn default() -> (r: Self)
        ensures
            r.wf(),
            r@ == Map::<Seq<char>, u64>::empty(),
    {
        SwarmLedger::new()
    }
}

// ---------------------------------------------------------------------------
// Laws
// ---------------------------------------------------------------------------

/// A successful transfer between two agents moves exactly `amount`: the
/// sender loses it, the receiver gains it, and every other balance stays.
pub proof fn lemma_transfer_moves_amount(
    m: Map<Seq<char>, u64>,
    from: Seq<char>,
    to: Seq<char>,
    other: Seq<char>,
    amount: u64,
)
    requires
        from != to,
        balance(m, from) >= amount,
        balance(m, to) + amount <= u64::MAX,
        other != from,
        other != to,
    ensures
        ({
            let n = after_deposit(after_withdraw(m, from, amount), to, amount);
            &&& balance(n, from) == balance(m, from) - amount
            &&& balance(n, to) == balance(m, to) + amount
            &&& balance(n, other) == balance(m, other)
        }),
{
}

/// A transfer to oneself changes no balance.
pub proof fn lemma_self_transfer_keeps_balance(m: Map<Seq<char>, u64>, a: Seq<char>, amount: u64)
    requires
        balance(m, a) >= amount,
    ensures
        balance(after_deposit(after_withdraw(m, a, amount), a, amount), a) == balance(m, a),
{
}

/// A refused withdrawal changes no balance.
pub proof fn lemma_refused_withdraw_keeps_balances(
    m: Map<Seq<char>, u64>,
    a: Seq<char>,
    b: Seq<char>,
    amount: u64,
)
    requires
        balance(m, a) < amount,
    ensures
        balance(after_withdraw(m, a, amount), b) == balance(m, b),
{
}

/// Depositing then withdrawing the same amount restores the balance.
pub proof fn lemma_deposit_then_withdraw(m: Map<Seq<char>, u64>, a: Seq<char>, amount: u64)
    requires
        balance(m, a) + amount <= u64::MAX,
    ensures
        balance(after_withdraw(after_deposit(m, a, amount), a, amount), a) == balance(m, a),
{
}

/// No balance exceeds the ledger's total, and the total is never negative.
pub proof fn lemma_balance_within_total(ledger: SwarmLedger, agent: Seq<char>)
    requires
        ledger.wf(),
    ensures
        0 <= ledger.total(),
        balance(ledger@, agent) <= ledger.total(),
{
    let s = ledger.balances@;
    if s.len() > 0 {
        lemma_account_sum_bounds(s, 0);
    }
    if ledger@.contains_key(agent) {
        lemma_account_values(s, agent);
        let i = choose|i: int| 0 <= i < s.len() && account_map(s)[agent] == s[i].balance;
        lemma_account_sum_bounds(s, i);
    }
}

} // verus!
