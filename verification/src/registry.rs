//! Creator token registry: the agent allow-list, the global token-id
//! counter, the handle namespace and the deployment operation.
//!
//! The registry owns exactly the state that must be shared across
//! deployments. The entities a deployment materializes — the token record,
//! its active curve, the self-token vault and the supporter pool — are
//! returned to the host in one bundle, all-or-nothing: any validation
//! failure leaves the registry untouched and creates no entity.

use vstd::arithmetic::div_mod::*;
use vstd::arithmetic::mul::*;
use vstd::prelude::*;
use vstd::seq_lib::*;

use crate::config;
use crate::config::{CURVE_CONFIG_LEN, DISTRIBUTOR_CONFIG_LEN, VAULT_CONFIG_LEN};
use crate::curve::{BondingCurve, CurveStatus, DEPLOY_BUY_FEE_BPS, DEPLOY_SELL_FEE_BPS};
use crate::errors::CurveError;

verus! {

/// Longest accepted token name, in bytes.
pub const MAX_NAME_LEN: usize = 32;

/// Longest accepted token symbol, in bytes.
pub const MAX_SYMBOL_LEN: usize = 10;

/// Longest accepted metadata URI, in bytes.
pub const MAX_URI_LEN: usize = 200;

/// One entry of the agent allow-list.
#[derive(Clone, Copy, Debug, PartialEq, Eq, Structural)]
pub struct AgentRecord {
    /// Identity of the agent.
    pub agent: u64,
    /// Whether the agent may deploy tokens.
    pub allowed: bool,
}

/// Registry of a creator token, created once at deployment.
#[derive(Debug, PartialEq, Eq)]
pub struct CreatorToken {
    /// Unique byte key naming the token.
    pub handle: Vec<u8>,
    /// Identity of the creator.
    pub creator: u64,
    /// Identity of the agent that issued the deployment.
    pub agent: u64,
    /// Identity assigned from the global counter.
    pub token_id: u64,
    /// Total supply backing the allocation split, in scaled units.
    pub total_supply: u128,
    /// Percentage of the supply vested to the creator.
    pub self_percent: u64,
    /// Percentage of the supply sold on the open market.
    pub market_percent: u64,
    /// Percentage of the supply dripped to supporters.
    pub supporter_percent: u64,
    /// Identity of the linked curve, derived from the token id.
    pub curve_id: u64,
    /// Identity of the linked vault, derived from the token id.
    pub vault_id: u64,
    /// Identity of the linked supporter pool, derived from the token id.
    pub pool_id: u64,
    /// The record has been materialized by a deployment.
    pub initialized: bool,
    /// The one-time initial mint has been performed.
    pub initial_minted: bool,
}

/// Vault holding the creator's own allocation. Vesting withdrawal has no
/// active transition in this version: the vault only records its schedule.
#[derive(Clone, Copy, Debug, PartialEq, Eq, Structural)]
pub struct SelfTokenVault {
    /// Identity of the token.
    pub token_id: u64,
    /// Identity of the creator owning the vault.
    pub owner: u64,
    /// Allocation held by the vault, in scaled units.
    pub initial_balance: u128,
    /// Amount withdrawn so far; stays zero in this version.
    pub withdrawn: u128,
    /// Start of the vesting schedule, as a timestamp.
    pub start_time: u64,
    /// Length of the vesting schedule, in seconds.
    pub vesting_duration: u64,
}

/// Pool dripping the supporter allocation. Distribution has no active
/// transition in this version: the pool only records its configuration.
#[derive(Clone, Copy, Debug, PartialEq, Eq, Structural)]
pub struct SupporterPool {
    /// Identity of the token.
    pub token_id: u64,
    /// Identity of the agent the pool distributes for.
    pub agent: u64,
    /// Scaled units released per drip day.
    pub daily_drip_amount: u64,
    /// Seconds between two drips.
    pub drip_interval: u64,
    /// Number of drip days planned.
    pub total_days: u64,
    /// Allocation held by the pool, in scaled units.
    pub allocation: u128,
    /// Amount distributed so far; stays zero in this version.
    pub total_distributed: u128,
}

/// Metadata record of the token's NFT representation.
#[derive(Debug, PartialEq, Eq)]
pub struct TokenMetadata {
    /// Identity of the token.
    pub token_id: u64,
    /// Display name, at most [`MAX_NAME_LEN`] bytes.
    pub name: Vec<u8>,
    /// Ticker symbol, at most [`MAX_SYMBOL_LEN`] bytes.
    pub symbol: Vec<u8>,
    /// Metadata URI, at most [`MAX_URI_LEN`] bytes.
    pub uri: Vec<u8>,
}

/// Everything one deployment materializes, handed to the host in one bundle.
#[derive(Debug, PartialEq, Eq)]
pub struct Deployment {
    /// The creator token record.
    pub token: CreatorToken,
    /// The active bonding curve.
    pub curve: BondingCurve,
    /// The vault holding the creator's allocation.
    pub vault: SelfTokenVault,
    /// The pool holding the supporter allocation.
    pub pool: SupporterPool,
    /// The NFT metadata record.
    pub metadata: TokenMetadata,
}

/// Caller-supplied parameters of a deployment.
#[derive(Debug, PartialEq, Eq)]
pub struct DeployParams {
    /// Identity of the issuing agent; must be allowed in the registry.
    pub agent: u64,
    /// Identity of the creator.
    pub creator: u64,
    /// Unique byte key naming the token.
    pub handle: Vec<u8>,
    /// Total supply backing the allocation split, in scaled units.
    pub total_supply: u128,
    /// Percentage of the supply vested to the creator.
    pub self_percent: u64,
    /// Percentage of the supply sold on the open market.
    pub market_percent: u64,
    /// Percentage of the supply dripped to supporters.
    pub supporter_percent: u64,
    /// Display name, at most [`MAX_NAME_LEN`] bytes.
    pub name: Vec<u8>,
    /// Ticker symbol, at most [`MAX_SYMBOL_LEN`] bytes.
    pub symbol: Vec<u8>,
    /// Metadata URI, at most [`MAX_URI_LEN`] bytes.
    pub metadata_uri: Vec<u8>,
}

/// The owner of the global counter, the handle namespace and the agent
/// allow-list.
#[derive(Debug)]
pub struct Registry {
    /// Identity allowed to mutate the allow-list; collects curve fees.
    pub authority: u64,
    /// Next token id the counter hands out.
    pub next_token_id: u64,
    /// The agent allow-list, one record per agent.
    pub agents: Vec<AgentRecord>,
    /// Handles of every deployed token, each unique.
    pub handles: Vec<Vec<u8>>,
}

/// The allow-list entry of `agent`: the first record naming it, if any.
pub open spec fn spec_find_agent(s: Seq<AgentRecord>, agent: u64) -> Option<bool>
    decreases s.len(),
{
    if s.len() <= 0 {
        None
    } else if s[0].agent == agent {
        Some(s[0].allowed)
    } else {
        spec_find_agent(s.drop_first(), agent)
    }
}

/// Some registered handle has exactly the bytes `h`.
pub open spec fn spec_contains_handle(s: Seq<Vec<u8>>, h: Seq<u8>) -> bool
    decreases s.len(),
{
    if s.len() <= 0 {
        false
    } else if s[0]@ == h {
        true
    } else {
        spec_contains_handle(s.drop_first(), h)
    }
}

/// A record at `i` whose prefix does not name its agent is the one
/// `spec_find_agent` returns.
proof fn lemma_find_agent_at(s: Seq<AgentRecord>, agent: u64, i: int)
    requires
        0 <= i < s.len(),
        s[i].agent == agent,
        forall|k: int| 0 <= k < i ==> s[k].agent != agent,
    ensures
        spec_find_agent(s, agent) == Some(s[i].allowed),
    decreases i,
{
    if i > 0 {
        lemma_find_agent_at(s.drop_first(), agent, i - 1);
    }
}

/// A list none of whose records names `agent` has no entry for it.
proof fn lemma_find_agent_absent(s: Seq<AgentRecord>, agent: u64)
    requires
        forall|k: int| 0 <= k < s.len() ==> s[k].agent != agent,
    ensures
        spec_find_agent(s, agent) is None,
    decreases s.len(),
{
    if s.len() > 0 {
        lemma_find_agent_absent(s.drop_first(), agent);
    }
}

/// Updating the record at `i` rewrites the entry of its agent and no other,
/// provided no earlier record names that agent.
proof fn lemma_find_agent_after_update(s: Seq<AgentRecord>, i: int, rec: AgentRecord)
    requires
        0 <= i < s.len(),
        s[i].agent == rec.agent,
        forall|k: int| 0 <= k < i ==> s[k].agent != rec.agent,
    ensures
        spec_find_agent(s.update(i, rec), rec.agent) == Some(rec.allowed),
        forall|a: u64| a != rec.agent ==> spec_find_agent(s.update(i, rec), a) == spec_find_agent(
            s,
            a,
        ),
    decreases i,
{
    let s2 = s.update(i, rec);
    lemma_find_agent_at(s2, rec.agent, i);
    assert forall|a: u64| a != rec.agent implies spec_find_agent(s2, a) == spec_find_agent(
        s,
        a,
    ) by {
        lemma_find_agent_update_other(s, i, rec, a);
    }
}

/// Replacing the record at `i` with one naming the same agent leaves the
/// entry of every other agent unchanged.
proof fn lemma_find_agent_update_other(s: Seq<AgentRecord>, i: int, rec: AgentRecord, a: u64)
    requires
        0 <= i < s.len(),
        s[i].agent == rec.agent,
        a != rec.agent,
    ensures
        spec_find_agent(s.update(i, rec), a) == spec_find_agent(s, a),
    decreases s.len(),
{
    let s2 = s.update(i, rec);
    if i == 0 {
        assert(s2.drop_first() =~= s.drop_first());
    } else {
        assert(s2.drop_first() =~= s.drop_first().update(i - 1, rec));
        lemma_find_agent_update_other(s.drop_first(), i - 1, rec, a);
    }
}

/// Appending a record adds an entry for a fresh agent and changes no other.
proof fn lemma_find_agent_after_push(s: Seq<AgentRecord>, rec: AgentRecord)
    requires
        forall|k: int| 0 <= k < s.len() ==> s[k].agent != rec.agent,
    ensures
        spec_find_agent(s.push(rec), rec.agent) == Some(rec.allowed),
        forall|a: u64| a != rec.agent ==> spec_find_agent(s.push(rec), a) == spec_find_agent(s, a),
    decreases s.len(),
{
    let s2 = s.push(rec);
    assert(s2[s.len() as int] == rec);
    lemma_find_agent_at(s2, rec.agent, s.len() as int);
    assert forall|a: u64| a != rec.agent implies spec_find_agent(s2, a) == spec_find_agent(
        s,
        a,
    ) by {
        lemma_find_agent_push_other(s, rec, a);
    }
}

/// Appending a record leaves the entry of every other agent unchanged.
proof fn lemma_find_agent_push_other(s: Seq<AgentRecord>, rec: AgentRecord, a: u64)
    requires
        a != rec.agent,
    ensures
        spec_find_agent(s.push(rec), a) == spec_find_agent(s, a),
    decreases s.len(),
{
    let s2 = s.push(rec);
    if s.len() == 0 {
        assert(s2[0] == rec);
        assert(s2.drop_first() =~= Seq::<AgentRecord>::empty());
        assert(spec_find_agent(Seq::<AgentRecord>::empty(), a) is None);
        assert(spec_find_agent(s2, a) is None);
    } else {
        assert(s2.drop_first() =~= s.drop_first().push(rec));
        lemma_find_agent_push_other(s.drop_first(), rec, a);
    }
}

/// A list with no entry for `agent` has no record naming it.
proof fn lemma_find_agent_none_means_absent(s: Seq<AgentRecord>, agent: u64)
    requires
        spec_find_agent(s, agent) is None,
    ensures
        forall|k: int| 0 <= k < s.len() ==> s[k].agent != agent,
    decreases s.len(),
{
    if s.len() > 0 {
        lemma_find_agent_none_means_absent(s.drop_first(), agent);
        assert forall|k: int| 0 <= k < s.len() implies s[k].agent != agent by {
            if k > 0 {
                assert(s[k] == s.drop_first()[k - 1]);
            }
        }
    }
}

/// A handle at `i` makes the list contain it.
proof fn lemma_contains_handle_at(s: Seq<Vec<u8>>, h: Seq<u8>, i: int)
    requires
        0 <= i < s.len(),
        s[i]@ == h,
    ensures
        spec_contains_handle(s, h),
    decreases i,
{
    if i > 0 {
        lemma_contains_handle_at(s.drop_first(), h, i - 1);
    }
}

/// A list none of whose handles has the bytes `h` does not contain it.
proof fn lemma_contains_handle_absent(s: Seq<Vec<u8>>, h: Seq<u8>)
    requires
        forall|k: int| 0 <= k < s.len() ==> s[k]@ != h,
    ensures
        !spec_contains_handle(s, h),
    decreases s.len(),
{
    if s.len() > 0 {
        lemma_contains_handle_absent(s.drop_first(), h);
    }
}

/// A contained handle sits at some index.
proof fn lemma_contains_handle_witness(s: Seq<Vec<u8>>, h: Seq<u8>) -> (i: int)
    requires
        spec_contains_handle(s, h),
    ensures
        0 <= i < s.len(),
        s[i]@ == h,
    decreases s.len(),
{
    if s[0]@ == h {
        0
    } else {
        lemma_contains_handle_witness(s.drop_first(), h) + 1
    }
}

/// Appending a handle keeps every handle it contained and adds the new one.
proof fn lemma_contains_handle_after_push(s: Seq<Vec<u8>>, v: Vec<u8>)
    ensures
        forall|h: Seq<u8>| #[trigger] spec_contains_handle(s.push(v), h) <==> (
        spec_contains_handle(s, h) || v@ == h),
{
    assert forall|h: Seq<u8>| #[trigger]
        spec_contains_handle(s.push(v), h) <==> (spec_contains_handle(s, h) || v@ == h) by {
        if spec_contains_handle(s.push(v), h) {
            let i = lemma_contains_handle_witness(s.push(v), h);
            if i < s.len() {
                lemma_contains_handle_at(s, h, i);
            }
        }
        if spec_contains_handle(s, h) {
            let i = lemma_contains_handle_witness(s, h);
            lemma_contains_handle_at(s.push(v), h, i);
        }
        if v@ == h {
            lemma_contains_handle_at(s.push(v), h, s.len() as int);
        }
    }
}

/// Compare two byte strings.
fn bytes_eq(a: &Vec<u8>, b: &Vec<u8>) -> (r: bool)
    ensures
        r <==> a@ == b@,
{
    if a.len() != b.len() {
        return false;
    }
    let n = a.len();
    let mut i: usize = 0;
    while i < n
        invariant
            n == a@.len() == b@.len(),
            0 <= i <= n,
            forall|k: int| 0 <= k < i ==> a@[k] == b@[k],
        decreases n - i,
    {
        if a[i] != b[i] {
            return false;
        }
        i = i + 1;
    }
    proof {
        assert(a@ =~= b@);
    }
    true
}

/// Copy a byte string.
fn copy_bytes(src: &Vec<u8>) -> (r: Vec<u8>)
    ensures
        r@ == src@,
{
    let n = src.len();
    let mut out: Vec<u8> = Vec::new();
    let mut i: usize = 0;
    while i < n
        invariant
            n == src@.len(),
            0 <= i <= n,
            out@.len() == i,
            forall|k: int| 0 <= k < i ==> out@[k] == src@[k],
        decreases n - i,
    {
        out.push(src[i]);
        i = i + 1;
    }
    proof {
        assert(out@ =~= src@);
    }
    out
}

/// Find the allow-list entry of `agent` and the index it sits at.
fn find_agent(agents: &Vec<AgentRecord>, agent: u64) -> (r: Option<(usize, bool)>)
    ensures
        r is Some ==> {
            &&& r->Some_0.0 < agents@.len()
            &&& agents@[r->Some_0.0 as int].agent == agent
            &&& agents@[r->Some_0.0 as int].allowed == r->Some_0.1
            &&& forall|k: int| 0 <= k < r->Some_0.0 ==> agents@[k].agent != agent
            &&& spec_find_agent(agents@, agent) == Some(r->Some_0.1)
        },
        r is None ==> spec_find_agent(agents@, agent) is None,
{
    let n = agents.len();
    let mut i: usize = 0;
    while i < n
        invariant
            n == agents@.len(),
            0 <= i <= n,
            forall|k: int| 0 <= k < i ==> agents@[k].agent != agent,
        decreases n - i,
    {
        if agents[i].agent == agent {
            proof {
                lemma_find_agent_at(agents@, agent, i as int);
            }
            return Some((i, agents[i].allowed));
        }
        i = i + 1;
    }
    proof {
        lemma_find_agent_absent(agents@, agent);
    }
    None
}

/// Whether `h` is already a registered handle.
fn contains_handle(handles: &Vec<Vec<u8>>, h: &Vec<u8>) -> (r: bool)
    ensures
        r == spec_contains_handle(handles@, h@),
{
    let n = handles.len();
    let mut i: usize = 0;
    while i < n
        invariant
            n == handles@.len(),
            0 <= i <= n,
            forall|k: int| 0 <= k < i ==> handles@[k]@ != h@,
        decreases n - i,
    {
        if bytes_eq(&handles[i], h) {
            proof {
                lemma_contains_handle_at(handles@, h@, i as int);
            }
            return true;
        }
        i = i + 1;
    }
    proof {
        lemma_contains_handle_absent(handles@, h@);
    }
    false
}

impl Registry {
    /// The allow-list and the handle namespace hold at most one entry per key.
    pub open spec fn wf(self) -> bool {
        &&& forall|i: int, j: int|
            0 <= i < j < self.agents@.len() ==> self.agents@[i].agent != self.agents@[j].agent
        &&& forall|i: int, j: int|
            0 <= i < j < self.handles@.len() ==> self.handles@[i]@ != self.handles@[j]@
    }

    /// Create an empty registry owned by `authority`.
    pub fn new(authority: u64) -> (r: Registry)
        ensures
            r.authority == authority,
            r.next_token_id == 0,
            r.agents@.len() == 0,
            r.handles@.len() == 0,
            r.wf(),
    {
        Registry { authority, next_token_id: 0, agents: Vec::new(), handles: Vec::new() }
    }

    /// Create or update the allow-list record of `agent`.
    ///
    /// Only the registry authority may call this. Disallowing an agent does
    /// not affect tokens already deployed under it.
    pub fn set_agent(&mut self, caller: u64, agent: u64, allowed: bool) -> (r: Result<
        (),
        CurveError,
    >)
        requires
            old(self).wf(),
        ensures
            final(self).wf(),
            caller != old(self).authority ==> r == Err::<(), CurveError>(CurveError::Unauthorized)
                && *final(self) == *old(self),
            caller == old(self).authority ==> {
                &&& r is Ok
                &&& spec_find_agent(final(self).agents@, agent) == Some(allowed)
                &&& forall|a: u64|
                    a != agent ==> spec_find_agent(final(self).agents@, a) == spec_find_agent(
                        old(self).agents@,
                        a,
                    )
                &&& final(self).authority == old(self).authority
                &&& final(self).next_token_id == old(self).next_token_id
                &&& final(self).handles@ == old(self).handles@
            },
    {
        if caller != self.authority {
            return Err(CurveError::Unauthorized);
        }
        let rec = AgentRecord { agent, allowed };
        match find_agent(&self.agents, agent) {
            Some((i, _)) => {
                proof {
                    lemma_find_agent_after_update(self.agents@, i as int, rec);
                    let s2 = self.agents@.update(i as int, rec);
                    assert(forall|k: int| 0 <= k < s2.len() ==> s2[k].agent == self.agents@[k].agent);
                }
                self.agents[i] = rec;
            },
            None => {
                proof {
                    lemma_find_agent_none_means_absent(self.agents@, agent);
                    lemma_find_agent_after_push(self.agents@, rec);
                }
                self.agents.push(rec);
            },
        }
        Ok(())
    }
}

/// The share of `total` that `pct` percent allocates, truncating.
pub open spec fn spec_allocation(total: int, pct: int) -> int {
    total * pct / 100
}

/// Compute `total * pct / 100` without leaving 128 bits, by splitting
/// `total` into its quotient and remainder modulo one hundred.
fn allocation_of(total: u128, pct: u64) -> (r: u128)
    requires
        pct <= 100,
    ensures
        r == spec_allocation(total as int, pct as int),
        r <= total,
{
    let quotient: u128 = total / 100;
    let remainder: u128 = total % 100;
    proof {
        let t = total as int;
        let p = pct as int;
        let q = t / 100;
        let m = t % 100;
        lemma_fundamental_div_mod(t, 100);
        lemma_mul_inequality(p, 100, q);
        lemma_mul_is_commutative(q, 100);
        lemma_mul_upper_bound(m, 99, p, 100);
        assert(m * p + q * p * 100 == t * p) by (nonlinear_arith)
            requires
                t == 100 * q + m,
        ;
        lemma_hoist_over_denominator(m * p, q * p, 100);
        lemma_mul_inequality(p, 100, t);
        lemma_mul_is_commutative(t, 100);
        lemma_mul_is_commutative(t, p);
        lemma_div_is_ordered(t * p, t * 100, 100);
        lemma_div_multiples_vanish(t, 100);
    }
    quotient * (pct as u128) + (remainder * (pct as u128)) / 100
}

/// A list that does not contain `h` has no handle with its bytes.
proof fn lemma_contains_handle_none_means_absent(s: Seq<Vec<u8>>, h: Seq<u8>)
    requires
        !spec_contains_handle(s, h),
    ensures
        forall|k: int| 0 <= k < s.len() ==> s[k]@ != h,
    decreases s.len(),
{
    if s.len() > 0 {
        lemma_contains_handle_none_means_absent(s.drop_first(), h);
        assert forall|k: int| 0 <= k < s.len() implies s[k]@ != h by {
            if k > 0 {
                assert(s[k] == s.drop_first()[k - 1]);
            }
        }
    }
}

/// Instruction for the host after the one-time initial mint: mint
/// `vault_amount` scaled units to the vault and `pool_amount` to the pool.
#[derive(Clone, Copy, Debug, PartialEq, Eq, Structural)]
pub struct InitialMintReceipt {
    /// Identity of the token.
    pub token_id: u64,
    /// Identity of the vault receiving the creator allocation.
    pub vault_id: u64,
    /// Scaled units minted to the vault.
    pub vault_amount: u128,
    /// Identity of the pool receiving the supporter allocation.
    pub pool_id: u64,
    /// Scaled units minted to the pool.
    pub pool_amount: u128,
}

impl CreatorToken {
    /// The allocation split of a well-formed token sums to one hundred.
    pub open spec fn wf(self) -> bool {
        self.self_percent + self.market_percent + self.supporter_percent == 100
    }

    /// Mint the initial allocations: the creator's share to the vault and
    /// the supporter share to the pool, each `total_supply * percent / 100`.
    ///
    /// The mint runs once: a second invocation fails with `AlreadyMinted`
    /// and mints nothing.
    pub fn mint_initial_tokens(&mut self) -> (r: Result<InitialMintReceipt, CurveError>)
        requires
            old(self).wf(),
        ensures
            !old(self).initialized ==> r == Err::<InitialMintReceipt, CurveError>(
                CurveError::TokenNotInitialized,
            ) && *final(self) == *old(self),
            old(self).initialized && old(self).initial_minted ==> r == Err::<
                InitialMintReceipt,
                CurveError,
            >(CurveError::AlreadyMinted) && *final(self) == *old(self),
            old(self).initialized && !old(self).initial_minted ==> {
                &&& r is Ok
                &&& r->Ok_0 == (InitialMintReceipt {
                    token_id: old(self).token_id,
                    vault_id: old(self).vault_id,
                    vault_amount: spec_allocation(
                        old(self).total_supply as int,
                        old(self).self_percent as int,
                    ) as u128,
                    pool_id: old(self).pool_id,
                    pool_amount: spec_allocation(
                        old(self).total_supply as int,
                        old(self).supporter_percent as int,
                    ) as u128,
                })
                &&& *final(self) == (CreatorToken { initial_minted: true, ..*old(self) })
            },
    {
        if !self.initialized {
            return Err(CurveError::TokenNotInitialized);
        }
        if self.initial_minted {
            return Err(CurveError::AlreadyMinted);
        }
        let vault_amount = allocation_of(self.total_supply, self.self_percent);
        let pool_amount = allocation_of(self.total_supply, self.supporter_percent);
        self.initial_minted = true;
        Ok(
            InitialMintReceipt {
                token_id: self.token_id,
                vault_id: self.vault_id,
                vault_amount,
                pool_id: self.pool_id,
                pool_amount,
            },
        )
    }
}

/// The first check a deployment fails, if any. Checks run in this order and
/// all run before any write.
pub open spec fn spec_deploy_err(
    reg: Registry,
    params: DeployParams,
    cc: Seq<u8>,
    vc: Seq<u8>,
    dc: Seq<u8>,
) -> Option<CurveError> {
    let dcfg = config::spec_distributor_config(dc);
    if params.self_percent + params.market_percent + params.supporter_percent != 100 {
        Some(CurveError::InvalidAllocation)
    } else if params.name@.len() > MAX_NAME_LEN {
        Some(CurveError::NameTooLong)
    } else if params.symbol@.len() > MAX_SYMBOL_LEN {
        Some(CurveError::SymbolTooLong)
    } else if params.metadata_uri@.len() > MAX_URI_LEN {
        Some(CurveError::UriTooLong)
    } else if spec_contains_handle(reg.handles@, params.handle@) {
        Some(CurveError::DuplicateHandle)
    } else if spec_find_agent(reg.agents@, params.agent) is None {
        Some(CurveError::AgentNotRegistered)
    } else if spec_find_agent(reg.agents@, params.agent) == Some(false) {
        Some(CurveError::AgentNotAllowed)
    } else if cc.len() != CURVE_CONFIG_LEN || vc.len() != VAULT_CONFIG_LEN || dc.len()
        != DISTRIBUTOR_CONFIG_LEN {
        Some(CurveError::InvalidConfig)
    } else if dcfg.daily_drip_amount == 0 || dcfg.drip_interval == 0 || dcfg.total_days == 0 {
        Some(CurveError::InvalidDistributorConfig)
    } else if dcfg.daily_drip_amount * dcfg.total_days > spec_allocation(
        params.total_supply as int,
        params.supporter_percent as int,
    ) {
        Some(CurveError::DistributionExceedsAllocation)
    } else if reg.next_token_id == u64::MAX {
        Some(CurveError::ArithmeticOverflow)
    } else {
        None
    }
}

/// The bundle a successful deployment materializes.
pub open spec fn spec_deployment(
    reg: Registry,
    params: DeployParams,
    cc: Seq<u8>,
    vc: Seq<u8>,
    dc: Seq<u8>,
) -> Deployment {
    let ccfg = config::spec_curve_config(cc);
    let vcfg = config::spec_vault_config(vc);
    let dcfg = config::spec_distributor_config(dc);
    let token_id = reg.next_token_id;
    Deployment {
        token: CreatorToken {
            handle: params.handle,
            creator: params.creator,
            agent: params.agent,
            token_id,
            total_supply: params.total_supply,
            self_percent: params.self_percent,
            market_percent: params.market_percent,
            supporter_percent: params.supporter_percent,
            curve_id: token_id,
            vault_id: token_id,
            pool_id: token_id,
            initialized: true,
            initial_minted: false,
        },
        curve: BondingCurve {
            token_id,
            fee_collector: reg.authority,
            status: CurveStatus::Active,
            buy_fee_bps: DEPLOY_BUY_FEE_BPS,
            sell_fee_bps: DEPLOY_SELL_FEE_BPS,
            purchase_market_supply: 0,
            lifetime_fees_collected: 0,
            reserve_ratio: ccfg.reserve_ratio,
            initial_price: ccfg.initial_price,
        },
        vault: SelfTokenVault {
            token_id,
            owner: params.creator,
            initial_balance: spec_allocation(
                params.total_supply as int,
                params.self_percent as int,
            ) as u128,
            withdrawn: 0,
            start_time: vcfg.start_time,
            vesting_duration: vcfg.vesting_duration,
        },
        pool: SupporterPool {
            token_id,
            agent: params.agent,
            daily_drip_amount: dcfg.daily_drip_amount,
            drip_interval: dcfg.drip_interval,
            total_days: dcfg.total_days,
            allocation: spec_allocation(
                params.total_supply as int,
                params.supporter_percent as int,
            ) as u128,
            total_distributed: 0,
        },
        metadata: TokenMetadata {
            token_id,
            name: params.name,
            symbol: params.symbol,
            uri: params.metadata_uri,
        },
    }
}

impl Registry {
    /// Deploy a creator token: validate, decode the attached config blobs,
    /// and materialize the token record, its active curve, the vault, the
    /// pool and the metadata record in one all-or-nothing bundle, assigning
    /// the next token id from the global counter.
    ///
    /// The allocation split must sum to one hundred; the distributor's
    /// planned total distribution must fit within the supporter allocation.
    /// Any failure leaves the registry untouched and creates no entity.
    pub fn deploy_creator_token(
        &mut self,
        params: DeployParams,
        curve_config: &Vec<u8>,
        vault_config: &Vec<u8>,
        distributor_config: &Vec<u8>,
    ) -> (r: Result<Deployment, CurveError>)
        requires
            old(self).wf(),
        ensures
            final(self).wf(),
            r is Err <==> spec_deploy_err(
                *old(self),
                params,
                curve_config@,
                vault_config@,
                distributor_config@,
            ) is Some,
            r is Err ==> Some(r->Err_0) == spec_deploy_err(
                *old(self),
                params,
                curve_config@,
                vault_config@,
                distributor_config@,
            ) && *final(self) == *old(self),
            params.self_percent + params.market_percent + params.supporter_percent != 100 ==> r
                == Err::<Deployment, CurveError>(CurveError::InvalidAllocation) && *final(self)
                == *old(self),
            r is Ok ==> r->Ok_0 == spec_deployment(
                *old(self),
                params,
                curve_config@,
                vault_config@,
                distributor_config@,
            ),
            r is Ok ==> {
                &&& final(self).authority == old(self).authority
                &&& final(self).agents@ == old(self).agents@
                &&& final(self).next_token_id == old(self).next_token_id + 1
                &&& final(self).handles@.len() == old(self).handles@.len() + 1
                &&& final(self).handles@[old(self).handles@.len() as int]@ == params.handle@
                &&& forall|k: int|
                    0 <= k < old(self).handles@.len() ==> final(self).handles@[k] == old(
                        self,
                    ).handles@[k]
                &&& spec_contains_handle(final(self).handles@, params.handle@)
            },
            r is Ok ==> r->Ok_0.token.wf(),
    {
        let pct_sum: u128 = (params.self_percent as u128) + (params.market_percent as u128) + (
        params.supporter_percent as u128);
        if pct_sum != 100 {
            return Err(CurveError::InvalidAllocation);
        }
        if params.name.len() > MAX_NAME_LEN {
            return Err(CurveError::NameTooLong);
        }
        if params.symbol.len() > MAX_SYMBOL_LEN {
            return Err(CurveError::SymbolTooLong);
        }
        if params.metadata_uri.len() > MAX_URI_LEN {
            return Err(CurveError::UriTooLong);
        }
        if contains_handle(&self.handles, &params.handle) {
            return Err(CurveError::DuplicateHandle);
        }
        match find_agent(&self.agents, params.agent) {
            None => {
                return Err(CurveError::AgentNotRegistered);
            },
            Some((_, false)) => {
                return Err(CurveError::AgentNotAllowed);
            },
            Some((_, true)) => {},
        }
        let ccfg = match config::decode_curve_config(curve_config) {
            Ok(c) => c,
            Err(e) => {
                return Err(e);
            },
        };
        let vcfg = match config::decode_vault_config(vault_config) {
            Ok(c) => c,
            Err(e) => {
                return Err(e);
            },
        };
        let dcfg = match config::decode_distributor_config(distributor_config) {
            Ok(c) => c,
            Err(e) => {
                return Err(e);
            },
        };
        if dcfg.daily_drip_amount == 0 || dcfg.drip_interval == 0 || dcfg.total_days == 0 {
            return Err(CurveError::InvalidDistributorConfig);
        }
        proof {
            lemma_mul_upper_bound(
                dcfg.daily_drip_amount as int,
                u64::MAX as int,
                dcfg.total_days as int,
                u64::MAX as int,
            );
            assert((u64::MAX as int) * (u64::MAX as int) <= u128::MAX as int);
        }
        let total_distribution: u128 = (dcfg.daily_drip_amount as u128) * (dcfg.total_days as u128);
        let supporter_allocation: u128 = allocation_of(
            params.total_supply,
            params.supporter_percent,
        );
        if total_distribution > supporter_allocation {
            return Err(CurveError::DistributionExceedsAllocation);
        }
        if self.next_token_id == u64::MAX {
            return Err(CurveError::ArithmeticOverflow);
        }
        let token_id = self.next_token_id;
        let handle_copy = copy_bytes(&params.handle);
        proof {
            let s = self.handles@;
            let s2 = s.push(handle_copy);
            lemma_contains_handle_none_means_absent(s, params.handle@);
            lemma_contains_handle_after_push(s, handle_copy);
            assert forall|i: int, j: int| 0 <= i < j < s2.len() implies s2[i]@ != s2[j]@ by {
                if j < s.len() {
                    assert(s2[i] == s[i]);
                    assert(s2[j] == s[j]);
                } else {
                    assert(s2[j] == handle_copy);
                    assert(s2[i] == s[i]);
                }
            }
        }
        self.next_token_id = token_id + 1;
        self.handles.push(handle_copy);
        let self_allocation: u128 = allocation_of(params.total_supply, params.self_percent);
        let curve = BondingCurve::activate(
            token_id,
            self.authority,
            ccfg.reserve_ratio,
            ccfg.initial_price,
        );
        let vault = SelfTokenVault {
            token_id,
            owner: params.creator,
            initial_balance: self_allocation,
            withdrawn: 0,
            start_time: vcfg.start_time,
            vesting_duration: vcfg.vesting_duration,
        };
        let pool = SupporterPool {
            token_id,
            agent: params.agent,
            daily_drip_amount: dcfg.daily_drip_amount,
            drip_interval: dcfg.drip_interval,
            total_days: dcfg.total_days,
            allocation: supporter_allocation,
            total_distributed: 0,
        };
        let metadata = TokenMetadata {
            token_id,
            name: params.name,
            symbol: params.symbol,
            uri: params.metadata_uri,
        };
        let token = CreatorToken {
            handle: params.handle,
            creator: params.creator,
            agent: params.agent,
            token_id,
            total_supply: params.total_supply,
            self_percent: params.self_percent,
            market_percent: params.market_percent,
            supporter_percent: params.supporter_percent,
            curve_id: token_id,
            vault_id: token_id,
            pool_id: token_id,
            initialized: true,
            initial_minted: false,
        };
        Ok(Deployment { token, curve, vault, pool, metadata })
    }
}

} // verus!
