use vstd::prelude::*;

use crate::asset::AssetInfo;
use crate::error::Error;
use crate::pair::{PairConfig, PairInfo, PairType};

verus! {

/// Parameters the factory registry is instantiated with.
#[derive(Clone, Debug)]
pub struct InstantiateMsg {
    /// Policies for the pool types that may be created
    pub pair_configs: Vec<PairConfig>,
    /// Token contract code identifier
    pub token_code_id: u64,
    /// Address to send governance fees to
    pub fee_address: Option<String>,
    /// Address of the generator contract
    pub generator_address: Option<String>,
    /// Address allowed to change registry settings
    pub owner: String,
    /// Whitelist contract code identifier
    pub whitelist_code_id: u64,
}

/// Requests that change the registry.
#[derive(Clone, Debug)]
pub enum ExecuteMsg {
    /// Update general settings; fields left as `None` keep their value
    UpdateConfig {
        token_code_id: Option<u64>,
        fee_address: Option<String>,
        generator_address: Option<String>,
        whitelist_code_id: Option<u64>,
    },
    /// Insert or replace the policy for one pool type
    UpdatePairConfig { config: PairConfig },
    /// Create a new pair over two assets
    CreatePair { pair_type: PairType, asset_infos: Vec<AssetInfo>, init_params: Option<Vec<u8>> },
    /// Remove a registered pair
    Deregister { asset_infos: Vec<AssetInfo> },
    /// Offer ownership to a new address, valid for `expires_in` seconds
    ProposeNewOwner { owner: String, expires_in: u64 },
    /// Withdraw a pending ownership offer
    CancelOwnershipProposal {},
    /// Accept a pending ownership offer
    ClaimOwnership {},
    /// Flag pair addresses as migrated
    MarkAsMigrated { pairs: Vec<String> },
}

/// Read-only requests against the registry.
#[derive(Clone, Debug)]
pub enum QueryMsg {
    /// General registry settings
    Config {},
    /// The pair registered over the given assets
    Pair { asset_infos: Vec<AssetInfo> },
    /// Registered pairs, paged
    Pairs { start_after: Option<Vec<AssetInfo>>, limit: Option<u32> },
    /// Fee parameters of one pool type
    FeeInfo { pair_type: PairType },
    /// Pool types whose creation is disabled
    BlacklistedPairTypes {},
    /// Pair addresses not yet migrated
    PairsToMigrate {},
}

/// A snapshot of the registry's general settings.
#[derive(Clone, Debug)]
pub struct ConfigResponse {
    /// Address allowed to change registry settings
    pub owner: String,
    /// Policies for the pool types that may be created
    pub pair_configs: Vec<PairConfig>,
    /// Token contract code identifier
    pub token_code_id: u64,
    /// Address to send governance fees to
    pub fee_address: Option<String>,
    /// Address of the generator contract
    pub generator_address: Option<String>,
    /// Whitelist contract code identifier
    pub whitelist_code_id: u64,
}

/// Parameters of a migration request.
#[derive(Clone, Debug)]
pub struct MigrateMsg {
    /// Serialized migration parameters
    pub params: Vec<u8>,
}

/// A page of registered pairs.
#[derive(Clone, Debug)]
pub struct PairsResponse {
    /// Information about each pair on the page
    pub pairs: Vec<PairInfo>,
}

/// Fee parameters of one pool type.
#[derive(Clone, Debug, PartialEq)]
pub struct FeeInfoResponse {
    /// Address to send governance fees to
    pub fee_address: Option<String>,
    /// Total amount of fees (in bps) charged on a swap
    pub total_fee_bps: u16,
    /// Amount of fees (in bps) sent to the maker contract
    pub maker_fee_bps: u16,
}

/// Setting or removing a contract address.
#[derive(Clone, Debug)]
pub enum UpdateAddr {
    /// Set a new contract address
    SetAddr(String),
    /// Remove the stored address
    Remove {},
}

/// A pending two-phase ownership transfer: the proposed owner and the
/// time (in seconds) at which the offer expires.
#[derive(Debug)]
pub struct OwnershipProposal {
    /// The address the ownership is offered to
    pub owner: String,
    /// The expiry time, in seconds
    pub ttl: u64,
}

/// Two asset lists name the same assets, position by position.
pub open spec fn spec_infos_eq(a: Seq<AssetInfo>, b: Seq<AssetInfo>) -> bool {
    a.len() == b.len() && (forall|i: int| 0 <= i < a.len() ==> a[i].eq_spec_with(b[i]))
}

/// Returns true exactly when the two asset lists name the same
/// assets, position by position.
pub fn infos_eq(a: &Vec<AssetInfo>, b: &Vec<AssetInfo>) -> (r: bool)
    ensures
        r == spec_infos_eq(a@, b@),
{
    if a.len() != b.len() {
        return false;
    }
    let n = a.len();
    let mut i: usize = 0;
    while i < n
        invariant
            i <= n,
            n == a@.len(),
            n == b@.len(),
            forall|j: int| 0 <= j < i ==> a@[j].eq_spec_with(b@[j]),
        decreases n - i,
    {
        if !a[i].equal(&b[i]) {
            return false;
        }
        i = i + 1;
    }
    true
}

/// The canonical arrangement of two assets: the one that comes first
/// in the canonical asset order leads.
pub open spec fn spec_canonical2(a: AssetInfo, b: AssetInfo) -> Seq<AssetInfo> {
    if a.spec_le(b) {
        seq![a, b]
    } else {
        seq![b, a]
    }
}

/// Brings a two-asset list into canonical order; lists of any other
/// length are rejected.
pub fn canonicalize2(infos: &Vec<AssetInfo>) -> (r: Result<Vec<AssetInfo>, Error>)
    ensures
        r is Ok <==> infos@.len() == 2,
        r matches Ok(v) ==> v@ == spec_canonical2(infos@[0], infos@[1]),
        r is Err ==> r == Err::<Vec<AssetInfo>, Error>(Error::InvalidAssetLength),
{
    if infos.len() != 2 {
        return Err(Error::InvalidAssetLength);
    }
    let a = infos[0].clone();
    let b = infos[1].clone();
    let mut v: Vec<AssetInfo> = Vec::new();
    if a.le(&b) {
        v.push(a);
        v.push(b);
    } else {
        v.push(b);
        v.push(a);
    }
    proof {
        assert(v@ =~= spec_canonical2(infos@[0], infos@[1]));
    }
    Ok(v)
}

/// The position of the first registered pair over the given assets,
/// or the number of pairs when none matches.
pub open spec fn spec_find_pair_idx(pairs: Seq<PairInfo>, key: Seq<AssetInfo>) -> int
    decreases pairs.len(),
{
    if pairs.len() == 0 {
        0
    } else if spec_infos_eq(pairs[0].asset_infos@, key) {
        0
    } else {
        1 + spec_find_pair_idx(pairs.drop_first(), key)
    }
}

/// The first registered pair over the given assets, if any.
pub open spec fn spec_find_pair(pairs: Seq<PairInfo>, key: Seq<AssetInfo>) -> Option<PairInfo> {
    let i = spec_find_pair_idx(pairs, key);
    if i < pairs.len() {
        Some(pairs[i])
    } else {
        None
    }
}

/// The find position is within bounds, marks a match when it is
/// proper, and nothing before it matches.
pub proof fn lemma_find_pair_idx_props(pairs: Seq<PairInfo>, key: Seq<AssetInfo>)
    ensures
        0 <= spec_find_pair_idx(pairs, key) <= pairs.len(),
        spec_find_pair_idx(pairs, key) < pairs.len() ==> spec_infos_eq(
            pairs[spec_find_pair_idx(pairs, key)].asset_infos@,
            key,
        ),
        forall|j: int|
            0 <= j < spec_find_pair_idx(pairs, key) ==> !spec_infos_eq(
                pairs[j].asset_infos@,
                key,
            ),
    decreases pairs.len(),
{
    if pairs.len() == 0 {
    } else if spec_infos_eq(pairs[0].asset_infos@, key) {
    } else {
        lemma_find_pair_idx_props(pairs.drop_first(), key);
        assert forall|j: int|
            0 <= j < spec_find_pair_idx(pairs, key) implies !spec_infos_eq(
            pairs[j].asset_infos@,
            key,
        ) by {
            if j >= 1 {
                assert(pairs.drop_first()[j - 1] == pairs[j]);
                assert(!spec_infos_eq(pairs.drop_first()[j - 1].asset_infos@, key));
            }
        }
    }
}

/// Returns the position of the first registered pair over the given
/// assets.
fn find_pair_index(pairs: &Vec<PairInfo>, key: &Vec<AssetInfo>) -> (r: Option<usize>)
    ensures
        match r {
            Some(i) => i == spec_find_pair_idx(pairs@, key@) && i < pairs@.len(),
            None => spec_find_pair_idx(pairs@, key@) == pairs@.len(),
        },
{
    let n = pairs.len();
    let mut i: usize = 0;
    proof {
        assert(pairs@.skip(0) =~= pairs@);
    }
    while i < n
        invariant
            i <= n,
            n == pairs@.len(),
            spec_find_pair_idx(pairs@, key@) == i + spec_find_pair_idx(pairs@.skip(i as int), key@),
            forall|j: int| 0 <= j < i ==> !spec_infos_eq(pairs@[j].asset_infos@, key@),
        decreases n - i,
    {
        proof {
            assert(pairs@.skip(i as int)[0] == pairs@[i as int]);
            lemma_find_pair_idx_props(pairs@.skip(i as int), key@);
        }
        if infos_eq(&pairs[i].asset_infos, key) {
            return Some(i);
        }
        proof {
            assert(pairs@.skip(i as int).drop_first() =~= pairs@.skip(i as int + 1));
        }
        i = i + 1;
    }
    proof {
        assert(pairs@.skip(n as int).len() == 0);
    }
    None
}

/// The position of the first policy for the given pool type, or the
/// number of policies when none matches.
pub open spec fn spec_find_config_idx(configs: Seq<PairConfig>, pair_type: PairType) -> int
    decreases configs.len(),
{
    if configs.len() == 0 {
        0
    } else if configs[0].pair_type.eq_spec_with(pair_type) {
        0
    } else {
        1 + spec_find_config_idx(configs.drop_first(), pair_type)
    }
}

/// The first policy for the given pool type, if any.
pub open spec fn spec_find_config(configs: Seq<PairConfig>, pair_type: PairType) -> Option<
    PairConfig,
> {
    let i = spec_find_config_idx(configs, pair_type);
    if i < configs.len() {
        Some(configs[i])
    } else {
        None
    }
}

/// As `lemma_find_pair_idx_props`, for pool-type policies.
pub proof fn lemma_find_config_idx_props(configs: Seq<PairConfig>, pair_type: PairType)
    ensures
        0 <= spec_find_config_idx(configs, pair_type) <= configs.len(),
        spec_find_config_idx(configs, pair_type) < configs.len() ==> configs[spec_find_config_idx(
            configs,
            pair_type,
        )].pair_type.eq_spec_with(pair_type),
        forall|j: int|
            0 <= j < spec_find_config_idx(configs, pair_type) ==> !configs[j].pair_type.eq_spec_with(
                pair_type,
            ),
    decreases configs.len(),
{
    if configs.len() == 0 {
    } else if configs[0].pair_type.eq_spec_with(pair_type) {
    } else {
        lemma_find_config_idx_props(configs.drop_first(), pair_type);
        assert forall|j: int|
            0 <= j < spec_find_config_idx(configs, pair_type) implies !configs[j].pair_type.eq_spec_with(
            pair_type,
        ) by {
            if j >= 1 {
                assert(configs.drop_first()[j - 1] == configs[j]);
                assert(!configs.drop_first()[j - 1].pair_type.eq_spec_with(pair_type));
            }
        }
    }
}

/// Returns the position of the first policy for the given pool type.
fn find_config_index(configs: &Vec<PairConfig>, pair_type: &PairType) -> (r: Option<usize>)
    ensures
        match r {
            Some(i) => i == spec_find_config_idx(configs@, *pair_type) && i < configs@.len(),
            None => spec_find_config_idx(configs@, *pair_type) == configs@.len(),
        },
{
    let n = configs.len();
    let mut i: usize = 0;
    proof {
        assert(configs@.skip(0) =~= configs@);
    }
    while i < n
        invariant
            i <= n,
            n == configs@.len(),
            spec_find_config_idx(configs@, *pair_type) == i + spec_find_config_idx(
                configs@.skip(i as int),
                *pair_type,
            ),
        decreases n - i,
    {
        proof {
            assert(configs@.skip(i as int)[0] == configs@[i as int]);
            lemma_find_config_idx_props(configs@.skip(i as int), *pair_type);
        }
        if configs[i].pair_type == *pair_type {
            return Some(i);
        }
        proof {
            assert(configs@.skip(i as int).drop_first() =~= configs@.skip(i as int + 1));
        }
        i = i + 1;
    }
    proof {
        assert(configs@.skip(n as int).len() == 0);
    }
    None
}


/// The factory registry's state: general settings, the pool-type
/// policies, the registered pairs (their assets held in canonical
/// order), a pending ownership offer, and the addresses already
/// migrated.
#[derive(Debug)]
pub struct Registry {
    /// Address allowed to change registry settings
    pub owner: String,
    /// Policies for the pool types that may be created
    pub pair_configs: Vec<PairConfig>,
    /// The registered pairs
    pub pairs: Vec<PairInfo>,
    /// Token contract code identifier
    pub token_code_id: u64,
    /// Address to send governance fees to
    pub fee_address: Option<String>,
    /// Address of the generator contract
    pub generator_address: Option<String>,
    /// Whitelist contract code identifier
    pub whitelist_code_id: u64,
    /// A pending ownership offer, if any
    pub ownership_proposal: Option<OwnershipProposal>,
    /// Pair addresses flagged as migrated
    pub migrated: Vec<String>,
}

/// One of the strings reads, as characters, exactly as `x`.
pub open spec fn spec_contains_str(s: Seq<String>, x: Seq<char>) -> bool {
    exists|i: int| 0 <= i < s.len() && s[i]@ == x
}

/// Returns true exactly when one of the strings reads as `x`.
fn contains_str(s: &Vec<String>, x: &String) -> (r: bool)
    ensures
        r == spec_contains_str(s@, x@),
{
    let n = s.len();
    let mut i: usize = 0;
    while i < n
        invariant
            i <= n,
            n == s@.len(),
            forall|j: int| 0 <= j < i ==> s@[j]@ != x@,
        decreases n - i,
    {
        if s[i] == *x {
            return true;
        }
        i = i + 1;
    }
    false
}

/// The migrated list after flagging each of `pairs` in turn: an
/// address is appended once, and one already present is left alone.
pub open spec fn spec_mark(migrated: Seq<String>, pairs: Seq<String>) -> Seq<String>
    decreases pairs.len(),
{
    if pairs.len() == 0 {
        migrated
    } else if spec_contains_str(migrated, pairs[0]@) {
        spec_mark(migrated, pairs.drop_first())
    } else {
        spec_mark(migrated.push(pairs[0]), pairs.drop_first())
    }
}

impl Registry {
    /// Sets the registry up from its instantiation parameters.  Fails
    /// when any pool-type policy carries an out-of-bounds fee rate;
    /// otherwise every field is taken as given, with no pairs, no
    /// pending ownership offer, and nothing migrated.
    pub fn instantiate(msg: InstantiateMsg) -> (r: Result<Registry, Error>)
        ensures
            r is Ok <==> (forall|j: int|
                0 <= j < msg.pair_configs@.len() ==> msg.pair_configs@[j].spec_valid_fee_bps()),
            r matches Ok(reg) ==> reg.owner == msg.owner && reg.pair_configs@
                == msg.pair_configs@ && reg.pairs@.len() == 0 && reg.token_code_id
                == msg.token_code_id && reg.fee_address == msg.fee_address
                && reg.generator_address == msg.generator_address && reg.whitelist_code_id
                == msg.whitelist_code_id && reg.ownership_proposal is None && reg.migrated@.len()
                == 0,
            r is Err ==> r == Err::<Registry, Error>(Error::InvalidFeeBps),
    {
        let n = msg.pair_configs.len();
        let mut i: usize = 0;
        while i < n
            invariant
                i <= n,
                n == msg.pair_configs@.len(),
                forall|j: int| 0 <= j < i ==> msg.pair_configs@[j].spec_valid_fee_bps(),
            decreases n - i,
        {
            if !msg.pair_configs[i].valid_fee_bps() {
                return Err(Error::InvalidFeeBps);
            }
            i = i + 1;
        }
        Ok(Registry {
            owner: msg.owner,
            pair_configs: msg.pair_configs,
            pairs: Vec::new(),
            token_code_id: msg.token_code_id,
            fee_address: msg.fee_address,
            generator_address: msg.generator_address,
            whitelist_code_id: msg.whitelist_code_id,
            ownership_proposal: None,
            migrated: Vec::new(),
        })
    }

    /// The error `create_pair` reports, given the registry state it
    /// ran against: the checks are made in this order.
    pub open spec fn spec_create_pair_err(self, pair_type: PairType, infos: Seq<AssetInfo>) -> Error {
        if infos.len() != 2 {
            Error::InvalidAssetLength
        } else if !infos[0].spec_check_ok() {
            infos[0].spec_check_err()
        } else if !infos[1].spec_check_ok() {
            infos[1].spec_check_err()
        } else if spec_find_config(self.pair_configs@, pair_type) is None {
            Error::PairConfigNotFound
        } else if (match spec_find_config(self.pair_configs@, pair_type) {
            Some(c) => c.is_disabled,
            None => false,
        }) {
            Error::PairConfigDisabled
        } else {
            Error::PairAlreadyExists
        }
    }

    /// All conditions under which `create_pair` succeeds.
    pub open spec fn spec_create_pair_ok(self, pair_type: PairType, infos: Seq<AssetInfo>) -> bool {
        &&& infos.len() == 2
        &&& infos[0].spec_check_ok()
        &&& infos[1].spec_check_ok()
        &&& match spec_find_config(self.pair_configs@, pair_type) {
            Some(c) => !c.is_disabled,
            None => false,
        }
        &&& spec_find_pair(self.pairs@, spec_canonical2(infos[0], infos[1])) is None
    }

    /// Registers a pair over two well-formed assets, holding them in
    /// canonical order, under the addresses the host assigned to the
    /// pair contract and its liquidity token.  Fails when the assets
    /// are not exactly two or are malformed, when the pool type has no
    /// policy or a disabled one, and when a pair over the same assets
    /// already exists; a failed call leaves the registry unchanged.
    pub fn create_pair(
        &mut self,
        pair_type: PairType,
        asset_infos: Vec<AssetInfo>,
        contract_addr: String,
        liquidity_token: String,
    ) -> (r: Result<(), Error>)
        ensures
            r is Ok <==> old(self).spec_create_pair_ok(pair_type, asset_infos@),
            r matches Err(e) ==> e == old(self).spec_create_pair_err(pair_type, asset_infos@)
                && *final(self) == *old(self),
            r is Ok ==> {
                &&& final(self).pairs@.len() == old(self).pairs@.len() + 1
                &&& final(self).pairs@ == old(self).pairs@.push(final(self).pairs@.last())
                &&& final(self).pairs@.last().asset_infos@ == spec_canonical2(
                    asset_infos@[0],
                    asset_infos@[1],
                )
                &&& final(self).pairs@.last().contract_addr == contract_addr
                &&& final(self).pairs@.last().liquidity_token == liquidity_token
                &&& final(self).pairs@.last().pair_type == pair_type
                &&& final(self).owner == old(self).owner
                &&& final(self).pair_configs@ == old(self).pair_configs@
                &&& final(self).token_code_id == old(self).token_code_id
                &&& final(self).fee_address == old(self).fee_address
                &&& final(self).generator_address == old(self).generator_address
                &&& final(self).whitelist_code_id == old(self).whitelist_code_id
                &&& final(self).ownership_proposal == old(self).ownership_proposal
                &&& final(self).migrated@ == old(self).migrated@
            },
    {
        let canonical = match canonicalize2(&asset_infos) {
            Ok(v) => v,
            Err(e) => {
                return Err(e);
            },
        };
        if let Err(e) = asset_infos[0].check() {
            return Err(e);
        }
        if let Err(e) = asset_infos[1].check() {
            return Err(e);
        }
        match find_config_index(&self.pair_configs, &pair_type) {
            Some(ci) => {
                if self.pair_configs[ci].is_disabled {
                    return Err(Error::PairConfigDisabled);
                }
            },
            None => {
                return Err(Error::PairConfigNotFound);
            },
        }
        if find_pair_index(&self.pairs, &canonical).is_some() {
            return Err(Error::PairAlreadyExists);
        }
        self.pairs.push(PairInfo {
            asset_infos: canonical,
            contract_addr,
            liquidity_token,
            pair_type,
        });
        Ok(())
    }

    /// The pair registered over the given assets, in either order.
    /// Fails when the assets are not exactly two or no pair over them
    /// is registered.
    pub fn pair(&self, asset_infos: &Vec<AssetInfo>) -> (r: Result<PairInfo, Error>)
        ensures
            asset_infos@.len() != 2 ==> r == Err::<PairInfo, Error>(Error::InvalidAssetLength),
            asset_infos@.len() == 2 ==> match spec_find_pair(
                self.pairs@,
                spec_canonical2(asset_infos@[0], asset_infos@[1]),
            ) {
                Some(p) => r matches Ok(q) && q.spec_eq(p),
                None => r == Err::<PairInfo, Error>(Error::PairNotFound),
            },
    {
        let canonical = match canonicalize2(asset_infos) {
            Ok(v) => v,
            Err(_) => {
                return Err(Error::InvalidAssetLength);
            },
        };
        match find_pair_index(&self.pairs, &canonical) {
            Some(i) => Ok(self.pairs[i].clone()),
            None => Err(Error::PairNotFound),
        }
    }

    /// Removes the pair registered over the given assets, in either
    /// order.  Fails, leaving the registry unchanged, when the assets
    /// are not exactly two or no pair over them is registered.
    pub fn deregister(&mut self, asset_infos: &Vec<AssetInfo>) -> (r: Result<(), Error>)
        ensures
            asset_infos@.len() != 2 ==> r == Err::<(), Error>(Error::InvalidAssetLength),
            asset_infos@.len() == 2 ==> (r is Ok <==> spec_find_pair(
                old(self).pairs@,
                spec_canonical2(asset_infos@[0], asset_infos@[1]),
            ) is Some),
            asset_infos@.len() == 2 && r is Err ==> r == Err::<(), Error>(Error::PairNotFound),
            r is Err ==> *final(self) == *old(self),
            r is Ok ==> final(self).pairs@ == old(self).pairs@.remove(
                spec_find_pair_idx(
                    old(self).pairs@,
                    spec_canonical2(asset_infos@[0], asset_infos@[1]),
                ),
            ) && final(self).owner == old(self).owner && final(self).pair_configs@ == old(self).pair_configs@ && final(self).migrated@ == old(self).migrated@ && final(self).ownership_proposal == old(self).ownership_proposal,
    {
        let canonical = match canonicalize2(asset_infos) {
            Ok(v) => v,
            Err(_) => {
                return Err(Error::InvalidAssetLength);
            },
        };
        match find_pair_index(&self.pairs, &canonical) {
            Some(i) => {
                self.pairs.remove(i);
                Ok(())
            },
            None => Err(Error::PairNotFound),
        }
    }

    /// Inserts the policy for a pool type, replacing the first policy
    /// held for the same type.  Only the owner may call this, and the
    /// policy's fee rates must be within bounds; a failed call leaves
    /// the registry unchanged.
    pub fn update_pair_config(&mut self, sender: &String, config: PairConfig) -> (r: Result<
        (),
        Error,
    >)
        ensures
            r is Ok <==> sender@ == old(self).owner@ && config.spec_valid_fee_bps(),
            sender@ != old(self).owner@ ==> r == Err::<(), Error>(Error::Unauthorized),
            sender@ == old(self).owner@ && !config.spec_valid_fee_bps() ==> r == Err::<
                (),
                Error,
            >(Error::InvalidFeeBps),
            r is Err ==> *final(self) == *old(self),
            r is Ok ==> {
                &&& if spec_find_config_idx(old(self).pair_configs@, config.pair_type) < old(self).pair_configs@.len() {
                    final(self).pair_configs@ == old(self).pair_configs@.update(
                        spec_find_config_idx(old(self).pair_configs@, config.pair_type),
                        config,
                    )
                } else {
                    final(self).pair_configs@ == old(self).pair_configs@.push(config)
                }
                &&& final(self).owner == old(self).owner
                &&& final(self).pairs@ == old(self).pairs@
                &&& final(self).migrated@ == old(self).migrated@
                &&& final(self).ownership_proposal == old(self).ownership_proposal
            },
    {
        if !(*sender == self.owner) {
            return Err(Error::Unauthorized);
        }
        if !config.valid_fee_bps() {
            return Err(Error::InvalidFeeBps);
        }
        match find_config_index(&self.pair_configs, &config.pair_type) {
            Some(i) => {
                self.pair_configs.set(i, config);
            },
            None => {
                self.pair_configs.push(config);
            },
        }
        Ok(())
    }

    /// Updates the registry's general settings; a field left as `None`
    /// keeps its value.  Only the owner may call this.
    pub fn update_config(
        &mut self,
        sender: &String,
        token_code_id: Option<u64>,
        fee_address: Option<String>,
        generator_address: Option<String>,
        whitelist_code_id: Option<u64>,
    ) -> (r: Result<(), Error>)
        ensures
            r is Ok <==> sender@ == old(self).owner@,
            r is Err ==> r == Err::<(), Error>(Error::Unauthorized) && *final(self) == *old(self),
            r is Ok ==> {
                &&& final(self).token_code_id == (match token_code_id {
                    Some(v) => v,
                    None => old(self).token_code_id,
                })
                &&& final(self).fee_address == (match fee_address {
                    Some(v) => Some(v),
                    None => old(self).fee_address,
                })
                &&& final(self).generator_address == (match generator_address {
                    Some(v) => Some(v),
                    None => old(self).generator_address,
                })
                &&& final(self).whitelist_code_id == (match whitelist_code_id {
                    Some(v) => v,
                    None => old(self).whitelist_code_id,
                })
                &&& final(self).owner == old(self).owner
                &&& final(self).pair_configs@ == old(self).pair_configs@
                &&& final(self).pairs@ == old(self).pairs@
                &&& final(self).migrated@ == old(self).migrated@
                &&& final(self).ownership_proposal == old(self).ownership_proposal
            },
    {
        if !(*sender == self.owner) {
            return Err(Error::Unauthorized);
        }
        if let Some(v) = token_code_id {
            self.token_code_id = v;
        }
        if let Some(v) = fee_address {
            self.fee_address = Some(v);
        }
        if let Some(v) = generator_address {
            self.generator_address = Some(v);
        }
        if let Some(v) = whitelist_code_id {
            self.whitelist_code_id = v;
        }
        Ok(())
    }

    /// Offers ownership of the registry to `owner`; the offer expires
    /// `expires_in` seconds after `now`.  Only the current owner may
    /// call this, and a new offer replaces a pending one.
    pub fn propose_new_owner(
        &mut self,
        sender: &String,
        owner: String,
        expires_in: u64,
        now: u64,
    ) -> (r: Result<(), Error>)
        requires
            now + expires_in <= u64::MAX,
        ensures
            r is Ok <==> sender@ == old(self).owner@,
            r is Err ==> r == Err::<(), Error>(Error::Unauthorized) && *final(self) == *old(self),
            r is Ok ==> (final(self).ownership_proposal matches Some(p) && p.owner == owner
                && p.ttl == now + expires_in && final(self).owner == old(self).owner && final(
                self).pairs@ == old(self).pairs@ && final(self).pair_configs@ == old(
                self).pair_configs@ && final(self).migrated@ == old(self).migrated@),
    {
        if !(*sender == self.owner) {
            return Err(Error::Unauthorized);
        }
        self.ownership_proposal = Some(OwnershipProposal { owner, ttl: now + expires_in });
        Ok(())
    }

    /// Withdraws the pending ownership offer, if any.  Only the owner
    /// may call this.
    pub fn cancel_ownership_proposal(&mut self, sender: &String) -> (r: Result<(), Error>)
        ensures
            r is Ok <==> sender@ == old(self).owner@,
            r is Err ==> r == Err::<(), Error>(Error::Unauthorized) && *final(self) == *old(self),
            r is Ok ==> final(self).ownership_proposal is None && final(self).owner == old(self).owner && final(self).pairs@ == old(self).pairs@ && final(self).pair_configs@ == old(self).pair_configs@ && final(self).migrated@ == old(self).migrated@,
    {
        if !(*sender == self.owner) {
            return Err(Error::Unauthorized);
        }
        self.ownership_proposal = None;
        Ok(())
    }

    /// Completes the ownership transfer.  Succeeds only for the
    /// proposed owner, while an offer is pending and `now` has not
    /// passed its expiry; a failed call leaves the registry unchanged.
    pub fn claim_ownership(&mut self, sender: &String, now: u64) -> (r: Result<(), Error>)
        ensures
            r is Ok <==> (old(self).ownership_proposal matches Some(p) && sender@ == p.owner@
                && now <= p.ttl),
            r is Err ==> *final(self) == *old(self),
            r matches Err(e) ==> e == (match old(self).ownership_proposal {
                None => Error::ProposalNotFound,
                Some(p) => if sender@ != p.owner@ {
                    Error::Unauthorized
                } else {
                    Error::ProposalExpired
                },
            }),
            r is Ok ==> (old(self).ownership_proposal matches Some(p) && final(self).owner
                == p.owner && final(self).ownership_proposal is None && final(self).pairs@ == old(
                self).pairs@ && final(self).pair_configs@ == old(self).pair_configs@ && final(
                self).migrated@ == old(self).migrated@),
    {
        let p = match self.ownership_proposal.take() {
            Some(p) => p,
            None => {
                return Err(Error::ProposalNotFound);
            },
        };
        if !(*sender == p.owner) {
            self.ownership_proposal = Some(p);
            return Err(Error::Unauthorized);
        }
        if now > p.ttl {
            self.ownership_proposal = Some(p);
            return Err(Error::ProposalExpired);
        }
        self.owner = p.owner;
        Ok(())
    }

    /// Flags each given pair address as migrated; an address already
    /// flagged is left alone, so repeating the call changes nothing.
    /// Only the owner may call this.
    pub fn mark_as_migrated(&mut self, sender: &String, pairs: Vec<String>) -> (r: Result<
        (),
        Error,
    >)
        ensures
            r is Ok <==> sender@ == old(self).owner@,
            r is Err ==> r == Err::<(), Error>(Error::Unauthorized) && *final(self) == *old(self),
            r is Ok ==> final(self).migrated@ == spec_mark(old(self).migrated@, pairs@) && final(self).owner == old(self).owner && final(self).pairs@ == old(self).pairs@ && final(self).pair_configs@ == old(self).pair_configs@ && final(self).ownership_proposal == old(self).ownership_proposal,
    {
        if !(*sender == self.owner) {
            return Err(Error::Unauthorized);
        }
        let n = pairs.len();
        let mut i: usize = 0;
        proof {
            assert(pairs@.skip(0) =~= pairs@);
        }
        while i < n
            invariant
                i <= n,
                n == pairs@.len(),
                spec_mark(old(self).migrated@, pairs@) == spec_mark(
                    self.migrated@,
                    pairs@.skip(i as int),
                ),
                self.owner == old(self).owner,
                self.pairs@ == old(self).pairs@,
                self.pair_configs@ == old(self).pair_configs@,
                self.ownership_proposal == old(self).ownership_proposal,
                self.token_code_id == old(self).token_code_id,
                self.fee_address == old(self).fee_address,
                self.generator_address == old(self).generator_address,
                self.whitelist_code_id == old(self).whitelist_code_id,
            decreases n - i,
        {
            proof {
                assert(pairs@.skip(i as int)[0] == pairs@[i as int]);
                assert(pairs@.skip(i as int).drop_first() =~= pairs@.skip(i as int + 1));
            }
            if !contains_str(&self.migrated, &pairs[i]) {
                let addr = pairs[i].clone();
                self.migrated.push(addr);
            }
            i = i + 1;
        }
        proof {
            assert(pairs@.skip(n as int).len() == 0);
        }
        Ok(())
    }

    /// The addresses of the registered pairs that are not yet flagged
    /// as migrated, in registration order.
    pub fn pairs_to_migrate(&self) -> (r: Vec<String>)
        ensures
            r@.map_values(|s: String| s@) == spec_to_migrate(self.pairs@, self.migrated@),
    {
        let n = self.pairs.len();
        let mut out: Vec<String> = Vec::new();
        let mut i: usize = 0;
        while i < n
            invariant
                i <= n,
                n == self.pairs@.len(),
                out@.map_values(|s: String| s@) == spec_to_migrate(
                    self.pairs@.take(i as int),
                    self.migrated@,
                ),
            decreases n - i,
        {
            proof {
                assert(self.pairs@.take(i as int + 1).drop_last() =~= self.pairs@.take(i as int));
                assert(self.pairs@.take(i as int + 1).last() == self.pairs@[i as int]);
            }
            if !contains_str(&self.migrated, &self.pairs[i].contract_addr) {
                out.push(self.pairs[i].contract_addr.clone());
            }
            proof {
                assert(out@.map_values(|s: String| s@) =~= spec_to_migrate(
                    self.pairs@.take(i as int + 1),
                    self.migrated@,
                ));
            }
            i = i + 1;
        }
        proof {
            assert(self.pairs@.take(n as int) =~= self.pairs@);
        }
        out
    }

    /// The pool types whose creation is disabled, in policy order.
    pub fn blacklisted_pair_types(&self) -> (r: Vec<PairType>)
        ensures
            r@ == spec_blacklist(self.pair_configs@),
    {
        let n = self.pair_configs.len();
        let mut out: Vec<PairType> = Vec::new();
        let mut i: usize = 0;
        while i < n
            invariant
                i <= n,
                n == self.pair_configs@.len(),
                out@ == spec_blacklist(self.pair_configs@.take(i as int)),
            decreases n - i,
        {
            proof {
                assert(self.pair_configs@.take(i as int + 1).drop_last() =~= self.pair_configs@.take(
                    i as int,
                ));
                assert(self.pair_configs@.take(i as int + 1).last() == self.pair_configs@[i as int]);
            }
            if self.pair_configs[i].is_disabled {
                out.push(self.pair_configs[i].pair_type.clone());
            }
            proof {
                assert(out@ =~= spec_blacklist(self.pair_configs@.take(i as int + 1)));
            }
            i = i + 1;
        }
        proof {
            assert(self.pair_configs@.take(n as int) =~= self.pair_configs@);
        }
        out
    }

    /// The fee parameters of the given pool type, with the registry's
    /// fee address.  Fails when the pool type has no policy.
    pub fn fee_info(&self, pair_type: &PairType) -> (r: Result<FeeInfoResponse, Error>)
        ensures
            match spec_find_config(self.pair_configs@, *pair_type) {
                Some(c) => r matches Ok(f) && f.fee_address == self.fee_address && f.total_fee_bps
                    == c.total_fee_bps && f.maker_fee_bps == c.maker_fee_bps,
                None => r == Err::<FeeInfoResponse, Error>(Error::PairConfigNotFound),
            },
    {
        match find_config_index(&self.pair_configs, pair_type) {
            Some(i) => {
                let fee_address = match &self.fee_address {
                    Some(a) => Some(a.clone()),
                    None => None,
                };
                Ok(FeeInfoResponse {
                    fee_address,
                    total_fee_bps: self.pair_configs[i].total_fee_bps,
                    maker_fee_bps: self.pair_configs[i].maker_fee_bps,
                })
            },
            None => Err(Error::PairConfigNotFound),
        }
    }

    /// A page of the registered pairs, in registration order: up to
    /// `limit` entries (ten when unspecified, thirty at most),
    /// beginning after the pair registered over `start_after`, or at
    /// the first pair when no starting key is given.  A starting key
    /// that names no registered pair yields an empty page.
    pub fn pairs(&self, start_after: Option<&Vec<AssetInfo>>, limit: Option<u32>) -> (r: Result<
        PairsResponse,
        Error,
    >)
        ensures
            (match start_after {
                Some(k) => k@.len() != 2,
                None => false,
            }) ==> r == Err::<PairsResponse, Error>(Error::InvalidAssetLength),
            !(match start_after {
                Some(k) => k@.len() != 2,
                None => false,
            }) ==> (r matches Ok(resp) && {
                let start = (match start_after {
                    None => 0int,
                    Some(k) => {
                        let i = spec_find_pair_idx(
                            self.pairs@,
                            spec_canonical2(k@[0], k@[1]),
                        );
                        if i < self.pairs@.len() {
                            i + 1
                        } else {
                            self.pairs@.len() as int
                        }
                    },
                });
                let cap = (match limit {
                    Some(l) => if l > 30 {
                        30int
                    } else {
                        l as int
                    },
                    None => 10int,
                });
                let end = if start + cap < self.pairs@.len() {
                    start + cap
                } else {
                    self.pairs@.len() as int
                };
                &&& resp.pairs@.len() == end - start
                &&& forall|j: int|
                    0 <= j < end - start ==> resp.pairs@[j].spec_eq(self.pairs@[start + j])
            }),
    {
        let n = self.pairs.len();
        let start: usize = match start_after {
            None => 0,
            Some(k) => {
                let canonical = match canonicalize2(k) {
                    Ok(v) => v,
                    Err(_) => {
                        return Err(Error::InvalidAssetLength);
                    },
                };
                match find_pair_index(&self.pairs, &canonical) {
                    Some(i) => i + 1,
                    None => n,
                }
            },
        };
        let cap: usize = match limit {
            Some(l) => if l > 30 {
                30
            } else {
                l as usize
            },
            None => 10,
        };
        let end: usize = if cap < n - start {
            start + cap
        } else {
            n
        };
        let mut out: Vec<PairInfo> = Vec::new();
        let mut i: usize = start;
        while i < end
            invariant
                start <= i <= end <= n,
                n == self.pairs@.len(),
                out@.len() == i - start,
                forall|j: int|
                    0 <= j < i - start ==> out@[j].spec_eq(self.pairs@[start + j]),
            decreases end - i,
        {
            out.push(self.pairs[i].clone());
            i = i + 1;
        }
        Ok(PairsResponse { pairs: out })
    }

    /// A snapshot of the registry's general settings.
    pub fn config(&self) -> (r: ConfigResponse)
        ensures
            r.owner == self.owner,
            r.pair_configs@ == self.pair_configs@,
            r.token_code_id == self.token_code_id,
            r.fee_address == self.fee_address,
            r.generator_address == self.generator_address,
            r.whitelist_code_id == self.whitelist_code_id,
    {
        let pair_configs = self.pair_configs.clone();
        proof {
            assert(pair_configs@ =~= self.pair_configs@);
        }
        let fee_address = match &self.fee_address {
            Some(a) => Some(a.clone()),
            None => None,
        };
        let generator_address = match &self.generator_address {
            Some(a) => Some(a.clone()),
            None => None,
        };
        ConfigResponse {
            owner: self.owner.clone(),
            pair_configs,
            token_code_id: self.token_code_id,
            fee_address,
            generator_address,
            whitelist_code_id: self.whitelist_code_id,
        }
    }
}

/// The contract addresses of the pairs not flagged as migrated, in
/// order.
pub open spec fn spec_to_migrate(pairs: Seq<PairInfo>, migrated: Seq<String>) -> Seq<Seq<char>>
    decreases pairs.len(),
{
    if pairs.len() == 0 {
        Seq::empty()
    } else {
        let rest = spec_to_migrate(pairs.drop_last(), migrated);
        if spec_contains_str(migrated, pairs.last().contract_addr@) {
            rest
        } else {
            rest.push(pairs.last().contract_addr@)
        }
    }
}

/// The pool types of the disabled policies, in order.
pub open spec fn spec_blacklist(configs: Seq<PairConfig>) -> Seq<PairType>
    decreases configs.len(),
{
    if configs.len() == 0 {
        Seq::empty()
    } else {
        let rest = spec_blacklist(configs.drop_last());
        if configs.last().is_disabled {
            rest.push(configs.last().pair_type)
        } else {
            rest
        }
    }
}

/// Flagging keeps every string already present, in its place, and
/// only appends.
proof fn lemma_mark_keeps_prefix(m: Seq<String>, p: Seq<String>)
    ensures
        m.len() <= spec_mark(m, p).len(),
        forall|j: int| 0 <= j < m.len() ==> spec_mark(m, p)[j] == m[j],
    decreases p.len(),
{
    if p.len() > 0 {
        if spec_contains_str(m, p[0]@) {
            lemma_mark_keeps_prefix(m, p.drop_first());
        } else {
            lemma_mark_keeps_prefix(m.push(p[0]), p.drop_first());
            assert forall|j: int| 0 <= j < m.len() implies spec_mark(m, p)[j] == m[j] by {
                assert(spec_mark(m.push(p[0]), p.drop_first())[j] == m.push(p[0])[j]);
                assert(m.push(p[0])[j] == m[j]);
            }
        }
    }
}

/// After flagging, every flagged address is present.
proof fn lemma_mark_contains_all(m: Seq<String>, p: Seq<String>)
    ensures
        forall|i: int| 0 <= i < p.len() ==> spec_contains_str(spec_mark(m, p), p[i]@),
        forall|x: Seq<char>| spec_contains_str(m, x) ==> spec_contains_str(spec_mark(m, p), x),
    decreases p.len(),
{
    if p.len() > 0 {
        let m1 = if spec_contains_str(m, p[0]@) {
            m
        } else {
            m.push(p[0])
        };
        lemma_mark_contains_all(m1, p.drop_first());
        lemma_mark_keeps_prefix(m1, p.drop_first());
        assert forall|x: Seq<char>| spec_contains_str(m, x) implies spec_contains_str(
            spec_mark(m, p),
            x,
        ) by {
            let i = choose|i: int| 0 <= i < m.len() && m[i]@ == x;
            assert(m1[i]@ == x);
            assert(spec_contains_str(m1, x));
        }
        assert(spec_contains_str(m1, p[0]@)) by {
            if !spec_contains_str(m, p[0]@) {
                assert(m1[m.len() as int]@ == p[0]@);
            }
        }
        assert forall|i: int| 0 <= i < p.len() implies spec_contains_str(
            spec_mark(m, p),
            p[i]@,
        ) by {
            if i >= 1 {
                assert(p.drop_first()[i - 1] == p[i]);
            }
        }
    }
}

/// Flagging addresses that are all present already changes nothing.
proof fn lemma_mark_noop(m: Seq<String>, p: Seq<String>)
    requires
        forall|i: int| 0 <= i < p.len() ==> spec_contains_str(m, p[i]@),
    ensures
        spec_mark(m, p) == m,
    decreases p.len(),
{
    if p.len() > 0 {
        assert(forall|i: int|
            0 <= i < p.drop_first().len() ==> #[trigger] p.drop_first()[i] == p[i + 1]);
        lemma_mark_noop(m, p.drop_first());
    }
}

/// Law: flagging addresses as migrated is idempotent: repeating the
/// same flagging call leaves the migrated list as it was.
pub proof fn lemma_mark_idempotent(m: Seq<String>, p: Seq<String>)
    ensures
        spec_mark(spec_mark(m, p), p) == spec_mark(m, p),
{
    lemma_mark_contains_all(m, p);
    lemma_mark_noop(spec_mark(m, p), p);
}

/// Law: the canonical arrangement of two assets names, position by
/// position, the same assets whichever order they are given in.
pub proof fn lemma_canonical2_order_independent(a: AssetInfo, b: AssetInfo)
    ensures
        spec_infos_eq(spec_canonical2(a, b), spec_canonical2(b, a)),
{
    crate::asset::lemma_asset_le_total(a, b);
    crate::asset::lemma_equal_refl_symm(a, b);
    if a.spec_le(b) && b.spec_le(a) {
        crate::asset::lemma_asset_le_antisym(a, b);
        crate::asset::lemma_asset_le_antisym(b, a);
    }
}

/// A lookup finds the same pair under two keys that name the same
/// assets.
pub proof fn lemma_find_pair_congruent(pairs: Seq<PairInfo>, k1: Seq<AssetInfo>, k2: Seq<
    AssetInfo,
>)
    requires
        spec_infos_eq(k1, k2),
    ensures
        spec_find_pair_idx(pairs, k1) == spec_find_pair_idx(pairs, k2),
    decreases pairs.len(),
{
    if pairs.len() > 0 {
        assert(spec_infos_eq(pairs[0].asset_infos@, k1) == spec_infos_eq(
            pairs[0].asset_infos@,
            k2,
        )) by {
            assert forall|i: int| 0 <= i < k1.len() implies pairs[0].asset_infos@.len() == k1.len()
                ==> (pairs[0].asset_infos@[i].eq_spec_with(k1[i])
                == pairs[0].asset_infos@[i].eq_spec_with(k2[i])) by {
                assert(k1[i].eq_spec_with(k2[i]));
            }
        }
        lemma_find_pair_congruent(pairs.drop_first(), k1, k2);
    }
}

/// Law: a pair registered over two assets given in one order is found
/// by a lookup that gives the same assets in the other order: the one
/// registry entry resolves both.
pub proof fn lemma_create_then_query(pairs: Seq<PairInfo>, p: PairInfo, a: AssetInfo, b: AssetInfo)
    requires
        spec_find_pair(pairs, spec_canonical2(b, a)) is None,
        p.asset_infos@ == spec_canonical2(b, a),
    ensures
        spec_find_pair(pairs.push(p), spec_canonical2(a, b)) == Some(p),
{
    lemma_canonical2_order_independent(a, b);
    lemma_canonical2_order_independent(b, a);
    lemma_find_pair_congruent(pairs, spec_canonical2(b, a), spec_canonical2(a, b));
    lemma_find_pair_idx_props(pairs, spec_canonical2(a, b));
    lemma_find_pair_push(pairs, p, spec_canonical2(a, b));
}

/// Appending a pair leaves an earlier match in place, and resolves a
/// key that previously matched nothing to the appended pair exactly
/// when it names that pair's assets.
pub proof fn lemma_find_pair_push(pairs: Seq<PairInfo>, p: PairInfo, key: Seq<AssetInfo>)
    ensures
        spec_find_pair_idx(pairs, key) < pairs.len() ==> spec_find_pair_idx(pairs.push(p), key)
            == spec_find_pair_idx(pairs, key),
        spec_find_pair_idx(pairs, key) == pairs.len() && spec_infos_eq(p.asset_infos@, key)
            ==> spec_find_pair_idx(pairs.push(p), key) == pairs.len(),
        spec_find_pair_idx(pairs, key) == pairs.len() && !spec_infos_eq(p.asset_infos@, key)
            ==> spec_find_pair_idx(pairs.push(p), key) == pairs.len() + 1,
    decreases pairs.len(),
{
    lemma_find_pair_idx_props(pairs, key);
    if pairs.len() == 0 {
        assert(pairs.push(p)[0] == p);
        if !spec_infos_eq(p.asset_infos@, key) {
            assert(pairs.push(p).drop_first() =~= Seq::<PairInfo>::empty());
            lemma_find_pair_idx_props(pairs.push(p).drop_first(), key);
            assert(spec_find_pair_idx(pairs.push(p), key) == 1 + spec_find_pair_idx(
                pairs.push(p).drop_first(),
                key,
            ));
        }
    } else {
        assert(pairs.push(p)[0] == pairs[0]);
        if spec_infos_eq(pairs[0].asset_infos@, key) {
        } else {
            assert(pairs.push(p).drop_first() =~= pairs.drop_first().push(p));
            lemma_find_pair_push(pairs.drop_first(), p, key);
        }
    }
}


} // verus!
