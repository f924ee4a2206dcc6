//! The configuration: who owns the pool, and the registry of its outposts.

use crate::error::{ContractError, ContractErrorView};
use crate::msg::{InstantiateMsg, Outpost};
use vstd::prelude::*;

verus! {

/// The configuration of the pool.
#[derive(Clone, Debug, PartialEq)]
pub struct Config {
    /// The address that may send the privileged commands.
    pub owner: String,
    /// The registry of outposts, one for each remote chain.
    pub outposts: Vec<Outpost>,
    /// The code that controller contracts are created from.
    pub cw_ica_controller_code_id: u64,
}

/// A change of the configuration: each field that is present replaces the
/// field of the same name, the list of outposts as a whole.
#[derive(Clone, Debug, PartialEq)]
pub struct ConfigUpdate {
    pub owner: Option<String>,
    pub outposts: Option<Vec<Outpost>>,
    pub cw_ica_controller_code_id: Option<u64>,
}

/// The configuration as a query reports it.
#[derive(Clone, Debug, PartialEq)]
pub struct ConfigResponse {
    pub owner: String,
    pub outposts: Vec<Outpost>,
    pub cw_ica_controller_code_id: u64,
}

/// Whether `key` is the key of `outposts[i]` and of no outpost before it.
pub open spec fn is_first_match(outposts: Seq<Outpost>, key: Seq<char>, i: int) -> bool {
    &&& 0 <= i < outposts.len()
    &&& outposts[i].mars_red_bank_contract@ == key
    &&& forall|j: int| 0 <= j < i ==> (#[trigger] outposts[j]).mars_red_bank_contract@ != key
}

/// Whether some outpost has the key `key`.
pub open spec fn knows(outposts: Seq<Outpost>, key: Seq<char>) -> bool {
    exists|i: int|
        0 <= i < outposts.len() && (#[trigger] outposts[i]).mars_red_bank_contract@ == key
}

/// The position of the first outpost with the key `key`, where one has it.
pub open spec fn key_index(outposts: Seq<Outpost>, key: Seq<char>) -> int {
    choose|i: int| is_first_match(outposts, key, i)
}

/// Whether no two outposts share a key.
pub open spec fn keys_unique(outposts: Seq<Outpost>) -> bool {
    forall|i: int, j: int|
        0 <= i < j < outposts.len() ==> (#[trigger] outposts[i]).mars_red_bank_contract@ != (
        #[trigger] outposts[j]).mars_red_bank_contract@
}

/// Whether `validator` may answer `verdict` for `address`.
pub open spec fn answers<F: Fn(&String) -> bool>(validator: &F, address: &String, verdict: bool) -> bool {
    validator.ensures((address,), verdict)
}

/// Whether an address of an outpost passed: it is not empty and `validator`
/// accepted it.
pub open spec fn passed<F: Fn(&String) -> bool>(validator: &F, address: &String) -> bool {
    address@.len() > 0 && answers(validator, address, true)
}

/// Whether an address of an outpost failed: it is empty, or `validator`
/// rejected it.
pub open spec fn failed<F: Fn(&String) -> bool>(validator: &F, address: &String) -> bool {
    address@.len() == 0 || answers(validator, address, false)
}

/// Whether both addresses of `outpost` passed.
pub open spec fn outpost_passed<F: Fn(&String) -> bool>(validator: &F, outpost: &Outpost) -> bool {
    passed(validator, &outpost.mars_red_bank_contract) && passed(
        validator,
        &outpost.cw_ica_controller_contract,
    )
}

/// Whether `address` is the first address of `outpost` that failed: its
/// custodian, or its controller after the custodian passed.
pub open spec fn outpost_failed_at<F: Fn(&String) -> bool>(
    validator: &F,
    outpost: &Outpost,
    address: Seq<char>,
) -> bool {
    ||| failed(validator, &outpost.mars_red_bank_contract) && address
        == outpost.mars_red_bank_contract@
    ||| passed(validator, &outpost.mars_red_bank_contract) && failed(
        validator,
        &outpost.cw_ica_controller_contract,
    ) && address == outpost.cw_ica_controller_contract@
}

/// Whether a configuration of `owner` and `outposts` is valid under
/// `validator`: the owner was accepted, every address of every outpost is
/// present and was accepted, and no two outposts share a key.
pub open spec fn valid_under<F: Fn(&String) -> bool>(
    validator: &F,
    owner: &String,
    outposts: Seq<Outpost>,
) -> bool {
    &&& answers(validator, owner, true)
    &&& forall|i: int| 0 <= i < outposts.len() ==> outpost_passed(validator, #[trigger] &outposts[i])
    &&& keys_unique(outposts)
}

/// Whether `address` is what makes a configuration of `owner` and
/// `outposts` invalid under `validator`. The addresses are looked at in
/// order, the owner first, then the custodian and the controller of each
/// outpost; keys are compared only after every address passed, and then the
/// first outpost that repeats the key of an earlier one is named.
pub open spec fn invalid_at<F: Fn(&String) -> bool>(
    validator: &F,
    owner: &String,
    outposts: Seq<Outpost>,
    address: Seq<char>,
) -> bool {
    ||| answers(validator, owner, false) && address == owner@
    ||| answers(validator, owner, true) && exists|i: int|
        0 <= i < outposts.len() && outpost_failed_at(validator, #[trigger] &outposts[i], address)
            && forall|j: int| 0 <= j < i ==> outpost_passed(validator, #[trigger] &outposts[j])
    ||| answers(validator, owner, true) && (forall|i: int|
        0 <= i < outposts.len() ==> outpost_passed(validator, #[trigger] &outposts[i])) && exists|
        j: int,
    |
        0 <= j < outposts.len() && keys_unique(outposts.take(j)) && !keys_unique(
            outposts.take(j + 1),
        ) && address == (#[trigger] outposts[j]).mars_red_bank_contract@
}

/// The position of the first outpost whose key is `destination`.
fn position(outposts: &Vec<Outpost>, destination: &str) -> (found: Option<usize>)
    ensures
        match found {
            Some(i) => is_first_match(outposts@, destination@, i as int),
            None => !knows(outposts@, destination@),
        },
{
    let key = String::from_str(destination);
    let mut i: usize = 0;
    while i < outposts.len()
        invariant
            i <= outposts.len(),
            key@ == destination@,
            forall|j: int| 0 <= j < i ==> (#[trigger] outposts@[j]).mars_red_bank_contract@ != key@,
        decreases outposts.len() - i,
    {
        if outposts[i].mars_red_bank_contract == key {
            return Some(i);
        }
        i = i + 1;
    }
    None
}

/// Whether an address of an outpost is present and accepted.
fn present_and_valid<F: Fn(&String) -> bool>(validator: &F, address: &String) -> (ok: bool)
    requires
        forall|a: &String| validator.requires((a,)),
    ensures
        ok ==> passed(validator, address),
        !ok ==> failed(validator, address),
{
    if address.as_str().unicode_len() == 0 {
        return false;
    }
    validator(address)
}

/// The error that names `address` as not acceptable.
fn invalid_address(address: &String) -> (e: ContractError)
    ensures
        e@ == (ContractErrorView::InvalidAddress { address: address@ }),
{
    ContractError::InvalidAddress { address: address.clone() }
}

/// Looks for the first outpost that repeats the key of an earlier one.
fn first_repeated_key(outposts: &Vec<Outpost>) -> (found: Option<usize>)
    ensures
        match found {
            Some(j) => j < outposts@.len() && keys_unique(outposts@.take(j as int))
                && !keys_unique(outposts@.take(j + 1)),
            None => keys_unique(outposts@),
        },
{
    let mut j: usize = 0;
    proof {
        assert(keys_unique(outposts@.take(0)));
    }
    while j < outposts.len()
        invariant
            j <= outposts.len(),
            keys_unique(outposts@.take(j as int)),
        decreases outposts.len() - j,
    {
        let mut i: usize = 0;
        while i < j
            invariant
                i <= j < outposts.len(),
                keys_unique(outposts@.take(j as int)),
                forall|k: int|
                    0 <= k < i ==> (#[trigger] outposts@[k]).mars_red_bank_contract@
                        != outposts@[j as int].mars_red_bank_contract@,
            decreases j - i,
        {
            if outposts[i].mars_red_bank_contract == outposts[j].mars_red_bank_contract {
                proof {
                    let longer = outposts@.take(j + 1);
                    assert(longer[i as int].mars_red_bank_contract@
                        == longer[j as int].mars_red_bank_contract@);
                }
                return Some(j);
            }
            i = i + 1;
        }
        proof {
            let shorter = outposts@.take(j as int);
            let longer = outposts@.take(j + 1);
            assert forall|a: int, b: int| 0 <= a < b < longer.len() implies (
            #[trigger] longer[a]).mars_red_bank_contract@ != (
            #[trigger] longer[b]).mars_red_bank_contract@ by {
                if b < j {
                    assert(shorter[a] == longer[a]);
                    assert(shorter[b] == longer[b]);
                } else {
                    assert(longer[a] == outposts@[a]);
                }
            }
        }
        j = j + 1;
    }
    proof {
        assert(outposts@.take(outposts@.len() as int) =~= outposts@);
    }
    None
}

/// Validates a configuration given by its parts.
fn validate_parts<F: Fn(&String) -> bool>(
    owner: &String,
    outposts: &Vec<Outpost>,
    validator: &F,
) -> (verdict: Result<(), ContractError>)
    requires
        forall|a: &String| validator.requires((a,)),
    ensures
        verdict is Ok ==> valid_under(validator, owner, outposts@),
        verdict matches Err(e) ==> (e matches ContractError::InvalidAddress { address }
            && invalid_at(validator, owner, outposts@, address@)),
{
    if !validator(owner) {
        return Err(invalid_address(owner));
    }
    let mut i: usize = 0;
    while i < outposts.len()
        invariant
            i <= outposts.len(),
            forall|a: &String| validator.requires((a,)),
            answers(validator, owner, true),
            forall|j: int| 0 <= j < i ==> outpost_passed(validator, #[trigger] &outposts@[j]),
        decreases outposts.len() - i,
    {
        let outpost = &outposts[i];
        if !present_and_valid(validator, &outpost.mars_red_bank_contract) {
            proof {
                assert(outpost_failed_at(
                    validator,
                    &outposts@[i as int],
                    outpost.mars_red_bank_contract@,
                ));
            }
            return Err(invalid_address(&outpost.mars_red_bank_contract));
        }
        if !present_and_valid(validator, &outpost.cw_ica_controller_contract) {
            proof {
                assert(outpost_failed_at(
                    validator,
                    &outposts@[i as int],
                    outpost.cw_ica_controller_contract@,
                ));
            }
            return Err(invalid_address(&outpost.cw_ica_controller_contract));
        }
        i = i + 1;
    }
    match first_repeated_key(outposts) {
        Some(j) => Err(invalid_address(&outposts[j].mars_red_bank_contract)),
        None => Ok(()),
    }
}

impl ConfigUpdate {
    /// The configuration that this change turns `config` into.
    pub open spec fn applied_to(&self, config: Config) -> Config {
        Config {
            owner: match self.owner {
                Some(owner) => owner,
                None => config.owner,
            },
            outposts: match self.outposts {
                Some(outposts) => outposts,
                None => config.outposts,
            },
            cw_ica_controller_code_id: match self.cw_ica_controller_code_id {
                Some(id) => id,
                None => config.cw_ica_controller_code_id,
            },
        }
    }
}

impl Config {
    /// The configuration that the pool starts with.
    pub fn new(msg: InstantiateMsg) -> (config: Config)
        ensures
            config.owner == msg.owner,
            config.outposts == msg.outposts,
            config.cw_ica_controller_code_id == msg.cw_ica_controller_code_id,
    {
        Config {
            owner: msg.owner,
            outposts: msg.outposts,
            cw_ica_controller_code_id: msg.cw_ica_controller_code_id,
        }
    }

    /// Validates every address with `validator`, the owner first and then
    /// the custodian and the controller of each outpost in order, and then
    /// that no two outposts share a key. An address of an outpost must also
    /// not be empty. The first address that does not pass is named in the
    /// error; where all pass, the key of the first outpost that repeats an
    /// earlier key.
    pub fn validate<F: Fn(&String) -> bool>(&self, validator: &F) -> (verdict: Result<(), ContractError>)
        requires
            forall|a: &String| validator.requires((a,)),
        ensures
            verdict is Ok ==> valid_under(validator, &self.owner, self.outposts@),
            verdict matches Err(e) ==> (e matches ContractError::InvalidAddress { address }
                && invalid_at(validator, &self.owner, self.outposts@, address@)),
    {
        validate_parts(&self.owner, &self.outposts, validator)
    }

    /// Replaces the fields that `msg` holds and validates the result as
    /// [`Config::validate`] does. Where the result is not valid, the
    /// configuration stays as it was.
    pub fn apply_update<F: Fn(&String) -> bool>(
        &mut self,
        msg: ConfigUpdate,
        validator: &F,
    ) -> (done: Result<(), ContractError>)
        requires
            forall|a: &String| validator.requires((a,)),
        ensures
            done is Ok ==> *final(self) == msg.applied_to(*old(self)) && valid_under(
                validator,
                &final(self).owner,
                final(self).outposts@,
            ),
            done is Err ==> *final(self) == *old(self),
            done matches Err(e) ==> (e matches ContractError::InvalidAddress { address }
                && invalid_at(
                validator,
                &msg.applied_to(*old(self)).owner,
                msg.applied_to(*old(self)).outposts@,
                address@,
            )),
    {
        let owner: &String = match &msg.owner {
            Some(owner) => owner,
            None => &self.owner,
        };
        let outposts: &Vec<Outpost> = match &msg.outposts {
            Some(outposts) => outposts,
            None => &self.outposts,
        };
        validate_parts(owner, outposts, validator)?;
        if let Some(owner) = msg.owner {
            self.owner = owner;
        }
        if let Some(outposts) = msg.outposts {
            self.outposts = outposts;
        }
        if let Some(cw_ica_controller_code_id) = msg.cw_ica_controller_code_id {
            self.cw_ica_controller_code_id = cw_ica_controller_code_id;
        }
        Ok(())
    }

    /// The first outpost whose key is exactly `destination`.
    pub fn find_destination_outpost(&self, destination: &str) -> (found: Option<&Outpost>)
        ensures
            match found {
                Some(outpost) => is_first_match(
                    self.outposts@,
                    destination@,
                    key_index(self.outposts@, destination@),
                ) && *outpost == self.outposts@[key_index(self.outposts@, destination@)],
                None => !knows(self.outposts@, destination@),
            },
    {
        match position(&self.outposts, destination) {
            Some(i) => {
                proof {
                    lemma_first_match_is_one(self.outposts@, destination@, i as int);
                }
                Some(&self.outposts[i])
            },
            None => None,
        }
    }

    /// The first outpost whose key is exactly `destination`, open to
    /// change; whatever is written to it is written to the registry, and
    /// nothing else changes.
    pub fn find_destination_outpost_mut(&mut self, destination: &str) -> (found: Option<&mut Outpost>)
        ensures
            match found {
                Some(outpost) => {
                    let i = key_index(old(self).outposts@, destination@);
                    &&& is_first_match(old(self).outposts@, destination@, i)
                    &&& *outpost == old(self).outposts@[i]
                    &&& final(self).outposts@ == old(self).outposts@.update(i, *final(outpost))
                    &&& final(self).owner == old(self).owner
                    &&& final(self).cw_ica_controller_code_id == old(
                        self,
                    ).cw_ica_controller_code_id
                },
                None => !knows(old(self).outposts@, destination@) && *final(self) == *old(self),
            },
    {
        match position(&self.outposts, destination) {
            Some(i) => {
                proof {
                    lemma_first_match_is_one(self.outposts@, destination@, i as int);
                }
                Some(&mut self.outposts[i])
            },
            None => None,
        }
    }

    /// Sets the sub-account of the first outpost whose key is `destination`.
    pub fn update_outpost_account_id(&mut self, destination: &str, account_id: String) -> (done: Result<(), ContractError>)
        ensures
            match done {
                Ok(()) => {
                    let i = key_index(old(self).outposts@, destination@);
                    &&& is_first_match(old(self).outposts@, destination@, i)
                    &&& final(self).outposts@ == old(self).outposts@.update(
                        i,
                        Outpost { account_id: Some(account_id), ..old(self).outposts@[i] },
                    )
                    &&& final(self).owner == old(self).owner
                    &&& final(self).cw_ica_controller_code_id == old(
                        self,
                    ).cw_ica_controller_code_id
                },
                Err(e) => {
                    &&& !knows(old(self).outposts@, destination@)
                    &&& e@ == (ContractErrorView::DestinationNotFound { destination: destination@ })
                    &&& *final(self) == *old(self)
                },
            },
    {
        match self.find_destination_outpost_mut(destination) {
            Some(outpost) => {
                outpost.account_id = Some(account_id);
                Ok(())
            },
            None => Err(
                ContractError::DestinationNotFound { destination: String::from_str(destination) },
            ),
        }
    }

    /// Sets the controller of the first outpost whose key is `destination`.
    pub fn update_outpost_controller(&mut self, destination: &str, controller: String) -> (done: Result<(), ContractError>)
        ensures
            match done {
                Ok(()) => {
                    let i = key_index(old(self).outposts@, destination@);
                    &&& is_first_match(old(self).outposts@, destination@, i)
                    &&& final(self).outposts@ == old(self).outposts@.update(
                        i,
                        Outpost {
                            cw_ica_controller_contract: controller,
                            ..old(self).outposts@[i]
                        },
                    )
                    &&& final(self).owner == old(self).owner
                    &&& final(self).cw_ica_controller_code_id == old(
                        self,
                    ).cw_ica_controller_code_id
                },
                Err(e) => {
                    &&& !knows(old(self).outposts@, destination@)
                    &&& e@ == (ContractErrorView::DestinationNotFound { destination: destination@ })
                    &&& *final(self) == *old(self)
                },
            },
    {
        match self.find_destination_outpost_mut(destination) {
            Some(outpost) => {
                outpost.cw_ica_controller_contract = controller;
                Ok(())
            },
            None => Err(
                ContractError::DestinationNotFound { destination: String::from_str(destination) },
            ),
        }
    }
}

impl From<Config> for ConfigResponse {
    fn from(config: Config) -> (response: ConfigResponse) {
        ConfigResponse {
            owner: config.owner,
            outposts: config.outposts,
            cw_ica_controller_code_id: config.cw_ica_controller_code_id,
        }
    }
}

impl vstd::std_specs::convert::FromSpecImpl<Config> for ConfigResponse {
    open spec fn obeys_from_spec() -> bool {
        true
    }

    open spec fn from_spec(config: Config) -> ConfigResponse {
        ConfigResponse {
            owner: config.owner,
            outposts: config.outposts,
            cw_ica_controller_code_id: config.cw_ica_controller_code_id,
        }
    }
}

/// A key that some outpost has is first matched somewhere: the position
/// that [`key_index`] gives.
pub proof fn lemma_known_key_has_first_match(outposts: Seq<Outpost>, key: Seq<char>)
    requires
        knows(outposts, key),
    ensures
        is_first_match(outposts, key, key_index(outposts, key)),
{
    let i = choose|i: int|
        0 <= i < outposts.len() && (#[trigger] outposts[i]).mars_red_bank_contract@ == key;
    lemma_first_match_before(outposts, key, i);
}

/// Where the outpost at `i` has the key, an outpost at or before `i` is the
/// first to have it.
proof fn lemma_first_match_before(outposts: Seq<Outpost>, key: Seq<char>, i: int)
    requires
        0 <= i < outposts.len(),
        outposts[i].mars_red_bank_contract@ == key,
    ensures
        exists|j: int| is_first_match(outposts, key, j),
    decreases i,
{
    if exists|j: int| 0 <= j < i && (#[trigger] outposts[j]).mars_red_bank_contract@ == key {
        let j = choose|j: int|
            0 <= j < i && (#[trigger] outposts[j]).mars_red_bank_contract@ == key;
        lemma_first_match_before(outposts, key, j);
    } else {
        assert(is_first_match(outposts, key, i));
    }
}

/// Setting the sub-account of an outpost is idempotent: the outpost keeps
/// its place and its key, and setting the same sub-account again changes
/// nothing.
pub proof fn lemma_account_id_update_is_idempotent(
    outposts: Seq<Outpost>,
    key: Seq<char>,
    account_id: String,
)
    requires
        knows(outposts, key),
    ensures
        ({
            let i = key_index(outposts, key);
            let once = outposts.update(i, Outpost { account_id: Some(account_id), ..outposts[i] });
            &&& key_index(once, key) == i
            &&& once.update(i, Outpost { account_id: Some(account_id), ..once[i] }) == once
        }),
{
    lemma_known_key_has_first_match(outposts, key);
    let i = key_index(outposts, key);
    let once = outposts.update(i, Outpost { account_id: Some(account_id), ..outposts[i] });
    assert forall|j: int| 0 <= j < i implies (#[trigger] once[j]).mars_red_bank_contract@
        != key by {
        assert(once[j] == outposts[j]);
    }
    lemma_first_match_is_one(once, key, i);
    assert(once.update(i, Outpost { account_id: Some(account_id), ..once[i] }) =~= once);
}

/// Setting the controller of an outpost is idempotent: the outpost keeps
/// its place and its key, and setting the same controller again changes
/// nothing.
pub proof fn lemma_controller_update_is_idempotent(
    outposts: Seq<Outpost>,
    key: Seq<char>,
    controller: String,
)
    requires
        knows(outposts, key),
    ensures
        ({
            let i = key_index(outposts, key);
            let once = outposts.update(
                i,
                Outpost { cw_ica_controller_contract: controller, ..outposts[i] },
            );
            &&& key_index(once, key) == i
            &&& once.update(i, Outpost { cw_ica_controller_contract: controller, ..once[i] })
                == once
        }),
{
    lemma_known_key_has_first_match(outposts, key);
    let i = key_index(outposts, key);
    let once = outposts.update(
        i,
        Outpost { cw_ica_controller_contract: controller, ..outposts[i] },
    );
    assert forall|j: int| 0 <= j < i implies (#[trigger] once[j]).mars_red_bank_contract@
        != key by {
        assert(once[j] == outposts[j]);
    }
    lemma_first_match_is_one(once, key, i);
    assert(once.update(i, Outpost { cw_ica_controller_contract: controller, ..once[i] })
        =~= once);
}

/// At most one position is the first match of a key.
pub proof fn lemma_first_match_is_one(outposts: Seq<Outpost>, key: Seq<char>, i: int)
    requires
        is_first_match(outposts, key, i),
    ensures
        key_index(outposts, key) == i,
        knows(outposts, key),
{
    let k = key_index(outposts, key);
    assert(is_first_match(outposts, key, k));
    if k < i {
        assert(outposts[k].mars_red_bank_contract@ != key);
    }
    if i < k {
        assert(outposts[i].mars_red_bank_contract@ != key);
    }
}

} // verus!
