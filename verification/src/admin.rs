//! The contract's admin and the methods that guard it.
//!
//! A method of the contract runs on behalf of the account that called it (the
//! predecessor of the call). Admin methods are for the admin alone: called by
//! any other account they fail, and a failed call leaves the contract as it
//! was.
use vstd::prelude::*;

use crate::account::AccountId;

verus! {

/// The state of the price-feed oracle contract that its admin methods read and
/// change.
#[derive(Debug)]
pub struct FPOContract {
    /// The account that may call the contract's admin methods.
    pub admin: AccountId,
}

/// Why an admin method refused a call.
#[derive(Debug, PartialEq, Eq)]
pub enum AdminError {
    /// `caller` called an admin method, but the admin is `admin`.
    NotAdmin { admin: AccountId, caller: AccountId },
}

/// `caller` may call the admin methods of `contract`.
pub open spec fn is_admin(contract: FPOContract, caller: AccountId) -> bool {
    caller@ == contract.admin@
}

/// What an admin check by `caller` answers on `contract`.
pub open spec fn admin_check(contract: FPOContract, caller: AccountId) -> Result<(), AdminError> {
    if is_admin(contract, caller) {
        Ok(())
    } else {
        Err(AdminError::NotAdmin { admin: contract.admin, caller })
    }
}

/// The contract after `caller` asked to make `new_admin` the admin.
pub open spec fn after_transfer(
    contract: FPOContract,
    caller: AccountId,
    new_admin: AccountId,
) -> FPOContract {
    if is_admin(contract, caller) {
        FPOContract { admin: new_admin }
    } else {
        contract
    }
}

/// The contract after the transfers `calls` in order, each a pair of the
/// calling account and the account it asks to make the admin.
pub open spec fn after_transfers(contract: FPOContract, calls: Seq<(AccountId, AccountId)>) -> FPOContract
    decreases calls.len(),
{
    if calls.len() == 0 {
        contract
    } else {
        after_transfer(after_transfers(contract, calls.drop_last()), calls.last().0, calls.last().1)
    }
}

/// Call `i` of `calls` succeeds: its caller is the admin once the calls before
/// it have run.
pub open spec fn transfer_succeeds(contract: FPOContract, calls: Seq<(AccountId, AccountId)>, i: int) -> bool {
    is_admin(after_transfers(contract, calls.take(i)), calls[i].0)
}

impl AdminError {
    /// The text that describes the error: `Only callable by admin <admin>`.
    pub fn message(&self) -> (msg: String)
        ensures
            msg@ == "Only callable by admin "@ + self->admin@,
    {
        match self {
            AdminError::NotAdmin { admin, caller: _ } => {
                let msg = String::from_str("Only callable by admin ");
                msg.concat(admin.as_str())
            },
        }
    }
}

impl FPOContract {
    /// A contract whose admin is `admin`.
    pub fn new(admin: AccountId) -> (contract: FPOContract)
        ensures
            contract.admin == admin,
    {
        FPOContract { admin }
    }

    /// Succeeds where `caller` is the admin, and fails with
    /// `AdminError::NotAdmin` naming the admin and `caller` otherwise.
    pub fn assert_admin(&self, caller: &AccountId) -> (res: Result<(), AdminError>)
        ensures
            res == admin_check(*self, *caller),
            res is Ok <==> caller@ == self.admin@,
    {
        if *caller == self.admin {
            Ok(())
        } else {
            Err(AdminError::NotAdmin { admin: self.admin.clone(), caller: caller.clone() })
        }
    }

    /// Makes `new_admin` the admin where `caller` is the admin; otherwise fails
    /// as `assert_admin` does and changes nothing.
    pub fn transfer_admin(
        &mut self,
        caller: &AccountId,
        new_admin: AccountId,
    ) -> (res: Result<(), AdminError>)
        ensures
            res == admin_check(*old(self), *caller),
            *final(self) == after_transfer(*old(self), *caller, new_admin),
            res is Ok ==> final(self).admin == new_admin,
            res is Err ==> *final(self) == *old(self),
    {
        match self.assert_admin(caller) {
            Ok(()) => {
                self.admin = new_admin;
                Ok(())
            },
            Err(e) => Err(e),
        }
    }
}

/// Only the admin can change the admin: whenever a transfer leaves a different
/// admin, the caller was the admin.
pub proof fn lemma_only_admin_changes_admin(
    contract: FPOContract,
    caller: AccountId,
    new_admin: AccountId,
)
    ensures
        after_transfer(contract, caller, new_admin).admin@ != contract.admin@ ==> is_admin(
            contract,
            caller,
        ),
        !is_admin(contract, caller) ==> after_transfer(contract, caller, new_admin) == contract,
{
}

/// After the admin hands the role to `new_admin`, `new_admin` passes the admin
/// check and the former admin, where it is another account, fails it.
pub proof fn lemma_transfer_moves_the_role(
    contract: FPOContract,
    caller: AccountId,
    new_admin: AccountId,
    other: AccountId,
)
    requires
        is_admin(contract, caller),
    ensures
        admin_check(after_transfer(contract, caller, new_admin), new_admin) is Ok,
        new_admin@ != caller@ ==> admin_check(after_transfer(contract, caller, new_admin), caller)
            is Err,
        admin_check(after_transfer(contract, caller, new_admin), other) is Ok <==> other@
            == new_admin@,
{
}

/// Handing the role on and back restores the contract: where `caller` is the
/// admin and makes `new_admin` the admin, `new_admin` can make the former admin
/// the admin again.
pub proof fn lemma_transfer_and_back(
    contract: FPOContract,
    caller: AccountId,
    new_admin: AccountId,
)
    requires
        is_admin(contract, caller),
    ensures
        after_transfer(after_transfer(contract, caller, new_admin), new_admin, contract.admin)
            == contract,
{
}

/// A former admin is locked out: once the role has gone to another account,
/// every transfer the former admin asks for changes nothing.
pub proof fn lemma_former_admin_locked_out(
    contract: FPOContract,
    caller: AccountId,
    new_admin: AccountId,
    next_admin: AccountId,
)
    requires
        is_admin(contract, caller),
        new_admin@ != caller@,
    ensures
        after_transfer(after_transfer(contract, caller, new_admin), caller, next_admin)
            == after_transfer(contract, caller, new_admin),
{
}

/// Running the first `i + 1` calls is running the first `i` and then call `i`.
proof fn lemma_transfer_step(contract: FPOContract, calls: Seq<(AccountId, AccountId)>, i: int)
    requires
        0 <= i < calls.len(),
    ensures
        after_transfers(contract, calls.take(i + 1)) == after_transfer(
            after_transfers(contract, calls.take(i)),
            calls[i].0,
            calls[i].1,
        ),
{
    assert(calls.take(i + 1).drop_last() =~= calls.take(i));
}

/// Dropping the last call changes neither the outcome nor the success of the
/// calls before it.
proof fn lemma_drop_last_call(contract: FPOContract, calls: Seq<(AccountId, AccountId)>, i: int)
    requires
        0 <= i < calls.len() - 1,
    ensures
        transfer_succeeds(contract, calls, i) == transfer_succeeds(contract, calls.drop_last(), i),
{
    assert(calls.take(i) =~= calls.drop_last().take(i));
}

/// Where call `j` succeeds and no later call does, the final admin is the new
/// admin of call `j`.
proof fn lemma_last_success(contract: FPOContract, calls: Seq<(AccountId, AccountId)>, j: int)
    requires
        0 <= j < calls.len(),
        transfer_succeeds(contract, calls, j),
        forall|k: int| j < k < calls.len() ==> !transfer_succeeds(contract, calls, k),
    ensures
        after_transfers(contract, calls).admin == calls[j].1,
    decreases calls.len(),
{
    let n = calls.len() as int;
    let pre = calls.drop_last();
    assert(calls.take(n - 1) =~= pre);
    if j < n - 1 {
        assert(!transfer_succeeds(contract, calls, n - 1));
        lemma_drop_last_call(contract, calls, j);
        assert forall|k: int| j < k < pre.len() implies !transfer_succeeds(contract, pre, k) by {
            lemma_drop_last_call(contract, calls, k);
            assert(!transfer_succeeds(contract, calls, k));
        }
        lemma_last_success(contract, pre, j);
    }
}

/// Where no call succeeds, the contract is as it was.
proof fn lemma_no_success(contract: FPOContract, calls: Seq<(AccountId, AccountId)>)
    requires
        forall|k: int| 0 <= k < calls.len() ==> !transfer_succeeds(contract, calls, k),
    ensures
        after_transfers(contract, calls) == contract,
    decreases calls.len(),
{
    if calls.len() > 0 {
        let n = calls.len() as int;
        let pre = calls.drop_last();
        assert(calls.take(n - 1) =~= pre);
        assert(!transfer_succeeds(contract, calls, n - 1));
        assert forall|k: int| 0 <= k < pre.len() implies !transfer_succeeds(contract, pre, k) by {
            lemma_drop_last_call(contract, calls, k);
            assert(!transfer_succeeds(contract, calls, k));
        }
        lemma_no_success(contract, pre);
    }
}

/// Over any run of transfers, each call succeeds exactly when its caller is the
/// admin at that moment; a failed call leaves the contract as it was and a
/// successful one makes its new admin the admin. So the final admin is the new
/// admin of the last successful call, or the contract is unchanged where no
/// call succeeded.
pub proof fn lemma_transfer_sequence(contract: FPOContract, calls: Seq<(AccountId, AccountId)>)
    ensures
        forall|i: int|
            0 <= i < calls.len() ==> {
                let before = #[trigger] after_transfers(contract, calls.take(i));
                &&& admin_check(before, calls[i].0) is Ok <==> transfer_succeeds(contract, calls, i)
                &&& after_transfers(contract, calls.take(i + 1)) == after_transfer(
                    before,
                    calls[i].0,
                    calls[i].1,
                )
            },
        forall|j: int|
            0 <= j < calls.len() && #[trigger] transfer_succeeds(contract, calls, j) && (forall|k: int|
                j < k < calls.len() ==> !transfer_succeeds(contract, calls, k)) ==> after_transfers(
                contract,
                calls,
            ).admin == calls[j].1,
        (forall|k: int| 0 <= k < calls.len() ==> !transfer_succeeds(contract, calls, k))
            ==> after_transfers(contract, calls) == contract,
{
    assert forall|i: int| 0 <= i < calls.len() implies {
        let before = #[trigger] after_transfers(contract, calls.take(i));
        &&& admin_check(before, calls[i].0) is Ok <==> transfer_succeeds(contract, calls, i)
        &&& after_transfers(contract, calls.take(i + 1)) == after_transfer(
            before,
            calls[i].0,
            calls[i].1,
        )
    } by {
        lemma_transfer_step(contract, calls, i);
    }
    assert forall|j: int|
        0 <= j < calls.len() && #[trigger] transfer_succeeds(contract, calls, j) && (forall|k: int|
            j < k < calls.len() ==> !transfer_succeeds(contract, calls, k)) implies after_transfers(
        contract,
        calls,
    ).admin == calls[j].1 by {
        lemma_last_success(contract, calls, j);
    }
    if forall|k: int| 0 <= k < calls.len() ==> !transfer_succeeds(contract, calls, k) {
        lemma_no_success(contract, calls);
    }
}

/// The admin handing the role to itself changes nothing.
pub proof fn lemma_transfer_to_self(contract: FPOContract)
    ensures
        after_transfer(contract, contract.admin, contract.admin) == contract,
{
}

} // verus!
