//! The administrative operations, the distributor record they compare against, and how
//! their instructions are delivered.
use vstd::prelude::*;
use crate::key::Key;

verus! {

/// The fields of a distributor's on-chain record that the administrative operations read.
#[derive(Clone, Copy, Debug, PartialEq, Eq)]
pub struct DistributorAccount {
    pub admin: Key,
    pub clawback_receiver: Key,
    pub clawback_start_ts: i64,
}

/// One administrative change, with the value that the targeted field is to take.
#[derive(Clone, Copy, Debug, PartialEq, Eq)]
pub enum AdministrativeOperation {
    /// Hand the distributor to another admin.
    SetAdmin { new_admin: Key },
    /// Send clawed-back tokens to another token account.
    SetClawbackReceiver { new_receiver: Key },
    /// Move the time from which unclaimed tokens can be clawed back.
    SetClawbackStartTs { new_ts: i64 },
}

/// How the instructions of a run leave this process.
#[derive(Clone, Copy, Debug, PartialEq, Eq)]
pub enum DeliveryMode {
    /// Signed by `signer`, who also pays the fee, and submitted to the network.
    Broadcast { signer: Key },
    /// Printed as an unsigned message for the distributor's admin to sign elsewhere.
    OfflineMessage,
}

/// How a broadcast transaction of one kind of operation is submitted.
#[derive(Clone, Copy, Debug, PartialEq, Eq)]
pub struct DispatchPolicy {
    /// Whether the submission waits until the network has confirmed the transaction.
    pub wait_for_confirmation: bool,
    /// Whether the transaction goes out through the secondary endpoint.
    pub dual_endpoint: bool,
}

impl AdministrativeOperation {
    /// Whether the record already holds the value that the operation asks for.
    pub open spec fn satisfied(self, account: DistributorAccount) -> bool {
        match self {
            AdministrativeOperation::SetAdmin { new_admin } => account.admin == new_admin,
            AdministrativeOperation::SetClawbackReceiver { new_receiver } =>
                account.clawback_receiver == new_receiver,
            AdministrativeOperation::SetClawbackStartTs { new_ts } =>
                account.clawback_start_ts == new_ts,
        }
    }

    /// The record once the program has carried the operation out: the targeted field
    /// holds the new value and the others are as before.
    pub open spec fn applied(self, account: DistributorAccount) -> DistributorAccount {
        match self {
            AdministrativeOperation::SetAdmin { new_admin } => DistributorAccount {
                admin: new_admin,
                ..account
            },
            AdministrativeOperation::SetClawbackReceiver { new_receiver } => DistributorAccount {
                clawback_receiver: new_receiver,
                ..account
            },
            AdministrativeOperation::SetClawbackStartTs { new_ts } => DistributorAccount {
                clawback_start_ts: new_ts,
                ..account
            },
        }
    }

    /// The submission policy of each kind of operation.
    pub open spec fn policy(self) -> DispatchPolicy {
        match self {
            AdministrativeOperation::SetAdmin { .. } => DispatchPolicy {
                wait_for_confirmation: false,
                dual_endpoint: true,
            },
            AdministrativeOperation::SetClawbackReceiver { .. } => DispatchPolicy {
                wait_for_confirmation: false,
                dual_endpoint: false,
            },
            AdministrativeOperation::SetClawbackStartTs { .. } => DispatchPolicy {
                wait_for_confirmation: true,
                dual_endpoint: false,
            },
        }
    }

    /// Compares the field that the operation targets with the value it carries.
    pub fn is_satisfied_by(&self, account: &DistributorAccount) -> (r: bool)
        ensures
            r == self.satisfied(*account),
    {
        match self {
            AdministrativeOperation::SetAdmin { new_admin } => account.admin.same(new_admin),
            AdministrativeOperation::SetClawbackReceiver { new_receiver } =>
                account.clawback_receiver.same(new_receiver),
            AdministrativeOperation::SetClawbackStartTs { new_ts } => account.clawback_start_ts
                == *new_ts,
        }
    }

    /// Looks up how a broadcast transaction of this operation is submitted.
    pub fn dispatch_policy(&self) -> (policy: DispatchPolicy)
        ensures
            policy == self.policy(),
    {
        match self {
            AdministrativeOperation::SetAdmin { .. } => DispatchPolicy {
                wait_for_confirmation: false,
                dual_endpoint: true,
            },
            AdministrativeOperation::SetClawbackReceiver { .. } => DispatchPolicy {
                wait_for_confirmation: false,
                dual_endpoint: false,
            },
            AdministrativeOperation::SetClawbackStartTs { .. } => DispatchPolicy {
                wait_for_confirmation: true,
                dual_endpoint: false,
            },
        }
    }
}

} // verus!
