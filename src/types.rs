use vstd::prelude::*;

verus! {

/// The identity of an account: 32 bytes.
#[derive(Clone, Copy, Debug)]
pub struct Pubkey {
    pub bytes: [u8; 32],
}

impl View for Pubkey {
    type V = Seq<u8>;

    open spec fn view(&self) -> Seq<u8> {
        self.bytes@
    }
}

/// Where an escrow record stands in its lifecycle.
#[derive(Clone, Copy, Debug, PartialEq, Eq, Structural)]
pub enum EscrowStatus {
    Created,
    Funded,
    Delivered,
    Disputed,
    Completed,
    Refunded,
    Cancelled,
}

/// Why an operation was refused.
#[derive(Clone, Copy, Debug, PartialEq, Eq, Structural)]
pub enum EscrowError {
    /// The record is not in the state that the operation starts from.
    InvalidStatus,
    /// The caller is not the party that the operation requires.
    Unauthorized,
    /// The amount to hold is zero.
    InvalidAmount,
    /// The custody account could not make the payments.
    TransferFailure,
}

/// One of the three parties of an escrow.
#[derive(Clone, Copy, Debug, PartialEq, Eq, Structural)]
pub enum Party {
    Buyer,
    Provider,
    Platform,
}

/// A transition that a caller may ask of an existing record.
#[derive(Clone, Copy, Debug, PartialEq, Eq, Structural)]
pub enum Operation {
    MarkDelivered,
    ConfirmAndRelease,
    Cancel,
    RaiseDispute,
    /// The platform's ruling: `true` refunds the buyer, `false` pays the provider.
    ResolveDispute(bool),
    Refund,
}

/// A payment out of the escrow's custody account to one party.
#[derive(Clone, Copy, Debug, PartialEq, Eq, Structural)]
pub struct Payment {
    pub to: Party,
    pub amount: u64,
}

/// The durable state of one escrow.
#[derive(Clone, Debug)]
pub struct Escrow {
    pub buyer: Pubkey,
    pub provider: Pubkey,
    pub platform: Pubkey,
    pub amount: u64,
    pub request_id: String,
    pub proposal_id: String,
    pub status: EscrowStatus,
    pub created_at: i64,
    pub funded_at: Option<i64>,
    pub delivered_at: Option<i64>,
    pub completed_at: Option<i64>,
    pub refunded_at: Option<i64>,
    pub disputed_at: Option<i64>,
    pub bump: u8,
}

impl Escrow {
    /// The identity recorded for a party.
    pub open spec fn key_of(self, p: Party) -> Seq<u8> {
        match p {
            Party::Buyer => self.buyer@,
            Party::Provider => self.provider@,
            Party::Platform => self.platform@,
        }
    }
}

impl EscrowStatus {
    /// No transition leaves these states.
    pub open spec fn is_terminal(self) -> bool {
        self == EscrowStatus::Completed || self == EscrowStatus::Refunded
            || self == EscrowStatus::Cancelled
    }

    /// The custody account holds the escrowed amount in these states.
    pub open spec fn holds_funds(self) -> bool {
        self == EscrowStatus::Funded || self == EscrowStatus::Delivered
            || self == EscrowStatus::Disputed
    }
}

impl Operation {
    /// The only state the operation may start from.
    pub open spec fn from_status(self) -> EscrowStatus {
        match self {
            Operation::MarkDelivered => EscrowStatus::Funded,
            Operation::ConfirmAndRelease => EscrowStatus::Delivered,
            Operation::Cancel => EscrowStatus::Funded,
            Operation::RaiseDispute => EscrowStatus::Delivered,
            Operation::ResolveDispute(_) => EscrowStatus::Disputed,
            Operation::Refund => EscrowStatus::Disputed,
        }
    }

    /// The state the operation leads to.
    pub open spec fn to_status(self) -> EscrowStatus {
        match self {
            Operation::MarkDelivered => EscrowStatus::Delivered,
            Operation::ConfirmAndRelease => EscrowStatus::Completed,
            Operation::Cancel => EscrowStatus::Cancelled,
            Operation::RaiseDispute => EscrowStatus::Disputed,
            Operation::ResolveDispute(to_buyer) => if to_buyer {
                EscrowStatus::Refunded
            } else {
                EscrowStatus::Completed
            },
            Operation::Refund => EscrowStatus::Refunded,
        }
    }

    /// The one party allowed to ask for the operation.
    pub open spec fn actor(self) -> Party {
        match self {
            Operation::MarkDelivered => Party::Provider,
            Operation::ConfirmAndRelease => Party::Buyer,
            Operation::Cancel => Party::Buyer,
            Operation::RaiseDispute => Party::Buyer,
            Operation::ResolveDispute(_) => Party::Platform,
            Operation::Refund => Party::Platform,
        }
    }

    /// Whether the operation pays the escrowed amount out.
    pub open spec fn moves_funds(self) -> bool {
        !(self == Operation::MarkDelivered || self == Operation::RaiseDispute)
    }
}

} // verus!
