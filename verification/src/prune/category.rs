//! The classes of data that can be pruned.

use vstd::prelude::*;

verus! {

/// A class of stored data with a deletion strategy of its own. The set is
/// closed; the declaration order is the order of the categories.
#[derive(Clone, Copy, Debug, PartialEq, Eq, Structural, PartialOrd, Ord, Hash)]
pub enum Category {
    /// Block headers.
    Headers,
    /// Transaction bodies.
    Transactions,
    /// Transaction receipts.
    Receipts,
    /// Recovered transaction senders.
    SenderRecovery,
    /// The index from transaction hash to transaction number.
    TransactionLookup,
    /// Receipts kept for the logs of selected contracts.
    ContractLogs,
    /// Account change sets and their index.
    AccountHistory,
    /// Storage change sets and their index.
    StorageHistory,
}

impl Category {
    /// Number of categories.
    pub const COUNT: usize = 8;

    /// Position of the category in the declaration order.
    pub open spec fn spec_index(self) -> nat {
        match self {
            Category::Headers => 0,
            Category::Transactions => 1,
            Category::Receipts => 2,
            Category::SenderRecovery => 3,
            Category::TransactionLookup => 4,
            Category::ContractLogs => 5,
            Category::AccountHistory => 6,
            Category::StorageHistory => 7,
        }
    }

    /// The category at a position of the declaration order; `Headers` stands
    /// for positions past the end.
    pub open spec fn spec_from_index(index: nat) -> Self {
        if index == 1 {
            Category::Transactions
        } else if index == 2 {
            Category::Receipts
        } else if index == 3 {
            Category::SenderRecovery
        } else if index == 4 {
            Category::TransactionLookup
        } else if index == 5 {
            Category::ContractLogs
        } else if index == 6 {
            Category::AccountHistory
        } else if index == 7 {
            Category::StorageHistory
        } else {
            Category::Headers
        }
    }

    /// Whether progress in this category can be recorded below the level of a
    /// block. The two history categories are indexed by block range and cannot.
    pub open spec fn spec_supports_fine_grained_checkpoints(self) -> bool {
        !(self == Category::AccountHistory || self == Category::StorageHistory)
    }

    /// Whether cold storage archives this category, so that an archive boundary
    /// exists for it.
    pub open spec fn spec_is_archived(self) -> bool {
        self == Category::Headers || self == Category::Transactions || self == Category::Receipts
    }

    /// Position of the category in the declaration order.
    pub fn index(&self) -> (index: usize)
        ensures
            index == self.spec_index(),
            index < Self::COUNT,
    {
        match self {
            Category::Headers => 0,
            Category::Transactions => 1,
            Category::Receipts => 2,
            Category::SenderRecovery => 3,
            Category::TransactionLookup => 4,
            Category::ContractLogs => 5,
            Category::AccountHistory => 6,
            Category::StorageHistory => 7,
        }
    }

    /// The category at a position of the declaration order, if there is one.
    pub fn from_index(index: usize) -> (category: Option<Self>)
        ensures
            index < Self::COUNT ==> category == Some(Self::spec_from_index(index as nat)),
            index >= Self::COUNT ==> category is None,
            category matches Some(c) ==> c.spec_index() == index,
    {
        if index == 0 {
            Some(Category::Headers)
        } else if index == 1 {
            Some(Category::Transactions)
        } else if index == 2 {
            Some(Category::Receipts)
        } else if index == 3 {
            Some(Category::SenderRecovery)
        } else if index == 4 {
            Some(Category::TransactionLookup)
        } else if index == 5 {
            Some(Category::ContractLogs)
        } else if index == 6 {
            Some(Category::AccountHistory)
        } else if index == 7 {
            Some(Category::StorageHistory)
        } else {
            None
        }
    }

    /// Whether progress in this category can be recorded below the level of a
    /// block.
    pub fn supports_fine_grained_checkpoints(&self) -> (supported: bool)
        ensures
            supported == self.spec_supports_fine_grained_checkpoints(),
    {
        match self {
            Category::AccountHistory => false,
            Category::StorageHistory => false,
            _ => true,
        }
    }

    /// Whether cold storage archives this category.
    pub fn is_archived(&self) -> (archived: bool)
        ensures
            archived == self.spec_is_archived(),
    {
        match self {
            Category::Headers => true,
            Category::Transactions => true,
            Category::Receipts => true,
            _ => false,
        }
    }

    /// The index determines the category.
    pub proof fn lemma_index_round_trip(self)
        ensures
            Self::spec_from_index(self.spec_index()) == self,
            self.spec_index() < Self::COUNT,
    {
    }
}

} // verus!
