//! The remote operations of a run, and the order in which they come.

use vstd::prelude::*;

verus! {

/// A remote operation of the run.
#[derive(Clone, Copy, PartialEq, Eq, Structural, Debug)]
pub enum Operation {
    CreateBucket,
    DeleteBucket,
    ListBuckets,
    ListObjects,
}

impl Operation {
    /// The four operations in the order in which a run attempts them.
    pub open spec fn order() -> Seq<Operation> {
        seq![
            Operation::CreateBucket,
            Operation::DeleteBucket,
            Operation::ListBuckets,
            Operation::ListObjects,
        ]
    }

    /// Where the operation stands in [`Operation::order`], from zero.
    pub open spec fn position(self) -> int {
        match self {
            Operation::CreateBucket => 0,
            Operation::DeleteBucket => 1,
            Operation::ListBuckets => 2,
            Operation::ListObjects => 3,
        }
    }

    /// The operation that follows this one in the order, if any.
    pub open spec fn successor(self) -> Option<Operation> {
        let at = self.position() + 1;
        if at < Operation::order().len() {
            Some(Operation::order()[at])
        } else {
            None
        }
    }

    /// The bucket that the operation is addressed to; listing the buckets is
    /// addressed to none.
    pub open spec fn target(self) -> Option<Seq<char>> {
        match self {
            Operation::CreateBucket => Some("rust-sdk-1"@),
            Operation::DeleteBucket => Some("cn-east-1rust-sdk"@),
            Operation::ListBuckets => None,
            Operation::ListObjects => Some("rust-sdk-1"@),
        }
    }

    /// The operation that a run attempts first.
    pub fn first() -> (op: Operation)
        ensures
            op == Operation::order()[0],
    {
        Operation::CreateBucket
    }

    /// The operation to attempt after this one has succeeded.
    pub fn next(self) -> (op: Option<Operation>)
        ensures
            op == self.successor(),
    {
        match self {
            Operation::CreateBucket => Some(Operation::DeleteBucket),
            Operation::DeleteBucket => Some(Operation::ListBuckets),
            Operation::ListBuckets => Some(Operation::ListObjects),
            Operation::ListObjects => None,
        }
    }

    /// The name of the bucket to put into the request.
    pub fn bucket(self) -> (name: Option<&'static str>)
        ensures
            name.deep_view() == self.target(),
    {
        match self {
            Operation::CreateBucket => Some("rust-sdk-1"),
            Operation::DeleteBucket => Some("cn-east-1rust-sdk"),
            Operation::ListBuckets => None,
            Operation::ListObjects => Some("rust-sdk-1"),
        }
    }
}

} // verus!
