use vstd::prelude::*;

verus! {

/// The Id of a message.
#[derive(Clone, Copy, Debug, PartialEq, Eq, Hash, Structural)]
pub struct MessageId {
    pub id: u64,
}

/// The Id of a channel or a thread.
#[derive(Clone, Copy, Debug, PartialEq, Eq, Hash, Structural)]
pub struct GenericChannelId {
    pub id: u64,
}

/// The Id of a user.
#[derive(Clone, Copy, Debug, PartialEq, Eq, Hash, Structural)]
pub struct UserId {
    pub id: u64,
}

/// The Id of a role.
#[derive(Clone, Copy, Debug, PartialEq, Eq, Hash, Structural)]
pub struct RoleId {
    pub id: u64,
}

impl MessageId {
    /// Makes an Id from its number.
    pub fn new(id: u64) -> (r: Self)
        ensures
            r.id == id,
    {
        MessageId { id }
    }

    /// The number of this Id.
    pub fn get(&self) -> (r: u64)
        ensures
            r == self.id,
    {
        self.id
    }
}

impl GenericChannelId {
    /// Makes an Id from its number.
    pub fn new(id: u64) -> (r: Self)
        ensures
            r.id == id,
    {
        GenericChannelId { id }
    }

    /// The number of this Id.
    pub fn get(&self) -> (r: u64)
        ensures
            r == self.id,
    {
        self.id
    }
}

impl UserId {
    /// Makes an Id from its number.
    pub fn new(id: u64) -> (r: Self)
        ensures
            r.id == id,
    {
        UserId { id }
    }

    /// The number of this Id.
    pub fn get(&self) -> (r: u64)
        ensures
            r == self.id,
    {
        self.id
    }
}

impl RoleId {
    /// Makes an Id from its number.
    pub fn new(id: u64) -> (r: Self)
        ensures
            r.id == id,
    {
        RoleId { id }
    }

    /// The number of this Id.
    pub fn get(&self) -> (r: u64)
        ensures
            r == self.id,
    {
        self.id
    }
}

} // verus!
