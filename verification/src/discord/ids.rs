//! The identifiers of the things on Discord.
//!
//! An identifier is never zero. In the database it is kept in a signed column.

use vstd::prelude::*;

verus! {

/// The signed column value that stands for an unsigned one, bit for bit.
pub open spec fn column_of(x: u64) -> i64 {
    x as i64
}

/// The unsigned value that a signed column stands for, bit for bit.
pub open spec fn value_of(c: i64) -> u64 {
    c as u64
}

/// Reads an unsigned value as a signed column value.
pub fn to_column(x: u64) -> (r: i64)
    ensures
        r == column_of(x),
{
    x as i64
}

/// Reads a signed column value as an unsigned value.
pub fn from_column(c: i64) -> (r: u64)
    ensures
        r == value_of(c),
{
    c as u64
}

/// What is written to a column is what is read from it.
pub proof fn law_column_round_trip(x: u64)
    ensures
        value_of(column_of(x)) == x,
{
    assert((x as i64) as u64 == x) by (bit_vector);
}

/// No two values share a column value, and every column value stands for a value.
pub proof fn law_value_round_trip(c: i64)
    ensures
        column_of(value_of(c)) == c,
{
    assert((c as u64) as i64 == c) by (bit_vector);
}

proof fn lemma_column_nonzero(c: i64)
    requires
        c != 0,
    ensures
        value_of(c) != 0,
{
    assert(c != 0 ==> (c as u64) != 0) by (bit_vector);
}

/// A channel, a forum or a thread.
#[derive(Clone, Copy, Debug, PartialEq, Eq, Structural)]
pub struct ChannelId {
    raw: u64,
}

impl ChannelId {
    #[verifier::type_invariant]
    spec fn is_nonzero(self) -> bool {
        self.raw != 0
    }

    /// The number of the identifier.
    pub closed spec fn view(self) -> u64 {
        self.raw
    }

    /// The identifier with a given number.
    pub fn new(id: u64) -> (r: ChannelId)
        requires
            id != 0,
        ensures
            r@ == id,
    {
        ChannelId { raw: id }
    }

    /// The number of the identifier.
    pub fn get(self) -> (r: u64)
        ensures
            r == self@,
            r != 0,
    {
        proof {
            use_type_invariant(self);
        }
        self.raw
    }

    /// The identifier that a database column holds.
    pub fn from_column(c: i64) -> (r: ChannelId)
        requires
            c != 0,
        ensures
            r@ == value_of(c),
    {
        proof {
            lemma_column_nonzero(c);
        }
        ChannelId { raw: from_column(c) }
    }

    /// The database column value of the identifier.
    pub fn to_column(self) -> (r: i64)
        ensures
            r == column_of(self@),
    {
        to_column(self.raw)
    }

    /// Identifiers with the same number are the same.
    pub proof fn law_same_number(a: ChannelId, b: ChannelId)
        requires
            a@ == b@,
        ensures
            a == b,
    {
    }
}

impl Default for ChannelId {
    /// The least identifier.
    fn default() -> (r: ChannelId)
        ensures
            r@ == 1,
    {
        ChannelId { raw: 1 }
    }
}

/// A user.
#[derive(Clone, Copy, Debug, PartialEq, Eq, Structural)]
pub struct UserId {
    raw: u64,
}

impl UserId {
    #[verifier::type_invariant]
    spec fn is_nonzero(self) -> bool {
        self.raw != 0
    }

    /// The number of the identifier.
    pub closed spec fn view(self) -> u64 {
        self.raw
    }

    /// The identifier with a given number.
    pub fn new(id: u64) -> (r: UserId)
        requires
            id != 0,
        ensures
            r@ == id,
    {
        UserId { raw: id }
    }

    /// The number of the identifier.
    pub fn get(self) -> (r: u64)
        ensures
            r == self@,
            r != 0,
    {
        proof {
            use_type_invariant(self);
        }
        self.raw
    }

    /// The identifier that a database column holds.
    pub fn from_column(c: i64) -> (r: UserId)
        requires
            c != 0,
        ensures
            r@ == value_of(c),
    {
        proof {
            lemma_column_nonzero(c);
        }
        UserId { raw: from_column(c) }
    }

    /// The database column value of the identifier.
    pub fn to_column(self) -> (r: i64)
        ensures
            r == column_of(self@),
    {
        to_column(self.raw)
    }

    /// Identifiers with the same number are the same.
    pub proof fn law_same_number(a: UserId, b: UserId)
        requires
            a@ == b@,
        ensures
            a == b,
    {
    }
}

/// A message.
#[derive(Clone, Copy, Debug, PartialEq, Eq, Structural)]
pub struct MessageId {
    raw: u64,
}

impl MessageId {
    #[verifier::type_invariant]
    spec fn is_nonzero(self) -> bool {
        self.raw != 0
    }

    /// The number of the identifier.
    pub closed spec fn view(self) -> u64 {
        self.raw
    }

    /// The identifier with a given number.
    pub fn new(id: u64) -> (r: MessageId)
        requires
            id != 0,
        ensures
            r@ == id,
    {
        MessageId { raw: id }
    }

    /// The number of the identifier.
    pub fn get(self) -> (r: u64)
        ensures
            r == self@,
            r != 0,
    {
        proof {
            use_type_invariant(self);
        }
        self.raw
    }

    /// The identifier that a database column holds.
    pub fn from_column(c: i64) -> (r: MessageId)
        requires
            c != 0,
        ensures
            r@ == value_of(c),
    {
        proof {
            lemma_column_nonzero(c);
        }
        MessageId { raw: from_column(c) }
    }

    /// The database column value of the identifier.
    pub fn to_column(self) -> (r: i64)
        ensures
            r == column_of(self@),
    {
        to_column(self.raw)
    }

    /// Identifiers with the same number are the same.
    pub proof fn law_same_number(a: MessageId, b: MessageId)
        requires
            a@ == b@,
        ensures
            a == b,
    {
    }
}

/// A role of a guild.
#[derive(Clone, Copy, Debug, PartialEq, Eq, Structural)]
pub struct RoleId {
    raw: u64,
}

impl RoleId {
    #[verifier::type_invariant]
    spec fn is_nonzero(self) -> bool {
        self.raw != 0
    }

    /// The number of the identifier.
    pub closed spec fn view(self) -> u64 {
        self.raw
    }

    /// The identifier with a given number.
    pub fn new(id: u64) -> (r: RoleId)
        requires
            id != 0,
        ensures
            r@ == id,
    {
        RoleId { raw: id }
    }

    /// The number of the identifier.
    pub fn get(self) -> (r: u64)
        ensures
            r == self@,
            r != 0,
    {
        proof {
            use_type_invariant(self);
        }
        self.raw
    }

    /// The identifier that a database column holds.
    pub fn from_column(c: i64) -> (r: RoleId)
        requires
            c != 0,
        ensures
            r@ == value_of(c),
    {
        proof {
            lemma_column_nonzero(c);
        }
        RoleId { raw: from_column(c) }
    }

    /// The database column value of the identifier.
    pub fn to_column(self) -> (r: i64)
        ensures
            r == column_of(self@),
    {
        to_column(self.raw)
    }

    /// Identifiers with the same number are the same.
    pub proof fn law_same_number(a: RoleId, b: RoleId)
        requires
            a@ == b@,
        ensures
            a == b,
    {
    }
}

/// A tag that threads of a forum can carry.
#[derive(Clone, Copy, Debug, PartialEq, Eq, Structural)]
pub struct ForumTagId {
    raw: u64,
}

impl ForumTagId {
    #[verifier::type_invariant]
    spec fn is_nonzero(self) -> bool {
        self.raw != 0
    }

    /// The number of the identifier.
    pub closed spec fn view(self) -> u64 {
        self.raw
    }

    /// The identifier with a given number.
    pub fn new(id: u64) -> (r: ForumTagId)
        requires
            id != 0,
        ensures
            r@ == id,
    {
        ForumTagId { raw: id }
    }

    /// The number of the identifier.
    pub fn get(self) -> (r: u64)
        ensures
            r == self@,
            r != 0,
    {
        proof {
            use_type_invariant(self);
        }
        self.raw
    }

    /// The identifier that a database column holds.
    pub fn from_column(c: i64) -> (r: ForumTagId)
        requires
            c != 0,
        ensures
            r@ == value_of(c),
    {
        proof {
            lemma_column_nonzero(c);
        }
        ForumTagId { raw: from_column(c) }
    }

    /// The database column value of the identifier.
    pub fn to_column(self) -> (r: i64)
        ensures
            r == column_of(self@),
    {
        to_column(self.raw)
    }

    /// Identifiers with the same number are the same.
    pub proof fn law_same_number(a: ForumTagId, b: ForumTagId)
        requires
            a@ == b@,
        ensures
            a == b,
    {
    }
}

/// A guild.
#[derive(Clone, Copy, Debug, PartialEq, Eq, Structural)]
pub struct GuildId {
    raw: u64,
}

impl GuildId {
    #[verifier::type_invariant]
    spec fn is_nonzero(self) -> bool {
        self.raw != 0
    }

    /// The number of the identifier.
    pub closed spec fn view(self) -> u64 {
        self.raw
    }

    /// The identifier with a given number.
    pub fn new(id: u64) -> (r: GuildId)
        requires
            id != 0,
        ensures
            r@ == id,
    {
        GuildId { raw: id }
    }

    /// The number of the identifier.
    pub fn get(self) -> (r: u64)
        ensures
            r == self@,
            r != 0,
    {
        proof {
            use_type_invariant(self);
        }
        self.raw
    }

    /// The identifier that a database column holds.
    pub fn from_column(c: i64) -> (r: GuildId)
        requires
            c != 0,
        ensures
            r@ == value_of(c),
    {
        proof {
            lemma_column_nonzero(c);
        }
        GuildId { raw: from_column(c) }
    }

    /// The database column value of the identifier.
    pub fn to_column(self) -> (r: i64)
        ensures
            r == column_of(self@),
    {
        to_column(self.raw)
    }

    /// Identifiers with the same number are the same.
    pub proof fn law_same_number(a: GuildId, b: GuildId)
        requires
            a@ == b@,
        ensures
            a == b,
    {
    }
}

} // verus!
