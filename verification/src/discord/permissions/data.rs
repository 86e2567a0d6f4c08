//! Permission flags, and the record of who holds which.

use std::collections::HashMap;

use vstd::prelude::*;
use vstd::std_specs::hash::*;

use crate::discord::error::{DbError, HandledError};
use crate::discord::ids::{column_of, from_column, to_column, value_of};
use crate::discord::store::Statement;
use crate::text::chars::same_text;

verus! {

broadcast use vstd::std_specs::hash::group_hash_axioms;

/// A user or a role, by its number.
pub type Snowflake = u64;

/// A single permission.
#[derive(Clone, Copy, Debug, PartialEq, Eq, Structural)]
pub enum Permission {
    ContentReviewConfig,
    ContentReviewer,
    PermissionsView,
    PermissionsEdit,
    PrFeedsEdit,
}

impl Permission {
    /// The bit that stands for the permission.
    pub open spec fn bit(self) -> u64 {
        match self {
            Permission::ContentReviewConfig => 1,
            Permission::ContentReviewer => 2,
            Permission::PermissionsView => 4,
            Permission::PermissionsEdit => 8,
            Permission::PrFeedsEdit => 16,
        }
    }

    /// The permission's name.
    pub open spec fn name_text(self) -> Seq<char> {
        match self {
            Permission::ContentReviewConfig => "CONTENT_REVIEW_CONFIG"@,
            Permission::ContentReviewer => "CONTENT_REVIEWER"@,
            Permission::PermissionsView => "PERMISSIONS_VIEW"@,
            Permission::PermissionsEdit => "PERMISSIONS_EDIT"@,
            Permission::PrFeedsEdit => "PR_FEEDS_EDIT"@,
        }
    }

    /// The permission's name.
    pub fn name(self) -> (r: &'static str)
        ensures
            r@ == self.name_text(),
    {
        match self {
            Permission::ContentReviewConfig => "CONTENT_REVIEW_CONFIG",
            Permission::ContentReviewer => "CONTENT_REVIEWER",
            Permission::PermissionsView => "PERMISSIONS_VIEW",
            Permission::PermissionsEdit => "PERMISSIONS_EDIT",
            Permission::PrFeedsEdit => "PR_FEEDS_EDIT",
        }
    }

    /// The flags that hold this permission and no other.
    pub fn flags(self) -> (r: PermissionFlags)
        ensures
            r@ == self.bit(),
    {
        match self {
            Permission::ContentReviewConfig => PermissionFlags { bits: 1 },
            Permission::ContentReviewer => PermissionFlags { bits: 2 },
            Permission::PermissionsView => PermissionFlags { bits: 4 },
            Permission::PermissionsEdit => PermissionFlags { bits: 8 },
            Permission::PrFeedsEdit => PermissionFlags { bits: 16 },
        }
    }
}

/// All permissions, in order.
pub open spec fn all_permissions() -> Seq<Permission> {
    seq![
        Permission::ContentReviewConfig,
        Permission::ContentReviewer,
        Permission::PermissionsView,
        Permission::PermissionsEdit,
        Permission::PrFeedsEdit,
    ]
}

/// The bits of all permissions together.
pub const ALL_BITS: u64 = 31;

/// A set of permissions, one bit for each.
#[derive(Clone, Copy, Debug, PartialEq, Eq, Structural)]
pub struct PermissionFlags {
    bits: u64,
}

impl PermissionFlags {
    #[verifier::type_invariant]
    spec fn is_known(self) -> bool {
        self.bits <= ALL_BITS
    }

    /// The bits of the set.
    pub closed spec fn view(self) -> u64 {
        self.bits
    }

    /// Whether the set holds a permission.
    pub open spec fn grants(self, p: Permission) -> bool {
        self@ & p.bit() == p.bit()
    }

    /// Whether the set holds every permission of another.
    pub open spec fn covers(self, other: PermissionFlags) -> bool {
        self@ & other@ == other@
    }

    spec fn held_one(self, p: Permission) -> Seq<Permission> {
        if self.grants(p) {
            seq![p]
        } else {
            Seq::empty()
        }
    }

    /// The permissions of the set, in order.
    pub open spec fn granted(self) -> Seq<Permission> {
        all_permissions().filter(|p: Permission| self.grants(p))
    }

    /// No permission at all.
    pub fn empty() -> (r: PermissionFlags)
        ensures
            r@ == 0,
    {
        PermissionFlags { bits: 0 }
    }

    /// Every permission.
    pub fn all() -> (r: PermissionFlags)
        ensures
            r@ == ALL_BITS,
    {
        PermissionFlags { bits: ALL_BITS }
    }

    /// The bits of the set.
    pub fn bits(self) -> (r: u64)
        ensures
            r == self@,
            r <= ALL_BITS,
    {
        proof {
            use_type_invariant(self);
        }
        self.bits
    }

    /// The set with the given bits, unless one of them stands for no permission.
    pub fn from_bits(bits: u64) -> (r: Option<PermissionFlags>)
        ensures
            r is Some <==> bits & !ALL_BITS == 0,
            r is Some ==> r->0@ == bits,
    {
        assert(bits & !31u64 == 0 <==> bits <= 31) by (bit_vector);
        if bits <= ALL_BITS {
            Some(PermissionFlags { bits })
        } else {
            None
        }
    }

    /// Whether the set is empty.
    pub fn is_empty(self) -> (r: bool)
        ensures
            r == (self@ == 0),
    {
        self.bits == 0
    }

    /// Whether the set holds every permission of `other`.
    pub fn contains(self, other: PermissionFlags) -> (r: bool)
        ensures
            r == self.covers(other),
    {
        self.bits & other.bits == other.bits
    }

    /// Whether the set holds a permission.
    pub fn has(self, p: Permission) -> (r: bool)
        ensures
            r == self.grants(p),
    {
        self.contains(p.flags())
    }

    /// The permissions of either set.
    pub fn union(self, other: PermissionFlags) -> (r: PermissionFlags)
        ensures
            r@ == self@ | other@,
    {
        proof {
            use_type_invariant(self);
            use_type_invariant(other);
        }
        let ghost a = self.bits;
        let ghost b = other.bits;
        assert(a <= 31 && b <= 31 ==> (a | b) <= 31) by (bit_vector);
        PermissionFlags { bits: self.bits | other.bits }
    }

    /// The permissions of this set that the other lacks.
    pub fn difference(self, other: PermissionFlags) -> (r: PermissionFlags)
        ensures
            r@ == self@ & !other@,
    {
        proof {
            use_type_invariant(self);
        }
        let ghost a = self.bits;
        let ghost b = other.bits;
        assert(a <= 31 ==> (a & !b) <= 31) by (bit_vector);
        PermissionFlags { bits: self.bits & !other.bits }
    }

    /// The permissions of the set, in order.
    pub fn iter_names(self) -> (r: Vec<Permission>)
        ensures
            r@ == self.granted(),
    {
        let mut out: Vec<Permission> = Vec::new();
        if self.has(Permission::ContentReviewConfig) {
            out.push(Permission::ContentReviewConfig);
        }
        if self.has(Permission::ContentReviewer) {
            out.push(Permission::ContentReviewer);
        }
        if self.has(Permission::PermissionsView) {
            out.push(Permission::PermissionsView);
        }
        if self.has(Permission::PermissionsEdit) {
            out.push(Permission::PermissionsEdit);
        }
        if self.has(Permission::PrFeedsEdit) {
            out.push(Permission::PrFeedsEdit);
        }
        proof {
            self.lemma_granted();
        }
        out
    }

    proof fn lemma_granted(self)
        ensures
            self.granted() == self.held_one(Permission::ContentReviewConfig) + self.held_one(
                Permission::ContentReviewer,
            ) + self.held_one(Permission::PermissionsView) + self.held_one(
                Permission::PermissionsEdit,
            ) + self.held_one(Permission::PrFeedsEdit),
    {
        reveal_with_fuel(Seq::filter, 6);
        let all = all_permissions();
        let f = |p: Permission| self.grants(p);
        assert(all.drop_last() =~= seq![
            Permission::ContentReviewConfig,
            Permission::ContentReviewer,
            Permission::PermissionsView,
            Permission::PermissionsEdit,
        ]);
        assert(all.drop_last().drop_last() =~= seq![
            Permission::ContentReviewConfig,
            Permission::ContentReviewer,
            Permission::PermissionsView,
        ]);
        assert(all.drop_last().drop_last().drop_last() =~= seq![
            Permission::ContentReviewConfig,
            Permission::ContentReviewer,
        ]);
        assert(all.drop_last().drop_last().drop_last().drop_last() =~= seq![
            Permission::ContentReviewConfig,
        ]);
        assert(all.drop_last().drop_last().drop_last().drop_last().drop_last() =~= Seq::<
            Permission,
        >::empty());
        assert(self.granted() =~= self.held_one(Permission::ContentReviewConfig) + self.held_one(
            Permission::ContentReviewer,
        ) + self.held_one(Permission::PermissionsView) + self.held_one(Permission::PermissionsEdit)
            + self.held_one(Permission::PrFeedsEdit));
    }

    /// The names of all permissions, in order: what a user can choose from.
    pub fn list() -> (r: Vec<&'static str>)
        ensures
            r@.map_values(|n: &'static str| n@) == all_permissions().map_values(
                |p: Permission| p.name_text(),
            ),
    {
        let mut out: Vec<&'static str> = Vec::new();
        out.push(Permission::ContentReviewConfig.name());
        out.push(Permission::ContentReviewer.name());
        out.push(Permission::PermissionsView.name());
        out.push(Permission::PermissionsEdit.name());
        out.push(Permission::PrFeedsEdit.name());
        assert(out@.map_values(|n: &'static str| n@) =~= all_permissions().map_values(
            |p: Permission| p.name_text(),
        ));
        out
    }

    /// The flags of the permission at a place of the list.
    pub fn from_index(index: usize) -> (r: Option<PermissionFlags>)
        ensures
            r is Some <==> index < all_permissions().len(),
            r is Some ==> r->0@ == all_permissions()[index as int].bit(),
    {
        if index == 0 {
            Some(Permission::ContentReviewConfig.flags())
        } else if index == 1 {
            Some(Permission::ContentReviewer.flags())
        } else if index == 2 {
            Some(Permission::PermissionsView.flags())
        } else if index == 3 {
            Some(Permission::PermissionsEdit.flags())
        } else if index == 4 {
            Some(Permission::PrFeedsEdit.flags())
        } else {
            None
        }
    }

    /// The flags of the permission with a given name.
    pub fn from_name(name: &str) -> (r: Option<PermissionFlags>)
        ensures
            r is Some <==> exists|p: Permission| #[trigger] p.name_text() == name@,
            forall|p: Permission| #[trigger]
                p.name_text() == name@ ==> r is Some && r->0@ == p.bit(),
    {
        proof {
            lemma_names_differ();
        }
        if same_text(name, Permission::ContentReviewConfig.name()) {
            Some(Permission::ContentReviewConfig.flags())
        } else if same_text(name, Permission::ContentReviewer.name()) {
            Some(Permission::ContentReviewer.flags())
        } else if same_text(name, Permission::PermissionsView.name()) {
            Some(Permission::PermissionsView.flags())
        } else if same_text(name, Permission::PermissionsEdit.name()) {
            Some(Permission::PermissionsEdit.flags())
        } else if same_text(name, Permission::PrFeedsEdit.name()) {
            Some(Permission::PrFeedsEdit.flags())
        } else {
            None
        }
    }

    /// The name of the first permission of the set.
    pub fn name(self) -> (r: &'static str)
        requires
            self@ != 0,
        ensures
            self.granted().len() > 0,
            r@ == self.granted()[0].name_text(),
    {
        let held = self.iter_names();
        proof {
            use_type_invariant(self);
            let b = self.bits;
            assert(b != 0 && b <= 31 ==> b & 1 == 1 || b & 2 == 2 || b & 4 == 4 || b & 8 == 8 || b
                & 16 == 16) by (bit_vector);
            self.lemma_granted();
        }
        held[0].name()
    }

    /// Permissions are named the same in every language.
    pub fn localized_name(self, _locale: &str) -> (r: Option<&'static str>)
        ensures
            r is None,
    {
        None
    }
}

/// No two permissions share a name.
proof fn lemma_names_differ()
    ensures
        forall|p: Permission, q: Permission| #[trigger] p.name_text() == #[trigger] q.name_text() ==> p == q,
{
    reveal_strlit("CONTENT_REVIEW_CONFIG");
    reveal_strlit("CONTENT_REVIEWER");
    reveal_strlit("PERMISSIONS_VIEW");
    reveal_strlit("PERMISSIONS_EDIT");
    reveal_strlit("PR_FEEDS_EDIT");
    assert forall|p: Permission, q: Permission| #[trigger] p.name_text() == #[trigger] q.name_text() implies p
        == q by {
        assert(p.name_text().len() == q.name_text().len());
        assert(p.name_text().len() == 16 ==> p.name_text()[13] == q.name_text()[13]);
    }
}

/// A permission added to a set is in it, and every other one is in it as before.
pub proof fn law_union_grants(a: PermissionFlags, b: PermissionFlags, c: PermissionFlags, p: Permission)
    requires
        c@ == a@ | b@,
    ensures
        c.grants(p) == (a.grants(p) || b.grants(p)),
{
    let x = a@;
    let y = b@;
    let k = p.bit();
    assert(k == 1 || k == 2 || k == 4 || k == 8 || k == 16 ==> ((x | y) & k == k) == (x & k == k
        || y & k == k)) by (bit_vector);
}

/// A permission taken from a set is no longer in it, and every other one is in it as before.
pub proof fn law_difference_grants(
    a: PermissionFlags,
    b: PermissionFlags,
    c: PermissionFlags,
    p: Permission,
)
    requires
        c@ == a@ & !b@,
    ensures
        c.grants(p) == (a.grants(p) && !b.grants(p)),
{
    let x = a@;
    let y = b@;
    let k = p.bit();
    assert(k == 1 || k == 2 || k == 4 || k == 8 || k == 16 ==> ((x & !y) & k == k) == (x & k == k
        && !(y & k == k))) by (bit_vector);
}

/// One set covers another exactly if it holds each of its permissions.
pub proof fn law_covers_is_subset(a: PermissionFlags, b: PermissionFlags)
    requires
        a@ <= ALL_BITS,
        b@ <= ALL_BITS,
    ensures
        a.covers(b) <==> forall|p: Permission| #[trigger] b.grants(p) ==> a.grants(p),
{
    let x = a@;
    let y = b@;
    assert(x & y == y ==> (y & 1 == 1 ==> x & 1 == 1) && (y & 2 == 2 ==> x & 2 == 2) && (y & 4 == 4
        ==> x & 4 == 4) && (y & 8 == 8 ==> x & 8 == 8) && (y & 16 == 16 ==> x & 16 == 16))
        by (bit_vector);
    assert(y <= 31 && (y & 1 == 1 ==> x & 1 == 1) && (y & 2 == 2 ==> x & 2 == 2) && (y & 4 == 4
        ==> x & 4 == 4) && (y & 8 == 8 ==> x & 8 == 8) && (y & 16 == 16 ==> x & 16 == 16) ==> x & y
        == y) by (bit_vector);
    if forall|p: Permission| #[trigger] b.grants(p) ==> a.grants(p) {
        assert(b.grants(Permission::ContentReviewConfig) ==> a.grants(
            Permission::ContentReviewConfig,
        ));
        assert(b.grants(Permission::ContentReviewer) ==> a.grants(Permission::ContentReviewer));
        assert(b.grants(Permission::PermissionsView) ==> a.grants(Permission::PermissionsView));
        assert(b.grants(Permission::PermissionsEdit) ==> a.grants(Permission::PermissionsEdit));
        assert(b.grants(Permission::PrFeedsEdit) ==> a.grants(Permission::PrFeedsEdit));
    }
}

/// The permissions of users and roles, as far as they have been asked for.
pub struct Permissions {
    cache: HashMap<Snowflake, PermissionFlags>,
}

impl Permissions {
    /// The flags that are known without asking the database.
    pub closed spec fn view(self) -> Map<Snowflake, PermissionFlags> {
        self.cache@
    }

    /// Nothing is known yet.
    pub fn new() -> (r: Permissions)
        ensures
            r@ == Map::<Snowflake, PermissionFlags>::empty(),
    {
        Permissions { cache: HashMap::new() }
    }

    /// The flags of `id`, if they are known without asking the database.
    pub fn cached(&self, id: Snowflake) -> (r: Option<PermissionFlags>)
        ensures
            r == if self@.contains_key(id) {
                Some(self@[id])
            } else {
                None
            },
    {
        match self.cache.get(&id) {
            Some(flags) => Some(*flags),
            None => None,
        }
    }

    /// Asks for the flags of `id`.
    pub fn get_flags_statement(id: Snowflake) -> (r: Statement)
        ensures
            r == (Statement::SelectFlags { snowflake: column_of(id) }),
    {
        Statement::SelectFlags { snowflake: to_column(id) }
    }

    /// The flags of `id`: those known already, else those of the row that the database found.
    ///
    /// A row that is not there stands for no permissions. A row with an unknown bit, or a failed
    /// query, is an error. What was found out is known from then on.
    pub fn get_flags(&mut self, id: Snowflake, row: Result<Option<i64>, DbError>) -> (r: Result<
        PermissionFlags,
        HandledError,
    >)
        ensures
            match flags_bits(old(self)@, id, row) {
                Some(bits) => r is Ok && r->Ok_0@ == bits && final(self)@ == old(self)@.insert(
                    id,
                    r->Ok_0,
                ),
                None => r == Err::<PermissionFlags, HandledError>(HandledError::InternalError)
                    && final(self)@ == old(self)@,
            },
    {
        if let Some(cached) = self.cached(id) {
            assert(self@ =~= self@.insert(id, cached));
            return Ok(cached);
        }
        match row {
            Ok(Some(column)) => match PermissionFlags::from_bits(from_column(column)) {
                Some(flags) => {
                    self.cache.insert(id, flags);
                    Ok(flags)
                },
                None => Err(HandledError::InternalError),
            },
            Ok(None) => {
                let flags = PermissionFlags::empty();
                self.cache.insert(id, flags);
                Ok(flags)
            },
            Err(_) => Err(HandledError::InternalError),
        }
    }

    /// Whether `id` has all of the expected flags; not if its flags cannot be told.
    pub fn has_flags(
        &mut self,
        id: Snowflake,
        expected_flags: PermissionFlags,
        row: Result<Option<i64>, DbError>,
    ) -> (r: bool)
        ensures
            r == match flags_bits(old(self)@, id, row) {
                Some(bits) => bits & expected_flags@ == expected_flags@,
                None => false,
            },
            match flags_bits(old(self)@, id, row) {
                Some(bits) => knows(old(self)@, final(self)@, id, bits),
                None => final(self)@ == old(self)@,
            },
    {
        match self.get_flags(id, row) {
            Ok(actual_flags) => {
                assert(final(self)@ == old(self)@.insert(id, actual_flags));
                actual_flags.contains(expected_flags)
            },
            Err(_) => false,
        }
    }

    /// Writes the flags of `id`; an empty set is not kept.
    pub fn set_flags_statement(id: Snowflake, flags: PermissionFlags) -> (r: Statement)
        ensures
            r == flags_statement(id, flags@),
    {
        if flags.is_empty() {
            Statement::DeleteFlags { snowflake: to_column(id) }
        } else {
            Statement::UpsertFlags { snowflake: to_column(id), flags: to_column(flags.bits()) }
        }
    }

    /// Takes note of the new flags of `id`, once the database has written them.
    ///
    /// That there was nothing to remove is no failure.
    pub fn set_flags(
        &mut self,
        id: Snowflake,
        flags: PermissionFlags,
        written: Result<(), DbError>,
    ) -> (r: Result<(), HandledError>)
        ensures
            r == set_result(flags@, written),
            final(self)@ == if written is Ok {
                old(self)@.insert(id, flags)
            } else {
                old(self)@
            },
    {
        if flags.is_empty() {
            match written {
                Ok(_) => {
                    self.cache.insert(id, flags);
                    Ok(())
                },
                Err(DbError::RowNotFound) => Ok(()),
                Err(DbError::Other) => Err(HandledError::InternalError),
            }
        } else {
            match written {
                Ok(_) => {
                    self.cache.insert(id, flags);
                    Ok(())
                },
                Err(_) => Err(HandledError::InternalError),
            }
        }
    }

    /// Writes the flags of `id` without `flags`. It is not written where the current flags cannot be told.
    pub fn remove_flags_statement(
        &mut self,
        id: Snowflake,
        flags: PermissionFlags,
        row: Result<Option<i64>, DbError>,
    ) -> (r: Result<Statement, HandledError>)
        ensures
            match flags_bits(old(self)@, id, row) {
                Some(bits) => r == Ok::<Statement, HandledError>(
                    flags_statement(id, bits_without(bits, flags@)),
                ) && knows(old(self)@, final(self)@, id, bits),
                None => r == Err::<Statement, HandledError>(HandledError::InternalError)
                    && final(self)@ == old(self)@,
            },
    {
        match self.get_flags(id, row) {
            Ok(current) => Ok(Self::set_flags_statement(id, current.difference(flags))),
            Err(e) => Err(e),
        }
    }

    /// Takes note that `flags` were taken from `id`, once the database has.
    pub fn remove_flags(
        &mut self,
        id: Snowflake,
        flags: PermissionFlags,
        row: Result<Option<i64>, DbError>,
        written: Result<(), DbError>,
    ) -> (r: Result<(), HandledError>)
        ensures
            match flags_bits(old(self)@, id, row) {
                Some(bits) => r == set_result(bits_without(bits, flags@), written) && knows(
                    old(self)@,
                    final(self)@,
                    id,
                    if written is Ok {
                        bits_without(bits, flags@)
                    } else {
                        bits
                    },
                ),
                None => r == Err::<(), HandledError>(HandledError::InternalError) && final(self)@
                    == old(self)@,
            },
    {
        match self.get_flags(id, row) {
            Ok(current) => {
                let new = current.difference(flags);
                assert(old(self)@.insert(id, current).insert(id, new) =~= old(self)@.insert(id, new));
                self.set_flags(id, new, written)
            },
            Err(e) => Err(e),
        }
    }

    /// Writes the flags of `id` with `flags`. It is not written where the current flags cannot be told.
    pub fn add_flags_statement(
        &mut self,
        id: Snowflake,
        flags: PermissionFlags,
        row: Result<Option<i64>, DbError>,
    ) -> (r: Result<Statement, HandledError>)
        ensures
            match flags_bits(old(self)@, id, row) {
                Some(bits) => r == Ok::<Statement, HandledError>(
                    flags_statement(id, bits_with(bits, flags@)),
                ) && knows(old(self)@, final(self)@, id, bits),
                None => r == Err::<Statement, HandledError>(HandledError::InternalError)
                    && final(self)@ == old(self)@,
            },
    {
        match self.get_flags(id, row) {
            Ok(current) => Ok(Self::set_flags_statement(id, current.union(flags))),
            Err(e) => Err(e),
        }
    }

    /// Takes note that `flags` were given to `id`, once the database has.
    pub fn add_flags(
        &mut self,
        id: Snowflake,
        flags: PermissionFlags,
        row: Result<Option<i64>, DbError>,
        written: Result<(), DbError>,
    ) -> (r: Result<(), HandledError>)
        ensures
            match flags_bits(old(self)@, id, row) {
                Some(bits) => r == set_result(bits_with(bits, flags@), written) && knows(
                    old(self)@,
                    final(self)@,
                    id,
                    if written is Ok {
                        bits_with(bits, flags@)
                    } else {
                        bits
                    },
                ),
                None => r == Err::<(), HandledError>(HandledError::InternalError) && final(self)@
                    == old(self)@,
            },
    {
        match self.get_flags(id, row) {
            Ok(current) => {
                let new = current.union(flags);
                assert(old(self)@.insert(id, current).insert(id, new) =~= old(self)@.insert(id, new));
                self.set_flags(id, new, written)
            },
            Err(e) => Err(e),
        }
    }
}

/// The statement that writes flags; an empty set is not kept.
pub open spec fn flags_statement(id: Snowflake, bits: u64) -> Statement {
    if bits == 0 {
        Statement::DeleteFlags { snowflake: column_of(id) }
    } else {
        Statement::UpsertFlags { snowflake: column_of(id), flags: column_of(bits) }
    }
}

/// The bits of a set to which others are added.
pub open spec fn bits_with(bits: u64, added: u64) -> u64 {
    bits | added
}

/// The bits of a set from which others are taken.
pub open spec fn bits_without(bits: u64, taken: u64) -> u64 {
    bits & !taken
}

/// What setting flags comes to: that there was nothing to remove is no failure.
pub open spec fn set_result(bits: u64, written: Result<(), DbError>) -> Result<(), HandledError> {
    if written is Ok || (bits == 0 && written == Err::<(), DbError>(DbError::RowNotFound)) {
        Ok(())
    } else {
        Err(HandledError::InternalError)
    }
}

/// Whether the flags of `id` are now known to have the given bits, and all else is as before.
pub open spec fn knows(
    before: Map<Snowflake, PermissionFlags>,
    after: Map<Snowflake, PermissionFlags>,
    id: Snowflake,
    bits: u64,
) -> bool {
    exists|f: PermissionFlags| f@ == bits && after == #[trigger] before.insert(id, f)
}

/// The bits of the flags of `id`: those known, else those of the row that the database found.
/// There are none where the row holds an unknown bit or could not be read.
pub open spec fn flags_bits(
    known: Map<Snowflake, PermissionFlags>,
    id: Snowflake,
    row: Result<Option<i64>, DbError>,
) -> Option<u64> {
    if known.contains_key(id) {
        Some(known[id]@)
    } else {
        match row {
            Ok(Some(column)) => if value_of(column) & !ALL_BITS == 0 {
                Some(value_of(column))
            } else {
                None
            },
            Ok(None) => Some(0),
            Err(_) => None,
        }
    }
}

/// Once flags are set, they are what is found, whatever the database would answer.
pub proof fn law_set_flags_are_found(
    known: Map<Snowflake, PermissionFlags>,
    id: Snowflake,
    flags: PermissionFlags,
    row: Result<Option<i64>, DbError>,
)
    ensures
        flags_bits(known.insert(id, flags), id, row) == Some(flags@),
{
}

/// A permission that was given is found, and one that was taken is not.
pub proof fn law_changed_flags_are_found(
    before: Map<Snowflake, PermissionFlags>,
    after: Map<Snowflake, PermissionFlags>,
    id: Snowflake,
    bits: u64,
    p: Permission,
    row: Result<Option<i64>, DbError>,
)
    ensures
        knows(before, after, id, bits | p.bit()) ==> {
            &&& flags_bits(after, id, row) is Some
            &&& flags_bits(after, id, row)->0 & p.bit() == p.bit()
        },
        knows(before, after, id, bits & !p.bit()) ==> {
            &&& flags_bits(after, id, row) is Some
            &&& flags_bits(after, id, row)->0 & p.bit() != p.bit()
        },
{
    let k = p.bit();
    assert(((bits | k) & k) == k) by (bit_vector);
    assert(k == 1 || k == 2 || k == 4 || k == 8 || k == 16 ==> ((bits & !k) & k) != k)
        by (bit_vector);
}

/// Setting the flags of one user or role leaves those of every other as they are.
pub proof fn law_set_flags_touch_no_other(
    known: Map<Snowflake, PermissionFlags>,
    id: Snowflake,
    flags: PermissionFlags,
    other: Snowflake,
    row: Result<Option<i64>, DbError>,
)
    requires
        other != id,
    ensures
        flags_bits(known.insert(id, flags), other, row) == flags_bits(known, other, row),
{
}

/// Flags that the database was asked to keep are read back from it unchanged.
pub proof fn law_stored_flags_read_back(
    known: Map<Snowflake, PermissionFlags>,
    id: Snowflake,
    flags: PermissionFlags,
)
    requires
        !known.contains_key(id),
        flags@ <= ALL_BITS,
    ensures
        flags_bits(known, id, Ok(Some(column_of(flags@)))) == Some(flags@),
{
    crate::discord::ids::law_column_round_trip(flags@);
    let b = flags@;
    assert(b <= 31 ==> b & !31u64 == 0) by (bit_vector);
}

/// Each permission has a bit of its own, in the order of the list, and all bits together are all
/// permissions.
pub proof fn law_permissions_have_their_bits(p: Permission, q: Permission)
    ensures
        p.bit() == q.bit() ==> p == q,
        all_permissions().len() == 5,
        all_permissions().contains(p),
        p.bit() & ALL_BITS == p.bit(),
        forall|i: int|
            0 <= i < 4 ==> (#[trigger] all_permissions()[i + 1]).bit() == 2 * all_permissions()[i].bit(),
        all_permissions()[0] == Permission::ContentReviewConfig,
        all_permissions()[0].bit() == 1,
        all_permissions()[1] == Permission::ContentReviewer,
        all_permissions()[2] == Permission::PermissionsView,
        all_permissions()[3] == Permission::PermissionsEdit,
        all_permissions()[4] == Permission::PrFeedsEdit,
{
    let k = p.bit();
    assert(k == 1 || k == 2 || k == 4 || k == 8 || k == 16 ==> k & 31 == k) by (bit_vector);
    let all = all_permissions();
    match p {
        Permission::ContentReviewConfig => assert(all[0] == p),
        Permission::ContentReviewer => assert(all[1] == p),
        Permission::PermissionsView => assert(all[2] == p),
        Permission::PermissionsEdit => assert(all[3] == p),
        Permission::PrFeedsEdit => assert(all[4] == p),
    }
}

/// Whoever is given permissions has those and keeps their own; from whom permissions are taken, those
/// are gone and the others stay.
pub proof fn law_given_and_taken_bits(bits: u64, change: u64, p: Permission)
    ensures
        bits_with(bits, change) & p.bit() == p.bit() <==> bits & p.bit() == p.bit() || change
            & p.bit() == p.bit(),
        bits_without(bits, change) & p.bit() == p.bit() <==> bits & p.bit() == p.bit() && change
            & p.bit() != p.bit(),
        bits <= ALL_BITS && change <= ALL_BITS ==> bits_with(bits, change) <= ALL_BITS,
{
    let k = p.bit();
    assert(k == 1 || k == 2 || k == 4 || k == 8 || k == 16 ==> ((bits | change) & k == k) == (bits
        & k == k || change & k == k)) by (bit_vector);
    assert(k == 1 || k == 2 || k == 4 || k == 8 || k == 16 ==> ((bits & !change) & k == k) == (bits
        & k == k && change & k != k)) by (bit_vector);
    assert(bits <= 31 && change <= 31 ==> (bits | change) <= 31) by (bit_vector);
}

/// What is found of a user or role is what is known of them, else what the database holds: nothing
/// where it has no row. What it holds counts only if every bit of it is known.
pub proof fn law_flags_come_from_the_database(
    known: Map<Snowflake, PermissionFlags>,
    id: Snowflake,
    bits: u64,
    error: DbError,
)
    requires
        !known.contains_key(id),
    ensures
        bits <= ALL_BITS ==> flags_bits(known, id, Ok(Some(column_of(bits)))) == Some(bits),
        bits > ALL_BITS ==> flags_bits(known, id, Ok(Some(column_of(bits)))) is None,
        flags_bits(known, id, Ok(None)) == Some(0u64),
        flags_bits(known, id, Err(error)) is None,
{
    crate::discord::ids::law_column_round_trip(bits);
    assert(bits <= 31 <==> bits & !31 == 0) by (bit_vector);
}

/// Empty flags are removed from the database, and others are written to it, under the one they belong
/// to. It fails exactly if the database does; that there was nothing to remove is no failure.
pub proof fn law_flags_are_written(id: Snowflake, bits: u64, written: Result<(), DbError>)
    ensures
        bits == 0 ==> flags_statement(id, bits) == (Statement::DeleteFlags {
            snowflake: column_of(id),
        }),
        bits != 0 ==> flags_statement(id, bits) == (Statement::UpsertFlags {
            snowflake: column_of(id),
            flags: column_of(bits),
        }),
        set_result(bits, written) is Ok <==> written is Ok || (bits == 0 && written == Err::<
            (),
            DbError,
        >(DbError::RowNotFound)),
{
}

} // verus!
