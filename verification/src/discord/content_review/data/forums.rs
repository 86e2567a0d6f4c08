//! The forums that reviews are held in.

use vstd::prelude::*;

use crate::discord::ids::{column_of, ChannelId, ForumTagId};
use crate::discord::store::Statement;

verus! {

/// A forum, and the tags that its threads get.
#[derive(Clone, Copy, Debug, PartialEq, Eq, Structural)]
pub struct ForumRecord {
    pub channel_id: ChannelId,
    pub private: bool,
    pub tag_cr_approved: ForumTagId,
    pub tag_cr_denied: ForumTagId,
    pub tag_cr_test_merge: ForumTagId,
    pub tag_pr_closed: ForumTagId,
    pub tag_pr_merged: ForumTagId,
}

impl ForumRecord {
    /// Asks for the record of a forum.
    pub fn get_by_channel_statement(channel_id: ChannelId) -> (r: Statement)
        ensures
            r == (Statement::SelectForum { channel_id: column_of(channel_id@) }),
    {
        Statement::SelectForum { channel_id: channel_id.to_column() }
    }

    /// The statement that writes this record.
    pub open spec fn upsertion(self) -> Statement {
        Statement::UpsertForum {
            channel_id: column_of(self.channel_id@),
            private: self.private,
            tag_cr_approved: column_of(self.tag_cr_approved@),
            tag_cr_denied: column_of(self.tag_cr_denied@),
            tag_cr_test_merge: column_of(self.tag_cr_test_merge@),
            tag_pr_closed: column_of(self.tag_pr_closed@),
            tag_pr_merged: column_of(self.tag_pr_merged@),
        }
    }

    /// Writes this record, in place of any that the forum has.
    pub fn upsert_statement(&self) -> (r: Statement)
        ensures
            r == self.upsertion(),
    {
        Statement::UpsertForum {
            channel_id: self.channel_id.to_column(),
            private: self.private,
            tag_cr_approved: self.tag_cr_approved.to_column(),
            tag_cr_denied: self.tag_cr_denied.to_column(),
            tag_cr_test_merge: self.tag_cr_test_merge.to_column(),
            tag_pr_closed: self.tag_pr_closed.to_column(),
            tag_pr_merged: self.tag_pr_merged.to_column(),
        }
    }
}

/// Removes the record of a forum.
pub fn delete_forum_by_channel_statement(channel_id: ChannelId) -> (r: Statement)
    ensures
        r == (Statement::DeleteForum { channel_id: column_of(channel_id@) }),
{
    Statement::DeleteForum { channel_id: channel_id.to_column() }
}

} // verus!
