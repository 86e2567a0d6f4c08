//! What the database holds of issues and votes, and what the statements about them mean.

use vstd::prelude::*;

use crate::discord::content_review::data::discussions::DiscussionRecord;
use crate::discord::ids::{column_of, law_column_round_trip, MessageId, UserId};
use crate::discord::store::Statement;

verus! {

/// The issues and the votes to override: the message of each, by pull request and user. The votes
/// against one issue are kept by pull request, author of the issue and user.
pub struct Ledger {
    pub issues: Map<(i64, i64), i64>,
    pub overrides: Map<(i64, i64), i64>,
    pub against: Map<(i64, i64, i64), i64>,
}

/// The message that is kept under a pull request and a user, if there is one.
pub open spec fn entry(kept: Map<(i64, i64), i64>, pr_id: i64, user_id: i64) -> Option<i64> {
    if kept.contains_key((pr_id, user_id)) {
        Some(kept[(pr_id, user_id)])
    } else {
        None
    }
}

/// The message of a user's vote against one issue, if there is one.
pub open spec fn vote_against(
    kept: Map<(i64, i64, i64), i64>,
    pr_id: i64,
    issue_author: i64,
    user_id: i64,
) -> Option<i64> {
    if kept.contains_key((pr_id, issue_author, user_id)) {
        Some(kept[(pr_id, issue_author, user_id)])
    } else {
        None
    }
}

/// The keys of what is kept under one pull request.
pub open spec fn keys_of(kept: Map<(i64, i64), i64>, pr_id: i64) -> Set<(i64, i64)> {
    kept.dom().filter(|key: (i64, i64)| key.0 == pr_id)
}

impl Ledger {
    /// Whether only so much is kept as a database can hold.
    pub open spec fn finite(self) -> bool {
        &&& self.issues.dom().finite()
        &&& self.overrides.dom().finite()
        &&& self.against.dom().finite()
    }

    /// What a statement makes of the issues and votes.
    pub open spec fn apply(self, statement: Statement) -> Ledger {
        match statement {
            Statement::UpsertIssue { pr_id, user_id, message_id } => Ledger {
                issues: self.issues.insert((pr_id, user_id), message_id),
                ..self
            },
            Statement::DeleteIssueByAuthor { pr_id, user_id } => Ledger {
                issues: self.issues.remove((pr_id, user_id)),
                ..self
            },
            Statement::UpsertOverride { pr_id, user_id, message_id } => Ledger {
                overrides: self.overrides.insert((pr_id, user_id), message_id),
                ..self
            },
            Statement::DeleteOverrideByAuthor { pr_id, user_id } => Ledger {
                overrides: self.overrides.remove((pr_id, user_id)),
                ..self
            },
            Statement::DeleteOverrides { pr_id } => Ledger {
                overrides: Map::new(
                    |key: (i64, i64)| self.overrides.contains_key(key) && key.0 != pr_id,
                    |key: (i64, i64)| self.overrides[key],
                ),
                ..self
            },
            Statement::UpsertIssueOverride { pr_id, issue_author, user_id, message_id } => Ledger {
                against: self.against.insert((pr_id, issue_author, user_id), message_id),
                ..self
            },
            _ => self,
        }
    }

    /// The message that a question for an issue or a vote is answered with, if there is one.
    pub open spec fn find(self, statement: Statement) -> Option<i64> {
        match statement {
            Statement::SelectIssueByAuthor { pr_id, user_id } => entry(self.issues, pr_id, user_id),
            Statement::SelectOverrideByAuthor { pr_id, user_id } => entry(
                self.overrides,
                pr_id,
                user_id,
            ),
            Statement::SelectIssueOverride { pr_id, issue_author, user_id } => vote_against(
                self.against,
                pr_id,
                issue_author,
                user_id,
            ),
            _ => None,
        }
    }

    /// The number that a question for how many issues or votes a discussion has is answered with.
    pub open spec fn count(self, statement: Statement) -> nat {
        match statement {
            Statement::CountIssues { pr_id } => keys_of(self.issues, pr_id).len(),
            Statement::CountOverrides { pr_id } => keys_of(self.overrides, pr_id).len(),
            _ => 0,
        }
    }

    /// The users and messages that a question for all issues or votes of a discussion, or for all
    /// votes against one issue, is answered with.
    pub open spec fn list(self, statement: Statement) -> Set<(i64, i64)> {
        match statement {
            Statement::SelectIssues { pr_id } => Set::new(
                |vote: (i64, i64)| entry(self.issues, pr_id, vote.0) == Some(vote.1),
            ),
            Statement::SelectOverrides { pr_id } => Set::new(
                |vote: (i64, i64)| entry(self.overrides, pr_id, vote.0) == Some(vote.1),
            ),
            Statement::DeleteOverrides { pr_id } => Set::new(
                |vote: (i64, i64)| entry(self.overrides, pr_id, vote.0) == Some(vote.1),
            ),
            Statement::SelectIssueOverrides { pr_id, issue_author } => Set::new(
                |vote: (i64, i64)|
                    vote_against(self.against, pr_id, issue_author, vote.0) == Some(vote.1),
            ),
            _ => Set::empty(),
        }
    }
}

/// What is found of a user is listed under them, and nothing else is: the lists of issues and votes
/// agree with the single questions.
pub proof fn law_lists_agree(
    ledger: Ledger,
    discussion: DiscussionRecord,
    user: UserId,
    message: MessageId,
)
    ensures
        ledger.list(discussion.get_raised_issues_query()).contains(
            (column_of(user@), column_of(message@)),
        ) <==> ledger.find(discussion.get_issue_by_author_query(user)) == Some(column_of(message@)),
        ledger.list(discussion.get_issue_overrides_query()).contains(
            (column_of(user@), column_of(message@)),
        ) <==> ledger.find(discussion.get_override_by_author_query(user)) == Some(
            column_of(message@),
        ),
{
}

/// A statement leaves a ledger that a database can hold as one that it can hold.
pub proof fn law_ledgers_stay_finite(ledger: Ledger, statement: Statement)
    requires
        ledger.finite(),
    ensures
        ledger.apply(statement).finite(),
{
    if let Statement::DeleteOverrides { pr_id } = statement {
        let left = ledger.apply(statement).overrides.dom();
        assert(left.subset_of(ledger.overrides.dom()));
        vstd::set_lib::lemma_len_subset(left, ledger.overrides.dom());
    }
}

proof fn lemma_count_is_length(kept: Map<(i64, i64), i64>, pr_id: i64)
    requires
        kept.dom().finite(),
    ensures
        ({
            let listed = Set::new(
                |vote: (i64, i64)| entry(kept, pr_id, vote.0) == Some(vote.1),
            );
            listed.finite() && keys_of(kept, pr_id).len() == listed.len()
        }),
{
    let keys = keys_of(kept, pr_id);
    let listed = Set::new(|vote: (i64, i64)| entry(kept, pr_id, vote.0) == Some(vote.1));
    let row = |key: (i64, i64)| (key.1, kept[key]);
    kept.dom().lemma_len_filter(|key: (i64, i64)| key.0 == pr_id);
    assert forall|vote: (i64, i64)| listed.contains(vote) implies keys.map(row).contains(vote) by {
        let key = (pr_id, vote.0);
        assert(keys.contains(key) && row(key) == vote);
    }
    assert forall|vote: (i64, i64)| keys.map(row).contains(vote) implies listed.contains(vote) by {
        let key = choose|key: (i64, i64)| keys.contains(key) && row(key) == vote;
        assert(key == (pr_id, vote.0));
    }
    assert(keys.map(row) =~= listed);
    vstd::set_lib::lemma_map_size(keys, listed, row);
}

/// The number of issues, or of votes, of a discussion is the size of their list.
pub proof fn law_counts_agree(ledger: Ledger, discussion: DiscussionRecord)
    requires
        ledger.finite(),
    ensures
        ledger.list(discussion.get_raised_issues_query()).finite(),
        ledger.list(discussion.get_issue_overrides_query()).finite(),
        ledger.count(discussion.count_raised_issues_query()) == ledger.list(
            discussion.get_raised_issues_query(),
        ).len(),
        ledger.count(discussion.count_overrides_query()) == ledger.list(
            discussion.get_issue_overrides_query(),
        ).len(),
{
    lemma_count_is_length(ledger.issues, column_of(discussion.pr_id));
    lemma_count_is_length(ledger.overrides, column_of(discussion.pr_id));
}

/// Making the votes of a discussion void hands back all of them, and leaves none to be listed.
pub proof fn law_void_votes_are_handed_back(ledger: Ledger, discussion: DiscussionRecord)
    ensures
        ledger.list(discussion.clear_issue_overrides_query()) == ledger.list(
            discussion.get_issue_overrides_query(),
        ),
        ledger.apply(discussion.clear_issue_overrides_query()).list(
            discussion.get_issue_overrides_query(),
        ) == Set::<(i64, i64)>::empty(),
{
    let after = ledger.apply(discussion.clear_issue_overrides_query());
    assert(after.list(discussion.get_issue_overrides_query()) =~= Set::empty());
    assert(ledger.list(discussion.clear_issue_overrides_query()) =~= ledger.list(
        discussion.get_issue_overrides_query(),
    ));
}

/// An issue that was raised is found, in place of any earlier one of its author.
pub proof fn law_raised_issue_is_found(
    ledger: Ledger,
    discussion: DiscussionRecord,
    author: UserId,
    message: MessageId,
)
    ensures
        ledger.apply(discussion.upsert_issue_query(author, message)).find(
            discussion.get_issue_by_author_query(author),
        ) == Some(column_of(message@)),
{
}

/// A vote that was cast is found, in place of any earlier one of its author.
pub proof fn law_cast_vote_is_found(
    ledger: Ledger,
    discussion: DiscussionRecord,
    author: UserId,
    message: MessageId,
)
    ensures
        ledger.apply(discussion.upsert_issue_override_query(author, message)).find(
            discussion.get_override_by_author_query(author),
        ) == Some(column_of(message@)),
{
}

/// What was taken back is not found any more.
pub proof fn law_dismissed_is_not_found(
    ledger: Ledger,
    discussion: DiscussionRecord,
    author: UserId,
)
    ensures
        ledger.apply(discussion.delete_issue_by_author_query(author)).find(
            discussion.get_issue_by_author_query(author),
        ) is None,
        ledger.apply(discussion.delete_override_by_author_query(author)).find(
            discussion.get_override_by_author_query(author),
        ) is None,
{
}

/// Once the votes of a discussion are void, none of them is found, whoever cast it; the issues,
/// and the votes of every other discussion, are found as before.
pub proof fn law_void_votes_are_not_found(
    ledger: Ledger,
    discussion: DiscussionRecord,
    other: DiscussionRecord,
    author: UserId,
)
    ensures
        ({
            let after = ledger.apply(discussion.clear_issue_overrides_query());
            &&& after.find(discussion.get_override_by_author_query(author)) is None
            &&& after.find(discussion.get_issue_by_author_query(author)) == ledger.find(
                discussion.get_issue_by_author_query(author),
            )
            &&& other.pr_id != discussion.pr_id ==> after.find(
                other.get_override_by_author_query(author),
            ) == ledger.find(other.get_override_by_author_query(author))
        }),
{
    law_column_round_trip(discussion.pr_id);
    law_column_round_trip(other.pr_id);
}

/// What one user does about their issue or vote in one discussion changes nothing for another
/// user, or in another discussion.
pub proof fn law_others_are_left_alone(
    ledger: Ledger,
    discussion: DiscussionRecord,
    author: UserId,
    message: MessageId,
    elsewhere: DiscussionRecord,
    other: UserId,
)
    requires
        elsewhere.pr_id != discussion.pr_id || other@ != author@,
    ensures
        ({
            let issue = elsewhere.get_issue_by_author_query(other);
            let vote = elsewhere.get_override_by_author_query(other);
            let raised = ledger.apply(discussion.upsert_issue_query(author, message));
            let cast = ledger.apply(discussion.upsert_issue_override_query(author, message));
            let unraised = ledger.apply(discussion.delete_issue_by_author_query(author));
            let uncast = ledger.apply(discussion.delete_override_by_author_query(author));
            &&& raised.find(issue) == ledger.find(issue)
            &&& raised.find(vote) == ledger.find(vote)
            &&& cast.find(issue) == ledger.find(issue)
            &&& cast.find(vote) == ledger.find(vote)
            &&& unraised.find(issue) == ledger.find(issue)
            &&& unraised.find(vote) == ledger.find(vote)
            &&& uncast.find(issue) == ledger.find(issue)
            &&& uncast.find(vote) == ledger.find(vote)
        }),
{
    law_column_round_trip(discussion.pr_id);
    law_column_round_trip(elsewhere.pr_id);
    law_column_round_trip(author@);
    law_column_round_trip(other@);
}

/// A vote that was cast against an issue is found, in place of any earlier one of its author
/// against that issue, and is listed among the votes against it.
pub proof fn law_vote_against_is_found(
    ledger: Ledger,
    discussion: DiscussionRecord,
    issue_author: UserId,
    author: UserId,
    message: MessageId,
)
    ensures
        ({
            let after = ledger.apply(
                discussion.upsert_override_of_query(issue_author, author, message),
            );
            &&& after.find(discussion.get_issue_override_query(issue_author, author)) == Some(
                column_of(message@),
            )
            &&& after.list(discussion.get_overrides_of_query(issue_author)).contains(
                (column_of(author@), column_of(message@)),
            )
        }),
{
}

/// A vote against an issue is listed exactly when it is found.
pub proof fn law_votes_against_are_listed(
    ledger: Ledger,
    discussion: DiscussionRecord,
    issue_author: UserId,
    author: UserId,
    message: MessageId,
)
    ensures
        ledger.list(discussion.get_overrides_of_query(issue_author)).contains(
            (column_of(author@), column_of(message@)),
        ) <==> ledger.find(discussion.get_issue_override_query(issue_author, author)) == Some(
            column_of(message@),
        ),
{
}

/// A vote against an issue changes nothing for another voter, against another issue or in another
/// discussion; nor does it change any issue, or any vote against all of them.
pub proof fn law_votes_against_leave_others(
    ledger: Ledger,
    discussion: DiscussionRecord,
    issue_author: UserId,
    author: UserId,
    message: MessageId,
    elsewhere: DiscussionRecord,
    other_issue_author: UserId,
    other: UserId,
)
    ensures
        ({
            let after = ledger.apply(
                discussion.upsert_override_of_query(issue_author, author, message),
            );
            let vote = elsewhere.get_issue_override_query(other_issue_author, other);
            let votes = elsewhere.get_overrides_of_query(other_issue_author);
            &&& elsewhere.pr_id != discussion.pr_id || other_issue_author@ != issue_author@
                || other@ != author@ ==> after.find(vote) == ledger.find(vote)
            &&& elsewhere.pr_id != discussion.pr_id || other_issue_author@ != issue_author@
                ==> after.list(votes) == ledger.list(votes)
            &&& after.issues == ledger.issues
            &&& after.overrides == ledger.overrides
        }),
{
    law_column_round_trip(discussion.pr_id);
    law_column_round_trip(elsewhere.pr_id);
    law_column_round_trip(issue_author@);
    law_column_round_trip(other_issue_author@);
    law_column_round_trip(author@);
    law_column_round_trip(other@);
    let after = ledger.apply(discussion.upsert_override_of_query(issue_author, author, message));
    let votes = elsewhere.get_overrides_of_query(other_issue_author);
    if elsewhere.pr_id != discussion.pr_id || other_issue_author@ != issue_author@ {
        assert(after.list(votes) =~= ledger.list(votes));
    }
}

/// Votes against one issue stay when an issue is raised or taken back, and when the votes against
/// all of them are cast, taken back or made void.
pub proof fn law_votes_against_stay(
    ledger: Ledger,
    discussion: DiscussionRecord,
    author: UserId,
    message: MessageId,
)
    ensures
        ledger.apply(discussion.upsert_issue_query(author, message)).against == ledger.against,
        ledger.apply(discussion.delete_issue_by_author_query(author)).against == ledger.against,
        ledger.apply(discussion.upsert_issue_override_query(author, message)).against
            == ledger.against,
        ledger.apply(discussion.delete_override_by_author_query(author)).against == ledger.against,
        ledger.apply(discussion.clear_issue_overrides_query()).against == ledger.against,
{
}

} // verus!
