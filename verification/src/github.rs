//! What the bot learns from GitHub.

use vstd::prelude::*;
use vstd::string::*;

verus! {

/// The repository that the bot serves.
#[derive(Debug)]
pub struct Repo {
    pub owner: String,
    pub name: String,
}

/// Something that happened in the repository.
#[derive(Debug)]
pub enum GitHubMessage {
    /// A pull request was opened, or opened again.
    PrOpened { pr_id: u64, pr_title: String, pr_body: Option<String>, opened_by: String },
    /// Somebody commented on an issue or a pull request.
    Comment {
        issue_id: u64,
        username: String,
        comment: String,
        is_pr_author: bool,
        is_staff: bool,
        is_contributor: bool,
    },
    /// A pull request was closed without being merged.
    PrClosed { pr_id: u64, closed_by: String },
    /// A pull request was merged.
    PrMerged { pr_id: u64, merged_by: String },
    /// A pull request was made a draft.
    PrDrafted { pr_id: u64, drafted_by: String },
    /// A pull request got a label.
    PrLabeled { pr_id: u64, label: String },
}

/// The title, the author and the description of a pull request.
#[derive(Debug)]
pub struct PullInfo {
    pub title: String,
    pub author: String,
    pub body: Option<String>,
}

impl PullInfo {
    /// What is known of a pull request, with stand-ins for a missing title or author.
    pub fn new(title: Option<String>, author: Option<String>, body: Option<String>) -> (r: PullInfo)
        ensures
            r.title@ == match title {
                Some(x) => x@,
                None => "Untitled"@,
            },
            r.author@ == match author {
                Some(x) => x@,
                None => "Unknown"@,
            },
            r.body == body,
    {
        let title = match title {
            Some(x) => x,
            None => "Untitled".to_owned(),
        };
        let author = match author {
            Some(x) => x,
            None => "Unknown".to_owned(),
        };
        PullInfo { title, author, body }
    }
}

} // verus!
