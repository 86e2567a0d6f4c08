//! What several parts of the content review share.

use vstd::prelude::*;
use vstd::string::*;

use crate::discord::action::{Action, Answer, GuildChannel, LabelRemoval};
use crate::discord::content_review::data::discussions::{by_thread_result, DiscussionRecord};
use crate::discord::content_review::data::forums::ForumRecord;
use crate::discord::error::HandledError;
use crate::discord::ids::{column_of, ChannelId};
use crate::discord::message::{Embed, EmbedView, Field, FieldView, EMBED_DESC_MAX_LEN};
use crate::discord::store::Statement;
use crate::discord::texts::Text;
use crate::github::Repo;
use crate::text::chars::{prefix_of, take_chars};
use crate::text::decimal::{decimal, push_u64};

verus! {

/// The address of a pull request.
pub open spec fn pr_address(repo: Repo, pr_id: u64) -> Seq<char> {
    "https://github.com/"@ + repo.owner@ + "/"@ + repo.name@ + "/pull/"@ + decimal(pr_id as nat)
}

/// The embed that presents a pull request: its title, its address, who submitted it and as much
/// of its description as there is room for.
pub open spec fn pr_embed(
    pr_id: u64,
    pr_title: Seq<char>,
    pr_author: Seq<char>,
    pr_body: Option<Seq<char>>,
    repo: Repo,
) -> EmbedView {
    EmbedView {
        title: Some(pr_title),
        url: Some(pr_address(repo, pr_id)),
        author: None,
        description: Some(
            prefix_of(
                match pr_body {
                    Some(x) => x,
                    None => "No description."@,
                },
                EMBED_DESC_MAX_LEN as int,
            ),
        ),
        footer: Some("PR #"@ + decimal(pr_id as nat) + ", submitted by "@ + pr_author),
        fields: Seq::empty(),
    }
}

/// Presents a pull request.
pub fn create_pr_embed(
    pr_id: u64,
    pr_title: &str,
    pr_author: &str,
    pr_body: Option<&str>,
    repo: &Repo,
) -> (r: Embed)
    ensures
        r@ == pr_embed(
            pr_id,
            pr_title@,
            pr_author@,
            match pr_body {
                Some(x) => Some(x@),
                None => None,
            },
            *repo,
        ),
{
    let description = match pr_body {
        Some(x) => take_chars(x, EMBED_DESC_MAX_LEN),
        None => take_chars("No description.", EMBED_DESC_MAX_LEN),
    };
    let mut footer = "PR #".to_owned();
    push_u64(&mut footer, pr_id);
    footer.append(", submitted by ");
    footer.append(pr_author);
    let mut url = "https://github.com/".to_owned();
    url.append(repo.owner.as_str());
    url.append("/");
    url.append(repo.name.as_str());
    url.append("/pull/");
    push_u64(&mut url, pr_id);
    let fields: Vec<Field> = Vec::new();
    assert(fields@.map_values(|f: Field| f@) =~= Seq::<FieldView>::empty());
    Embed {
        title: Some(pr_title.to_owned()),
        url: Some(url),
        author: None,
        description: Some(description),
        footer: Some(footer),
        fields,
    }
}

/// However long the description of a pull request is, what is shown of it has room in an embed.
pub proof fn law_pr_embed_fits(
    pr_id: u64,
    pr_title: Seq<char>,
    pr_author: Seq<char>,
    pr_body: Option<Seq<char>>,
    repo: Repo,
)
    ensures
        pr_embed(pr_id, pr_title, pr_author, pr_body, repo).description is Some,
        pr_embed(pr_id, pr_title, pr_author, pr_body, repo).description->0.len()
            <= EMBED_DESC_MAX_LEN,
{
}

/// A pull request is presented by its title, with its address, its number and its author; all of its
/// description is shown where there is room for it, and the beginning where there is not.
pub proof fn law_pull_is_presented(
    pr_id: u64,
    title: Seq<char>,
    author: Seq<char>,
    body: Seq<char>,
    repo: Repo,
)
    ensures
        ({
            let shown = pr_embed(pr_id, title, author, Some(body), repo);
            let bare = pr_embed(pr_id, title, author, None, repo);
            &&& shown.title == Some(title)
            &&& shown.url == Some(
                "https://github.com/"@ + repo.owner@ + "/"@ + repo.name@ + "/pull/"@ + decimal(
                    pr_id as nat,
                ),
            )
            &&& shown.footer == Some(
                "PR #"@ + decimal(pr_id as nat) + ", submitted by "@ + author,
            )
            &&& shown.description is Some
            &&& body.len() <= 4096 ==> shown.description == Some(body)
            &&& shown.description->0 == body.take(shown.description->0.len() as int)
            &&& bare.description == Some("No description."@)
        }),
{
    reveal_strlit("No description.");
    assert(body.take(body.len() as int) =~= body);
    assert("No description."@.take("No description."@.len() as int) =~= "No description."@);
}

/// The status with which GitHub refuses to remove a label that the pull request no longer has.
pub const GONE: u16 = 410;

/// What the user is told when a label could not be removed: nothing, but for one case.
pub fn try_remove_label(label: String, removal: LabelRemoval) -> (r: Option<Text>)
    ensures
        r == if removal == LabelRemoval::Refused(GONE) {
            Some(Text::LabelNotRemoved(label))
        } else {
            None
        },
{
    match removal {
        LabelRemoval::Refused(status) => {
            if status == GONE {
                return Some(Text::LabelNotRemoved(label));
            }
            None
        },
        _ => None,
    }
}

/// The discussion that a command was given in, with its forum and its thread.
#[derive(Debug)]
pub struct Found {
    pub forum: ForumRecord,
    pub discussion: DiscussionRecord,
    pub channel: GuildChannel,
}

/// The search for the discussion that a command was given in.
#[derive(Debug)]
pub struct ChannelLookup {
    /// The channel that the command was given in.
    pub thread: ChannelId,
    pub stage: LookupStage,
}

/// How far the search has got.
#[derive(Debug)]
pub enum LookupStage {
    New,
    Channel,
    Forum { channel: GuildChannel },
    Discussion { channel: GuildChannel, forum: ForumRecord },
}

/// What a step of the search comes to.
#[derive(Debug)]
pub enum Located {
    Ask(ChannelLookup, Action),
    Here(Found),
    Lost(HandledError),
}

impl ChannelLookup {
    /// The search at another stage.
    pub open spec fn at(self, stage: LookupStage) -> ChannelLookup {
        ChannelLookup { stage, ..self }
    }

    /// What a step comes to.
    pub open spec fn next(self, answer: Answer) -> Located {
        match (self.stage, answer) {
            (LookupStage::New, Answer::Start) => Located::Ask(
                self.at(LookupStage::Channel),
                Action::CurrentChannel,
            ),
            (LookupStage::Channel, Answer::Channel(None)) => Located::Lost(
                HandledError::UserfacingError("Must be in a guild channel."),
            ),
            (LookupStage::Channel, Answer::Channel(Some(channel))) => match channel.parent {
                Some(parent) => Located::Ask(
                    self.at(LookupStage::Forum { channel }),
                    Action::Database(Statement::SelectForum { channel_id: column_of(parent@) }),
                ),
                None => Located::Lost(HandledError::UserfacingError("Must be in a forum channel.")),
            },
            (LookupStage::Forum { .. }, Answer::Forum(None)) => Located::Lost(
                HandledError::UserfacingError("Must be in a registered CR forum."),
            ),
            (LookupStage::Forum { channel }, Answer::Forum(Some(forum))) => Located::Ask(
                self.at(LookupStage::Discussion { channel, forum }),
                Action::Database(
                    Statement::SelectDiscussionByThread { thread_id: column_of(self.thread@) },
                ),
            ),
            (LookupStage::Discussion { channel, forum }, Answer::Discussion(row)) => match by_thread_result(
                row,
            ) {
                Some(discussion) => Located::Here(Found { forum, discussion, channel }),
                None => Located::Lost(
                    HandledError::UserfacingError("There is no PR associated with this thread."),
                ),
            },
            _ => Located::Lost(HandledError::InternalError),
        }
    }
}

/// A step of the search for the discussion that a command was given in.
pub fn get_channel_discussion(run: ChannelLookup, answer: Answer) -> (r: Located)
    ensures
        r == run.next(answer),
{
    let thread = run.thread;
    match (run.stage, answer) {
        (LookupStage::New, Answer::Start) => Located::Ask(
            ChannelLookup { thread, stage: LookupStage::Channel },
            Action::CurrentChannel,
        ),
        (LookupStage::Channel, Answer::Channel(found)) => match found {
            Some(channel) => match channel.parent {
                Some(parent) => Located::Ask(
                    ChannelLookup { thread, stage: LookupStage::Forum { channel } },
                    Action::Database(ForumRecord::get_by_channel_statement(parent)),
                ),
                None => Located::Lost(HandledError::UserfacingError("Must be in a forum channel.")),
            },
            None => Located::Lost(HandledError::UserfacingError("Must be in a guild channel.")),
        },
        (LookupStage::Forum { channel }, Answer::Forum(found)) => match found {
            Some(forum) => Located::Ask(
                ChannelLookup { thread, stage: LookupStage::Discussion { channel, forum } },
                Action::Database(DiscussionRecord::get_by_thread_statement(thread)),
            ),
            None => Located::Lost(
                HandledError::UserfacingError("Must be in a registered CR forum."),
            ),
        },
        (LookupStage::Discussion { channel, forum }, Answer::Discussion(row)) => {
            match DiscussionRecord::get_by_thread(row) {
                Some(discussion) => Located::Here(Found { forum, discussion, channel }),
                None => Located::Lost(
                    HandledError::UserfacingError("There is no PR associated with this thread."),
                ),
            }
        },
        _ => Located::Lost(HandledError::InternalError),
    }
}

} // verus!
