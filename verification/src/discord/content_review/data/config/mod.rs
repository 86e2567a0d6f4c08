//! The settings of the content review.

use vstd::prelude::*;

use crate::discord::content_review::data::config::ignored::IgnoreCriteria;
use crate::discord::error::{DbError, HandledError};
use crate::discord::ids::{column_of, law_column_round_trip, value_of, ChannelId, RoleId};
use crate::discord::store::{ConfigColumn, ConfigRow, Statement};
use crate::text::chars::copy_text;

pub mod commands;
pub mod ignored;

verus! {

/// The settings of the content review.
#[derive(Debug)]
pub struct CrConfig {
    pub intake_forum: Option<ChannelId>,
    pub private_forum: Option<ChannelId>,
    pub public_forum: Option<ChannelId>,
    pub ghl_under_review: Option<String>,
    pub ghl_not_needed: Option<String>,
    pub ghl_approved: Option<String>,
    pub ghl_denied: Option<String>,
    pub ghl_changes_requested: Option<String>,
    pub review_ping_role: Option<RoleId>,
    pub ignored: IgnoreCriteria,
}

/// A setting, with its new value.
#[derive(Debug, PartialEq, Eq)]
pub enum Setting {
    IntakeForum(ChannelId),
    PublicForum(ChannelId),
    PrivateForum(ChannelId),
    NoReviewLabel(String),
    UnderReviewLabel(String),
    ApprovedLabel(String),
    DeniedLabel(String),
    ReviewPingRole(RoleId),
    ChangesRequestedLabel(String),
}

impl Clone for Setting {
    fn clone(&self) -> (r: Self)
        ensures
            r == *self,
    {
        match self {
            Setting::IntakeForum(x) => Setting::IntakeForum(*x),
            Setting::PublicForum(x) => Setting::PublicForum(*x),
            Setting::PrivateForum(x) => Setting::PrivateForum(*x),
            Setting::NoReviewLabel(x) => Setting::NoReviewLabel(x.clone()),
            Setting::UnderReviewLabel(x) => Setting::UnderReviewLabel(x.clone()),
            Setting::ApprovedLabel(x) => Setting::ApprovedLabel(x.clone()),
            Setting::DeniedLabel(x) => Setting::DeniedLabel(x.clone()),
            Setting::ReviewPingRole(x) => Setting::ReviewPingRole(*x),
            Setting::ChangesRequestedLabel(x) => Setting::ChangesRequestedLabel(x.clone()),
        }
    }
}

/// The column value of a channel that may be missing.
pub open spec fn channel_column(x: Option<ChannelId>) -> Option<i64> {
    match x {
        Some(id) => Some(column_of(id@)),
        None => None,
    }
}

/// The column value of a role that may be missing.
pub open spec fn role_column(x: Option<RoleId>) -> Option<i64> {
    match x {
        Some(id) => Some(column_of(id@)),
        None => None,
    }
}

fn to_channel_column(x: Option<ChannelId>) -> (r: Option<i64>)
    ensures
        r == channel_column(x),
{
    match x {
        Some(id) => Some(id.to_column()),
        None => None,
    }
}

/// The column value of a role that may be missing.
pub fn to_role_column(x: Option<RoleId>) -> (r: Option<i64>)
    ensures
        r == role_column(x),
{
    match x {
        Some(id) => Some(id.to_column()),
        None => None,
    }
}

/// What a user is told whose intake forum the database does not take.
pub const NO_SUCH_INTAKE: &'static str =
    "Failed to set intake forum. Did you register it as a forum first?";

/// What a user is told whose forum for reviews the database does not take.
pub const NO_SUCH_FORUM: &'static str = "Did you register it as a forum first?";

/// A list of the one label, or an empty list where it is not set.
pub open spec fn listed(label: Option<String>) -> Seq<String> {
    match label {
        Some(x) => seq![x],
        None => Seq::empty(),
    }
}

impl CrConfig {
    /// Asks for the settings.
    pub fn from_db_statement() -> (r: Statement)
        ensures
            r == Statement::SelectConfig,
    {
        Statement::SelectConfig
    }

    /// The settings that the database holds. Where there is no row, nothing is set.
    pub fn from_db(row: Result<Option<ConfigRow>, DbError>, ignored: IgnoreCriteria) -> (r: Result<
        CrConfig,
        DbError,
    >)
        ensures
            r == match row {
                Ok(Some(x)) => Ok::<CrConfig, DbError>(config_of(x, ignored)),
                Ok(None) => Ok::<CrConfig, DbError>(unset(ignored)),
                Err(e) => Err::<CrConfig, DbError>(e),
            },
    {
        match row {
            Ok(Some(x)) => Ok(
                CrConfig {
                    intake_forum: x.intake_cr_forum,
                    private_forum: x.private_cr_forum,
                    public_forum: x.public_cr_forum,
                    ghl_under_review: x.gh_label_under_review,
                    ghl_not_needed: x.gh_label_no_review,
                    ghl_approved: x.gh_label_cr_approved,
                    ghl_denied: x.gh_label_cr_denied,
                    ghl_changes_requested: x.gh_label_cr_changes_requested,
                    review_ping_role: x.review_ping_role,
                    ignored,
                },
            ),
            Ok(None) => Ok(
                CrConfig {
                    intake_forum: None,
                    private_forum: None,
                    public_forum: None,
                    ghl_under_review: None,
                    ghl_not_needed: None,
                    ghl_approved: None,
                    ghl_denied: None,
                    ghl_changes_requested: None,
                    review_ping_role: None,
                    ignored,
                },
            ),
            Err(e) => Err(e),
        }
    }

    /// Gives the forum in which pull requests are triaged.
    pub fn get_intake_forum(&self) -> (r: Option<ChannelId>)
        ensures
            r == self.intake_forum,
    {
        self.intake_forum
    }

    /// Writes the forum in which pull requests are triaged.
    pub fn set_intake_forum_statement(channel_id: Option<ChannelId>) -> (r: Statement)
        ensures
            r == Statement::UpsertConfig(ConfigColumn::IntakeForum(channel_column(channel_id))),
    {
        Statement::UpsertConfig(ConfigColumn::IntakeForum(to_channel_column(channel_id)))
    }

    /// Takes note of the forum in which pull requests are triaged, once the database has.
    pub fn set_intake_forum(
        &mut self,
        channel_id: Option<ChannelId>,
        written: Result<(), DbError>,
    ) -> (r: Result<(), HandledError>)
        ensures
            match written {
                Ok(_) => r is Ok && *final(self) == (CrConfig { intake_forum: channel_id, ..*old(self) }),
                Err(_) => r == Err::<(), HandledError>(HandledError::UserfacingError(NO_SUCH_INTAKE))
                    && *final(self) == *old(self),
            },
    {
        match written {
            Ok(_) => {
                self.intake_forum = channel_id;
                Ok(())
            },
            Err(_) => Err(HandledError::UserfacingError(NO_SUCH_INTAKE)),
        }
    }

    /// Gives the forum for public reviews.
    pub fn get_public_forum(&self) -> (r: Option<ChannelId>)
        ensures
            r == self.public_forum,
    {
        self.public_forum
    }

    /// Writes the forum for public reviews.
    pub fn set_public_forum_statement(channel_id: Option<ChannelId>) -> (r: Statement)
        ensures
            r == Statement::UpsertConfig(ConfigColumn::PublicForum(channel_column(channel_id))),
    {
        Statement::UpsertConfig(ConfigColumn::PublicForum(to_channel_column(channel_id)))
    }

    /// Takes note of the forum for public reviews, once the database has.
    pub fn set_public_forum(
        &mut self,
        channel_id: Option<ChannelId>,
        written: Result<(), DbError>,
    ) -> (r: Result<(), HandledError>)
        ensures
            match written {
                Ok(_) => r is Ok && *final(self) == (CrConfig { public_forum: channel_id, ..*old(self) }),
                Err(_) => r == Err::<(), HandledError>(HandledError::UserfacingError(NO_SUCH_FORUM))
                    && *final(self) == *old(self),
            },
    {
        match written {
            Ok(_) => {
                self.public_forum = channel_id;
                Ok(())
            },
            Err(_) => Err(HandledError::UserfacingError(NO_SUCH_FORUM)),
        }
    }

    /// Gives the forum for private reviews.
    pub fn get_private_forum(&self) -> (r: Option<ChannelId>)
        ensures
            r == self.private_forum,
    {
        self.private_forum
    }

    /// Writes the forum for private reviews.
    pub fn set_private_forum_statement(channel_id: Option<ChannelId>) -> (r: Statement)
        ensures
            r == Statement::UpsertConfig(ConfigColumn::PrivateForum(channel_column(channel_id))),
    {
        Statement::UpsertConfig(ConfigColumn::PrivateForum(to_channel_column(channel_id)))
    }

    /// Takes note of the forum for private reviews, once the database has.
    pub fn set_private_forum(
        &mut self,
        channel_id: Option<ChannelId>,
        written: Result<(), DbError>,
    ) -> (r: Result<(), HandledError>)
        ensures
            match written {
                Ok(_) => r is Ok && *final(self) == (CrConfig { private_forum: channel_id, ..*old(self) }),
                Err(_) => r == Err::<(), HandledError>(HandledError::UserfacingError(NO_SUCH_FORUM))
                    && *final(self) == *old(self),
            },
    {
        match written {
            Ok(_) => {
                self.private_forum = channel_id;
                Ok(())
            },
            Err(_) => Err(HandledError::UserfacingError(NO_SUCH_FORUM)),
        }
    }

    /// Gives the role that is pinged for reviews.
    pub fn get_review_ping_role(&self) -> (r: Option<RoleId>)
        ensures
            r == self.review_ping_role,
    {
        self.review_ping_role
    }

    /// Writes the role that is pinged for reviews.
    pub fn set_review_ping_role_statement(role_id: Option<RoleId>) -> (r: Statement)
        ensures
            r == Statement::UpsertConfig(ConfigColumn::ReviewPingRole(role_column(role_id))),
    {
        Statement::UpsertConfig(ConfigColumn::ReviewPingRole(to_role_column(role_id)))
    }

    /// Takes note of the role that is pinged for reviews, once the database has.
    pub fn set_review_ping_role(
        &mut self,
        role_id: Option<RoleId>,
        written: Result<(), DbError>,
    ) -> (r: Result<(), HandledError>)
        ensures
            match written {
                Ok(_) => r is Ok && *final(self) == (CrConfig { review_ping_role: role_id, ..*old(self) }),
                Err(_) => r == Err::<(), HandledError>(HandledError::InternalError)
                    && *final(self) == *old(self),
            },
    {
        match written {
            Ok(_) => {
                self.review_ping_role = role_id;
                Ok(())
            },
            Err(_) => Err(HandledError::InternalError),
        }
    }

    /// Gives the label for pull requests that need no review.
    pub fn get_no_review_needed_label(&self) -> (r: Option<String>)
        ensures
            r == self.ghl_not_needed,
    {
        copy_text(&self.ghl_not_needed)
    }

    /// Writes the label for pull requests that need no review.
    pub fn set_no_review_needed_label_statement(label: String) -> (r: Statement)
        ensures
            r == Statement::UpsertConfig(ConfigColumn::NoReviewLabel(label)),
    {
        Statement::UpsertConfig(ConfigColumn::NoReviewLabel(label))
    }

    /// Takes note of the label for pull requests that need no review, once the database has.
    pub fn set_no_review_needed_label(
        &mut self,
        label: String,
        written: Result<(), DbError>,
    ) -> (r: Result<(), HandledError>)
        ensures
            match written {
                Ok(_) => r is Ok && *final(self) == (CrConfig { ghl_not_needed: Some(label), ..*old(self) }),
                Err(_) => r == Err::<(), HandledError>(HandledError::InternalError)
                    && *final(self) == *old(self),
            },
    {
        match written {
            Ok(_) => {
                self.ghl_not_needed = Some(label);
                Ok(())
            },
            Err(_) => Err(HandledError::InternalError),
        }
    }

    /// Gives the label for pull requests under review.
    pub fn get_under_review_label(&self) -> (r: Option<String>)
        ensures
            r == self.ghl_under_review,
    {
        copy_text(&self.ghl_under_review)
    }

    /// Writes the label for pull requests under review.
    pub fn set_under_review_label_statement(label: String) -> (r: Statement)
        ensures
            r == Statement::UpsertConfig(ConfigColumn::UnderReviewLabel(label)),
    {
        Statement::UpsertConfig(ConfigColumn::UnderReviewLabel(label))
    }

    /// Takes note of the label for pull requests under review, once the database has.
    pub fn set_under_review_label(
        &mut self,
        label: String,
        written: Result<(), DbError>,
    ) -> (r: Result<(), HandledError>)
        ensures
            match written {
                Ok(_) => r is Ok && *final(self) == (CrConfig { ghl_under_review: Some(label), ..*old(self) }),
                Err(_) => r == Err::<(), HandledError>(HandledError::InternalError)
                    && *final(self) == *old(self),
            },
    {
        match written {
            Ok(_) => {
                self.ghl_under_review = Some(label);
                Ok(())
            },
            Err(_) => Err(HandledError::InternalError),
        }
    }

    /// Gives the label for pull requests that need changes.
    pub fn get_changes_requested_label(&self) -> (r: Option<String>)
        ensures
            r == self.ghl_changes_requested,
    {
        copy_text(&self.ghl_changes_requested)
    }

    /// Writes the label for pull requests that need changes.
    pub fn set_changes_requested_label_statement(label: String) -> (r: Statement)
        ensures
            r == Statement::UpsertConfig(ConfigColumn::ChangesRequestedLabel(label)),
    {
        Statement::UpsertConfig(ConfigColumn::ChangesRequestedLabel(label))
    }

    /// Takes note of the label for pull requests that need changes, once the database has.
    pub fn set_changes_requested_label(
        &mut self,
        label: String,
        written: Result<(), DbError>,
    ) -> (r: Result<(), HandledError>)
        ensures
            match written {
                Ok(_) => r is Ok && *final(self) == (CrConfig { ghl_changes_requested: Some(label), ..*old(self) }),
                Err(_) => r == Err::<(), HandledError>(HandledError::InternalError)
                    && *final(self) == *old(self),
            },
    {
        match written {
            Ok(_) => {
                self.ghl_changes_requested = Some(label);
                Ok(())
            },
            Err(_) => Err(HandledError::InternalError),
        }
    }

    /// Gives the label for approved pull requests.
    pub fn get_approved_label(&self) -> (r: Option<String>)
        ensures
            r == self.ghl_approved,
    {
        copy_text(&self.ghl_approved)
    }

    /// Writes the label for approved pull requests.
    pub fn set_approved_label_statement(label: String) -> (r: Statement)
        ensures
            r == Statement::UpsertConfig(ConfigColumn::ApprovedLabel(label)),
    {
        Statement::UpsertConfig(ConfigColumn::ApprovedLabel(label))
    }

    /// Takes note of the label for approved pull requests, once the database has.
    pub fn set_approved_label(
        &mut self,
        label: String,
        written: Result<(), DbError>,
    ) -> (r: Result<(), HandledError>)
        ensures
            match written {
                Ok(_) => r is Ok && *final(self) == (CrConfig { ghl_approved: Some(label), ..*old(self) }),
                Err(_) => r == Err::<(), HandledError>(HandledError::InternalError)
                    && *final(self) == *old(self),
            },
    {
        match written {
            Ok(_) => {
                self.ghl_approved = Some(label);
                Ok(())
            },
            Err(_) => Err(HandledError::InternalError),
        }
    }

    /// Gives the label for denied pull requests.
    pub fn get_denied_label(&self) -> (r: Option<String>)
        ensures
            r == self.ghl_denied,
    {
        copy_text(&self.ghl_denied)
    }

    /// Writes the label for denied pull requests.
    pub fn set_denied_label_statement(label: String) -> (r: Statement)
        ensures
            r == Statement::UpsertConfig(ConfigColumn::DeniedLabel(label)),
    {
        Statement::UpsertConfig(ConfigColumn::DeniedLabel(label))
    }

    /// Takes note of the label for denied pull requests, once the database has.
    pub fn set_denied_label(
        &mut self,
        label: String,
        written: Result<(), DbError>,
    ) -> (r: Result<(), HandledError>)
        ensures
            match written {
                Ok(_) => r is Ok && *final(self) == (CrConfig { ghl_denied: Some(label), ..*old(self) }),
                Err(_) => r == Err::<(), HandledError>(HandledError::InternalError)
                    && *final(self) == *old(self),
            },
    {
        match written {
            Ok(_) => {
                self.ghl_denied = Some(label);
                Ok(())
            },
            Err(_) => Err(HandledError::InternalError),
        }
    }

    /// The labels that mark a pull request as known to the content review.
    pub open spec fn cr_labels(self) -> Seq<String> {
        listed(self.ghl_approved) + listed(self.ghl_denied) + listed(self.ghl_under_review)
            + listed(self.ghl_changes_requested)
    }

    /// The labels that mark a pull request as known to the content review: those for approved and
    /// denied ones, for those under review and for those that need changes, as far as they are set.
    pub fn get_cr_github_labels(&self) -> (r: Vec<String>)
        ensures
            r@ == self.cr_labels(),
    {
        let mut out: Vec<String> = Vec::new();
        if let Some(approved) = self.get_approved_label() {
            out.push(approved);
        }
        if let Some(denied) = self.get_denied_label() {
            out.push(denied);
        }
        if let Some(under_review) = self.get_under_review_label() {
            out.push(under_review);
        }
        if let Some(changes_requested) = self.get_changes_requested_label() {
            out.push(changes_requested);
        }
        assert(out@ =~= self.cr_labels());
        out
    }

    /// What the settings come to with one of them changed.
    pub open spec fn with(self, setting: Setting) -> CrConfig {
        match setting {
            Setting::IntakeForum(x) => CrConfig { intake_forum: Some(x), ..self },
            Setting::PublicForum(x) => CrConfig { public_forum: Some(x), ..self },
            Setting::PrivateForum(x) => CrConfig { private_forum: Some(x), ..self },
            Setting::NoReviewLabel(x) => CrConfig { ghl_not_needed: Some(x), ..self },
            Setting::UnderReviewLabel(x) => CrConfig { ghl_under_review: Some(x), ..self },
            Setting::ApprovedLabel(x) => CrConfig { ghl_approved: Some(x), ..self },
            Setting::DeniedLabel(x) => CrConfig { ghl_denied: Some(x), ..self },
            Setting::ReviewPingRole(x) => CrConfig { review_ping_role: Some(x), ..self },
            Setting::ChangesRequestedLabel(x) => CrConfig {
                ghl_changes_requested: Some(x),
                ..self
            },
        }
    }

    /// Takes note of a setting, once the database has.
    pub fn set(&mut self, setting: Setting, written: Result<(), DbError>) -> (r: Result<
        (),
        HandledError,
    >)
        ensures
            match written {
                Ok(_) => r is Ok && *final(self) == old(self).with(setting),
                Err(_) => r == Err::<(), HandledError>(setting.failure()) && *final(self) == *old(
                    self,
                ),
            },
    {
        match setting {
            Setting::IntakeForum(x) => self.set_intake_forum(Some(x), written),
            Setting::PublicForum(x) => self.set_public_forum(Some(x), written),
            Setting::PrivateForum(x) => self.set_private_forum(Some(x), written),
            Setting::NoReviewLabel(x) => self.set_no_review_needed_label(x, written),
            Setting::UnderReviewLabel(x) => self.set_under_review_label(x, written),
            Setting::ApprovedLabel(x) => self.set_approved_label(x, written),
            Setting::DeniedLabel(x) => self.set_denied_label(x, written),
            Setting::ReviewPingRole(x) => self.set_review_ping_role(Some(x), written),
            Setting::ChangesRequestedLabel(x) => self.set_changes_requested_label(x, written),
        }
    }
}

impl Setting {
    /// The statement that writes the setting.
    pub open spec fn writing(self) -> Statement {
        Statement::UpsertConfig(
            match self {
                Setting::IntakeForum(x) => ConfigColumn::IntakeForum(Some(column_of(x@))),
                Setting::PublicForum(x) => ConfigColumn::PublicForum(Some(column_of(x@))),
                Setting::PrivateForum(x) => ConfigColumn::PrivateForum(Some(column_of(x@))),
                Setting::NoReviewLabel(x) => ConfigColumn::NoReviewLabel(x),
                Setting::UnderReviewLabel(x) => ConfigColumn::UnderReviewLabel(x),
                Setting::ApprovedLabel(x) => ConfigColumn::ApprovedLabel(x),
                Setting::DeniedLabel(x) => ConfigColumn::DeniedLabel(x),
                Setting::ReviewPingRole(x) => ConfigColumn::ReviewPingRole(Some(column_of(x@))),
                Setting::ChangesRequestedLabel(x) => ConfigColumn::ChangesRequestedLabel(x),
            },
        )
    }

    /// Writes the setting.
    pub fn statement(self) -> (r: Statement)
        ensures
            r == self.writing(),
    {
        match self {
            Setting::IntakeForum(x) => CrConfig::set_intake_forum_statement(Some(x)),
            Setting::PublicForum(x) => CrConfig::set_public_forum_statement(Some(x)),
            Setting::PrivateForum(x) => CrConfig::set_private_forum_statement(Some(x)),
            Setting::NoReviewLabel(x) => CrConfig::set_no_review_needed_label_statement(x),
            Setting::UnderReviewLabel(x) => CrConfig::set_under_review_label_statement(x),
            Setting::ApprovedLabel(x) => CrConfig::set_approved_label_statement(x),
            Setting::DeniedLabel(x) => CrConfig::set_denied_label_statement(x),
            Setting::ReviewPingRole(x) => CrConfig::set_review_ping_role_statement(Some(x)),
            Setting::ChangesRequestedLabel(x) => CrConfig::set_changes_requested_label_statement(x),
        }
    }

    /// The error when the database does not take the setting.
    pub open spec fn failure(self) -> HandledError {
        match self {
            Setting::IntakeForum(_) => HandledError::UserfacingError(
                "Failed to set intake forum. Did you register it as a forum first?",
            ),
            Setting::PublicForum(_) => HandledError::UserfacingError(
                "Did you register it as a forum first?",
            ),
            Setting::PrivateForum(_) => HandledError::UserfacingError(
                "Did you register it as a forum first?",
            ),
            _ => HandledError::InternalError,
        }
    }
}

/// The settings that a row holds.
pub open spec fn config_of(x: ConfigRow, ignored: IgnoreCriteria) -> CrConfig {
    CrConfig {
        intake_forum: x.intake_cr_forum,
        private_forum: x.private_cr_forum,
        public_forum: x.public_cr_forum,
        ghl_under_review: x.gh_label_under_review,
        ghl_not_needed: x.gh_label_no_review,
        ghl_approved: x.gh_label_cr_approved,
        ghl_denied: x.gh_label_cr_denied,
        ghl_changes_requested: x.gh_label_cr_changes_requested,
        review_ping_role: x.review_ping_role,
        ignored,
    }
}

/// Settings of which none is set.
pub open spec fn unset(ignored: IgnoreCriteria) -> CrConfig {
    CrConfig {
        intake_forum: None,
        private_forum: None,
        public_forum: None,
        ghl_under_review: None,
        ghl_not_needed: None,
        ghl_approved: None,
        ghl_denied: None,
        ghl_changes_requested: None,
        review_ping_role: None,
        ignored,
    }
}

/// Settings do not get in each other's way: two different ones can be changed in either order.
pub proof fn law_settings_commute(config: CrConfig, a: Setting, b: Setting)
    requires
        !same_setting(a, b),
    ensures
        config.with(a).with(b) == config.with(b).with(a),
{
}

/// Whether two changes are about the same setting.
pub open spec fn same_setting(a: Setting, b: Setting) -> bool {
    match a {
        Setting::IntakeForum(_) => b is IntakeForum,
        Setting::PublicForum(_) => b is PublicForum,
        Setting::PrivateForum(_) => b is PrivateForum,
        Setting::NoReviewLabel(_) => b is NoReviewLabel,
        Setting::UnderReviewLabel(_) => b is UnderReviewLabel,
        Setting::ApprovedLabel(_) => b is ApprovedLabel,
        Setting::DeniedLabel(_) => b is DeniedLabel,
        Setting::ReviewPingRole(_) => b is ReviewPingRole,
        Setting::ChangesRequestedLabel(_) => b is ChangesRequestedLabel,
    }
}

/// Of two changes to the same setting, the later one counts.
pub proof fn law_later_setting_counts(config: CrConfig, a: Setting, b: Setting)
    requires
        same_setting(a, b),
    ensures
        config.with(a).with(b) == config.with(b),
{
}

/// The channel of a column that may be empty.
pub open spec fn channel_in(column: Option<i64>) -> Option<ChannelId> {
    match column {
        Some(c) => Some(choose|x: ChannelId| x@ == value_of(c)),
        None => None,
    }
}

/// The role of a column that may be empty.
pub open spec fn role_in(column: Option<i64>) -> Option<RoleId> {
    match column {
        Some(c) => Some(choose|x: RoleId| x@ == value_of(c)),
        None => None,
    }
}

/// The row of settings, once one of its columns was written.
pub open spec fn row_with(row: ConfigRow, column: ConfigColumn) -> ConfigRow {
    match column {
        ConfigColumn::IntakeForum(c) => ConfigRow { intake_cr_forum: channel_in(c), ..row },
        ConfigColumn::PublicForum(c) => ConfigRow { public_cr_forum: channel_in(c), ..row },
        ConfigColumn::PrivateForum(c) => ConfigRow { private_cr_forum: channel_in(c), ..row },
        ConfigColumn::NoReviewLabel(x) => ConfigRow { gh_label_no_review: Some(x), ..row },
        ConfigColumn::UnderReviewLabel(x) => ConfigRow { gh_label_under_review: Some(x), ..row },
        ConfigColumn::ChangesRequestedLabel(x) => ConfigRow {
            gh_label_cr_changes_requested: Some(x),
            ..row
        },
        ConfigColumn::ApprovedLabel(x) => ConfigRow { gh_label_cr_approved: Some(x), ..row },
        ConfigColumn::DeniedLabel(x) => ConfigRow { gh_label_cr_denied: Some(x), ..row },
        ConfigColumn::ReviewPingRole(c) => ConfigRow { review_ping_role: role_in(c), ..row },
    }
}

/// What is set is read back: once the database has written a setting, the settings that it holds are
/// those that it held, with that one changed.
pub proof fn law_written_setting_is_read_back(
    row: ConfigRow,
    ignored: IgnoreCriteria,
    setting: Setting,
)
    ensures
        setting.writing() matches Statement::UpsertConfig(column) && config_of(
            row_with(row, column),
            ignored,
        ) == config_of(row, ignored).with(setting),
{
    match setting {
        Setting::IntakeForum(x) => {
            law_column_round_trip(x@);
            ChannelId::law_same_number(channel_in(Some(column_of(x@)))->0, x);
        },
        Setting::PublicForum(x) => {
            law_column_round_trip(x@);
            ChannelId::law_same_number(channel_in(Some(column_of(x@)))->0, x);
        },
        Setting::PrivateForum(x) => {
            law_column_round_trip(x@);
            ChannelId::law_same_number(channel_in(Some(column_of(x@)))->0, x);
        },
        Setting::ReviewPingRole(x) => {
            law_column_round_trip(x@);
            RoleId::law_same_number(role_in(Some(column_of(x@)))->0, x);
        },
        _ => {},
    }
}

/// Every setting sets what it is named after, and nothing else.
pub proof fn law_settings_set_what_they_name(
    config: CrConfig,
    forum: ChannelId,
    label: String,
    role: RoleId,
)
    ensures
        config.with(Setting::IntakeForum(forum)) == (CrConfig {
            intake_forum: Some(forum),
            ..config
        }),
        config.with(Setting::PublicForum(forum)) == (CrConfig {
            public_forum: Some(forum),
            ..config
        }),
        config.with(Setting::PrivateForum(forum)) == (CrConfig {
            private_forum: Some(forum),
            ..config
        }),
        config.with(Setting::NoReviewLabel(label)) == (CrConfig {
            ghl_not_needed: Some(label),
            ..config
        }),
        config.with(Setting::UnderReviewLabel(label)) == (CrConfig {
            ghl_under_review: Some(label),
            ..config
        }),
        config.with(Setting::ApprovedLabel(label)) == (CrConfig {
            ghl_approved: Some(label),
            ..config
        }),
        config.with(Setting::DeniedLabel(label)) == (CrConfig {
            ghl_denied: Some(label),
            ..config
        }),
        config.with(Setting::ChangesRequestedLabel(label)) == (CrConfig {
            ghl_changes_requested: Some(label),
            ..config
        }),
        config.with(Setting::ReviewPingRole(role)) == (CrConfig {
            review_ping_role: Some(role),
            ..config
        }),
{
}

/// A label marks a pull request as known to the content review exactly if it is set for approved or
/// denied ones, for those under review or for those that need changes.
pub proof fn law_review_labels_are_the_four(config: CrConfig, label: String)
    ensures
        config.cr_labels().contains(label) <==> {
            ||| config.ghl_approved == Some(label)
            ||| config.ghl_denied == Some(label)
            ||| config.ghl_under_review == Some(label)
            ||| config.ghl_changes_requested == Some(label)
        },
{
    let a = listed(config.ghl_approved);
    let b = listed(config.ghl_denied);
    let c = listed(config.ghl_under_review);
    let d = listed(config.ghl_changes_requested);
    let all = config.cr_labels();
    if config.ghl_approved == Some(label) {
        assert(all[0] == label);
    }
    if config.ghl_denied == Some(label) {
        assert(all[a.len() as int] == label);
    }
    if config.ghl_under_review == Some(label) {
        assert(all[(a + b).len() as int] == label);
    }
    if config.ghl_changes_requested == Some(label) {
        assert(all[(a + b + c).len() as int] == label);
    }
}

/// A setting that the database does not take is refused in its own words: a forum must be registered
/// first, and anything else is an internal error.
pub proof fn law_refused_settings_are_explained(setting: Setting)
    ensures
        match setting {
            Setting::IntakeForum(_) => setting.failure().text()
                == "Failed to set intake forum. Did you register it as a forum first?"@,
            Setting::PublicForum(_) => setting.failure().text()
                == "Did you register it as a forum first?"@,
            Setting::PrivateForum(_) => setting.failure().text()
                == "Did you register it as a forum first?"@,
            _ => setting.failure().text() == "An internal error occurred."@,
        },
{
}

} // verus!
