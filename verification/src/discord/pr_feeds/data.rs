//! Pull request feeds: which labels are announced where.

use vstd::prelude::*;

use crate::discord::content_review::data::config::{role_column, to_role_column};
use crate::discord::error::{DbError, HandledError};
use crate::discord::ids::{column_of, ChannelId, RoleId};
use crate::discord::store::{FeedRow, Statement};
use crate::text::chars::same_text;

verus! {

/// A feed: pull requests that get the label are announced in the channel.
#[derive(Debug, PartialEq, Eq)]
pub struct PrFeed {
    pub id: i64,
    pub gh_label: String,
    pub channel_id: ChannelId,
    pub ping_role: Option<RoleId>,
}

impl Clone for PrFeed {
    fn clone(&self) -> (r: Self)
        ensures
            r == *self,
    {
        PrFeed {
            id: self.id,
            gh_label: self.gh_label.clone(),
            channel_id: self.channel_id,
            ping_role: self.ping_role,
        }
    }
}

/// All feeds, in the order in which they were added.
#[derive(Debug)]
pub struct PrFeeds {
    feeds: Vec<PrFeed>,
}

/// The feed that a row describes.
pub open spec fn feed_of(row: FeedRow) -> PrFeed {
    PrFeed {
        id: row.id,
        gh_label: row.gh_label,
        channel_id: row.channel_id,
        ping_role: row.ping_role,
    }
}

fn to_feed(row: FeedRow) -> (r: PrFeed)
    ensures
        r == feed_of(row),
{
    PrFeed {
        id: row.id,
        gh_label: row.gh_label,
        channel_id: row.channel_id,
        ping_role: row.ping_role,
    }
}

/// Whether the feed at a place is the first one that a test holds of.
pub open spec fn is_first(s: Seq<PrFeed>, test: spec_fn(PrFeed) -> bool, i: int) -> bool {
    &&& 0 <= i < s.len()
    &&& test(s[i])
    &&& forall|k: int| 0 <= k < i ==> !test(#[trigger] s[k])
}

/// The first feed that a test holds of, if there is one.
pub open spec fn first_feed(s: Seq<PrFeed>, test: spec_fn(PrFeed) -> bool) -> Option<PrFeed> {
    if exists|i: int| is_first(s, test, i) {
        Some(s[choose|i: int| is_first(s, test, i)])
    } else {
        None
    }
}

/// The test for the feed with a given number.
pub open spec fn numbered(id: i64) -> spec_fn(PrFeed) -> bool {
    |f: PrFeed| f.id == id
}

/// The test for a feed of a given label.
pub open spec fn labelled(label: Seq<char>) -> spec_fn(PrFeed) -> bool {
    |f: PrFeed| f.gh_label@ == label
}

/// The feed with a given number, if there is one.
pub open spec fn feed_with_id(s: Seq<PrFeed>, id: i64) -> Option<PrFeed> {
    first_feed(s, numbered(id))
}

/// The feed for a label, if there is one.
pub open spec fn feed_with_label(s: Seq<PrFeed>, label: Seq<char>) -> Option<PrFeed> {
    first_feed(s, labelled(label))
}

/// A list of feeds without the first one that has a given number.
pub open spec fn without_feed(s: Seq<PrFeed>, id: i64) -> Seq<PrFeed> {
    let test = numbered(id);
    if exists|i: int| is_first(s, test, i) {
        s.remove(choose|i: int| is_first(s, test, i))
    } else {
        s
    }
}

proof fn lemma_first_is_unique(s: Seq<PrFeed>, test: spec_fn(PrFeed) -> bool, i: int, j: int)
    requires
        is_first(s, test, i),
        is_first(s, test, j),
    ensures
        i == j,
{
    if i < j {
        assert(!test(s[i]));
    }
    if j < i {
        assert(!test(s[j]));
    }
}

proof fn lemma_found(s: Seq<PrFeed>, test: spec_fn(PrFeed) -> bool, i: int)
    requires
        is_first(s, test, i),
    ensures
        first_feed(s, test) == Some(s[i]),
        (choose|j: int| is_first(s, test, j)) == i,
{
    lemma_first_is_unique(s, test, i, choose|j: int| is_first(s, test, j));
}

proof fn lemma_not_found(s: Seq<PrFeed>, test: spec_fn(PrFeed) -> bool)
    requires
        forall|k: int| 0 <= k < s.len() ==> !test(#[trigger] s[k]),
    ensures
        first_feed(s, test) is None,
        !exists|i: int| is_first(s, test, i),
{
}

proof fn lemma_some_first(s: Seq<PrFeed>, test: spec_fn(PrFeed) -> bool, k: int) -> (i: int)
    requires
        0 <= k < s.len(),
        test(s[k]),
    ensures
        is_first(s, test, i),
        i <= k,
    decreases k,
{
    if exists|j: int| 0 <= j < k && test(#[trigger] s[j]) {
        let j = choose|j: int| 0 <= j < k && test(#[trigger] s[j]);
        lemma_some_first(s, test, j)
    } else {
        k
    }
}

impl PrFeeds {
    /// The feeds, in order.
    pub closed spec fn view(self) -> Seq<PrFeed> {
        self.feeds@
    }

    /// Asks for all feeds.
    pub fn from_db_statement() -> (r: Statement)
        ensures
            r == Statement::SelectFeeds,
    {
        Statement::SelectFeeds
    }

    /// The feeds that the database holds.
    pub fn from_db(rows: Result<Vec<FeedRow>, DbError>) -> (r: Result<PrFeeds, DbError>)
        ensures
            match rows {
                Ok(x) => r is Ok && r->Ok_0@ == x@.map_values(|row: FeedRow| feed_of(row)),
                Err(e) => r == Err::<PrFeeds, DbError>(e),
            },
    {
        match rows {
            Ok(found) => {
                let ghost all = found@;
                let mut feeds: Vec<PrFeed> = Vec::new();
                for row in it: found
                    invariant
                        it.seq() == all,
                        feeds@ == all.take(it.index()).map_values(|row: FeedRow| feed_of(row)),
                {
                    feeds.push(to_feed(row));
                    assert(all.take(it.index() + 1) =~= all.take(it.index()).push(row));
                    assert(feeds@ =~= all.take(it.index() + 1).map_values(
                        |row: FeedRow| feed_of(row),
                    ));
                }
                assert(all.take(all.len() as int) =~= all);
                Ok(PrFeeds { feeds })
            },
            Err(e) => Err(e),
        }
    }

    /// All feeds, in order.
    pub fn get_all(&self) -> (r: Vec<PrFeed>)
        ensures
            r@ == self@,
    {
        let mut out: Vec<PrFeed> = Vec::new();
        let mut i: usize = 0;
        while i < self.feeds.len()
            invariant
                i <= self.feeds.len(),
                out@ == self.feeds@.take(i as int),
            decreases self.feeds.len() - i,
        {
            out.push(self.feeds[i].clone());
            assert(self.feeds@.take(i + 1) =~= self.feeds@.take(i as int).push(
                self.feeds@[i as int],
            ));
            i = i + 1;
        }
        assert(self.feeds@.take(self.feeds@.len() as int) =~= self.feeds@);
        out
    }

    fn position(&self, id: i64) -> (r: Option<usize>)
        ensures
            match r {
                Some(i) => is_first(self@, numbered(id), i as int),
                None => forall|k: int| 0 <= k < self@.len() ==> (#[trigger] self@[k]).id != id,
            },
    {
        let mut i: usize = 0;
        while i < self.feeds.len()
            invariant
                i <= self.feeds.len(),
                forall|k: int| 0 <= k < i ==> (#[trigger] self@[k]).id != id,
            decreases self.feeds.len() - i,
        {
            if self.feeds[i].id == id {
                return Some(i);
            }
            i = i + 1;
        }
        None
    }

    /// The feed with a given number, if there is one.
    pub fn get(&self, id: i64) -> (r: Option<PrFeed>)
        ensures
            r == feed_with_id(self@, id),
    {
        let ghost test = numbered(id);
        match self.position(id) {
            Some(i) => {
                proof {
                    lemma_found(self@, test, i as int);
                }
                Some(self.feeds[i].clone())
            },
            None => {
                proof {
                    lemma_not_found(self@, test);
                }
                None
            },
        }
    }

    /// The feed for a label, if there is one.
    pub fn get_by_label(&self, label: &str) -> (r: Option<PrFeed>)
        ensures
            r == feed_with_label(self@, label@),
    {
        let ghost test = labelled(label@);
        let mut i: usize = 0;
        while i < self.feeds.len()
            invariant
                i <= self.feeds.len(),
                test == labelled(label@),
                forall|k: int| 0 <= k < i ==> !test(#[trigger] self@[k]),
            decreases self.feeds.len() - i,
        {
            if same_text(self.feeds[i].gh_label.as_str(), label) {
                proof {
                    lemma_found(self@, test, i as int);
                }
                return Some(self.feeds[i].clone());
            }
            i = i + 1;
        }
        proof {
            lemma_not_found(self@, test);
        }
        None
    }

    /// Adds a feed to the database.
    pub fn add_statement(gh_label: String, channel_id: ChannelId, ping_role: Option<RoleId>) -> (r:
        Statement)
        ensures
            r == (Statement::InsertFeed {
                gh_label,
                channel_id: column_of(channel_id@),
                ping_role: role_column(ping_role),
            }),
    {
        Statement::InsertFeed {
            gh_label,
            channel_id: channel_id.to_column(),
            ping_role: to_role_column(ping_role),
        }
    }

    /// Takes note of the feed that the database has added.
    pub fn add(&mut self, row: Result<FeedRow, DbError>) -> (r: Result<(), HandledError>)
        ensures
            match row {
                Ok(x) => r is Ok && final(self)@ == old(self)@.push(feed_of(x)),
                Err(_) => r == Err::<(), HandledError>(HandledError::InternalError) && final(self)@
                    == old(self)@,
            },
    {
        match row {
            Ok(x) => {
                self.feeds.push(to_feed(x));
                Ok(())
            },
            Err(_) => Err(HandledError::InternalError),
        }
    }

    /// Removes a feed from the database.
    pub fn remove_statement(id: i64) -> (r: Statement)
        ensures
            r == (Statement::DeleteFeed { id }),
    {
        Statement::DeleteFeed { id }
    }

    /// Takes note that a feed is gone, once the database has removed it.
    pub fn remove(&mut self, id: i64, written: Result<(), DbError>) -> (r: Result<(), HandledError>)
        ensures
            match written {
                Ok(_) => r is Ok && final(self)@ == without_feed(old(self)@, id),
                Err(_) => r == Err::<(), HandledError>(HandledError::InternalError) && final(self)@
                    == old(self)@,
            },
    {
        if written.is_err() {
            return Err(HandledError::InternalError);
        }
        let ghost test = numbered(id);
        match self.position(id) {
            Some(i) => {
                proof {
                    lemma_found(self@, test, i as int);
                }
                self.feeds.remove(i);
            },
            None => {
                proof {
                    lemma_not_found(self@, test);
                }
            },
        }
        Ok(())
    }
}

/// A label that has no feed yet gets the one that is added for it; a label that has one keeps it.
pub proof fn law_added_feed_is_found(s: Seq<PrFeed>, feed: PrFeed, label: Seq<char>)
    ensures
        feed_with_label(s.push(feed), label) == match feed_with_label(s, label) {
            Some(earlier) => Some(earlier),
            None => if feed.gh_label@ == label {
                Some(feed)
            } else {
                None
            },
        },
{
    let test = labelled(label);
    let t = s.push(feed);
    if exists|k: int| 0 <= k < s.len() && test(#[trigger] s[k]) {
        let k = choose|k: int| 0 <= k < s.len() && test(#[trigger] s[k]);
        let i = lemma_some_first(s, test, k);
        lemma_found(s, test, i);
        assert forall|m: int| 0 <= m < i implies !test(#[trigger] t[m]) by {
            assert(t[m] == s[m]);
        }
        assert(t[i] == s[i]);
        lemma_found(t, test, i);
    } else {
        lemma_not_found(s, test);
        assert forall|m: int| 0 <= m < s.len() implies !test(#[trigger] t[m]) by {
            assert(t[m] == s[m]);
        }
        if test(feed) {
            assert(t[s.len() as int] == feed);
            lemma_found(t, test, s.len() as int);
        } else {
            assert forall|m: int| 0 <= m < t.len() implies !test(#[trigger] t[m]) by {
                if m == s.len() {
                    assert(t[m] == feed);
                }
            }
            lemma_not_found(t, test);
        }
    }
}

/// Where every number stands for one feed, a removed feed is not found any more, and every other
/// one still is.
pub proof fn law_removed_feed_is_gone(s: Seq<PrFeed>, id: i64, other: i64)
    requires
        forall|i: int, j: int|
            0 <= i < j < s.len() ==> (#[trigger] s[i]).id != (#[trigger] s[j]).id,
    ensures
        feed_with_id(without_feed(s, id), other) == if other == id {
            None
        } else {
            feed_with_id(s, other)
        },
{
    let gone = numbered(id);
    let test = numbered(other);
    let t = without_feed(s, id);
    if exists|k: int| 0 <= k < s.len() && gone(#[trigger] s[k]) {
        let k = choose|k: int| 0 <= k < s.len() && gone(#[trigger] s[k]);
        let i = lemma_some_first(s, gone, k);
        lemma_found(s, gone, i);
        assert(t == s.remove(i));
        if other == id {
            assert forall|m: int| 0 <= m < t.len() implies !test(#[trigger] t[m]) by {
                if m < i {
                    assert(t[m] == s[m]);
                } else {
                    assert(t[m] == s[m + 1]);
                }
            }
            lemma_not_found(t, test);
        } else if exists|m: int| 0 <= m < s.len() && test(#[trigger] s[m]) {
            let m = choose|m: int| 0 <= m < s.len() && test(#[trigger] s[m]);
            let j = lemma_some_first(s, test, m);
            lemma_found(s, test, j);
            let at = if j < i {
                j
            } else {
                j - 1
            };
            assert(t[at] == s[j]);
            assert forall|n: int| 0 <= n < at implies !test(#[trigger] t[n]) by {
                if n < i {
                    assert(t[n] == s[n]);
                } else {
                    assert(t[n] == s[n + 1]);
                }
            }
            lemma_found(t, test, at);
        } else {
            lemma_not_found(s, test);
            assert forall|n: int| 0 <= n < t.len() implies !test(#[trigger] t[n]) by {
                if n < i {
                    assert(t[n] == s[n]);
                } else {
                    assert(t[n] == s[n + 1]);
                }
            }
            lemma_not_found(t, test);
        }
    } else {
        lemma_not_found(s, gone);
        if other == id {
            lemma_not_found(s, test);
        }
    }
}

/// A feed is read from its row as it stands there.
pub proof fn law_feed_is_as_its_row(row: FeedRow)
    ensures
        feed_of(row).id == row.id,
        feed_of(row).gh_label == row.gh_label,
        feed_of(row).channel_id == row.channel_id,
        feed_of(row).ping_role == row.ping_role,
{
}

/// The feed that is found for a label, or for a number, is one of the feeds and has that label or
/// number; none is found exactly if there is none.
pub proof fn law_found_feed_fits(s: Seq<PrFeed>, label: Seq<char>, id: i64)
    ensures
        feed_with_label(s, label) matches Some(feed) ==> s.contains(feed) && feed.gh_label@ == label,
        feed_with_id(s, id) matches Some(feed) ==> s.contains(feed) && feed.id == id,
        feed_with_label(s, label) is None <==> forall|k: int|
            0 <= k < s.len() ==> (#[trigger] s[k]).gh_label@ != label,
        feed_with_id(s, id) is None <==> forall|k: int|
            0 <= k < s.len() ==> (#[trigger] s[k]).id != id,
{
    lemma_found_fits(s, labelled(label));
    lemma_found_fits(s, numbered(id));
    if feed_with_label(s, label) is None {
        assert forall|k: int| 0 <= k < s.len() implies (#[trigger] s[k]).gh_label@ != label by {
            assert(!labelled(label)(s[k]));
        }
    }
    if feed_with_id(s, id) is None {
        assert forall|k: int| 0 <= k < s.len() implies (#[trigger] s[k]).id != id by {
            assert(!numbered(id)(s[k]));
        }
    }
}

proof fn lemma_found_fits(s: Seq<PrFeed>, test: spec_fn(PrFeed) -> bool)
    ensures
        first_feed(s, test) matches Some(feed) ==> s.contains(feed) && test(feed),
        first_feed(s, test) is None ==> forall|k: int| 0 <= k < s.len() ==> !test(#[trigger] s[k]),
        first_feed(s, test) is Some ==> exists|k: int| 0 <= k < s.len() && test(#[trigger] s[k]),
{
    if exists|i: int| is_first(s, test, i) {
        let i = choose|i: int| is_first(s, test, i);
        assert(s[i] == first_feed(s, test)->0);
        assert(test(s[i]));
    } else {
        assert forall|k: int| 0 <= k < s.len() implies !test(#[trigger] s[k]) by {
            if test(s[k]) {
                let i = lemma_some_first(s, test, k);
                assert(is_first(s, test, i));
            }
        }
    }
}

} // verus!
