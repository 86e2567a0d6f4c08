//! What the bot sends: texts, embeds and buttons.

use vstd::prelude::*;
use vstd::string::*;

use crate::discord::ids::RoleId;

verus! {

/// The characters of a text that may be missing.
pub open spec fn opt_text(s: Option<String>) -> Option<Seq<char>> {
    match s {
        Some(x) => Some(x@),
        None => None,
    }
}

/// A named value inside an embed.
#[derive(Debug, PartialEq, Eq)]
pub struct Field {
    pub name: &'static str,
    pub value: String,
    pub inline: bool,
}

/// What a field shows.
pub struct FieldView {
    pub name: Seq<char>,
    pub value: Seq<char>,
    pub inline: bool,
}

impl Field {
    /// What the field shows.
    pub open spec fn view(self) -> FieldView {
        FieldView { name: self.name@, value: self.value@, inline: self.inline }
    }
}

/// A framed text with a title, a link and so on.
#[derive(Debug, PartialEq, Eq)]
pub struct Embed {
    pub title: Option<String>,
    pub url: Option<String>,
    pub author: Option<String>,
    pub description: Option<String>,
    pub footer: Option<String>,
    pub fields: Vec<Field>,
}

/// What an embed shows.
#[verifier::ext_equal]
pub struct EmbedView {
    pub title: Option<Seq<char>>,
    pub url: Option<Seq<char>>,
    pub author: Option<Seq<char>>,
    pub description: Option<Seq<char>>,
    pub footer: Option<Seq<char>>,
    pub fields: Seq<FieldView>,
}

impl Embed {
    /// What the embed shows.
    pub open spec fn view(self) -> EmbedView {
        EmbedView {
            title: opt_text(self.title),
            url: opt_text(self.url),
            author: opt_text(self.author),
            description: opt_text(self.description),
            footer: opt_text(self.footer),
            fields: self.fields@.map_values(|f: Field| f@),
        }
    }
}

/// What several embeds show.
pub open spec fn embeds_view(embeds: Seq<Embed>) -> Seq<EmbedView> {
    embeds.map_values(|e: Embed| e@)
}

/// A button, with the identifier that a press on it reports.
#[derive(Debug, PartialEq, Eq)]
pub struct Button {
    pub id: String,
    pub label: &'static str,
}

/// What a button shows and reports.
pub struct ButtonView {
    pub id: Seq<char>,
    pub label: Seq<char>,
}

impl Button {
    /// What the button shows and reports.
    pub open spec fn view(self) -> ButtonView {
        ButtonView { id: self.id@, label: self.label@ }
    }
}

/// A message.
#[derive(Debug, PartialEq, Eq)]
pub struct Message {
    pub content: Option<String>,
    /// The one role that the message may notify; where it is not set, the usual rules apply.
    pub notifies: Option<RoleId>,
    pub embeds: Vec<Embed>,
    pub buttons: Vec<Button>,
}

/// What a message shows.
#[verifier::ext_equal]
pub struct MessageView {
    pub content: Option<Seq<char>>,
    pub notifies: Option<RoleId>,
    pub embeds: Seq<EmbedView>,
    pub buttons: Seq<ButtonView>,
}

impl Message {
    /// What the message shows.
    pub open spec fn view(self) -> MessageView {
        MessageView {
            content: opt_text(self.content),
            notifies: self.notifies,
            embeds: embeds_view(self.embeds@),
            buttons: self.buttons@.map_values(|b: Button| b@),
        }
    }
}

/// A message that is text alone.
pub open spec fn plain_message(content: Seq<char>) -> MessageView {
    MessageView {
        content: Some(content),
        notifies: None,
        embeds: Seq::empty(),
        buttons: Seq::empty(),
    }
}

/// A message that is text alone.
pub fn text_message(content: String) -> (r: Message)
    ensures
        r@ == plain_message(content@),
{
    let r = Message { content: Some(content), notifies: None, embeds: Vec::new(), buttons: Vec::new() };
    assert(r@ =~= plain_message(content@));
    r
}

/// How many characters of description an embed has room for.
pub const EMBED_DESC_MAX_LEN: usize = 4096;

/// How many characters an embed has room for.
pub const EMBED_MAX_LENGTH: usize = 6000;

/// How many embeds a message has room for.
pub const MAX_EMBEDS: usize = 10;

/// A list cut into pieces of `MAX_EMBEDS`, of which only the last may be shorter.
pub open spec fn pieces<T>(s: Seq<T>) -> Seq<Seq<T>>
    decreases s.len(),
{
    if s.len() == 0 {
        Seq::empty()
    } else if s.len() <= MAX_EMBEDS {
        seq![s]
    } else {
        seq![s.take(MAX_EMBEDS as int)] + pieces(s.skip(MAX_EMBEDS as int))
    }
}

/// Cuts a list of embeds into the messages that they fill.
pub fn split_embeds(embeds: Vec<Embed>) -> (r: Vec<Vec<Embed>>)
    ensures
        r@.map_values(|piece: Vec<Embed>| piece@) == pieces(embeds@),
{
    let ghost all = embeds@;
    let ghost seen = |piece: Vec<Embed>| piece@;
    let mut out: Vec<Vec<Embed>> = Vec::new();
    let mut piece: Vec<Embed> = Vec::new();
    assert(all.skip(0) =~= all);
    assert(out@.map_values(seen) =~= Seq::<Seq<Embed>>::empty());
    assert(out@.map_values(seen) + pieces(all) =~= pieces(all));
    let ghost mut start: int = 0;
    for embed in it: embeds
        invariant
            it.seq() == all,
            seen == (|piece: Vec<Embed>| piece@),
            0 <= start <= it.index() <= all.len(),
            piece@.len() <= MAX_EMBEDS,
            piece@ == all.subrange(start, it.index()),
            it.index() > 0 ==> piece@.len() > 0,
            out@.map_values(seen) + pieces(all.skip(start)) == pieces(all),
    {
        if piece.len() == MAX_EMBEDS {
            let ghost before = out@.map_values(seen);
            let ghost rest = all.skip(start);
            let ghost next = start + MAX_EMBEDS;
            assert(rest.take(MAX_EMBEDS as int) =~= piece@);
            assert(rest.skip(MAX_EMBEDS as int) =~= all.skip(next));
            assert(pieces(rest) == seq![piece@] + pieces(all.skip(next)));
            out.push(piece);
            assert(out@.map_values(seen) =~= before.push(piece@));
            assert(out@.map_values(seen) + pieces(all.skip(next)) =~= before + pieces(rest));
            piece = Vec::new();
            proof {
                start = next;
            }
        }
        piece.push(embed);
        assert(piece@ =~= all.subrange(start, it.index() + 1));
    }
    assert(all.skip(start) =~= piece@);
    if piece.len() != 0 {
        let ghost before = out@.map_values(seen);
        out.push(piece);
        assert(out@.map_values(seen) =~= before.push(piece@));
        assert(out@.map_values(seen) =~= before + seq![piece@]);
    } else {
        assert(out@.map_values(seen) + pieces(Seq::<Embed>::empty()) =~= out@.map_values(seen));
    }
    out
}

/// Nothing is lost, added or moved when a list is cut into pieces.
pub proof fn law_pieces_hold_everything<T>(s: Seq<T>)
    ensures
        pieces(s).flatten() == s,
    decreases s.len(),
{
    if s.len() == 0 {
        assert(pieces(s).flatten() =~= s);
    } else if s.len() <= MAX_EMBEDS {
        seq![s].lemma_flatten_one_element();
    } else {
        let first = s.take(MAX_EMBEDS as int);
        let rest = s.skip(MAX_EMBEDS as int);
        law_pieces_hold_everything(rest);
        assert((seq![first] + pieces(rest)).drop_first() =~= pieces(rest));
        assert(pieces(s).flatten() == first + pieces(rest).flatten());
        assert(first + rest =~= s);
    }
}

/// No piece is empty, and none is larger than a message has room for.
pub proof fn law_pieces_fit<T>(s: Seq<T>, i: int)
    requires
        0 <= i < pieces(s).len(),
    ensures
        0 < pieces(s)[i].len() <= 10,
    decreases s.len(),
{
    if s.len() > MAX_EMBEDS && i > 0 {
        law_pieces_fit(s.skip(MAX_EMBEDS as int), i - 1);
    }
}

/// Every piece but the last is full.
pub proof fn law_pieces_are_full<T>(s: Seq<T>, i: int)
    requires
        0 <= i < pieces(s).len() - 1,
    ensures
        pieces(s)[i].len() == 10,
    decreases s.len(),
{
    if s.len() > MAX_EMBEDS && i > 0 {
        law_pieces_are_full(s.skip(MAX_EMBEDS as int), i - 1);
    }
}

} // verus!
