//! Content model of a discussion board: posts, replies, votes and the
//! relations that link one event to another.
use vstd::prelude::*;
use vstd::string::*;

verus! {

/// Wire event type of a board post.
pub const POST_EVENT_TYPE: &'static str = "space.board.post";

/// Wire event type of a board reply.
pub const REPLY_EVENT_TYPE: &'static str = "space.board.reply";

/// Wire format tag of an HTML formatted body.
pub const HTML_FORMAT: &'static str = "org.matrix.custom.html";

pub open spec fn post_event_type() -> Seq<char> {
    POST_EVENT_TYPE@
}

pub open spec fn reply_event_type() -> Seq<char> {
    REPLY_EVENT_TYPE@
}

/// The kinds of relation that an event may formally declare.
#[derive(Clone, Copy, Debug, PartialEq, Eq, Structural)]
pub enum RelationKind {
    Annotation,
    Reference,
    Replacement,
    Thread,
}

/// A reference from one event to a target event. A relation without a
/// kind is an implicit reference (a reply fallback).
#[derive(Clone, Debug)]
pub struct Relation {
    pub target: String,
    pub kind: Option<RelationKind>,
}

impl Relation {
    /// The relation's kind tag, when it resolves to a concrete kind.
    pub fn rel_type(&self) -> (r: Option<RelationKind>)
        ensures
            r == self.kind,
    {
        self.kind
    }
}

/// Formatted companion of a plain-text body, flattened beside `body` on
/// the wire.
#[derive(Clone, Debug)]
pub struct FormattedBody {
    pub format: String,
    pub body: String,
}

impl FormattedBody {
    /// An HTML formatted body.
    pub fn html(body: String) -> (r: FormattedBody)
        ensures
            r.format@ == HTML_FORMAT@,
            r.body == body,
    {
        FormattedBody { format: String::from_str(HTML_FORMAT), body }
    }
}

/// Names what the Markdown renderer makes of a text: the HTML it renders,
/// or nothing where the text holds no Markdown formatting.
pub uninterp spec fn markdown_html_of(s: Seq<char>) -> Option<Seq<char>>;

/// Relies on ruma_events' `FormattedBody::markdown`: it renders `body` as
/// HTML, or returns `None` where no Markdown formatting was found; the
/// result depends on the text alone.
#[verifier::external_body]
fn render_markdown(body: &str) -> (r: Option<String>)
    ensures
        match r {
            Some(h) => markdown_html_of(body@) == Some(h@),
            None => markdown_html_of(body@).is_none(),
        },
{
    ruma_events::room::message::FormattedBody::markdown(body).map(|f| f.body)
}

/// Content of a post, the root of a thread.
#[derive(Clone, Debug)]
pub struct BoardPostEventContent {
    pub title: Option<String>,
    pub body: String,
    pub formatted: Option<FormattedBody>,
    pub relates_to: Option<Relation>,
    pub mentions: Option<Vec<String>>,
}

/// Content of a reply within a thread.
#[derive(Clone, Debug)]
pub struct BoardReplyEventContent {
    pub body: String,
    pub formatted: Option<FormattedBody>,
    pub relates_to: Option<Relation>,
    pub mentions: Option<Vec<String>>,
}

/// Whether `f` is the HTML companion `html` of a body.
pub open spec fn is_html_formatted(f: Option<FormattedBody>, html: Seq<char>) -> bool {
    match f {
        Some(f) => f.format@ == HTML_FORMAT@ && f.body@ == html,
        None => false,
    }
}

impl BoardPostEventContent {
    /// A plain-text post.
    pub fn plain(body: String) -> (r: Self)
        ensures
            r.body == body,
            r.title.is_none(),
            r.formatted.is_none(),
            r.relates_to.is_none(),
            r.mentions.is_none(),
    {
        BoardPostEventContent { title: None, body, formatted: None, relates_to: None, mentions: None }
    }

    /// An HTML post, with `html_body` as its formatted companion.
    pub fn html(body: String, html_body: String) -> (r: Self)
        ensures
            r.body == body,
            is_html_formatted(r.formatted, html_body@),
            r.title.is_none(),
            r.relates_to.is_none(),
            r.mentions.is_none(),
    {
        let formatted = Some(FormattedBody::html(html_body));
        BoardPostEventContent { title: None, body, formatted, relates_to: None, mentions: None }
    }

    /// A post from Markdown text: an HTML post where the text holds
    /// Markdown formatting, a plain-text post otherwise.
    pub fn markdown(body: String) -> (r: Self)
        ensures
            r.body == body,
            match markdown_html_of(body@) {
                Some(h) => is_html_formatted(r.formatted, h),
                None => r.formatted.is_none(),
            },
            r.title.is_none(),
            r.relates_to.is_none(),
            r.mentions.is_none(),
    {
        match render_markdown(body.as_str()) {
            Some(h) => Self::html(body, h),
            None => Self::plain(body),
        }
    }

    pub fn set_title(&mut self, title: String)
        ensures
            final(self).title == Some(title),
            final(self).body == old(self).body,
            final(self).formatted == old(self).formatted,
            final(self).relates_to == old(self).relates_to,
            final(self).mentions == old(self).mentions,
    {
        self.title = Some(title);
    }
}

impl BoardReplyEventContent {
    /// A plain-text reply.
    pub fn plain(body: String) -> (r: Self)
        ensures
            r.body == body,
            r.formatted.is_none(),
            r.relates_to.is_none(),
            r.mentions.is_none(),
    {
        BoardReplyEventContent { body, formatted: None, relates_to: None, mentions: None }
    }

    /// An HTML reply, with `html_body` as its formatted companion.
    pub fn html(body: String, html_body: String) -> (r: Self)
        ensures
            r.body == body,
            is_html_formatted(r.formatted, html_body@),
            r.relates_to.is_none(),
            r.mentions.is_none(),
    {
        let formatted = Some(FormattedBody::html(html_body));
        BoardReplyEventContent { body, formatted, relates_to: None, mentions: None }
    }

    /// A reply from Markdown text: an HTML reply where the text holds
    /// Markdown formatting, a plain-text reply otherwise.
    pub fn markdown(body: String) -> (r: Self)
        ensures
            r.body == body,
            match markdown_html_of(body@) {
                Some(h) => is_html_formatted(r.formatted, h),
                None => r.formatted.is_none(),
            },
            r.relates_to.is_none(),
            r.mentions.is_none(),
    {
        match render_markdown(body.as_str()) {
            Some(h) => Self::html(body, h),
            None => Self::plain(body),
        }
    }
}

/// Why a wire value could not be read.
#[derive(Clone, Copy, Debug, PartialEq, Eq, Structural)]
pub enum DecodeError {
    UnknownEventType,
    UnknownVote,
}

/// The board event types that the content model knows.
#[derive(Clone, Copy, Debug, PartialEq, Eq, Structural)]
pub enum BoardEventType {
    Post,
    Reply,
}

pub open spec fn event_type_spec(t: BoardEventType) -> Seq<char> {
    match t {
        BoardEventType::Post => post_event_type(),
        BoardEventType::Reply => reply_event_type(),
    }
}

impl BoardEventType {
    /// The wire type string of this event type.
    pub fn as_str(&self) -> (r: &'static str)
        ensures
            r@ == event_type_spec(*self),
    {
        match self {
            BoardEventType::Post => POST_EVENT_TYPE,
            BoardEventType::Reply => REPLY_EVENT_TYPE,
        }
    }

    /// Reads a wire type string; any string but the two board types fails.
    pub fn from_event_type(s: &str) -> (r: Result<BoardEventType, DecodeError>)
        ensures
            s@ == post_event_type() ==> r == Ok::<BoardEventType, DecodeError>(BoardEventType::Post),
            s@ == reply_event_type() ==> r == Ok::<BoardEventType, DecodeError>(BoardEventType::Reply),
            s@ != post_event_type() && s@ != reply_event_type() ==> r == Err::<BoardEventType, DecodeError>(DecodeError::UnknownEventType),
    {
        proof {
            reveal_strlit("space.board.post");
            reveal_strlit("space.board.reply");
            assert(post_event_type().len() != reply_event_type().len());
        }
        let given = String::from_str(s);
        if given == String::from_str(POST_EVENT_TYPE) {
            Ok(BoardEventType::Post)
        } else if given == String::from_str(REPLY_EVENT_TYPE) {
            Ok(BoardEventType::Reply)
        } else {
            Err(DecodeError::UnknownEventType)
        }
    }
}

/// A board event's content, closed over the two board event types.
#[derive(Clone, Debug)]
pub enum AnyBoardLikeEventContent {
    Post(BoardPostEventContent),
    Reply(BoardReplyEventContent),
}

impl AnyBoardLikeEventContent {
    pub fn event_type(&self) -> (r: BoardEventType)
        ensures
            r == (match self {
                AnyBoardLikeEventContent::Post(_) => BoardEventType::Post,
                AnyBoardLikeEventContent::Reply(_) => BoardEventType::Reply,
            }),
    {
        match self {
            AnyBoardLikeEventContent::Post(_) => BoardEventType::Post,
            AnyBoardLikeEventContent::Reply(_) => BoardEventType::Reply,
        }
    }
}

/// An up or down vote on an event.
#[derive(Clone, Copy, Debug, PartialEq, Eq, Structural)]
pub enum Vote {
    Up,
    Down,
}

/// The vote that an annotation key stands for, if any.
pub open spec fn vote_of_key(s: Seq<char>) -> Option<Vote> {
    if s == vote_key(Vote::Up) {
        Some(Vote::Up)
    } else if s == vote_key(Vote::Down) {
        Some(Vote::Down)
    } else {
        None
    }
}

/// The annotation key that carries a vote.
pub open spec fn vote_key(v: Vote) -> Seq<char> {
    match v {
        Vote::Up => "up"@,
        Vote::Down => "down"@,
    }
}

impl Vote {
    /// The annotation key of this vote: `"up"` or `"down"`.
    pub fn encode(&self) -> (r: String)
        ensures
            r@ == vote_key(*self),
    {
        proof {
            reveal_strlit("up");
            reveal_strlit("down");
        }
        match self {
            Vote::Up => String::from_str("up"),
            Vote::Down => String::from_str("down"),
        }
    }

    /// Reads an annotation key; any string but `"up"` and `"down"` fails.
    pub fn decode(s: &str) -> (r: Result<Vote, DecodeError>)
        ensures
            r == (match vote_of_key(s@) {
                Some(v) => Ok::<Vote, DecodeError>(v),
                None => Err::<Vote, DecodeError>(DecodeError::UnknownVote),
            }),
    {
        proof {
            reveal_strlit("up");
            reveal_strlit("down");
            assert(vote_key(Vote::Up).len() != vote_key(Vote::Down).len());
        }
        let given = String::from_str(s);
        if given == String::from_str("up") {
            Ok(Vote::Up)
        } else if given == String::from_str("down") {
            Ok(Vote::Down)
        } else {
            Err(DecodeError::UnknownVote)
        }
    }
}

/// Decoding an encoded vote gives the vote back, for both votes.
pub proof fn lemma_vote_round_trip(v: Vote)
    ensures
        vote_of_key(vote_key(v)) == Some(v),
{
    reveal_strlit("up");
    reveal_strlit("down");
    assert(vote_key(Vote::Up).len() != vote_key(Vote::Down).len());
}

} // verus!
