//! The board operations: what each call sends to the remote store, and
//! what the caller gets from what came back.
use vstd::prelude::*;

use crate::board::{
    reply_event_type, AnyBoardLikeEventContent, vote_key, BoardPostEventContent, BoardReplyEventContent, Relation,
    RelationKind, Vote, POST_EVENT_TYPE, REPLY_EVENT_TYPE,
};
use crate::error::{BoardErrorCode, Error};
use crate::events::{
    event_path, relations_path, send_path, Annotation, Events, Method, RelationsParams, Request,
    RequestBody,
};

verus! {

/// Number of replies that a composed post fetch asks for.
pub const REPLY_FETCH_LIMIT: u64 = 10;

/// Shared template of the client: where the remote store is. It carries
/// no credential; each call carries its caller's own.
#[derive(Clone, Debug)]
pub struct ClientConfig {
    pub base_url: String,
}

/// An event as the store returned it, as JSON text, not read further.
#[derive(Clone, Debug)]
pub struct RawEvent {
    pub json: String,
}

/// A post together with its first replies.
#[derive(Clone, Debug)]
pub struct GetPostResponse {
    pub thread: RawEvent,
    pub replies: Vec<RawEvent>,
}

/// What a failed call to the store left; logged where the call was made,
/// never shown to the caller.
#[derive(Clone, Debug)]
pub struct TransportFailure {
    pub detail: String,
}

/// The relation kind that a reply declares, if any.
pub open spec fn declared_kind(rel: Option<Relation>) -> Option<RelationKind> {
    match rel {
        Some(r) => r.kind,
        None => None,
    }
}

pub open spec fn is_send_request(
    r: Request,
    token: Seq<char>,
    board: Seq<char>,
    event_type: Seq<char>,
    txn: Seq<char>,
    body: RequestBody,
) -> bool {
    &&& r.method == Method::Put
    &&& r.path@ == send_path(board, event_type, txn)
    &&& r.access_token@ == token
    &&& r.query.is_none()
    &&& r.body == body
}

pub open spec fn is_thread_request(r: Request, token: Seq<char>, board: Seq<char>, event_id: Seq<char>) -> bool {
    &&& r.method == Method::Get
    &&& r.path@ == event_path(board, event_id)
    &&& r.access_token@ == token
    &&& r.query.is_none()
    &&& r.body == RequestBody::Empty
}

pub open spec fn reply_page(limit: u64) -> RelationsParams {
    RelationsParams { from: None, to: None, limit: Some(limit), direction: None }
}

/// A fetch of the replies to `event_id`: related events of the reply
/// type, of whatever relation kind, at most `limit` of them.
pub open spec fn is_replies_request(
    r: Request,
    token: Seq<char>,
    board: Seq<char>,
    event_id: Seq<char>,
    limit: u64,
) -> bool {
    &&& r.method == Method::Get
    &&& r.path@ == relations_path(board, event_id, None, Some(reply_event_type()))
    &&& r.access_token@ == token
    &&& r.query == Some(reply_page(limit))
    &&& r.body == RequestBody::Empty
}

/// The first `limit` replies of a page, in the store's order.
pub open spec fn bounded_replies(chunk: Seq<RawEvent>, limit: nat) -> Seq<RawEvent> {
    if limit < chunk.len() {
        chunk.take(limit as int)
    } else {
        chunk
    }
}

/// A post and its replies when both fetches succeeded; else the error of
/// the first fetch that failed.
pub open spec fn assembled(
    thread: Result<RawEvent, Error>,
    replies: Result<Vec<RawEvent>, Error>,
) -> Result<GetPostResponse, Error> {
    match thread {
        Err(e) => Err(e),
        Ok(t) => match replies {
            Err(e) => Err(e),
            Ok(rs) => Ok(GetPostResponse { thread: t, replies: rs }),
        },
    }
}

/// The board operations, over a shared client template that no call
/// changes.
pub struct EventsService {
    admin: ClientConfig,
}

impl EventsService {
    pub closed spec fn config(&self) -> ClientConfig {
        self.admin
    }

    pub fn new(admin: ClientConfig) -> (r: Self)
        ensures
            r.config() == admin,
    {
        EventsService { admin }
    }

    /// The shared client template.
    pub fn client(&self) -> (r: &ClientConfig)
        ensures
            *r == self.config(),
    {
        &self.admin
    }

    /// Sends a post as a new event of the board.
    pub fn send_post(
        &self,
        access_token: &str,
        content: BoardPostEventContent,
        board_id: &str,
        txn_id: &str,
    ) -> (r: Request)
        ensures
            is_send_request(r, access_token@, board_id@, POST_EVENT_TYPE@, txn_id@, RequestBody::Post(content)),
    {
        Events::send_message(access_token, POST_EVENT_TYPE, RequestBody::Post(content), board_id, txn_id)
    }

    /// Sends a reply as a new event of the board. A reply whose relation
    /// declares a concrete kind is refused, and nothing is sent.
    pub fn send_reply(
        &self,
        access_token: &str,
        content: BoardReplyEventContent,
        board_id: &str,
        txn_id: &str,
    ) -> (r: Result<Request, Error>)
        ensures
            match declared_kind(content.relates_to) {
                Some(k) => r == Err::<Request, Error>(Error::Board(BoardErrorCode::WrongRelation(k))),
                None => match r {
                    Ok(req) => is_send_request(
                        req,
                        access_token@,
                        board_id@,
                        REPLY_EVENT_TYPE@,
                        txn_id@,
                        RequestBody::Reply(content),
                    ),
                    Err(_) => false,
                },
            },
    {
        let kind = match &content.relates_to {
            Some(relation) => relation.rel_type(),
            None => None,
        };
        match kind {
            Some(k) => Err(Error::Board(BoardErrorCode::WrongRelation(k))),
            None => Ok(
                Events::send_message(access_token, REPLY_EVENT_TYPE, RequestBody::Reply(content), board_id, txn_id),
            ),
        }
    }

    /// Sends board content of either type: a post as `send_post` does, a
    /// reply as `send_reply` does.
    pub fn send_content(
        &self,
        access_token: &str,
        content: AnyBoardLikeEventContent,
        board_id: &str,
        txn_id: &str,
    ) -> (r: Result<Request, Error>)
        ensures
            match content {
                AnyBoardLikeEventContent::Post(c) => match r {
                    Ok(req) => is_send_request(req, access_token@, board_id@, POST_EVENT_TYPE@, txn_id@, RequestBody::Post(c)),
                    Err(_) => false,
                },
                AnyBoardLikeEventContent::Reply(c) => match declared_kind(c.relates_to) {
                    Some(k) => r == Err::<Request, Error>(Error::Board(BoardErrorCode::WrongRelation(k))),
                    None => match r {
                        Ok(req) => is_send_request(req, access_token@, board_id@, REPLY_EVENT_TYPE@, txn_id@, RequestBody::Reply(c)),
                        Err(_) => false,
                    },
                },
            },
    {
        match content {
            AnyBoardLikeEventContent::Post(c) => Ok(self.send_post(access_token, c, board_id, txn_id)),
            AnyBoardLikeEventContent::Reply(c) => self.send_reply(access_token, c, board_id, txn_id),
        }
    }

    /// Casts a vote on `event_id`: a new reaction event whose annotation
    /// key is the encoded vote. Every call makes a new reaction.
    pub fn send_vote(
        &self,
        access_token: &str,
        board_id: &str,
        event_id: &str,
        txn_id: &str,
        vote: Vote,
    ) -> (r: Request)
        ensures
            r.method == Method::Put,
            r.path@ == send_path(board_id@, "m.reaction"@, txn_id@),
            r.access_token@ == access_token@,
            r.query.is_none(),
            match r.body {
                RequestBody::Reaction(a) => a.event_id@ == event_id@ && a.key@ == vote_key(vote),
                _ => false,
            },
    {
        let key = vote.encode();
        let annotation = Annotation { event_id: String::from_str(event_id), key };
        Events::send_message(access_token, "m.reaction", RequestBody::Reaction(annotation), board_id, txn_id)
    }

    /// Asks for the content of `event_id` to be stripped; the store alone
    /// decides whether the caller may.
    pub fn send_redaction(
        &self,
        access_token: &str,
        board_id: &str,
        event_id: &str,
        txn_id: &str,
        reason: Option<String>,
    ) -> (r: Request)
        ensures
            r.method == Method::Put,
            r.path@ == crate::events::redact_path(board_id@, event_id@, txn_id@),
            r.access_token@ == access_token@,
            r.query.is_none(),
            match r.body {
                RequestBody::Redaction(c) => c.redacts@ == event_id@ && c.reason == reason,
                _ => false,
            },
    {
        Events::send_redaction(access_token, board_id, event_id, txn_id, reason)
    }

    /// Stores keyed board state (JSON text) as it is.
    pub fn send_state(
        &self,
        access_token: &str,
        event_type: &str,
        content: String,
        board_id: &str,
        state_key: &str,
    ) -> (r: Request)
        ensures
            r.method == Method::Put,
            r.path@ == crate::events::state_path(board_id@, event_type@, state_key@),
            r.access_token@ == access_token@,
            r.query.is_none(),
            r.body == RequestBody::State(content),
    {
        Events::send_state(access_token, event_type, content, board_id, state_key)
    }

    /// Fetches the root post of a thread.
    pub fn get_thread(&self, access_token: &str, board_id: &str, event_id: &str) -> (r: Request)
        ensures
            is_thread_request(r, access_token@, board_id@, event_id@),
    {
        Events::get_one(access_token, board_id, event_id)
    }

    /// Fetches at most `limit` replies to `event_id`.
    pub fn get_replies(&self, access_token: &str, board_id: &str, event_id: &str, limit: u64) -> (r: Request)
        ensures
            is_replies_request(r, access_token@, board_id@, event_id@, limit),
    {
        let params = RelationsParams { from: None, to: None, limit: Some(limit), direction: None };
        Events::get_relations(access_token, board_id, event_id, None, Some(REPLY_EVENT_TYPE), params)
    }

    /// The two fetches of a post with its replies: the thread, and the
    /// first replies up to the fixed limit.
    pub fn get_post(&self, access_token: &str, board_id: &str, event_id: &str) -> (r: (Request, Request))
        ensures
            is_thread_request(r.0, access_token@, board_id@, event_id@),
            is_replies_request(r.1, access_token@, board_id@, event_id@, REPLY_FETCH_LIMIT),
    {
        let thread = self.get_thread(access_token, board_id, event_id);
        let replies = self.get_replies(access_token, board_id, event_id, REPLY_FETCH_LIMIT);
        (thread, replies)
    }
}

/// What the caller gets from a call to the store: its value, or an opaque
/// failure.
pub fn settle<T>(outcome: Result<T, TransportFailure>) -> (r: Result<T, Error>)
    ensures
        match outcome {
            Ok(v) => r == Ok::<T, Error>(v),
            Err(_) => r == Err::<T, Error>(Error::Unknown),
        },
{
    match outcome {
        Ok(v) => Ok(v),
        Err(_) => Err(Error::Unknown),
    }
}

/// The replies of a page that the caller asked for: never more than
/// `limit`, in the store's order.
pub fn replies_received(chunk: Vec<RawEvent>, limit: u64) -> (r: Vec<RawEvent>)
    ensures
        r@ == bounded_replies(chunk@, limit as nat),
        r@.len() <= limit,
{
    let mut chunk = chunk;
    if limit < chunk.len() as u64 {
        chunk.truncate(limit as usize);
    }
    chunk
}

/// A post with its replies, from the outcomes of its two fetches: both
/// values, or the error of the first that failed; never a part.
pub fn assemble_post(
    thread: Result<RawEvent, Error>,
    replies: Result<Vec<RawEvent>, Error>,
) -> (r: Result<GetPostResponse, Error>)
    ensures
        r == assembled(thread, replies),
{
    match thread {
        Err(e) => Err(e),
        Ok(t) => match replies {
            Err(e) => Err(e),
            Ok(rs) => Ok(GetPostResponse { thread: t, replies: rs }),
        },
    }
}

/// A reply page is never longer than the limit asked for.
pub proof fn lemma_replies_bounded(chunk: Seq<RawEvent>, limit: nat)
    ensures
        bounded_replies(chunk, limit).len() <= limit,
        bounded_replies(chunk, limit).len() <= chunk.len(),
{
}

/// A composed post fetch gives a post only when both of its fetches gave
/// a value; where one failed it fails with that fetch's own error, the
/// thread's first.
pub proof fn lemma_post_all_or_nothing(
    thread: Result<RawEvent, Error>,
    replies: Result<Vec<RawEvent>, Error>,
)
    ensures
        assembled(thread, replies) is Ok <==> (thread is Ok && replies is Ok),
        thread is Ok && replies is Ok ==> assembled(thread, replies) == Ok::<GetPostResponse, Error>(
            (GetPostResponse { thread: thread->Ok_0, replies: replies->Ok_0 }),
        ),
        thread is Err ==> assembled(thread, replies) == Err::<GetPostResponse, Error>(thread->Err_0),
        thread is Ok && replies is Err ==> assembled(thread, replies) == Err::<GetPostResponse, Error>(
            replies->Err_0,
        ),
{
}

/// A composed post fetch makes exactly the fetch of the thread and the
/// fetch of its replies with the fixed limit, under the one credential.
pub proof fn lemma_post_is_thread_and_replies(
    pair: (Request, Request),
    thread: Request,
    replies: Request,
    token: Seq<char>,
    board: Seq<char>,
    event_id: Seq<char>,
)
    requires
        is_thread_request(pair.0, token, board, event_id),
        is_replies_request(pair.1, token, board, event_id, REPLY_FETCH_LIMIT),
        is_thread_request(thread, token, board, event_id),
        is_replies_request(replies, token, board, event_id, REPLY_FETCH_LIMIT),
    ensures
        pair.0.method == thread.method && pair.0.path@ == thread.path@ && pair.0.access_token@
            == thread.access_token@ && pair.0.query == thread.query && pair.0.body == thread.body,
        pair.1.method == replies.method && pair.1.path@ == replies.path@ && pair.1.access_token@
            == replies.access_token@ && pair.1.query == replies.query && pair.1.body == replies.body,
{
}

/// Two requests made for two distinct credentials each carry only their
/// own: neither holds the other's token.
pub proof fn lemma_credentials_do_not_cross(a: Request, b: Request, token_a: Seq<char>, token_b: Seq<char>)
    requires
        a.access_token@ == token_a,
        b.access_token@ == token_b,
        token_a != token_b,
    ensures
        a.access_token@ != token_b,
        b.access_token@ != token_a,
{
}

} // verus!
