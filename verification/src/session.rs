//! The live-stream session: one state machine per open streaming
//! connection. A session is opened only for the form's owner, then
//! forwards each broadcast response belonging to its form, survives lag
//! signals, and terminates on hub closure, client disconnect or server
//! shutdown. The transition function is pure; the surrounding event
//! loop performs the waiting and the sending.

use vstd::prelude::*;

use crate::error::ApiError;
use crate::form::{owner_access, Form};
use crate::hub::{publish_post, recv_view, Hub, RecvV};
use crate::response::Response;
use crate::text::str_eq;

verus! {

/// The state of one streaming connection.
pub enum SessionState {
    /// Subscribed and forwarding responses for the named form.
    Streaming { form: String },
    /// The subscription is over; no further message is delivered.
    Terminated,
}

/// What a streaming session can observe while it waits.
pub enum StreamEvent {
    /// The hub delivered a response.
    Message(Response),
    /// The hub signalled that this subscriber lost messages.
    Lagged,
    /// The hub was shut down.
    Closed,
    /// The client disconnected or the server is shutting down.
    Shutdown,
}

/// What the session does in reaction to one event.
pub enum StreamAction {
    /// Send this response to the connected client as one event.
    Forward(Response),
    /// Keep waiting; nothing is sent.
    Continue,
    /// Release the subscription and end the connection.
    Stop,
}

/// The transition function of the session: a pure map from state and
/// event to successor state and action. A streaming session forwards a
/// response exactly when it belongs to the session's form, swallows lag
/// signals, and terminates on closure or shutdown.
pub open spec fn step_spec(state: SessionState, event: StreamEvent) -> (SessionState, StreamAction) {
    match state {
        SessionState::Terminated => (SessionState::Terminated, StreamAction::Stop),
        SessionState::Streaming { form } => match event {
            StreamEvent::Message(m) => {
                if m.form@ == form@ {
                    (SessionState::Streaming { form }, StreamAction::Forward(m))
                } else {
                    (SessionState::Streaming { form }, StreamAction::Continue)
                }
            },
            StreamEvent::Lagged => (SessionState::Streaming { form }, StreamAction::Continue),
            StreamEvent::Closed => (SessionState::Terminated, StreamAction::Stop),
            StreamEvent::Shutdown => (SessionState::Terminated, StreamAction::Stop),
        },
    }
}

/// Open a streaming session for `form`: only its owner may listen, and
/// an opened session streams exactly that form.
pub fn init_session(form: &Form, user: &str) -> (r: Result<SessionState, ApiError>)
    ensures
        r is Ok <==> form.owner@ == user@,
        r matches Ok(s) ==> s matches SessionState::Streaming { form: f } && f@ == form._id@,
        r matches Err(e) ==> e matches ApiError::Forbidden,
{
    match owner_access(form, user) {
        Ok(()) => Ok(SessionState::Streaming { form: form._id.clone() }),
        Err(e) => Err(e),
    }
}

/// One step of the session loop; returns exactly what [`step_spec`]
/// prescribes for the given state and event.
pub fn step(state: SessionState, event: StreamEvent) -> (r: (SessionState, StreamAction))
    ensures
        r == step_spec(state, event),
{
    match state {
        SessionState::Terminated => (SessionState::Terminated, StreamAction::Stop),
        SessionState::Streaming { form } => match event {
            StreamEvent::Message(m) => {
                if str_eq(m.form.as_str(), form.as_str()) {
                    (SessionState::Streaming { form }, StreamAction::Forward(m))
                } else {
                    (SessionState::Streaming { form }, StreamAction::Continue)
                }
            },
            StreamEvent::Lagged => (SessionState::Streaming { form }, StreamAction::Continue),
            StreamEvent::Closed => (SessionState::Terminated, StreamAction::Stop),
            StreamEvent::Shutdown => (SessionState::Terminated, StreamAction::Stop),
        },
    }
}

/// Publishing a response reaches exactly the sessions streaming its
/// form: every caught-up subscriber receives the response as its next
/// message, and a streaming session forwards it precisely when the
/// session's form is the response's form — any session streaming a
/// different form discards it and keeps waiting.
pub proof fn lemma_broadcast_filtered(
    pre: Hub,
    post: Hub,
    m: Response,
    pos: int,
    sess: SessionState,
)
    requires
        pre.wf(),
        publish_post(pre, post, m),
        pos == pre.total(),
    ensures
        recv_view(post, pos) == RecvV::Message(m),
        sess matches SessionState::Streaming { form } ==> step_spec(
            sess,
            StreamEvent::Message(m),
        ) == if m.form@ == form@ {
            (sess, StreamAction::Forward(m))
        } else {
            (sess, StreamAction::Continue)
        },
{
    crate::hub::lemma_publish_delivers(pre, post, m, pos);
}

/// A lag signal is not an error to the session: the subscriber learns
/// how much it missed, stays subscribed in the same state, and the
/// stream continues with the messages still retained.
pub proof fn lemma_lag_is_survived(h: Hub, pos: int, sess: SessionState)
    requires
        h.wf(),
        0 <= pos < h.base,
        sess matches SessionState::Streaming { .. },
    ensures
        recv_view(h, pos) == RecvV::Lagged(h.base - pos),
        step_spec(sess, StreamEvent::Lagged) == (sess, StreamAction::Continue),
        h.base < h.total() ==> recv_view(h, h.base as int) == RecvV::Message(
            h.msg_at(h.base as int),
        ),
{
    crate::hub::lemma_lag_then_resume(h, pos);
}

/// The shutdown signal ends a streaming session in one transition: the
/// very next step takes it to the terminated state, where the
/// subscription is released and nothing further is forwarded.
pub proof fn lemma_shutdown_terminates(sess: SessionState)
    requires
        sess matches SessionState::Streaming { .. },
    ensures
        step_spec(sess, StreamEvent::Shutdown) == (
            SessionState::Terminated,
            StreamAction::Stop,
        ),
        step_spec(sess, StreamEvent::Closed) == (SessionState::Terminated, StreamAction::Stop),
{
}

} // verus!
