//! Session handling: which conversation thread serves a chat, and what an
//! incoming message means.
//!
//! The [`ThreadManager`] keeps the durable chat-to-thread table. A chat's
//! first message creates a thread on the backend and persists its handle; all
//! later messages reuse that handle. A reset command deletes the thread and
//! drops the entry, so the next message starts afresh. Thread creation and
//! deletion are backend calls made by the surrounding program; the manager is
//! handed their results.

use vstd::prelude::*;
use vstd::hash_map::StringHashMap;

verus! {

/// The one message text recognized, verbatim, as a reset command.
pub open spec fn is_reset_text(text: Seq<char>) -> bool {
    text == "/restart"@
}

/// Decides whether a message text is the reset command.
pub fn is_reset_command(text: &String) -> (r: bool)
    ensures
        r == is_reset_text(text@),
{
    let command: String = "/restart".to_owned();
    *text == command
}

/// What an incoming chat message asks of the session layer.
#[derive(Debug)]
pub enum SessionAction {
    /// Reset command with a live session: delete this thread on the backend
    /// (best effort), drop the entry, send no reply.
    Reset { thread: String },
    /// Reset command without a session: nothing to do, send no reply.
    ResetUnknown,
    /// Ordinary message with a live session: run it on this thread.
    Run { thread: String },
    /// Ordinary message without a session: create a thread first, persist its
    /// handle, then run.
    StartThread,
}

/// Decides what an incoming message asks for, from the session entry (if any)
/// and the message text.
pub fn plan_message(existing: &Option<String>, text: &String) -> (a: SessionAction)
    ensures
        ({
            let reset = is_reset_text(text@);
            match *existing {
                Some(thread) => {
                    &&& reset ==> ({
                        &&& a matches SessionAction::Reset { thread: t }
                        &&& t@ == thread@
                    })
                    &&& !reset ==> ({
                        &&& a matches SessionAction::Run { thread: t }
                        &&& t@ == thread@
                    })
                },
                None => {
                    &&& reset ==> a == SessionAction::ResetUnknown
                    &&& !reset ==> a == SessionAction::StartThread
                },
            }
        }),
{
    let reset = is_reset_command(text);
    match existing {
        Some(thread) => if reset {
            SessionAction::Reset { thread: thread.clone() }
        } else {
            SessionAction::Run { thread: thread.clone() }
        },
        None => if reset {
            SessionAction::ResetUnknown
        } else {
            SessionAction::StartThread
        },
    }
}

/// Resolving a thread for a chat, over the table's mathematical view: a cached
/// handle is returned as is; otherwise the freshly created one is adopted and
/// persisted.
pub open spec fn resolve_spec(
    sessions: Map<Seq<char>, Seq<char>>,
    chat: Seq<char>,
    fresh: Seq<char>,
) -> (Seq<char>, Map<Seq<char>, Seq<char>>) {
    if sessions.contains_key(chat) {
        (sessions[chat], sessions)
    } else {
        (fresh, sessions.insert(chat, fresh))
    }
}

/// Resetting a chat, over the table's mathematical view: its entry is removed
/// unconditionally; a chat without an entry is left as it was.
pub open spec fn reset_spec(
    sessions: Map<Seq<char>, Seq<char>>,
    chat: Seq<char>,
) -> Map<Seq<char>, Seq<char>> {
    sessions.remove(chat)
}

/// The durable chat-to-thread table. Its view is the map from chat identity
/// to thread handle, both as character sequences.
pub struct ThreadManager {
    table: StringHashMap<String>,
}

impl View for ThreadManager {
    type V = Map<Seq<char>, Seq<char>>;

    closed spec fn view(&self) -> Map<Seq<char>, Seq<char>> {
        self.table@.map_values(|t: String| t@)
    }
}

impl ThreadManager {
    /// An empty table: no chat has a thread yet.
    pub fn new() -> (tm: ThreadManager)
        ensures
            tm@ == Map::<Seq<char>, Seq<char>>::empty(),
    {
        let tm = ThreadManager { table: StringHashMap::new() };
        proof {
            assert(tm@ =~= Map::<Seq<char>, Seq<char>>::empty());
        }
        tm
    }

    /// The thread handle cached for a chat, if any.
    pub fn cached(&self, chat: &String) -> (r: Option<String>)
        ensures
            match r {
                Some(t) => self@.contains_key(chat@) && t@ == self@[chat@],
                None => !self@.contains_key(chat@),
            },
    {
        match self.table.get(chat.as_str()) {
            Some(t) => Some(t.clone()),
            None => None,
        }
    }

    /// Records that this chat's messages run on this thread.
    pub fn persist(&mut self, chat: &String, thread: &String)
        ensures
            final(self)@ == old(self)@.insert(chat@, thread@),
    {
        self.table.insert(chat.clone(), thread.clone());
        proof {
            assert(self@ =~= old(self)@.insert(chat@, thread@));
        }
    }

    /// Resolves the thread for a chat: returns the cached handle if one
    /// exists, and otherwise adopts and persists `fresh`, the handle of the
    /// thread just created on the backend.
    pub fn resolve_with(&mut self, chat: &String, fresh: String) -> (t: String)
        ensures
            t@ == resolve_spec(old(self)@, chat@, fresh@).0,
            final(self)@ == resolve_spec(old(self)@, chat@, fresh@).1,
    {
        match self.table.get(chat.as_str()) {
            Some(t) => t.clone(),
            None => {
                self.table.insert(chat.clone(), fresh.clone());
                proof {
                    assert(self@ =~= old(self)@.insert(chat@, fresh@));
                }
                fresh
            },
        }
    }

    /// Resets a chat: drops its entry unconditionally and hands back the
    /// cached handle, if any, so the caller can ask the backend to delete
    /// that thread (best effort; the entry is gone either way).
    pub fn reset(&mut self, chat: &String) -> (t: Option<String>)
        ensures
            final(self)@ == reset_spec(old(self)@, chat@),
            match t {
                Some(t) => old(self)@.contains_key(chat@) && t@ == old(self)@[chat@],
                None => !old(self)@.contains_key(chat@),
            },
    {
        let cached = match self.table.get(chat.as_str()) {
            Some(t) => Some(t.clone()),
            None => None,
        };
        self.table.remove(chat.as_str());
        proof {
            assert(self@ =~= old(self)@.remove(chat@));
        }
        cached
    }

    /// Takes the backend's answer to a thread-creation request: a created
    /// thread is persisted for the chat and its handle returned; a failure
    /// leaves the table untouched and yields the fixed sentence for the user.
    pub fn on_thread_created(&mut self, chat: &String, created: Result<String, ()>) -> (r: Result<
        String,
        String,
    >)
        ensures
            created matches Ok(fresh) ==> ({
                &&& r matches Ok(t)
                &&& t@ == fresh@
                &&& final(self)@ == old(self)@.insert(chat@, fresh@)
            }),
            created is Err ==> ({
                &&& r matches Err(m)
                &&& m@ == "Failed to create thread."@
                &&& final(self)@ == old(self)@
            }),
    {
        match created {
            Ok(fresh) => {
                self.persist(chat, &fresh);
                Ok(fresh)
            },
            Err(_) => Err("Failed to create thread.".to_owned()),
        }
    }

    /// Decides what an incoming message for this chat asks for.
    pub fn plan_incoming(&self, chat: &String, text: &String) -> (a: SessionAction)
        ensures
            is_reset_text(text@) && self@.contains_key(chat@) ==> ({
                &&& a matches SessionAction::Reset { thread }
                &&& thread@ == self@[chat@]
            }),
            is_reset_text(text@) && !self@.contains_key(chat@) ==> a
                == SessionAction::ResetUnknown,
            !is_reset_text(text@) && self@.contains_key(chat@) ==> ({
                &&& a matches SessionAction::Run { thread }
                &&& thread@ == self@[chat@]
            }),
            !is_reset_text(text@) && !self@.contains_key(chat@) ==> a
                == SessionAction::StartThread,
    {
        let existing = self.cached(chat);
        plan_message(&existing, text)
    }
}

/// Law: the first resolve for a chat identity adopts and persists the freshly
/// created handle, and any later resolve returns that identical handle with
/// the table unchanged — whatever handle a second creation would have given,
/// no new one is adopted.
pub proof fn lemma_resolve_creates_once(
    sessions: Map<Seq<char>, Seq<char>>,
    chat: Seq<char>,
    first: Seq<char>,
    later: Seq<char>,
)
    requires
        !sessions.contains_key(chat),
    ensures
        ({
            let (t1, m1) = resolve_spec(sessions, chat, first);
            let (t2, m2) = resolve_spec(m1, chat, later);
            &&& t1 == first
            &&& m1 == sessions.insert(chat, first)
            &&& t2 == t1
            &&& m2 == m1
        }),
{
}

/// Law: reset is idempotent — resetting twice in a row is a no-op the second
/// time — and the resolve after a reset adopts exactly the handle the backend
/// just created. Under the backend's guarantee that a thread handle is never
/// reissued, that handle differs from every handle issued before the reset.
pub proof fn lemma_reset_then_resolve_fresh(
    sessions: Map<Seq<char>, Seq<char>>,
    chat: Seq<char>,
    fresh: Seq<char>,
    earlier: Seq<char>,
)
    requires
        fresh != earlier,
    ensures
        ({
            let cleared = reset_spec(sessions, chat);
            &&& reset_spec(cleared, chat) == cleared
            &&& resolve_spec(cleared, chat, fresh).0 == fresh
            &&& resolve_spec(cleared, chat, fresh).0 != earlier
            &&& resolve_spec(cleared, chat, fresh).1 == cleared.insert(chat, fresh)
        }),
{
    let cleared = reset_spec(sessions, chat);
    assert(reset_spec(cleared, chat) =~= cleared);
    assert(!cleared.contains_key(chat));
}

} // verus!
