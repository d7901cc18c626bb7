//! Messages posted by users.
use vstd::prelude::*;
use crate::auth::User;
use crate::error::{Error, USpaceError};
use crate::store::Database;

verus! {

/// The columns of a message joined with its sender, as the database gives them.
pub struct MessageRow {
    pub mid: u32,
    pub uid: u32,
    pub username: String,
    pub bio: Option<String>,
    pub content: String,
    pub timestamp: i64,
}

/// A message with its sender; the timestamp is in seconds since the Unix epoch.
#[derive(Clone, Debug)]
pub struct Message {
    pub id: u32,
    pub sender: User,
    pub content: String,
    pub timestamp: i64,
}

/// The message that a database row describes.
pub open spec fn message_of(row: MessageRow) -> Message {
    Message {
        id: row.mid,
        sender: User { id: row.uid, username: row.username, bio: row.bio },
        content: row.content,
        timestamp: row.timestamp,
    }
}

/// Messages newest first: each at least as recent as every one after it.
pub open spec fn newest_first(s: Seq<Message>) -> bool {
    forall|i: int, j: int| 0 <= i < j < s.len() ==> s[i].timestamp >= s[j].timestamp
}

/// Whether a search for messages of the given sender, and with the given id,
/// takes in `m` (a criterion that is not given takes in every message).
pub open spec fn matches_search(m: Message, user_id: Option<u32>, message_id: Option<u32>) -> bool {
    &&& match user_id {
        Some(u) => m.sender.id == u,
        None => true,
    }
    &&& match message_id {
        Some(k) => m.id == k,
        None => true,
    }
}

/// The messages of `s` that a search for the given sender and id takes in,
/// in the order of `s`.
pub open spec fn search_hits(s: Seq<Message>, user_id: Option<u32>, message_id: Option<u32>) -> Seq<
    Message,
> {
    s.filter(|m: Message| matches_search(m, user_id, message_id))
}

impl Message {
    /// The messages of `found` that a search for the given sender and id
    /// takes in, newest first; messages of the same time keep their order in
    /// `found`, so messages already newest first come out as they were.
    pub fn select_newest_first(found: Vec<Message>, user_id: Option<u32>, message_id: Option<u32>) -> (v: Vec<Message>)
        ensures
            newest_first(v@),
            forall|i: int| 0 <= i < v@.len() ==> matches_search(#[trigger] v@[i], user_id, message_id),
            v@.to_multiset() == search_hits(found@, user_id, message_id).to_multiset(),
            newest_first(found@) ==> v@ == search_hits(found@, user_id, message_id),
    {
        broadcast use vstd::seq_lib::group_to_multiset_ensures;
        let ghost all = found@;
        let ghost pred = |m: Message| matches_search(m, user_id, message_id);
        let mut found = found;
        let mut rev: Vec<Message> = Vec::new();
        while found.len() > 0
            invariant
                found@ == all.take(found@.len() as int),
                rev@.len() + found@.len() == all.len(),
                forall|j: int| 0 <= j < rev@.len() ==> #[trigger] rev@[j] == all[all.len() - 1 - j],
            decreases found@.len(),
        {
            let ghost before = found@;
            let m = found.pop().unwrap();
            assert(all.take(found@.len() as int) =~= before.drop_last());
            rev.push(m);
        }
        let mut out: Vec<Message> = Vec::new();
        assert(all.take(0) =~= Seq::<Message>::empty());
        assert(all.take(0).filter(pred) =~= Seq::<Message>::empty());
        while rev.len() > 0
            invariant
                rev@.len() <= all.len(),
                forall|j: int| 0 <= j < rev@.len() ==> #[trigger] rev@[j] == all[all.len() - 1 - j],
                pred == (|m: Message| matches_search(m, user_id, message_id)),
                newest_first(out@),
                forall|i: int| 0 <= i < out@.len() ==> matches_search(#[trigger] out@[i], user_id, message_id),
                out@.to_multiset() == all.take(all.len() - rev@.len()).filter(pred).to_multiset(),
                newest_first(all) ==> out@ == all.take(all.len() - rev@.len()).filter(pred),
                newest_first(all) && out@.len() > 0 ==> exists|idx: int|
                    0 <= idx < all.len() - rev@.len() && out@.last() == #[trigger] all[idx],
            decreases rev@.len(),
        {
            let ghost k = all.len() - rev@.len();
            let ghost prev = out@;
            let m = rev.pop().unwrap();
            assert(m == all[k]);
            proof {
                assert(all.take(k + 1) =~= all.take(k).push(m));
                all.take(k).lemma_filter_push(m, pred);
            }
            if Message::matches(&m, user_id, message_id) {
                let mut j: usize = out.len();
                while j > 0 && out[j - 1].timestamp < m.timestamp
                    invariant
                        j <= out@.len(),
                        out@ == prev,
                        forall|i: int| j <= i < out@.len() ==> #[trigger] out@[i].timestamp < m.timestamp,
                    decreases j,
                {
                    j = j - 1;
                }
                proof {
                    if newest_first(all) && prev.len() > 0 {
                        let idx = choose|idx: int| 0 <= idx < k && prev.last() == #[trigger] all[idx];
                        assert(all[idx].timestamp >= all[k].timestamp);
                        assert(j == prev.len());
                    }
                }
                out.insert(j, m);
                proof {
                    let now = out@;
                    assert(now == prev.insert(j as int, m));
                    assert forall|a: int, b: int| 0 <= a < b < now.len() implies now[a].timestamp
                        >= now[b].timestamp by {
                        if j > 0 {
                            assert(prev[j - 1].timestamp >= m.timestamp);
                        }
                        if a < j && b > j {
                            assert(now[a] == prev[a]);
                            assert(now[b] == prev[b - 1]);
                        } else if a < j && b == j {
                            assert(now[a] == prev[a]);
                            assert(a == j - 1 || prev[a].timestamp >= prev[j - 1].timestamp);
                        } else if a == j {
                            assert(now[b] == prev[b - 1]);
                        } else if b < j {
                            assert(now[a] == prev[a] && now[b] == prev[b]);
                        } else {
                            assert(now[a] == prev[a - 1] && now[b] == prev[b - 1]);
                        }
                    }
                    assert forall|i: int| 0 <= i < now.len() implies matches_search(
                        #[trigger] now[i],
                        user_id,
                        message_id,
                    ) by {
                        if i < j {
                            assert(now[i] == prev[i]);
                        } else if i > j {
                            assert(now[i] == prev[i - 1]);
                        }
                    }
                    assert(pred(m));
                    assert(all.take(k + 1).filter(pred) == all.take(k).filter(pred).push(m));
                    vstd::seq_lib::to_multiset_insert(prev, j as int, m);
                    vstd::seq_lib::to_multiset_build(all.take(k).filter(pred), m);
                    assert(all.len() - rev@.len() == k + 1);
                    if newest_first(all) {
                        assert(j == prev.len());
                        assert(now =~= prev.push(m));
                        assert(now.last() == all[k]);
                    }
                }
            } else {
                proof {
                    assert(!pred(m));
                    assert(all.take(k + 1).filter(pred) == all.take(k).filter(pred));
                    if newest_first(all) && out@.len() > 0 {
                        let idx = choose|idx: int| 0 <= idx < k && out@.last() == #[trigger] all[idx];
                        assert(0 <= idx < k + 1);
                    }
                }
            }
        }
        assert(all.take(all.len() as int) =~= all);
        out
    }

    /// Whether a search for the given sender and id takes in `m`.
    pub fn matches(m: &Message, user_id: Option<u32>, message_id: Option<u32>) -> (b: bool)
        ensures
            b == matches_search(*m, user_id, message_id),
    {
        let by_sender = match user_id {
            Some(u) => m.sender.id == u,
            None => true,
        };
        let by_id = match message_id {
            Some(k) => m.id == k,
            None => true,
        };
        by_sender && by_id
    }

    /// The message that a database row describes.
    pub fn from_row(row: MessageRow) -> (m: Message)
        ensures
            m == message_of(row),
    {
        Message {
            id: row.mid,
            sender: User { id: row.uid, username: row.username, bio: row.bio },
            content: row.content,
            timestamp: row.timestamp,
        }
    }

    /// The messages that the rows describe, one for each row, in order.
    pub fn from_rows(rows: Vec<MessageRow>) -> (v: Vec<Message>)
        ensures
            v@.len() == rows@.len(),
            forall|i: int| 0 <= i < rows@.len() ==> #[trigger] v@[i] == message_of(rows@[i]),
    {
        let mut rows = rows;
        let ghost all = rows@;
        let mut reversed: Vec<Message> = Vec::new();
        while rows.len() > 0
            invariant
                rows@ == all.take(rows@.len() as int),
                reversed@.len() + rows@.len() == all.len(),
                forall|j: int|
                    0 <= j < reversed@.len() ==> #[trigger] reversed@[j] == message_of(
                        all[all.len() - 1 - j],
                    ),
            decreases rows@.len(),
        {
            let ghost before = rows@;
            let row = rows.pop().unwrap();
            assert(all.take(rows@.len() as int) =~= before.drop_last());
            reversed.push(Message::from_row(row));
        }
        let mut v: Vec<Message> = Vec::new();
        while reversed.len() > 0
            invariant
                v@.len() + reversed@.len() == all.len(),
                forall|j: int|
                    0 <= j < reversed@.len() ==> #[trigger] reversed@[j] == message_of(
                        all[all.len() - 1 - j],
                    ),
                forall|i: int| 0 <= i < v@.len() ==> #[trigger] v@[i] == message_of(all[i]),
            decreases reversed@.len(),
        {
            let m = reversed.pop().unwrap();
            v.push(m);
        }
        v
    }

    /// Posts a message by `sender`; an empty message is refused.
    pub fn send_message(sender: &User, content: &String, database: &Database) -> (r: Result<(), Error>)
        ensures
            content@.len() == 0 ==> (r matches Err(Error::USpaceError(USpaceError::SendMessageError(s)))
                && s@ == "Empty message not allowed."@),
            content@.len() > 0 ==> (r matches Err(e) ==> e is RusqliteError || e is SystemTimeError),
    {
        if content.as_str().is_empty() {
            return Err(Error::USpaceError(USpaceError::SendMessageError(
                String::from_str("Empty message not allowed."),
            )));
        }
        database.create_message(sender.id, content)
    }

    /// All messages, newest first.
    pub fn all_messages(database: &Database) -> (r: Result<Vec<Message>, Error>)
        ensures
            r matches Err(e) ==> e is RusqliteError,
            r matches Ok(v) ==> newest_first(v@),
    {
        database.search_messages(None, None)
    }

    /// The message that a search by id found: the first message of the
    /// search's result, the error for a missing message when it found none,
    /// or the search's own error.
    pub fn first_found(found: Result<Vec<Message>, Error>) -> (r: Result<Message, Error>)
        ensures
            match found {
                Ok(messages) => if messages@.len() > 0 {
                    r matches Ok(m) && m == messages@[0]
                } else {
                    r matches Err(Error::USpaceError(USpaceError::FetchError(s))) && s@
                        == "Message not found"@
                },
                Err(e) => r matches Err(e2) && e2 == e,
            },
    {
        match found {
            Ok(mut messages) => {
                if messages.len() > 0 {
                    Ok(messages.remove(0))
                } else {
                    Err(
                        Error::USpaceError(
                            USpaceError::FetchError(String::from_str("Message not found")),
                        ),
                    )
                }
            },
            Err(e) => Err(e),
        }
    }

    /// The message with the given id.
    pub fn get_message(database: &Database, message_id: u32) -> (r: Result<Message, Error>)
        ensures
            r matches Ok(m) ==> m.id == message_id,
            r matches Err(e) ==> e is RusqliteError || (e matches Error::USpaceError(
                USpaceError::FetchError(s),
            ) && s@ == "Message not found"@),
    {
        Message::first_found(database.search_messages(None, Some(message_id)))
    }

    /// The messages of the given user, newest first.
    pub fn by_user(database: &Database, user_id: u32) -> (r: Result<Vec<Message>, Error>)
        ensures
            r matches Err(e) ==> e is RusqliteError,
            r matches Ok(v) ==> newest_first(v@) && forall|i: int|
                0 <= i < v@.len() ==> (#[trigger] v@[i]).sender.id == user_id,
    {
        database.search_messages(Some(user_id), None)
    }

    /// Removes this message. The message is removed by its id alone, whoever
    /// `user_id` is.
    pub fn delete(&self, user_id: u32, database: &Database) -> (r: Result<(), Error>)
        ensures
            r matches Err(e) ==> e is RusqliteError,
    {
        database.delete_message(self.id)
    }
}

} // verus!
