//! The notification that the mail server pushes: its kind and its fields.
use vstd::prelude::*;
use crate::text::{eq_ignoring_case, lemma_differ_at, lemma_same_chain, same_ignoring_case};

verus! {

/// The kind of a notification.
#[derive(Clone, Copy, Debug, PartialEq, Eq, Hash, Structural)]
pub enum ImseEvent {
    FlagsClear,
    FlagsSet,
    MailboxCreate,
    MailboxDelete,
    MailboxRename,
    MailboxSubscribe,
    MailboxUnsubscribe,
    MessageAppend,
    MessageExpunge,
    MessageNew,
    MessageRead,
    MessageTrash,
}

/// Where a notification came from, as the front end saw it.
#[derive(Clone, Debug)]
pub struct RemoteAddr {
    /// The peer's address, already rendered as text.
    pub ip: String,
    /// The peer's port.
    pub port: u16,
}

/// One notification. It is never changed once built.
#[derive(Clone, Debug)]
pub struct ImseMessage {
    /// Stamped by the front end; not part of the wire payload.
    pub remote_addr: Option<RemoteAddr>,
    pub event: ImseEvent,
    pub user: String,
    pub unseen: u32,
    pub folder: String,
    pub from: Option<String>,
    pub snippet: Option<String>,
}

impl ImseEvent {
    /// The name of the kind, in its canonical casing.
    pub open spec fn name(self) -> Seq<char> {
        match self {
            ImseEvent::FlagsClear => "FlagsClear"@,
            ImseEvent::FlagsSet => "FlagsSet"@,
            ImseEvent::MailboxCreate => "MailboxCreate"@,
            ImseEvent::MailboxDelete => "MailboxDelete"@,
            ImseEvent::MailboxRename => "MailboxRename"@,
            ImseEvent::MailboxSubscribe => "MailboxSubscribe"@,
            ImseEvent::MailboxUnsubscribe => "MailboxUnsubscribe"@,
            ImseEvent::MessageAppend => "MessageAppend"@,
            ImseEvent::MessageExpunge => "MessageExpunge"@,
            ImseEvent::MessageNew => "MessageNew"@,
            ImseEvent::MessageRead => "MessageRead"@,
            ImseEvent::MessageTrash => "MessageTrash"@,
        }
    }

    /// No two kinds have names that agree when case is ignored.
    pub proof fn lemma_names_distinct(a: ImseEvent, b: ImseEvent)
        requires
            a != b,
        ensures
            !same_ignoring_case(a.name(), b.name()),
    {
        reveal_strlit("FlagsClear");
        reveal_strlit("FlagsSet");
        reveal_strlit("MailboxCreate");
        reveal_strlit("MailboxDelete");
        reveal_strlit("MailboxRename");
        reveal_strlit("MailboxSubscribe");
        reveal_strlit("MailboxUnsubscribe");
        reveal_strlit("MessageAppend");
        reveal_strlit("MessageExpunge");
        reveal_strlit("MessageNew");
        reveal_strlit("MessageRead");
        reveal_strlit("MessageTrash");
        if a.name().len() == b.name().len() {
            if a.name()[0] != b.name()[0] {
                lemma_differ_at(a.name(), b.name(), 0);
            } else {
                lemma_differ_at(a.name(), b.name(), 7);
            }
        }
    }

    /// The name of the kind, in its canonical casing.
    pub fn as_str(self) -> (r: &'static str)
        ensures
            r@ == self.name(),
    {
        match self {
            ImseEvent::FlagsClear => "FlagsClear",
            ImseEvent::FlagsSet => "FlagsSet",
            ImseEvent::MailboxCreate => "MailboxCreate",
            ImseEvent::MailboxDelete => "MailboxDelete",
            ImseEvent::MailboxRename => "MailboxRename",
            ImseEvent::MailboxSubscribe => "MailboxSubscribe",
            ImseEvent::MailboxUnsubscribe => "MailboxUnsubscribe",
            ImseEvent::MessageAppend => "MessageAppend",
            ImseEvent::MessageExpunge => "MessageExpunge",
            ImseEvent::MessageNew => "MessageNew",
            ImseEvent::MessageRead => "MessageRead",
            ImseEvent::MessageTrash => "MessageTrash",
        }
    }

    /// The kind at a position of the list of all kinds, in declaration order.
    pub fn nth(i: usize) -> (r: Option<ImseEvent>)
        ensures
            r is Some <==> i < 12,
            i == 0 ==> r == Some(ImseEvent::FlagsClear),
            i == 1 ==> r == Some(ImseEvent::FlagsSet),
            i == 2 ==> r == Some(ImseEvent::MailboxCreate),
            i == 3 ==> r == Some(ImseEvent::MailboxDelete),
            i == 4 ==> r == Some(ImseEvent::MailboxRename),
            i == 5 ==> r == Some(ImseEvent::MailboxSubscribe),
            i == 6 ==> r == Some(ImseEvent::MailboxUnsubscribe),
            i == 7 ==> r == Some(ImseEvent::MessageAppend),
            i == 8 ==> r == Some(ImseEvent::MessageExpunge),
            i == 9 ==> r == Some(ImseEvent::MessageNew),
            i == 10 ==> r == Some(ImseEvent::MessageRead),
            i == 11 ==> r == Some(ImseEvent::MessageTrash),
    {
        match i {
            0 => Some(ImseEvent::FlagsClear),
            1 => Some(ImseEvent::FlagsSet),
            2 => Some(ImseEvent::MailboxCreate),
            3 => Some(ImseEvent::MailboxDelete),
            4 => Some(ImseEvent::MailboxRename),
            5 => Some(ImseEvent::MailboxSubscribe),
            6 => Some(ImseEvent::MailboxUnsubscribe),
            7 => Some(ImseEvent::MessageAppend),
            8 => Some(ImseEvent::MessageExpunge),
            9 => Some(ImseEvent::MessageNew),
            10 => Some(ImseEvent::MessageRead),
            11 => Some(ImseEvent::MessageTrash),
            _ => None,
        }
    }

    /// Reads a kind from its name, without regard to the case of letters.
    ///
    /// The result is the one kind whose name agrees with `s` up to case, and
    /// `None` when there is no such kind.
    pub fn parse(s: &str) -> (r: Option<ImseEvent>)
        ensures
            forall|e: ImseEvent| r == Some(e) <==> same_ignoring_case(s@, #[trigger] e.name()),
    {
        let mut i: usize = 0;
        while i < 12
            invariant
                0 <= i <= 12,
                forall|k: usize|
                    k < i ==> !same_ignoring_case(s@, (#[trigger] Self::nth_spec(k)).name()),
            decreases 12 - i,
        {
            let kind: Option<ImseEvent> = Self::nth(i);
            match kind {
                Some(e) => {
                    if eq_ignoring_case(s, e.as_str()) {
                        proof {
                            assert forall|f: ImseEvent|
                                same_ignoring_case(s@, #[trigger] f.name()) implies f == e by {
                                if f != e {
                                    Self::lemma_names_distinct(f, e);
                                    lemma_same_chain(f.name(), s@, e.name());
                                }
                            }
                        }
                        return Some(e);
                    }
                },
                None => {},
            }
            i += 1;
        }
        proof {
            assert forall|f: ImseEvent| !same_ignoring_case(s@, #[trigger] f.name()) by {
                Self::lemma_nth_covers(f);
            }
        }
        None
    }

    /// The kind at a position of the list of all kinds; positions past the
    /// end give the last kind.
    pub open spec fn nth_spec(i: usize) -> ImseEvent {
        if i == 0 {
            ImseEvent::FlagsClear
        } else if i == 1 {
            ImseEvent::FlagsSet
        } else if i == 2 {
            ImseEvent::MailboxCreate
        } else if i == 3 {
            ImseEvent::MailboxDelete
        } else if i == 4 {
            ImseEvent::MailboxRename
        } else if i == 5 {
            ImseEvent::MailboxSubscribe
        } else if i == 6 {
            ImseEvent::MailboxUnsubscribe
        } else if i == 7 {
            ImseEvent::MessageAppend
        } else if i == 8 {
            ImseEvent::MessageExpunge
        } else if i == 9 {
            ImseEvent::MessageNew
        } else if i == 10 {
            ImseEvent::MessageRead
        } else {
            ImseEvent::MessageTrash
        }
    }

    /// Every kind stands at one of the twelve positions.
    pub proof fn lemma_nth_covers(e: ImseEvent)
        ensures
            exists|k: usize| k < 12 && Self::nth_spec(k) == e,
    {
        let k: usize = match e {
            ImseEvent::FlagsClear => 0,
            ImseEvent::FlagsSet => 1,
            ImseEvent::MailboxCreate => 2,
            ImseEvent::MailboxDelete => 3,
            ImseEvent::MailboxRename => 4,
            ImseEvent::MailboxSubscribe => 5,
            ImseEvent::MailboxUnsubscribe => 6,
            ImseEvent::MessageAppend => 7,
            ImseEvent::MessageExpunge => 8,
            ImseEvent::MessageNew => 9,
            ImseEvent::MessageRead => 10,
            ImseEvent::MessageTrash => 11,
        };
        assert(k < 12 && Self::nth_spec(k) == e);
    }
}

} // verus!
