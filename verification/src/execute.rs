//! What a spawn consists of: the handler's command, and the variables that
//! tell the child which handler it runs for and which event it is handed.
use vstd::prelude::*;
use crate::config::{bindings, EnvVar, Handler, Invocation};
use crate::message::{ImseEvent, ImseMessage, RemoteAddr};

verus! {

/// The character of a decimal digit.
pub open spec fn digit(d: nat) -> char {
    ((48 + d) as u8) as char
}

/// A number written in decimal, without leading zeros.
pub open spec fn decimal(n: nat) -> Seq<char>
    decreases n,
{
    if n < 10 {
        seq![digit(n)]
    } else {
        decimal(n / 10).push(digit(n % 10))
    }
}

/// The text of one decimal digit.
fn digit_text(d: u64) -> (r: &'static str)
    requires
        d < 10,
    ensures
        r@ == seq![digit(d as nat)],
{
    proof {
        reveal_strlit("0");
        reveal_strlit("1");
        reveal_strlit("2");
        reveal_strlit("3");
        reveal_strlit("4");
        reveal_strlit("5");
        reveal_strlit("6");
        reveal_strlit("7");
        reveal_strlit("8");
        reveal_strlit("9");
    }
    let r: &'static str = match d {
        0 => "0",
        1 => "1",
        2 => "2",
        3 => "3",
        4 => "4",
        5 => "5",
        6 => "6",
        7 => "7",
        8 => "8",
        _ => "9",
    };
    assert(r@ =~= seq![digit(d as nat)]);
    r
}

/// Writes a number in decimal.
pub fn decimal_text(n: u64) -> (r: String)
    ensures
        r@ == decimal(n as nat),
    decreases n,
{
    if n < 10 {
        String::from_str(digit_text(n))
    } else {
        let mut s: String = decimal_text(n / 10);
        s.append(digit_text(n % 10));
        assert(s@ =~= decimal((n / 10) as nat).push(digit((n % 10) as nat)));
        s
    }
}

/// The text of an optional field: nothing where it is absent.
pub open spec fn text_or_empty(field: Option<String>) -> Seq<char> {
    match field {
        Some(s) => s@,
        None => Seq::empty(),
    }
}

/// The variables that name the handler: always set.
pub open spec fn identity_vars(user: Seq<char>, event: ImseEvent) -> Seq<(Seq<char>, Seq<char>)> {
    seq![("IMSE_USER"@, user), ("IMSE_EVENT"@, event.name())]
}

/// The variables that name the peer, where it is known.
pub open spec fn remote_vars(remote: Option<RemoteAddr>) -> Seq<(Seq<char>, Seq<char>)> {
    match remote {
        Some(r) => seq![("IMSE_REMOTE_IP"@, r.ip@), ("IMSE_REMOTE_PORT"@, decimal(r.port as nat))],
        None => Seq::empty(),
    }
}

/// The variables that describe an event.
pub open spec fn event_vars(m: ImseMessage) -> Seq<(Seq<char>, Seq<char>)> {
    remote_vars(m.remote_addr) + seq![
        ("IMSE_UNSEEN"@, decimal(m.unseen as nat)),
        ("IMSE_FOLDER"@, m.folder@),
        ("IMSE_FROM"@, text_or_empty(m.from)),
        ("IMSE_SNIPPET"@, text_or_empty(m.snippet)),
    ]
}

/// The variables laid over the child's environment: those of the handler,
/// then, for a spawn that hands over an event, those of the event.
pub open spec fn overlay(user: Seq<char>, event: ImseEvent, payload: Option<ImseMessage>) -> Seq<
    (Seq<char>, Seq<char>),
> {
    identity_vars(user, event) + match payload {
        Some(m) => event_vars(m),
        None => Seq::empty(),
    }
}

/// One variable.
fn var(name: &str, value: String) -> (r: EnvVar)
    ensures
        r@ == (name@, value@),
{
    EnvVar { name: String::from_str(name), value }
}

/// The text of an optional field: nothing where it is absent.
fn field_text(field: &Option<String>) -> (r: String)
    ensures
        r@ == text_or_empty(*field),
{
    match field {
        Some(s) => s.clone(),
        None => String::new(),
    }
}

impl Handler {
    /// The variables laid over the child's environment for a spawn of this
    /// handler that hands over `payload`.
    pub fn environment(&self, payload: &Option<ImseMessage>) -> (r: Vec<EnvVar>)
        ensures
            bindings(r@) == overlay(self.user@, self.event, *payload),
    {
        let mut env: Vec<EnvVar> = Vec::new();
        env.push(var("IMSE_USER", self.user.clone()));
        env.push(var("IMSE_EVENT", String::from_str(self.event.as_str())));
        assert(bindings(env@) =~= identity_vars(self.user@, self.event));
        match payload {
            Some(m) => {
                match &m.remote_addr {
                    Some(remote) => {
                        env.push(var("IMSE_REMOTE_IP", remote.ip.clone()));
                        env.push(var("IMSE_REMOTE_PORT", decimal_text(remote.port as u64)));
                    },
                    None => {},
                }
                assert(bindings(env@) =~= identity_vars(self.user@, self.event) + remote_vars(
                    m.remote_addr,
                ));
                env.push(var("IMSE_UNSEEN", decimal_text(m.unseen as u64)));
                env.push(var("IMSE_FOLDER", m.folder.clone()));
                env.push(var("IMSE_FROM", field_text(&m.from)));
                env.push(var("IMSE_SNIPPET", field_text(&m.snippet)));
                assert(bindings(env@) =~= overlay(self.user@, self.event, *payload));
            },
            None => {
                assert(bindings(env@) =~= overlay(self.user@, self.event, *payload));
            },
        }
        env
    }

    /// The child process of a spawn of this handler that hands over
    /// `payload`: the handler's command, with the spawn's variables.
    pub fn invocation(&self, payload: &Option<ImseMessage>) -> (r: Invocation)
        ensures
            self.command@.len() > 0,
            r.program@ == self.command@[0],
            crate::config::texts(r.args@) == self.command@.subrange(1, self.command@.len() as int),
            bindings(r.env@) == overlay(self.user@, self.event, *payload),
    {
        let env: Vec<EnvVar> = self.environment(payload);
        self.command.build_invocation(env)
    }
}

} // verus!
