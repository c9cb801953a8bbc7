use vstd::prelude::*;
use vstd::string::*;

use crate::text::{
    find_char, index_of_first, is_space_char, lemma_index_of_first_is,
    lemma_trim_of_clean, lemma_trim_right_trailing_space, trim, trim_spec,
};

verus! {

/// Mathematical model of a parsed mailbox: the address itself and the
/// optional display name that preceded it.
#[verifier::ext_equal]
pub struct MailboxView {
    pub email: Seq<char>,
    pub display_name: Option<Seq<char>>,
}

/// A parsed email address plus optional display name. Immutable once built.
#[derive(Debug, PartialEq, Eq)]
pub struct Mailbox {
    pub email: String,
    pub display_name: Option<String>,
}

impl View for Mailbox {
    type V = MailboxView;

    open spec fn view(&self) -> MailboxView {
        MailboxView { email: self.email@, display_name: self.display_name.deep_view() }
    }
}

impl DeepView for Mailbox {
    type V = MailboxView;

    open spec fn deep_view(&self) -> MailboxView {
        self.view()
    }
}

/// What the lenient mailbox parser makes of a raw address token: the email is
/// the text strictly between the first `<` and the next `>` (or to the end of
/// the token when `>` is missing), and the display name is whatever precedes
/// `<`, trimmed; without any `<` the whole trimmed token is the email.
pub open spec fn parse_mailbox_spec(s: Seq<char>) -> MailboxView {
    match index_of_first(s, '<') {
        None => MailboxView { email: trim_spec(s), display_name: None },
        Some(i) => {
            let email = match index_of_first(s.subrange(i + 1, s.len() as int), '>') {
                None => s.subrange(i + 1, s.len() as int),
                Some(j) => s.subrange(i + 1, i + 1 + j),
            };
            let name = trim_spec(s.subrange(0, i));
            MailboxView {
                email,
                display_name: if name.len() == 0 {
                    None
                } else {
                    Some(name)
                },
            }
        },
    }
}

/// The rendered form of a mailbox: the display name (or nothing), a space,
/// and the email within angle brackets.
pub open spec fn format_mailbox_spec(m: MailboxView) -> Seq<char> {
    (match m.display_name {
        Some(d) => d,
        None => Seq::<char>::empty(),
    }) + seq![' ', '<'] + m.email + seq!['>']
}

impl Mailbox {
    /// Lenient parser for a raw address token; total, never fails.
    pub fn from(value: String) -> (m: Mailbox)
        ensures
            m@ == parse_mailbox_spec(value@),
    {
        let s = value.as_str();
        let n = s.unicode_len();
        match find_char(s, '<') {
            None => {
                let e = trim(s);
                Mailbox { email: String::from_str(e), display_name: None }
            },
            Some(i) => {
                let after = s.substring_char(i + 1, n);
                proof {
                    assert(after@ =~= s@.subrange(i + 1, s@.len() as int));
                }
                let end: usize = match find_char(after, '>') {
                    Some(j) => i + 1 + j,
                    None => n,
                };
                let email = s.substring_char(i + 1, end);
                let name = trim(s.substring_char(0, i));
                let display_name = if name.unicode_len() == 0 {
                    None
                } else {
                    Some(String::from_str(name))
                };
                let m = Mailbox { email: String::from_str(email), display_name };
                proof {
                    assert(m@ =~= parse_mailbox_spec(value@));
                }
                m
            },
        }
    }

    /// Renders as `"{display name or empty} <{email}>"`.
    pub fn format(&self) -> (r: String)
        ensures
            r@ == format_mailbox_spec(self@),
    {
        let base = match &self.display_name {
            Some(d) => d.clone(),
            None => String::new(),
        };
        let r = base.concat(" <").concat(self.email.as_str()).concat(">");
        proof {
            reveal_strlit(" <");
            reveal_strlit(">");
            assert(r@ =~= format_mailbox_spec(self@));
        }
        r
    }
}

/// Law: a bare bracketed token `<email>` parses to exactly that email and no
/// display name, for every email text free of `>`.
pub proof fn lemma_parse_bracketed_token(e: Seq<char>)
    requires
        forall|j: int| 0 <= j < e.len() ==> e[j] != '>',
    ensures
        parse_mailbox_spec(seq!['<'] + e + seq!['>']) == (MailboxView {
            email: e,
            display_name: None,
        }),
{
    let s = seq!['<'] + e + seq!['>'];
    assert(s[0] == '<');
    lemma_index_of_first_is(s, '<', 0);
    let rest = s.subrange(1, s.len() as int);
    assert(rest =~= e + seq!['>']);
    assert(rest[e.len() as int] == '>');
    assert(forall|j: int| 0 <= j < e.len() ==> rest[j] == e[j]);
    lemma_index_of_first_is(rest, '>', e.len() as int);
    assert(s.subrange(1, 1 + e.len() as int) =~= e);
    assert(s.subrange(0, 0) =~= Seq::<char>::empty());
    assert(parse_mailbox_spec(s) =~= (MailboxView { email: e, display_name: None }));
}

/// Law: a token `name <email>` parses to that email with the display name
/// kept, whenever the name is non-empty, carries no `<` and no surrounding
/// whitespace, and the email text is free of `>`.
pub proof fn lemma_parse_named_token(name: Seq<char>, e: Seq<char>)
    requires
        name.len() > 0,
        !is_space_char(name[0]),
        !is_space_char(name.last()),
        forall|j: int| 0 <= j < name.len() ==> name[j] != '<',
        forall|j: int| 0 <= j < e.len() ==> e[j] != '>',
    ensures
        parse_mailbox_spec(name + seq![' ', '<'] + e + seq!['>']) == (MailboxView {
            email: e,
            display_name: Some(name),
        }),
{
    let s = name + seq![' ', '<'] + e + seq!['>'];
    let i = name.len() as int + 1;
    assert(s[i] == '<');
    assert forall|j: int| 0 <= j < i implies s[j] != '<' by {
        if j < name.len() {
            assert(s[j] == name[j]);
        } else {
            assert(s[j] == ' ');
        }
    }
    lemma_index_of_first_is(s, '<', i);
    let rest = s.subrange(i + 1, s.len() as int);
    assert(rest =~= e + seq!['>']);
    assert(rest[e.len() as int] == '>');
    assert(forall|j: int| 0 <= j < e.len() ==> rest[j] == e[j]);
    lemma_index_of_first_is(rest, '>', e.len() as int);
    assert(s.subrange(i + 1, i + 1 + e.len() as int) =~= e);
    let prefix = s.subrange(0, i);
    assert(prefix =~= name.push(' '));
    assert(prefix[0] == name[0]);
    lemma_trim_right_trailing_space(name);
    lemma_trim_of_clean(name);
    assert(trim_spec(prefix) == name);
    assert(parse_mailbox_spec(s) =~= (MailboxView { email: e, display_name: Some(name) }));
}

/// Law: the rendered form of any mailbox ends with the mailbox's email
/// enclosed in angle brackets.
pub proof fn lemma_format_keeps_email(m: MailboxView)
    ensures
        format_mailbox_spec(m).len() >= m.email.len() + 2,
        format_mailbox_spec(m).subrange(
            format_mailbox_spec(m).len() - m.email.len() - 2,
            format_mailbox_spec(m).len() as int,
        ) == seq!['<'] + m.email + seq!['>'],
{
    let f = format_mailbox_spec(m);
    assert(f.subrange(f.len() - m.email.len() - 2, f.len() as int) =~= seq!['<'] + m.email
        + seq!['>']);
}

/// Mathematical model of a mail transaction in progress.
#[verifier::ext_equal]
pub struct MailTransportView {
    pub from: Option<MailboxView>,
    pub to: Seq<MailboxView>,
    pub data: Seq<u8>,
}

/// One accumulating mail exchange: a sender, recipients in arrival order
/// (duplicates kept), and the raw body bytes.
#[derive(Debug)]
pub struct MailTransport {
    pub from: Option<Mailbox>,
    pub to: Vec<Mailbox>,
    pub data: Vec<u8>,
}

impl View for MailTransport {
    type V = MailTransportView;

    open spec fn view(&self) -> MailTransportView {
        MailTransportView {
            from: self.from.deep_view(),
            to: self.to.deep_view(),
            data: self.data@,
        }
    }
}

impl DeepView for MailTransport {
    type V = MailTransportView;

    open spec fn deep_view(&self) -> MailTransportView {
        self.view()
    }
}

impl MailTransport {
    /// A fresh transaction: no sender, no recipients, empty body.
    pub fn new() -> (t: MailTransport)
        ensures
            t@ == (MailTransportView { from: None, to: Seq::empty(), data: Seq::empty() }),
    {
        let t = MailTransport { from: None, to: Vec::new(), data: Vec::new() };
        proof {
            assert(t@ =~~= (MailTransportView {
                from: None,
                to: Seq::empty(),
                data: Seq::empty(),
            }));
        }
        t
    }

    /// Records the sender; a transaction's sender is set at most once.
    pub fn from(&mut self, mailbox: Mailbox)
        requires
            old(self).from is None,
        ensures
            final(self)@ == (MailTransportView { from: Some(mailbox@), ..old(self)@ }),
    {
        self.from = Some(mailbox);
        proof {
            assert(final(self)@ =~~= (MailTransportView { from: Some(mailbox@), ..old(self)@ }));
        }
    }

    /// Appends one recipient; duplicates are kept, order is arrival order.
    pub fn to(&mut self, mailbox: Mailbox)
        ensures
            final(self)@ == (MailTransportView { to: old(self)@.to.push(mailbox@), ..old(self)@ }),
    {
        self.to.push(mailbox);
        proof {
            assert(final(self)@ =~~= (MailTransportView {
                to: old(self)@.to.push(mailbox@),
                ..old(self)@
            }));
        }
    }

    /// Appends raw bytes to the body; the body only grows.
    pub fn data(&mut self, data: &[u8])
        ensures
            final(self)@ == (MailTransportView { data: old(self)@.data + data@, ..old(self)@ }),
    {
        let mut i: usize = 0;
        while i < data.len()
            invariant
                i <= data@.len(),
                self.from == old(self).from,
                self.to == old(self).to,
                self.data@ == old(self).data@ + data@.subrange(0, i as int),
            decreases data@.len() - i,
        {
            let b = data[i];
            self.data.push(b);
            proof {
                assert(self.data@ =~= old(self).data@ + data@.subrange(0, i + 1));
            }
            i += 1;
        }
        proof {
            assert(data@.subrange(0, data@.len() as int) =~= data@);
            assert(final(self)@ =~~= (MailTransportView {
                data: old(self)@.data + data@,
                ..old(self)@
            }));
        }
    }
}

} // verus!
