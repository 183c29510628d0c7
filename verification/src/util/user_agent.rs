//! The user agent with which requests are made.

use vstd::prelude::*;
use crate::text::{push_str, string_of};

verus! {

/// The name under which this library names itself in a user agent.
pub const CRATE_NAME: &'static str = "eveicongenerator";

/// The version under which this library names itself in a user agent.
pub const CRATE_VERSION: &'static str = "0.1.0";

/// The repository that this library names in a user agent.
pub const CRATE_REPO: &'static str = "";

/// A user agent: the text of the header.
pub struct UserAgent(String);

impl View for UserAgent {
    type V = Seq<char>;

    closed spec fn view(&self) -> Seq<char> {
        self.0@
    }
}

impl UserAgent {
    /// Starts the user agent of the application `app_name` in the version
    /// `app_version`, without contacts and comments.
    pub fn new(app_name: &str, app_version: &str) -> (builder: UABuilder)
        ensures
            builder.app_name() == app_name@,
            builder.app_version() == app_version@,
            builder.contacts().len() == 0,
            builder.comments().len() == 0,
    {
        let builder = UABuilder {
            app_name: app_name.to_owned(),
            app_version: app_version.to_owned(),
            contacts: Vec::new(),
            comments: Vec::new(),
        };
        builder
    }

    /// The text of the header.
    pub fn as_str(&self) -> (s: &str)
        ensures
            s@ == self@,
    {
        self.0.as_str()
    }
}

/// A user agent in the making.
pub struct UABuilder {
    app_name: String,
    app_version: String,
    contacts: Vec<(String, String)>,
    comments: Vec<String>,
}

/// The contacts `kind:contact`, with `; ` between each two: the first `n` of
/// them.
pub open spec fn contact_text(contacts: Seq<(Seq<char>, Seq<char>)>, n: nat) -> Seq<char>
    decreases n,
{
    if n == 0 {
        Seq::empty()
    } else if n == 1 {
        contacts[0].0 + ":"@ + contacts[0].1
    } else {
        contact_text(contacts, (n - 1) as nat) + "; "@ + contacts[n - 1].0 + ":"@ + contacts[n - 1].1
    }
}

/// The first `n` comments, each after `; `.
pub open spec fn comment_text(comments: Seq<Seq<char>>, n: nat) -> Seq<char>
    decreases n,
{
    if n == 0 {
        Seq::empty()
    } else {
        comment_text(comments, (n - 1) as nat) + "; "@ + comments[n - 1]
    }
}

/// The text of a user agent: the application with its version, the
/// contacts in brackets, the comments in brackets where there are any, and
/// the name, version and repository of this library.
pub open spec fn user_agent_text(
    app_name: Seq<char>,
    app_version: Seq<char>,
    contacts: Seq<(Seq<char>, Seq<char>)>,
    comments: Seq<Seq<char>>,
) -> Seq<char> {
    app_name + "/"@ + app_version + " ("@ + contact_text(contacts, contacts.len()) + ") "@ + (
    if comments.len() > 0 {
        "("@ + comment_text(comments, comments.len()) + ") "@
    } else {
        Seq::empty()
    }) + CRATE_NAME@ + "/"@ + CRATE_VERSION@ + " (+"@ + CRATE_REPO@ + ")"@
}

impl UABuilder {
    /// The name of the application.
    pub closed spec fn app_name(&self) -> Seq<char> {
        self.app_name@
    }

    /// The version of the application.
    pub closed spec fn app_version(&self) -> Seq<char> {
        self.app_version@
    }

    /// The contacts, each a kind and an address.
    pub closed spec fn contacts(&self) -> Seq<(Seq<char>, Seq<char>)> {
        self.contacts@.map_values(|c: (String, String)| (c.0@, c.1@))
    }

    /// The comments.
    pub closed spec fn comments(&self) -> Seq<Seq<char>> {
        self.comments@.map_values(|c: String| c@)
    }

    /// Adds a contact: its kind, such as `email`, and the address.
    pub fn contact(self, kind: &str, contact: &str) -> (builder: UABuilder)
        ensures
            builder.app_name() == self.app_name(),
            builder.app_version() == self.app_version(),
            builder.contacts() == self.contacts().push((kind@, contact@)),
            builder.comments() == self.comments(),
    {
        let mut builder = self;
        builder.contacts.push((kind.to_owned(), contact.to_owned()));
        builder
    }

    /// Adds a comment.
    pub fn comment(self, comment: &str) -> (builder: UABuilder)
        ensures
            builder.app_name() == self.app_name(),
            builder.app_version() == self.app_version(),
            builder.contacts() == self.contacts(),
            builder.comments() == self.comments().push(comment@),
    {
        let mut builder = self;
        builder.comments.push(comment.to_owned());
        builder
    }

    /// The finished user agent. A user agent needs at least one contact.
    pub fn build(self) -> (r: Result<UserAgent, &'static str>)
        ensures
            match r {
                Ok(agent) => self.contacts().len() > 0 && agent@ == user_agent_text(
                    self.app_name(),
                    self.app_version(),
                    self.contacts(),
                    self.comments(),
                ),
                Err(message) => self.contacts().len() == 0 && message@
                    == "Must have at least 1 contact"@,
            },
    {
        if self.contacts.len() == 0 {
            return Err("Must have at least 1 contact");
        }
        let mut buf: Vec<char> = Vec::new();
        push_str(&mut buf, self.app_name.as_str());
        push_str(&mut buf, "/");
        push_str(&mut buf, self.app_version.as_str());
        push_str(&mut buf, " (");
        let ghost head = buf@;
        let mut i: usize = 0;
        while i < self.contacts.len()
            invariant
                i <= self.contacts.len(),
                buf@ == head + contact_text(self.contacts(), i as nat),
            decreases self.contacts.len() - i,
        {
            if i > 0 {
                push_str(&mut buf, "; ");
            }
            push_str(&mut buf, self.contacts[i].0.as_str());
            push_str(&mut buf, ":");
            push_str(&mut buf, self.contacts[i].1.as_str());
            i += 1;
        }
        push_str(&mut buf, ") ");
        if self.comments.len() > 0 {
            push_str(&mut buf, "(");
            let ghost open = buf@;
            let mut j: usize = 0;
            while j < self.comments.len()
                invariant
                    j <= self.comments.len(),
                    buf@ == open + comment_text(self.comments(), j as nat),
                decreases self.comments.len() - j,
            {
                push_str(&mut buf, "; ");
                push_str(&mut buf, self.comments[j].as_str());
                j += 1;
            }
            push_str(&mut buf, ") ");
        }
        push_str(&mut buf, CRATE_NAME);
        push_str(&mut buf, "/");
        push_str(&mut buf, CRATE_VERSION);
        push_str(&mut buf, " (+");
        push_str(&mut buf, CRATE_REPO);
        push_str(&mut buf, ")");
        assert(buf@ =~= user_agent_text(
            self.app_name(),
            self.app_version(),
            self.contacts(),
            self.comments(),
        ));
        Ok(UserAgent(string_of(&buf)))
    }
}

} // verus!
