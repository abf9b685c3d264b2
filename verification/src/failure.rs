//! What went wrong, with its causes.
use vstd::prelude::*;
use crate::text;

verus! {

/// A failure: what went wrong, then what caused it, and so on down to the first cause.
#[derive(Debug)]
pub struct Failure {
    chain: Vec<String>,
}

/// A failure without a cause.
pub open spec fn plain(message: Seq<char>) -> Seq<Seq<char>> {
    seq![message]
}

/// A failure with its causes.
pub open spec fn caused(message: Seq<char>, causes: Seq<Seq<char>>) -> Seq<Seq<char>> {
    seq![message] + causes
}

/// A failure to read the body of an answer, given what is wrong with its JSON.
pub open spec fn undecoded(syntax: Seq<Seq<char>>) -> Seq<Seq<char>> {
    caused(
        "error decoding response body: "@ + (if syntax.len() > 0 {
            syntax[0]
        } else {
            Seq::empty()
        }),
        syntax,
    )
}

/// A text, or the causes why there is none.
pub open spec fn outcome(r: Result<String, Vec<String>>) -> Result<Seq<char>, Seq<Seq<char>>> {
    match r {
        Ok(s) => Ok(s@),
        Err(causes) => Err(text::texts(causes@)),
    }
}

impl Failure {
    /// The messages, from what went wrong down to the first cause.
    pub closed spec fn view(self) -> Seq<Seq<char>> {
        text::texts(self.chain@)
    }

    pub fn of(message: &str) -> (r: Failure)
        ensures
            r@ == plain(message@),
    {
        Failure::from_text(message.to_owned())
    }

    pub fn from_text(message: String) -> (r: Failure)
        ensures
            r@ == plain(message@),
    {
        let mut chain: Vec<String> = Vec::new();
        chain.push(message);
        let r = Failure { chain };
        assert(r@ =~= plain(message@));
        r
    }

    pub fn with_causes(message: String, causes: Vec<String>) -> (r: Failure)
        ensures
            r@ == caused(message@, text::texts(causes@)),
    {
        let mut chain: Vec<String> = Vec::new();
        let mut rest = causes;
        let ghost others = rest@;
        chain.push(message);
        chain.append(&mut rest);
        let r = Failure { chain };
        assert(r@ =~= caused(message@, text::texts(others)));
        r
    }

    /// This failure as the cause of another.
    pub fn behind(self, message: String) -> (r: Failure)
        ensures
            r@ == caused(message@, self@),
    {
        Failure::with_causes(message, self.chain)
    }

    pub fn undecoded(syntax: Vec<String>) -> (r: Failure)
        ensures
            r@ == undecoded(text::texts(syntax@)),
    {
        let mut detail = "error decoding response body: ".to_owned();
        if syntax.len() > 0 {
            assert(text::texts(syntax@)[0] == syntax@[0]@);
            detail.append(syntax[0].as_str());
        } else {
            assert("error decoding response body: "@ + Seq::<char>::empty()
                =~= "error decoding response body: "@);
        }
        Failure::with_causes(detail, syntax)
    }

    /// The messages, one by one.
    pub fn into_messages(self) -> (r: Vec<String>)
        ensures
            text::texts(r@) == self@,
    {
        self.chain
    }

    /// What went wrong, without its causes.
    pub fn message(&self) -> (r: String)
        ensures
            self@.len() > 0 ==> r@ == self@[0],
            self@.len() == 0 ==> r@ == Seq::<char>::empty(),
    {
        if self.chain.len() > 0 {
            assert(self@[0] == self.chain@[0]@);
            self.chain[0].clone()
        } else {
            let none = String::new();
            assert(none@ =~= Seq::<char>::empty());
            none
        }
    }

    /// What went wrong and all that caused it, in one line.
    pub fn format_error_chain(&self) -> (r: String)
        ensures
            r@ == text::joined(self@, " -> "@),
    {
        text::join(&self.chain, " -> ")
    }
}

/// A failure names what went wrong first and its causes behind that, in their order.
pub proof fn causes_follow_the_failure(message: Seq<char>, causes: Seq<Seq<char>>, i: int)
    requires
        0 <= i < causes.len(),
    ensures
        plain(message).len() == 1 && plain(message)[0] == message,
        caused(message, causes).len() == causes.len() + 1,
        caused(message, causes)[0] == message,
        caused(message, causes)[i + 1] == causes[i],
        undecoded(causes)[0] == "error decoding response body: "@ + causes[0],
        undecoded(causes)[i + 1] == causes[i],
        text::joined(caused(message, causes), " -> "@) == message + " -> "@ + text::joined(
            causes,
            " -> "@,
        ),
{
    text::joined_texts_begin_with_the_first(message, causes, " -> "@);
}

} // verus!
