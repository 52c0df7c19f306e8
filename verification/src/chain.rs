//! An error with the chain of its causes, and the walk along that chain.

use vstd::prelude::*;

verus! {

/// An error as a capture reads it: its debug text, its message, and the
/// error that caused it, if any.
///
/// The causes are owned, one inside the other, so a chain has an end: an
/// error cannot be among its own causes.
#[derive(Debug, PartialEq, Eq)]
pub struct ErrorInfo {
    /// The error's debug text.
    pub debug: String,
    /// The error's message.
    pub display: String,
    /// The error that caused this one.
    pub source: Option<Box<ErrorInfo>>,
}

/// The two texts of one error of a chain, as mathematical values.
pub struct Link {
    pub debug: Seq<char>,
    pub display: Seq<char>,
}

impl View for ErrorInfo {
    type V = Seq<Link>;

    /// The chain that starts at this error: the error itself first, the root
    /// cause last. It is never empty.
    open spec fn view(&self) -> Seq<Link> {
        self.chain()
    }
}

impl ErrorInfo {
    /// The two texts of this error, without its causes.
    pub open spec fn link(&self) -> Link {
        Link { debug: self.debug@, display: self.display@ }
    }

    /// The chain that starts at this error: the error itself first, then its
    /// cause, and so on down to the root cause.
    pub open spec fn chain(&self) -> Seq<Link>
        decreases self,
    {
        match self.source {
            Some(cause) => seq![self.link()] + cause.chain(),
            None => seq![self.link()],
        }
    }

    /// An error with the given debug text and message, and no cause.
    pub fn new(debug: &str, display: &str) -> (err: ErrorInfo)
        ensures
            err.debug@ == debug@,
            err.display@ == display@,
            err.source is None,
            err@ == seq![Link { debug: debug@, display: display@ }],
    {
        ErrorInfo { debug: debug.to_owned(), display: display.to_owned(), source: None }
    }

    /// This error with `cause` as the error that caused it. A cause that it
    /// had before is replaced.
    pub fn caused_by(self, cause: ErrorInfo) -> (err: ErrorInfo)
        ensures
            err.debug == self.debug,
            err.display == self.display,
            err.source == Some(Box::new(cause)),
            err@ == seq![self.link()] + cause@,
    {
        ErrorInfo { debug: self.debug, display: self.display, source: Some(Box::new(cause)) }
    }

    /// The error that caused this one.
    pub fn source(&self) -> (cause: Option<&ErrorInfo>)
        ensures
            match cause {
                Some(c) => self.source == Some(Box::new(*c)),
                None => self.source is None,
            },
    {
        match &self.source {
            Some(cause) => Some(&**cause),
            None => None,
        }
    }
}

/// The chain that is left to walk from `cur` on.
spec fn rest_of_chain(cur: Option<&ErrorInfo>) -> Seq<Link> {
    match cur {
        Some(err) => err@,
        None => Seq::empty(),
    }
}

/// A chain starts with the texts of its own error, and the chain of the
/// cause follows.
pub proof fn lemma_chain_unfold(err: &ErrorInfo)
    ensures
        err@.len() >= 1,
        err@[0] == err.link(),
        err@.skip(1) == match err.source {
            Some(cause) => cause@,
            None => Seq::empty(),
        },
{
    match err.source {
        Some(cause) => {
            assert(err@.skip(1) =~= cause@);
        },
        None => {
            assert(err@.skip(1) =~= Seq::<Link>::empty());
        },
    }
}

/// Follows the causes of `err`: the result holds `err` itself first, then the
/// error that caused it, and so on, the root cause last.
pub fn walk(err: &ErrorInfo) -> (links: Vec<&ErrorInfo>)
    ensures
        links@.len() == err@.len(),
        links@.len() >= 1,
        forall|i: int| 0 <= i < links@.len() ==> (#[trigger] links@[i])@ == err@.skip(i),
        forall|i: int| 0 <= i < links@.len() ==> (#[trigger] links@[i]).link() == err@[i],
{
    let mut links: Vec<&ErrorInfo> = Vec::new();
    let mut cur: Option<&ErrorInfo> = Some(err);
    proof {
        lemma_chain_unfold(err);
        assert(err@.skip(0) =~= err@);
    }
    loop
        invariant
            links@.len() <= err@.len(),
            rest_of_chain(cur) == err@.skip(links@.len() as int),
            forall|i: int| 0 <= i < links@.len() ==> (#[trigger] links@[i])@ == err@.skip(i),
            forall|i: int| 0 <= i < links@.len() ==> (#[trigger] links@[i]).link() == err@[i],
        ensures
            links@.len() == err@.len(),
        decreases rest_of_chain(cur).len(),
    {
        match cur {
            Some(e) => {
                proof {
                    lemma_chain_unfold(e);
                    assert(err@.skip(links@.len() as int).skip(1) =~= err@.skip(
                        links@.len() as int + 1,
                    ));
                }
                links.push(e);
                cur = e.source();
            },
            None => {
                break;
            },
        }
    }
    links
}

} // verus!
