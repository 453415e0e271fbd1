//! What the launcher asks of its surroundings, and what they answer.
//!
//! The launcher itself touches neither disk nor console. Each turn it hands
//! out an [`Effect`]: lines to print, in order, and then one [`Request`] to
//! carry out. The outcome of the request comes back as a [`Reply`].

use vstd::prelude::*;

verus! {

/// One thing to be done outside the launcher.
#[derive(Debug, PartialEq, Eq)]
pub enum Request {
    /// Find out whether anything at all exists at `path`.
    Probe { path: String },
    /// Make the directory `path`, one level only.
    CreateDir { path: String },
    /// Create the file `path` and write `contents` as all that it holds.
    WriteNewFile { path: String, contents: Vec<u8> },
    /// Start `program` as a process of its own, with no arguments, and
    /// neither wait for it nor keep a handle on it.
    Spawn { program: String },
    /// Wait until one line has been entered on the console, and drop it.
    ReadLine,
    /// Nothing more is asked for: the run is over.
    Finish,
}

/// A [`Request`] as specifications see it.
pub enum RequestView {
    Probe { path: Seq<char> },
    CreateDir { path: Seq<char> },
    WriteNewFile { path: Seq<char>, contents: Seq<u8> },
    Spawn { program: Seq<char> },
    ReadLine,
    Finish,
}

impl View for Request {
    type V = RequestView;

    open spec fn view(&self) -> RequestView {
        match self {
            Request::Probe { path } => RequestView::Probe { path: path@ },
            Request::CreateDir { path } => RequestView::CreateDir { path: path@ },
            Request::WriteNewFile { path, contents } => RequestView::WriteNewFile {
                path: path@,
                contents: contents@,
            },
            Request::Spawn { program } => RequestView::Spawn { program: program@ },
            Request::ReadLine => RequestView::ReadLine,
            Request::Finish => RequestView::Finish,
        }
    }
}

impl Clone for Request {
    fn clone(&self) -> (copy: Request)
        ensures
            copy@ == self@,
    {
        match self {
            Request::Probe { path } => Request::Probe { path: path.clone() },
            Request::CreateDir { path } => Request::CreateDir { path: path.clone() },
            Request::WriteNewFile { path, contents } => Request::WriteNewFile {
                path: path.clone(),
                contents: contents.clone(),
            },
            Request::Spawn { program } => Request::Spawn { program: program.clone() },
            Request::ReadLine => Request::ReadLine,
            Request::Finish => Request::Finish,
        }
    }
}

/// How a request came out.
#[derive(Debug, PartialEq, Eq)]
pub enum Reply {
    /// The answer to a probe: whether something exists at the path.
    Exists(bool),
    /// The directory was made, the file written, or the process started.
    Succeeded,
    /// It was not, and `error` is what the system said about it.
    Failed { error: String },
    /// The pause is over: a line was entered, or the input has ended.
    LineRead,
}

/// A [`Reply`] as specifications see it.
pub enum ReplyView {
    Exists(bool),
    Succeeded,
    Failed { error: Seq<char> },
    LineRead,
}

impl View for Reply {
    type V = ReplyView;

    open spec fn view(&self) -> ReplyView {
        match self {
            Reply::Exists(found) => ReplyView::Exists(*found),
            Reply::Succeeded => ReplyView::Succeeded,
            Reply::Failed { error } => ReplyView::Failed { error: error@ },
            Reply::LineRead => ReplyView::LineRead,
        }
    }
}

impl Clone for Reply {
    fn clone(&self) -> (copy: Reply)
        ensures
            copy@ == self@,
    {
        match self {
            Reply::Exists(found) => Reply::Exists(*found),
            Reply::Succeeded => Reply::Succeeded,
            Reply::Failed { error } => Reply::Failed { error: error.clone() },
            Reply::LineRead => Reply::LineRead,
        }
    }
}

/// Whether `reply` is an answer that `request` can get: a probe learns
/// whether the path exists, an action succeeds or fails, a pause ends, and
/// the end of the run is answered by nothing.
pub open spec fn answers(request: RequestView, reply: ReplyView) -> bool {
    match request {
        RequestView::Probe { .. } => reply is Exists,
        RequestView::CreateDir { .. } | RequestView::WriteNewFile { .. } | RequestView::Spawn {
            ..
        } => reply is Succeeded || reply is Failed,
        RequestView::ReadLine => reply is LineRead,
        RequestView::Finish => false,
    }
}

/// One turn of the launcher: what to print, then what to do.
#[derive(Debug, PartialEq, Eq)]
pub struct Effect {
    /// Lines for the console, to be printed in this order before the
    /// request is carried out.
    pub lines: Vec<String>,
    /// What to do once the lines are out.
    pub request: Request,
}

/// An [`Effect`] as specifications see it.
pub struct EffectView {
    pub lines: Seq<Seq<char>>,
    pub request: RequestView,
}

impl View for Effect {
    type V = EffectView;

    open spec fn view(&self) -> EffectView {
        EffectView { lines: self.lines.deep_view(), request: self.request@ }
    }
}

impl Clone for Effect {
    fn clone(&self) -> (copy: Effect)
        ensures
            copy@ == self@,
    {
        let copy = Effect { lines: self.lines.clone(), request: self.request.clone() };
        assert(copy.lines.deep_view() =~= self.lines.deep_view());
        copy
    }
}

/// The effect that prints nothing and asks for `request`.
pub open spec fn silently(request: RequestView) -> EffectView {
    EffectView { lines: Seq::empty(), request }
}

/// The effect that prints `line` and then asks for `request`.
pub open spec fn saying(line: Seq<char>, request: RequestView) -> EffectView {
    EffectView { lines: seq![line], request }
}

impl Effect {
    /// An effect that prints nothing and asks for `request`.
    pub fn silent(request: Request) -> (effect: Effect)
        ensures
            effect@ == silently(request@),
    {
        let effect = Effect { lines: Vec::new(), request };
        assert(effect.lines.deep_view() =~= Seq::<Seq<char>>::empty());
        effect
    }

    /// An effect that prints `line` and then asks for `request`.
    pub fn saying(line: String, request: Request) -> (effect: Effect)
        ensures
            effect@ == saying(line@, request@),
    {
        let mut lines: Vec<String> = Vec::new();
        lines.push(line);
        let effect = Effect { lines, request };
        assert(effect.lines.deep_view() =~= seq![line@]);
        effect
    }

    /// Adds `line` after the lines that the effect already prints.
    pub fn then_say(&mut self, line: String)
        ensures
            final(self)@ == (EffectView {
                lines: old(self)@.lines.push(line@),
                request: old(self)@.request,
            }),
    {
        self.lines.push(line);
        assert(self.lines.deep_view() =~= old(self).lines.deep_view().push(line@));
    }
}

/// The reply handed to the launcher does not answer what it last asked for.
#[derive(Debug, Clone, Copy, PartialEq, Eq)]
pub struct UnexpectedReply;

} // verus!
