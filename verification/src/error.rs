//! The game error: a code, an optional message and the lines of a backtrace.
use vstd::prelude::*;
use crate::text::{debug_quoted, decimal, joined, views, join_lines, push_decimal, quote_debug};

verus! {

/// An error with a numeric code, an optional message and the backtrace lines
/// that were added on its way up.
#[derive(Clone)]
pub struct GameError {
    pub error_code: i32,
    pub msg: Option<String>,
    backtrace: Vec<String>,
}

/// What a [`GameError`] holds: its code, the text of its message and its
/// backtrace lines, oldest first.
pub struct GameErrorView {
    pub code: i32,
    pub message: Option<Seq<char>>,
    pub trace: Seq<Seq<char>>,
}

impl View for GameError {
    type V = GameErrorView;

    closed spec fn view(&self) -> GameErrorView {
        GameErrorView { code: self.error_code, message: message_view(self.msg), trace: views(self.backtrace@) }
    }
}

/// The displayed form: `{error_code: <code>, msg: <msg:?> backtrace <lines joined by "\r\n":?>}`.
pub open spec fn display_text(e: GameErrorView) -> Seq<char> {
    "{error_code: "@ + decimal(e.code as int) + ", msg: "@ + debug_message(e.message) + " backtrace "@
        + debug_quoted(joined(e.trace, "\r\n"@)) + "}"@
}

/// The debug form: `GameError { error_code: <code>, msg: <msg:?>, backtrace: <lines joined by "\r\n":?> }`.
pub open spec fn debug_text(e: GameErrorView) -> Seq<char> {
    "GameError { error_code: "@ + decimal(e.code as int) + ", msg: "@ + debug_message(e.message)
        + ", backtrace: "@ + debug_quoted(joined(e.trace, "\r\n"@)) + " }"@
}

/// The result of the game's operations.
pub type GameResult<T> = Result<T, GameError>;

/// How an optional message is written by `{:?}`.
pub open spec fn debug_message(msg: Option<Seq<char>>) -> Seq<char> {
    match msg {
        Some(m) => "Some("@ + debug_quoted(m) + ")"@,
        None => "None"@,
    }
}

/// The view of an optional message.
pub open spec fn message_view(msg: Option<String>) -> Option<Seq<char>> {
    match msg {
        Some(m) => Some(m@),
        None => None,
    }
}

impl GameError {
    /// An error with the given code and message, and no backtrace yet.
    pub fn new<M: Into<String>>(code: i32, msg: M) -> (e: Self)
        ensures
            e@.code == code,
            exists|text: String| #[trigger] call_ensures(M::into, (msg,), text) && e@.message == Some(text@),
            e@.trace == Seq::<Seq<char>>::empty(),
    {
        let text: String = convert(msg);
        let e = GameError { error_code: code, msg: Some(text), backtrace: Vec::new() };
        assert(e@.trace =~= Seq::<Seq<char>>::empty());
        e
    }

    /// Adds a line to the backtrace.
    pub fn backtrace(&mut self, bt: String)
        ensures
            final(self)@.code == old(self)@.code,
            final(self)@.message == old(self)@.message,
            final(self)@.trace == old(self)@.trace.push(bt@),
    {
        let ghost line = bt@;
        self.backtrace.push(bt);
        assert(self@.trace =~= old(self)@.trace.push(line));
    }

    /// The backtrace lines joined by `"\r\n"`.
    pub fn joined_trace(&self) -> (r: String)
        ensures
            r@ == joined(self@.trace, "\r\n"@),
    {
        join_lines(&self.backtrace, "\r\n")
    }

    /// Appends how the message is written by `{:?}`.
    fn push_message(&self, s: &mut String)
        ensures
            final(s)@ == old(s)@ + debug_message(self@.message),
    {
        match &self.msg {
            Some(m) => {
                s.append("Some(");
                let q = quote_debug(m.as_str());
                s.append(q.as_str());
                s.append(")");
            },
            None => {
                s.append("None");
            },
        }
    }

    /// The text that `Display` gives for this error.
    pub fn to_display_string(&self) -> (r: String)
        ensures
            r@ == display_text(self@),
    {
        let mut s = String::new();
        s.append("{error_code: ");
        push_decimal(&mut s, self.error_code);
        s.append(", msg: ");
        self.push_message(&mut s);
        s.append(" backtrace ");
        let trace = self.joined_trace();
        let q = quote_debug(trace.as_str());
        s.append(q.as_str());
        s.append("}");
        assert(s@ =~= display_text(self@));
        s
    }

    /// The text that `Debug` gives for this error.
    pub fn to_debug_string(&self) -> (r: String)
        ensures
            r@ == debug_text(self@),
    {
        let mut s = String::new();
        s.append("GameError { error_code: ");
        push_decimal(&mut s, self.error_code);
        s.append(", msg: ");
        self.push_message(&mut s);
        s.append(", backtrace: ");
        let trace = self.joined_trace();
        let q = quote_debug(trace.as_str());
        s.append(q.as_str());
        s.append(" }");
        assert(s@ =~= debug_text(self@));
        s
    }
}

impl Default for GameError {
    fn default() -> (e: GameError)
        ensures
            e@.code == 0,
            e@.message is None,
            e@.trace == Seq::<Seq<char>>::empty(),
    {
        let e = GameError { error_code: 0, msg: None, backtrace: Vec::new() };
        assert(e@.trace =~= Seq::<Seq<char>>::empty());
        e
    }
}

/// `impl From<&str> for String` in std: the string holds the characters of
/// the slice.
pub assume_specification<'a>[ <String as From<&'a str>>::from ](s: &str) -> (r: String)
    ensures
        r@ == s@,
;

/// `impl<T> From<T> for T` in core: the value itself.
pub assume_specification<Src>[ <Src as From<Src>>::from ](t: Src) -> (r: Src)
    ensures
        r == t,
;

/// What `a.into()` gives, as a call that the result is known to come from.
fn convert<A: Into<B>, B>(a: A) -> (b: B)
    ensures
        call_ensures(A::into, (a,), b),
{
    let f = A::into;
    f(a)
}

impl From<String> for GameError {
    /// An error with code -1 and the message `msg`.
    fn from(msg: String) -> (e: GameError)
        ensures
            e@.code == -1,
            e@.message == Some(msg@),
            e@.trace == Seq::<Seq<char>>::empty(),
    {
        GameError::new(-1, msg)
    }
}

impl vstd::std_specs::convert::FromSpecImpl<String> for GameError {
    /// An empty `Vec` cannot be built in a specification, so the conversion
    /// is described by the `ensures` of `from` above and not by `from_spec`.
    open spec fn obeys_from_spec() -> bool {
        false
    }

    open spec fn from_spec(v: String) -> GameError {
        arbitrary()
    }
}

impl From<(String, i32)> for GameError {
    /// An error with the code and the message of the pair.
    fn from(msg: (String, i32)) -> (e: GameError)
        ensures
            e@.code == msg.1,
            e@.message == Some(msg.0@),
            e@.trace == Seq::<Seq<char>>::empty(),
    {
        GameError::new(msg.1, msg.0)
    }
}

impl vstd::std_specs::convert::FromSpecImpl<(String, i32)> for GameError {
    /// As for `String`: described by the `ensures` of `from`.
    open spec fn obeys_from_spec() -> bool {
        false
    }

    open spec fn from_spec(v: (String, i32)) -> GameError {
        arbitrary()
    }
}

impl<'a> From<&'a String> for GameError {
    /// An error with code -1 and a copy of the message `msg`.
    fn from(msg: &'a String) -> (e: GameError)
        ensures
            e@.code == -1,
            e@.message == Some(msg@),
            e@.trace == Seq::<Seq<char>>::empty(),
    {
        GameError::new(-1, msg.clone())
    }
}

impl<'a> vstd::std_specs::convert::FromSpecImpl<&'a String> for GameError {
    /// As for `String`: described by the `ensures` of `from`.
    open spec fn obeys_from_spec() -> bool {
        false
    }

    open spec fn from_spec(v: &'a String) -> GameError {
        arbitrary()
    }
}

impl<'a> From<&'a str> for GameError {
    /// An error with code -1 and the message `msg`.
    fn from(msg: &'a str) -> (e: GameError)
        ensures
            e@.code == -1,
            e@.message == Some(msg@),
            e@.trace == Seq::<Seq<char>>::empty(),
    {
        GameError::new(-1, msg)
    }
}

impl<'a> vstd::std_specs::convert::FromSpecImpl<&'a str> for GameError {
    /// As for `String`: described by the `ensures` of `from`.
    open spec fn obeys_from_spec() -> bool {
        false
    }

    open spec fn from_spec(v: &'a str) -> GameError {
        arbitrary()
    }
}

/// Turns a missing value into a game error.
pub trait ToGameResult<T>: Sized {
    /// The value, or the error that `f` makes when there is none.
    fn to_result<R: Into<GameError>, F: FnOnce() -> R>(self, f: F) -> GameResult<T>
        requires
            call_requires(f, ()),
    ;
}

impl<T> ToGameResult<T> for Option<T> {
    fn to_result<R: Into<GameError>, F: FnOnce() -> R>(self, f: F) -> (r: GameResult<T>)
        ensures
            self matches Some(t) ==> r == Ok::<T, GameError>(t),
            self is None ==> exists|x: R, e: GameError|
                #[trigger] call_ensures(f, (), x) && #[trigger] call_ensures(R::into, (x,), e) && r
                    == Err::<T, GameError>(e),
    {
        match self {
            Some(t) => Ok(t),
            None => {
                let x = f();
                let e: GameError = convert(x);
                Err(e)
            },
        }
    }
}

/// A failed result that carries `input` as a game error.
pub fn game_result<R: Into<GameError>, T>(input: R) -> (r: GameResult<T>)
    ensures
        exists|e: GameError| #[trigger] call_ensures(R::into, (input,), e) && r == Err::<T, GameError>(e),
{
    let e: GameError = convert(input);
    Err(e)
}

/// The error for a message that could not be sent: code -1, "fail to send msg".
pub fn send_err() -> (e: GameError)
    ensures
        e@.code == -1,
        e@.message == Some("fail to send msg"@),
        e@.trace == Seq::<Seq<char>>::empty(),
{
    GameError::from("fail to send msg")
}

/// [`send_err`] as a failed result.
pub fn send_err_result<T>() -> (r: GameResult<T>)
    ensures
        r matches Err(e) && e@.code == -1 && e@.message == Some("fail to send msg"@)
            && e@.trace == Seq::<Seq<char>>::empty(),
{
    game_result(send_err())
}

} // verus!
