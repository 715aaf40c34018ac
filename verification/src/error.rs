use vstd::prelude::*;

verus! {

/// `std::io::Error`, carried through the library as an opaque value.
#[verifier::external_type_specification]
#[verifier::external_body]
pub struct ExIoError(std::io::Error);

/// `std::num::ParseIntError`, carried through the library as an opaque value.
#[verifier::external_type_specification]
#[verifier::external_body]
pub struct ExParseIntError(std::num::ParseIntError);

/// `serde_json::Error`, carried through the library as an opaque value.
#[verifier::external_type_specification]
#[verifier::external_body]
pub struct ExJsonError(serde_json::Error);

/// Every error that the program reports.
#[derive(Debug)]
pub enum MyError {
    /// A failed read or write.
    Io(std::io::Error),
    /// A string that is not an integer.
    ParseInt(std::num::ParseIntError),
    /// A value that JSON could not carry.
    Serialize(serde_json::Error),
    /// A failure described by the program itself.
    Custom(String),
}

impl From<std::io::Error> for MyError {
    fn from(e: std::io::Error) -> (r: Self) {
        MyError::Io(e)
    }
}

impl vstd::std_specs::convert::FromSpecImpl<std::io::Error> for MyError {
    open spec fn obeys_from_spec() -> bool {
        true
    }

    open spec fn from_spec(v: std::io::Error) -> Self {
        MyError::Io(v)
    }
}

impl From<std::num::ParseIntError> for MyError {
    fn from(e: std::num::ParseIntError) -> (r: Self) {
        MyError::ParseInt(e)
    }
}

impl vstd::std_specs::convert::FromSpecImpl<std::num::ParseIntError> for MyError {
    open spec fn obeys_from_spec() -> bool {
        true
    }

    open spec fn from_spec(v: std::num::ParseIntError) -> Self {
        MyError::ParseInt(v)
    }
}

impl From<serde_json::Error> for MyError {
    fn from(e: serde_json::Error) -> (r: Self) {
        MyError::Serialize(e)
    }
}

impl vstd::std_specs::convert::FromSpecImpl<serde_json::Error> for MyError {
    open spec fn obeys_from_spec() -> bool {
        true
    }

    open spec fn from_spec(v: serde_json::Error) -> Self {
        MyError::Serialize(v)
    }
}

/// Which of the four kinds of error a message describes.
#[derive(Clone, Copy, Debug, PartialEq, Eq, Structural)]
pub enum MessageKind {
    Io,
    ParseInt,
    Serialize,
    Custom,
}

impl MessageKind {
    /// The words that open a message of this kind, up to and with the
    /// backtick that the described text follows.
    pub open spec fn prefix(self) -> Seq<char> {
        match self {
            MessageKind::Io => "IO Error `"@,
            MessageKind::ParseInt => "Parse Int error `"@,
            MessageKind::Serialize => "Serialize json error: `"@,
            MessageKind::Custom => "Custom Error `"@,
        }
    }
}

/// A message of kind `kind` about the text `inner`: the kind's prefix, the
/// text, and a closing backtick.
pub open spec fn framed(kind: MessageKind, inner: Seq<char>) -> Seq<char> {
    kind.prefix() + inner + seq!['`']
}

impl MyError {
    /// The kind of message that this error shows.
    pub open spec fn kind(self) -> MessageKind {
        match self {
            MyError::Io(_) => MessageKind::Io,
            MyError::ParseInt(_) => MessageKind::ParseInt,
            MyError::Serialize(_) => MessageKind::Serialize,
            MyError::Custom(_) => MessageKind::Custom,
        }
    }
}

/// Builds the message of kind `kind` around the text `inner`.
pub fn render_message(kind: MessageKind, inner: &str) -> (r: String)
    ensures
        r@ == framed(kind, inner@),
        r@ == kind.prefix() + inner@ + seq!['`'],
        r@.len() == kind.prefix().len() + inner@.len() + 1,
        r@.subrange(0, kind.prefix().len() as int) == kind.prefix(),
        r@.subrange(kind.prefix().len() as int, r@.len() - 1) == inner@,
        r@.last() == '`',
        kind == MessageKind::Io ==> r@ == "IO Error `"@ + inner@ + seq!['`'],
        kind == MessageKind::ParseInt ==> r@ == "Parse Int error `"@ + inner@ + seq!['`'],
        kind == MessageKind::Serialize ==> r@ == "Serialize json error: `"@ + inner@ + seq!['`'],
        kind == MessageKind::Custom ==> r@ == "Custom Error `"@ + inner@ + seq!['`'],
{
    let mut r = match kind {
        MessageKind::Io => String::from_str("IO Error `"),
        MessageKind::ParseInt => String::from_str("Parse Int error `"),
        MessageKind::Serialize => String::from_str("Serialize json error: `"),
        MessageKind::Custom => String::from_str("Custom Error `"),
    };
    r.append(inner);
    r.append("`");
    proof {
        reveal_strlit("`");
    }
    r
}

/// The message of an I/O error: `IO Error`, then the error's own text in
/// backticks.
pub fn io_message(e: &std::io::Error) -> (r: String)
    ensures
        exists|t: String|
            vstd::string::to_string_from_display_ensures::<std::io::Error>(e, t) && r@ == framed(
                MessageKind::Io,
                t@,
            ),
        exists|t: String|
            vstd::string::to_string_from_display_ensures::<std::io::Error>(e, t) && r@ == "IO Error `"@ + t@
                + seq!['`'],
{
    let inner = e.to_string();
    render_message(MessageKind::Io, inner.as_str())
}

/// The message of an integer that did not parse: `Parse Int error`, then the
/// error's own text in backticks.
pub fn parse_int_message(e: &std::num::ParseIntError) -> (r: String)
    ensures
        exists|t: String|
            vstd::string::to_string_from_display_ensures::<std::num::ParseIntError>(e, t) && r@ == framed(
                MessageKind::ParseInt,
                t@,
            ),
        exists|t: String|
            vstd::string::to_string_from_display_ensures::<std::num::ParseIntError>(e, t) && r@ == "Parse Int error `"@ + t@
                + seq!['`'],
{
    let inner = e.to_string();
    render_message(MessageKind::ParseInt, inner.as_str())
}

/// The message of a JSON error: `Serialize json error:`, then the error's own
/// text in backticks.
pub fn serialize_message(e: &serde_json::Error) -> (r: String)
    ensures
        exists|t: String|
            vstd::string::to_string_from_display_ensures::<serde_json::Error>(e, t) && r@ == framed(
                MessageKind::Serialize,
                t@,
            ),
        exists|t: String|
            vstd::string::to_string_from_display_ensures::<serde_json::Error>(e, t) && r@ == "Serialize json error: `"@ + t@
                + seq!['`'],
{
    let inner = e.to_string();
    render_message(MessageKind::Serialize, inner.as_str())
}

/// The message of a custom error: `Custom Error`, then `text` in backticks.
pub fn custom_message(text: &str) -> (r: String)
    ensures
        r@ == framed(MessageKind::Custom, text@),
        r@ == "Custom Error `"@ + text@ + seq!['`'],
        r@.len() == "Custom Error `"@.len() + text@.len() + 1,
        r@.last() == '`',
{
    render_message(MessageKind::Custom, text)
}

impl MyError {
    /// The text that the error shows to a reader.
    pub fn message(&self) -> (r: String)
        ensures
            exists|t: Seq<char>| r@ == framed(self.kind(), t),
            self matches MyError::Io(e) ==> exists|t: String|
                vstd::string::to_string_from_display_ensures::<std::io::Error>(&e, t) && r@
                    == framed(MessageKind::Io, t@),
            self matches MyError::ParseInt(e) ==> exists|t: String|
                vstd::string::to_string_from_display_ensures::<std::num::ParseIntError>(&e, t)
                    && r@ == framed(MessageKind::ParseInt, t@),
            self matches MyError::Serialize(e) ==> exists|t: String|
                vstd::string::to_string_from_display_ensures::<serde_json::Error>(&e, t) && r@
                    == framed(MessageKind::Serialize, t@),
            self matches MyError::Custom(s) ==> r@ == framed(MessageKind::Custom, s@),
            self matches MyError::Io(e) ==> exists|t: String|
                vstd::string::to_string_from_display_ensures::<std::io::Error>(&e, t) && r@
                    == "IO Error `"@ + t@ + seq!['`'],
            self matches MyError::ParseInt(e) ==> exists|t: String|
                vstd::string::to_string_from_display_ensures::<std::num::ParseIntError>(&e, t)
                    && r@ == "Parse Int error `"@ + t@ + seq!['`'],
            self matches MyError::Serialize(e) ==> exists|t: String|
                vstd::string::to_string_from_display_ensures::<serde_json::Error>(&e, t) && r@
                    == "Serialize json error: `"@ + t@ + seq!['`'],
            self matches MyError::Custom(s) ==> r@ == "Custom Error `"@ + s@ + seq!['`'],
    {
        match self {
            MyError::Io(e) => io_message(e),
            MyError::ParseInt(e) => parse_int_message(e),
            MyError::Serialize(e) => serialize_message(e),
            MyError::Custom(s) => custom_message(s.as_str()),
        }
    }
}

/// The words of each kind end in the backtick that opens the described text,
/// and contain no other backtick.
pub proof fn lemma_kind_words(k: MessageKind)
    ensures
        k == MessageKind::Io ==> k.prefix() == "IO Error `"@,
        k == MessageKind::ParseInt ==> k.prefix() == "Parse Int error `"@,
        k == MessageKind::Serialize ==> k.prefix() == "Serialize json error: `"@,
        k == MessageKind::Custom ==> k.prefix() == "Custom Error `"@,
        k.prefix().len() > 0,
        k.prefix().last() == '`',
        forall|i: int| 0 <= i < k.prefix().len() - 1 ==> k.prefix()[i] != '`',
{
    reveal_strlit("IO Error `");
    reveal_strlit("Parse Int error `");
    reveal_strlit("Serialize json error: `");
    reveal_strlit("Custom Error `");
}

/// For every kind and every text of any length, whatever characters it
/// holds, a message is the kind's words, the text unchanged, and exactly one
/// closing backtick after it, with nothing following.
pub proof fn lemma_message_shape(k: MessageKind, t: Seq<char>)
    ensures
        framed(k, t) == k.prefix() + t + seq!['`'],
        framed(k, t).len() == k.prefix().len() + t.len() + 1,
        framed(k, t).subrange(0, k.prefix().len() as int) == k.prefix(),
        framed(k, t).subrange(k.prefix().len() as int, framed(k, t).len() - 1) == t,
        framed(k, t).last() == '`',
{
    let f: Seq<char> = framed(k, t);
    let n: int = k.prefix().len() as int;
    assert(f.subrange(0, n) =~= k.prefix());
    assert(f.subrange(n, f.len() - 1) =~= t);
}

/// Two messages of different kinds are never the same text, whatever they
/// describe: a message tells which kind of error it reports.
pub proof fn lemma_message_tells_kind(k1: MessageKind, k2: MessageKind, t1: Seq<char>, t2: Seq<char>)
    requires
        k1 != k2,
    ensures
        framed(k1, t1) != framed(k2, t2),
{
    reveal_strlit("IO Error `");
    reveal_strlit("Parse Int error `");
    reveal_strlit("Serialize json error: `");
    reveal_strlit("Custom Error `");
    assert(framed(k1, t1)[0] == k1.prefix()[0]);
    assert(framed(k2, t2)[0] == k2.prefix()[0]);
}

/// Two messages of one kind are the same text only where they describe the
/// same text: a message gives back what it describes.
pub proof fn lemma_message_determines_text(k: MessageKind, t1: Seq<char>, t2: Seq<char>)
    requires
        framed(k, t1) == framed(k, t2),
    ensures
        t1 == t2,
{
    let n: int = k.prefix().len() as int;
    assert(t1.len() == t2.len()) by {
        assert(framed(k, t1).len() == n + t1.len() + 1);
        assert(framed(k, t2).len() == n + t2.len() + 1);
    }
    assert(t1 =~= framed(k, t1).subrange(n, n + t1.len()));
    assert(t2 =~= framed(k, t2).subrange(n, n + t2.len()));
}

/// An error converted from an I/O, integer or JSON error keeps that error and
/// reports the kind that matches it.
pub proof fn lemma_conversion_keeps_error(
    io: std::io::Error,
    parse: std::num::ParseIntError,
    json: serde_json::Error,
)
    ensures
        <MyError as vstd::std_specs::convert::FromSpec<std::io::Error>>::from_spec(io)
            == MyError::Io(io),
        <MyError as vstd::std_specs::convert::FromSpec<std::io::Error>>::from_spec(io).kind()
            == MessageKind::Io,
        <MyError as vstd::std_specs::convert::FromSpec<std::num::ParseIntError>>::from_spec(parse)
            == MyError::ParseInt(parse),
        <MyError as vstd::std_specs::convert::FromSpec<std::num::ParseIntError>>::from_spec(
            parse,
        ).kind() == MessageKind::ParseInt,
        <MyError as vstd::std_specs::convert::FromSpec<serde_json::Error>>::from_spec(json)
            == MyError::Serialize(json),
        <MyError as vstd::std_specs::convert::FromSpec<serde_json::Error>>::from_spec(json).kind()
            == MessageKind::Serialize,
{
}

} // verus!
