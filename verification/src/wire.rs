//! The messages between clients and the broker, and how they are framed on
//! the local socket (a Unix domain socket, or a named pipe on Windows):
//! one line of JSON per message.
use vstd::prelude::*;

verus! {

/// The socket's name, in the local namespace: a named pipe on Windows, a
/// Unix domain socket elsewhere.
pub const SOCKET_NAME: &'static str = "cred-broker.sock";

/// A client's request to the broker.
#[derive(Debug, Clone)]
pub struct Request {
    /// Empty for meta-level operations (such as "hello").
    pub provider: String,
    pub op: String,
    pub params: serde_json::Value,
}

/// The broker's response to a client.
#[derive(Debug, Clone)]
pub struct Response {
    pub status: ResponseStatus,
    pub result: serde_json::Value,
}

/// How a request went. `Success` travels on the wire as "ok".
#[derive(Debug, Clone, Copy, PartialEq, Eq, Structural)]
pub enum ResponseStatus {
    Success,
    Denied,
    Error,
}

/// Why a frame could not be read.
#[derive(Debug, Clone, Copy, PartialEq, Eq, Structural)]
pub enum FrameError {
    /// The peer closed the connection before a line came.
    ConnectionClosed,
}

/// Whether `c` has the Unicode White_Space property.
pub open spec fn is_whitespace(c: char) -> bool {
    let n = c as u32;
    ||| 0x9 <= n <= 0xd
    ||| n == 0x20
    ||| n == 0x85
    ||| n == 0xa0
    ||| n == 0x1680
    ||| 0x2000 <= n <= 0x200a
    ||| n == 0x2028
    ||| n == 0x2029
    ||| n == 0x202f
    ||| n == 0x205f
    ||| n == 0x3000
}

/// Whether `c` has the Unicode White_Space property.
pub fn char_is_whitespace(c: char) -> (r: bool)
    ensures
        r == is_whitespace(c),
{
    let n = c as u32;
    (0x9 <= n && n <= 0xd) || n == 0x20 || n == 0x85 || n == 0xa0 || n == 0x1680 || (0x2000 <= n
        && n <= 0x200a) || n == 0x2028 || n == 0x2029 || n == 0x202f || n == 0x205f || n == 0x3000
}

/// `s` without its trailing whitespace.
pub open spec fn trim_end(s: Seq<char>) -> Seq<char>
    decreases s.len(),
{
    if s.len() > 0 && is_whitespace(s.last()) {
        trim_end(s.drop_last())
    } else {
        s
    }
}

/// Trimming `s` trims its prefix up to `k` where everything after `k` is
/// whitespace.
proof fn lemma_trim_end_prefix(s: Seq<char>, k: int)
    requires
        0 <= k <= s.len(),
        forall|j: int| k <= j < s.len() ==> is_whitespace(#[trigger] s[j]),
    ensures
        trim_end(s) == trim_end(s.subrange(0, k)),
    decreases s.len() - k,
{
    if k < s.len() {
        assert(s.subrange(0, k + 1).drop_last() =~= s.subrange(0, k));
        assert(s.subrange(0, k + 1).last() == s[k]);
        lemma_trim_end_prefix(s, k + 1);
    } else {
        assert(s.subrange(0, k) =~= s);
    }
}

/// The line that carries `json`: the text and a line feed.
pub fn encode_frame(json: String) -> (r: String)
    ensures
        r@ == json@.push('\n'),
{
    proof {
        reveal_strlit("\n");
    }
    let mut line = json;
    line.append("\n");
    assert(line@ =~= json@.push('\n'));
    line
}

/// The JSON text of a line read from the peer, of which `bytes_read`
/// bytes came: trailing whitespace, the line feed among it, is dropped. A
/// read of no bytes means that the peer closed the connection.
pub fn decode_frame(line: &str, bytes_read: usize) -> (r: Result<&str, FrameError>)
    ensures
        bytes_read == 0 ==> r == Err::<&str, FrameError>(FrameError::ConnectionClosed),
        bytes_read != 0 ==> (r matches Ok(text) && text@ == trim_end(line@)),
{
    if bytes_read == 0 {
        return Err(FrameError::ConnectionClosed);
    }
    let n = line.unicode_len();
    let mut k = n;
    while k > 0 && char_is_whitespace(line.get_char(k - 1))
        invariant
            k <= n,
            n == line@.len(),
            forall|j: int| k <= j < n ==> is_whitespace(#[trigger] line@[j]),
        decreases k,
    {
        k = k - 1;
    }
    proof {
        lemma_trim_end_prefix(line@, k as int);
        let p = line@.subrange(0, k as int);
        if k > 0 {
            assert(p.last() == line@[k - 1]);
        }
    }
    Ok(line.substring_char(0, k))
}

/// Reading back a framed message gives the message, for every message that
/// does not end in whitespace (as compact JSON never does).
pub proof fn lemma_frame_roundtrip(json: Seq<char>)
    requires
        json.len() == 0 || !is_whitespace(json.last()),
    ensures
        trim_end(json.push('\n')) == json,
{
    let framed = json.push('\n');
    assert(framed.drop_last() =~= json);
    assert(trim_end(framed) == trim_end(json));
    assert(trim_end(json) == json);
}

/// What a reader of lines takes from the front of `s`: everything up to
/// and including the first line feed, or all of `s` where it has none.
pub open spec fn first_line(s: Seq<char>) -> Seq<char>
    decreases s.len(),
{
    if s.len() == 0 {
        s
    } else if s[0] == '\n' {
        seq!['\n']
    } else {
        seq![s[0]] + first_line(s.drop_first())
    }
}

/// A frame is one line: a reader of lines takes exactly the frame of a
/// text without line feeds from the front of a stream, whatever follows.
pub proof fn lemma_frame_is_one_line(json: Seq<char>, rest: Seq<char>)
    requires
        !json.contains('\n'),
    ensures
        first_line(json.push('\n') + rest) == json.push('\n'),
    decreases json.len(),
{
    let s = json.push('\n') + rest;
    if json.len() == 0 {
        assert(s[0] == '\n');
        assert(seq!['\n'] =~= json.push('\n'));
    } else {
        assert(s[0] == json[0]);
        assert(json[0] != '\n');
        let tail = json.drop_first();
        assert forall|i: int| 0 <= i < tail.len() implies tail[i] != '\n' by {
            assert(tail[i] == json[i + 1]);
        }
        assert(!tail.contains('\n'));
        assert(s.drop_first() =~= tail.push('\n') + rest);
        lemma_frame_is_one_line(tail, rest);
        assert(seq![json[0]] + tail.push('\n') =~= json.push('\n'));
    }
}

/// Two messages framed one after the other are read back one line at a
/// time: the first line decodes to the first message, what follows it to
/// the second, and nothing is left after them, so a further read gets no
/// bytes. This holds of every message that has no line feed and does not
/// end in whitespace, as compact JSON never does.
pub proof fn lemma_frames_read_back(m1: Seq<char>, m2: Seq<char>)
    requires
        !m1.contains('\n'),
        !m2.contains('\n'),
        m1.len() == 0 || !is_whitespace(m1.last()),
        m2.len() == 0 || !is_whitespace(m2.last()),
    ensures
        ({
            let stream = m1.push('\n') + m2.push('\n');
            let line1 = first_line(stream);
            let after1 = stream.skip(line1.len() as int);
            let line2 = first_line(after1);
            let after2 = after1.skip(line2.len() as int);
            &&& trim_end(line1) == m1
            &&& trim_end(line2) == m2
            &&& after2.len() == 0
        }),
{
    let stream = m1.push('\n') + m2.push('\n');
    lemma_frame_is_one_line(m1, m2.push('\n'));
    let line1 = first_line(stream);
    let after1 = stream.skip(line1.len() as int);
    assert(after1 =~= m2.push('\n'));
    lemma_frame_is_one_line(m2, Seq::<char>::empty());
    assert(m2.push('\n') + Seq::<char>::empty() =~= m2.push('\n'));
    lemma_frame_roundtrip(m1);
    lemma_frame_roundtrip(m2);
}

} // verus!
