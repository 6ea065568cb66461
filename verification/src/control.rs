//! Dual-source control decisions: what the console reader does with a line,
//! and the shutdown flag both sources share.
//!
//! The console loop itself (reading lines, printing results) lives outside
//! the library; it hands each raw line to `console_step` and acts on the
//! decision.
use vstd::prelude::*;

verus! {

/// The whitespace the console line is trimmed of before it is interpreted:
/// the characters with the Unicode white-space property, the set `str::trim`
/// removes.
pub open spec fn is_blank(c: char) -> bool {
    c == '\u{9}' || c == '\u{a}' || c == '\u{b}' || c == '\u{c}' || c == '\u{d}' || c == ' '
        || c == '\u{85}' || c == '\u{a0}' || c == '\u{1680}' || c == '\u{2000}' || c == '\u{2001}'
        || c == '\u{2002}' || c == '\u{2003}' || c == '\u{2004}' || c == '\u{2005}'
        || c == '\u{2006}' || c == '\u{2007}' || c == '\u{2008}' || c == '\u{2009}'
        || c == '\u{200a}' || c == '\u{2028}' || c == '\u{2029}' || c == '\u{202f}'
        || c == '\u{205f}' || c == '\u{3000}'
}

/// The sequence with its leading blanks dropped.
pub open spec fn trim_front(s: Seq<char>) -> Seq<char>
    decreases s.len(),
{
    if s.len() == 0 {
        s
    } else if is_blank(s.first()) {
        trim_front(s.drop_first())
    } else {
        s
    }
}

/// The sequence with its trailing blanks dropped.
pub open spec fn trim_back(s: Seq<char>) -> Seq<char>
    decreases s.len(),
{
    if s.len() == 0 {
        s
    } else if is_blank(s.last()) {
        trim_back(s.drop_last())
    } else {
        s
    }
}

/// The sequence with leading and trailing blanks dropped.
pub open spec fn trim_spec(s: Seq<char>) -> Seq<char> {
    trim_back(trim_front(s))
}

/// What the console does with one input line.
#[derive(Debug)]
pub enum ConsoleCommand {
    /// The line was the shutdown sentinel: stop reading and shut down.
    Shutdown,
    /// Any other line: treat it as a play fragment.
    Play { fragment: String },
}

/// Trims the blanks off both ends of a line.
pub fn trim_line(s: &str) -> (r: String)
    ensures
        r@ == trim_spec(s@),
{
    let n = s.unicode_len();
    proof {
        assert(s@.subrange(0, n as int) =~= s@);
    }
    let mut start: usize = 0;
    while start < n && is_blank_exec(s.get_char(start))
        invariant
            start <= n,
            trim_front(s@) == trim_front(s@.subrange(start as int, n as int)),
        decreases n - start,
    {
        proof {
            let sub = s@.subrange(start as int, n as int);
            assert(sub.drop_first() =~= s@.subrange(start + 1 as int, n as int));
        }
        start = start + 1;
    }
    proof {
        let sub = s@.subrange(start as int, n as int);
        if start < n {
            assert(trim_front(s@) == sub);
        } else {
            assert(sub =~= Seq::<char>::empty());
            assert(trim_front(s@) == sub);
        }
    }
    let mut end: usize = n;
    while end > start && is_blank_exec(s.get_char(end - 1))
        invariant
            start <= end <= n,
            trim_back(s@.subrange(start as int, n as int)) == trim_back(
                s@.subrange(start as int, end as int),
            ),
        decreases end,
    {
        proof {
            let sub = s@.subrange(start as int, end as int);
            assert(sub.drop_last() =~= s@.subrange(start as int, end - 1 as int));
        }
        end = end - 1;
    }
    proof {
        let sub = s@.subrange(start as int, end as int);
        if end > start {
            assert(trim_back(sub) == sub);
        } else {
            assert(sub =~= Seq::<char>::empty());
            assert(trim_back(sub) == sub);
        }
    }
    let r = s.substring_char(start, end);
    String::from_str(r)
}

/// Exec mirror of `is_blank`.
fn is_blank_exec(c: char) -> (r: bool)
    ensures
        r == is_blank(c),
{
    c == '\u{9}' || c == '\u{a}' || c == '\u{b}' || c == '\u{c}' || c == '\u{d}' || c == ' '
        || c == '\u{85}' || c == '\u{a0}' || c == '\u{1680}' || c == '\u{2000}' || c == '\u{2001}'
        || c == '\u{2002}' || c == '\u{2003}' || c == '\u{2004}' || c == '\u{2005}'
        || c == '\u{2006}' || c == '\u{2007}' || c == '\u{2008}' || c == '\u{2009}'
        || c == '\u{200a}' || c == '\u{2028}' || c == '\u{2029}' || c == '\u{202f}'
        || c == '\u{205f}' || c == '\u{3000}'
}

/// Whether two strings hold the same characters.
pub fn str_eq(a: &str, b: &str) -> (r: bool)
    ensures
        r == (a@ == b@),
{
    let na = a.unicode_len();
    let nb = b.unicode_len();
    if na != nb {
        return false;
    }
    let mut i: usize = 0;
    while i < na
        invariant
            i <= na,
            na == nb,
            forall|j: int| 0 <= j < i ==> a@[j] == b@[j],
        decreases na - i,
    {
        if a.get_char(i) != b.get_char(i) {
            return false;
        }
        i = i + 1;
    }
    proof {
        assert(a@ =~= b@);
    }
    true
}

/// Interprets one console line: the trimmed sentinel `exit` shuts the process
/// down, every other line is a play fragment (trimmed).
pub fn console_step(line: &str) -> (r: ConsoleCommand)
    ensures
        ({
            let t = trim_spec(line@);
            if t == "exit"@ {
                r == ConsoleCommand::Shutdown
            } else {
                r matches ConsoleCommand::Play { fragment } && fragment@ == t
            }
        }),
{
    let t = trim_line(line);
    if str_eq(t.as_str(), "exit") {
        ConsoleCommand::Shutdown
    } else {
        ConsoleCommand::Play { fragment: t }
    }
}

/// The shared shutdown flag: once raised it stays raised, so racing shutdown
/// requests terminate the process exactly once.
pub struct ShutdownFlag {
    down: bool,
}

/// The flag after a shutdown request, whatever it held before.
pub closed spec fn after_request(s: ShutdownFlag) -> ShutdownFlag {
    ShutdownFlag { down: true }
}

impl ShutdownFlag {
    /// Whether shutdown has been requested.
    pub closed spec fn is_down(self) -> bool {
        self.down
    }

    /// A fresh flag: shutdown not requested.
    pub fn new() -> (r: ShutdownFlag)
        ensures
            !r.is_down(),
    {
        ShutdownFlag { down: false }
    }

    /// Requests shutdown; reports whether it had already been requested, so
    /// the caller performs the disconnect exactly once.
    pub fn request(&mut self) -> (already: bool)
        ensures
            *final(self) == after_request(*old(self)),
            already == old(self).is_down(),
    {
        let already = self.down;
        self.down = true;
        already
    }
}

/// Shutdown is idempotent: a second request leaves the flag exactly where the
/// first put it.
pub proof fn lemma_shutdown_idempotent(s: ShutdownFlag)
    ensures
        after_request(after_request(s)) == after_request(s),
        after_request(s).is_down(),
{
}

} // verus!
