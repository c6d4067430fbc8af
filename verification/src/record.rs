//! Log records and the validity conditions for caching them.

use vstd::prelude::*;

verus! {

/// One log entry: a message and the timestamp at which it was created.
/// The timestamp travels with the record so that a flush of cached
/// entries can preserve it instead of substituting the flush time.
#[derive(Clone, Debug, PartialEq, Eq)]
pub struct LogRecord {
    pub created_at: String,
    pub message: String,
}

/// Mathematical view of a record: both fields as character sequences.
pub struct RecordView {
    pub created_at: Seq<char>,
    pub message: Seq<char>,
}

impl View for LogRecord {
    type V = RecordView;

    open spec fn view(&self) -> RecordView {
        RecordView { created_at: self.created_at@, message: self.message@ }
    }
}

/// The cache line delimiter, a colon followed by a space, starts at
/// position `i` of `s`.
pub open spec fn delim_at(s: Seq<char>, i: int) -> bool {
    0 <= i && i + 2 <= s.len() && s[i] == ':' && s[i + 1] == ' '
}

/// `s` contains the cache line delimiter somewhere.
pub open spec fn has_delim(s: Seq<char>) -> bool {
    exists|i: int| delim_at(s, i)
}

/// `s` contains a line break.
pub open spec fn has_newline(s: Seq<char>) -> bool {
    exists|i: int| 0 <= i < s.len() && s[i] == '\n'
}

/// A timestamp can head a cache line only if it is free of line breaks
/// and of the delimiter, so that a later parse splits the line exactly
/// where the timestamp ends.
pub open spec fn valid_timestamp(s: Seq<char>) -> bool {
    !has_newline(s) && !has_delim(s)
}

/// A message can stand in a cache line only if it is free of line
/// breaks; it may contain the delimiter, since the parse splits at the
/// first occurrence, which lies in or right after the timestamp.
pub open spec fn valid_message(s: Seq<char>) -> bool {
    !has_newline(s)
}

impl RecordView {
    /// The record can be written as one cache line and read back intact.
    pub open spec fn cache_safe(self) -> bool {
        valid_timestamp(self.created_at) && valid_message(self.message)
    }
}

/// Decides `valid_timestamp` for an actual string.
pub fn check_timestamp(s: &str) -> (b: bool)
    ensures
        b == valid_timestamp(s@),
{
    let n = s.unicode_len();
    let mut i: usize = 0;
    while i < n
        invariant
            i <= n,
            n == s@.len(),
            forall|k: int| 0 <= k < i ==> s@[k] != '\n',
            forall|k: int| 0 <= k < i ==> !delim_at(s@, k),
        decreases n - i,
    {
        let c = s.get_char(i);
        if c == '\n' {
            return false;
        }
        if c == ':' && i + 1 < n && s.get_char(i + 1) == ' ' {
            assert(delim_at(s@, i as int));
            return false;
        }
        i = i + 1;
    }
    true
}

/// Decides `valid_message` for an actual string.
pub fn check_message(s: &str) -> (b: bool)
    ensures
        b == valid_message(s@),
{
    let n = s.unicode_len();
    let mut i: usize = 0;
    while i < n
        invariant
            i <= n,
            n == s@.len(),
            forall|k: int| 0 <= k < i ==> s@[k] != '\n',
        decreases n - i,
    {
        if s.get_char(i) == '\n' {
            return false;
        }
        i = i + 1;
    }
    true
}

} // verus!
