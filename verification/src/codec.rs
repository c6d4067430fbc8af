//! The cache file codec: one record per line, `timestamp: message`.
//!
//! `encode_entry` renders a record as one terminated line; `parse_line`
//! splits a line at the first occurrence of the delimiter; `drain`
//! parses a whole cache file, skipping lines that do not split.

use vstd::prelude::*;
use crate::record::{LogRecord, RecordView, delim_at, valid_timestamp};

verus! {

/// The delimiter written between the timestamp and the message.
pub open spec fn delim_seq() -> Seq<char> {
    seq![':', ' ']
}

/// The characters of the cache line for `r`, without the terminator.
pub open spec fn encode_line_spec(r: RecordView) -> Seq<char> {
    r.created_at + delim_seq() + r.message
}

/// The characters appended to the cache file for `r`: one terminated line.
pub open spec fn entry_spec(r: RecordView) -> Seq<char> {
    encode_line_spec(r) + seq!['\n']
}

/// Renders `r` as the line appended to the cache file.
pub fn encode_entry(r: &LogRecord) -> (s: String)
    ensures
        s@ == entry_spec(r@),
{
    let mut s = String::from_str(r.created_at.as_str());
    s.append(": ");
    s.append(r.message.as_str());
    s.append("\n");
    proof {
        reveal_strlit(": ");
        reveal_strlit("\n");
        assert(s@ =~= entry_spec(r@));
    }
    s
}

/// The position of the first delimiter at or after `i`, if any.
pub open spec fn first_delim_from(s: Seq<char>, i: int) -> Option<int>
    decreases s.len() - i,
{
    if i + 2 > s.len() {
        None
    } else if s[i] == ':' && s[i + 1] == ' ' {
        Some(i)
    } else {
        first_delim_from(s, i + 1)
    }
}

/// What one cache line means: split at the first delimiter, or nothing
/// when the line holds no delimiter.
pub open spec fn parse_line_spec(line: Seq<char>) -> Option<RecordView> {
    match first_delim_from(line, 0) {
        Some(i) => Some(RecordView {
            created_at: line.subrange(0, i),
            message: line.subrange(i + 2, line.len() as int),
        }),
        None => None,
    }
}

/// Splits one cache line at the first delimiter; a line without the
/// delimiter does not parse and is skipped by `drain`.
pub fn parse_line(line: &str) -> (r: Option<LogRecord>)
    ensures
        r is Some <==> parse_line_spec(line@) is Some,
        r matches Some(rec) ==> parse_line_spec(line@) == Some(rec@),
{
    let n = line.unicode_len();
    let mut i: usize = 0;
    loop
        invariant
            i <= n,
            n == line@.len(),
            first_delim_from(line@, 0) == first_delim_from(line@, i as int),
        decreases n - i,
    {
        if n - i < 2 {
            assert(first_delim_from(line@, i as int) is None);
            return None;
        }
        if line.get_char(i) == ':' && line.get_char(i + 1) == ' ' {
            assert(first_delim_from(line@, i as int) == Some(i as int));
            let created = line.substring_char(0, i);
            let message = line.substring_char(i + 2, n);
            let rec = LogRecord {
                created_at: String::from_str(created),
                message: String::from_str(message),
            };
            return Some(rec);
        }
        i = i + 1;
    }
}

/// The records read from the cache file characters `s`, given that the
/// characters `cur` of the current line were already consumed: lines
/// are cut at `'\n'`, each is parsed, and lines that do not parse are
/// skipped.  A final unterminated line is parsed like any other.
pub open spec fn drain_rec(s: Seq<char>, cur: Seq<char>) -> Seq<RecordView>
    decreases s.len(),
{
    if s.len() == 0 {
        match parse_line_spec(cur) {
            Some(r) => seq![r],
            None => Seq::empty(),
        }
    } else if s[0] == '\n' {
        let tail = drain_rec(s.subrange(1, s.len() as int), Seq::empty());
        match parse_line_spec(cur) {
            Some(r) => seq![r] + tail,
            None => tail,
        }
    } else {
        drain_rec(s.subrange(1, s.len() as int), cur.push(s[0]))
    }
}

/// The records that draining a cache file with characters `s` yields.
pub open spec fn drain_spec(s: Seq<char>) -> Seq<RecordView> {
    drain_rec(s, Seq::empty())
}

/// The views of the records in `v`, in order.
pub open spec fn views_of(v: Seq<LogRecord>) -> Seq<RecordView> {
    v.map_values(|r: LogRecord| r@)
}

/// Parses the whole cache file content: every line that splits at a
/// delimiter becomes a record, in file order; the rest are skipped.
/// An absent cache file is handed in as the empty string.
pub fn drain(content: &str) -> (v: Vec<LogRecord>)
    ensures
        views_of(v@) == drain_spec(content@),
{
    let n = content.unicode_len();
    let mut v: Vec<LogRecord> = Vec::new();
    let mut start: usize = 0;
    let mut pos: usize = 0;
    proof {
        assert(views_of(v@) =~= Seq::<RecordView>::empty());
        assert(content@.subrange(0, 0) =~= Seq::<char>::empty());
        assert(content@.subrange(0, n as int) =~= content@);
        assert(views_of(v@) + drain_rec(content@, Seq::empty()) =~= drain_rec(
            content@,
            Seq::empty(),
        ));
    }
    while pos < n
        invariant
            start <= pos <= n,
            n == content@.len(),
            drain_spec(content@) == views_of(v@) + drain_rec(
                content@.subrange(pos as int, n as int),
                content@.subrange(start as int, pos as int),
            ),
        decreases n - pos,
    {
        let ghost rest = content@.subrange(pos as int, n as int);
        let ghost cur = content@.subrange(start as int, pos as int);
        proof {
            assert(rest[0] == content@[pos as int]);
            assert(rest.subrange(1, rest.len() as int) =~= content@.subrange(
                pos as int + 1,
                n as int,
            ));
        }
        let c = content.get_char(pos);
        if c == '\n' {
            let line = content.substring_char(start, pos);
            match parse_line(line) {
                Some(rec) => {
                    proof {
                        assert(views_of(v@.push(rec)) =~= views_of(v@).push(rec@));
                        assert(views_of(v@).push(rec@) + drain_rec(
                            content@.subrange(pos as int + 1, n as int),
                            Seq::empty(),
                        ) =~= views_of(v@) + (seq![rec@] + drain_rec(
                            content@.subrange(pos as int + 1, n as int),
                            Seq::empty(),
                        )));
                    }
                    v.push(rec);
                },
                None => {},
            }
            proof {
                assert(content@.subrange(pos as int + 1, pos as int + 1) =~= Seq::<char>::empty());
            }
            start = pos + 1;
            pos = pos + 1;
        } else {
            proof {
                assert(cur.push(content@[pos as int]) =~= content@.subrange(
                    start as int,
                    pos as int + 1,
                ));
            }
            pos = pos + 1;
        }
    }
    proof {
        assert(content@.subrange(n as int, n as int) =~= Seq::<char>::empty());
    }
    if start < n {
        let line = content.substring_char(start, n);
        match parse_line(line) {
            Some(rec) => {
                proof {
                    assert(views_of(v@.push(rec)) =~= views_of(v@).push(rec@));
                    assert(views_of(v@) + seq![rec@] =~= views_of(v@).push(rec@));
                }
                v.push(rec);
            },
            None => {
                proof {
                    assert(views_of(v@) + Seq::<RecordView>::empty() =~= views_of(v@));
                }
            },
        }
    } else {
        proof {
            assert(content@.subrange(start as int, n as int) =~= Seq::<char>::empty());
            assert(parse_line_spec(Seq::<char>::empty()) is None);
            assert(views_of(v@) + Seq::<RecordView>::empty() =~= views_of(v@));
        }
    }
    v
}

/// The first delimiter is unchanged by skipping positions that hold none.
proof fn lemma_first_delim_skip(s: Seq<char>, i: int, j: int)
    requires
        0 <= i <= j,
        forall|k: int| i <= k < j ==> !delim_at(s, k),
    ensures
        first_delim_from(s, i) == first_delim_from(s, j),
    decreases j - i,
{
    if i < j {
        assert(!delim_at(s, i));
        lemma_first_delim_skip(s, i + 1, j);
    }
}

/// Law: a cache line written for a cache-safe record reads back as
/// exactly that record — the parse splits where the encode joined.
pub proof fn lemma_line_round_trip(r: RecordView)
    requires
        r.cache_safe(),
    ensures
        parse_line_spec(encode_line_spec(r)) == Some(r),
{
    let s = encode_line_spec(r);
    let ts = r.created_at;
    let tn = ts.len() as int;
    assert forall|k: int| 0 <= k < tn implies !delim_at(s, k) by {
        if k < tn - 1 {
            assert(s[k] == ts[k] && s[k + 1] == ts[k + 1]);
            assert(delim_at(s, k) ==> delim_at(ts, k));
        } else {
            assert(s[k + 1] == ':');
        }
    }
    lemma_first_delim_skip(s, 0, tn);
    assert(s[tn] == ':' && s[tn + 1] == ' ');
    assert(first_delim_from(s, tn) == Some(tn));
    assert(s.subrange(0, tn) =~= ts);
    assert(s.subrange(tn + 2, s.len() as int) =~= r.message);
}

/// The cache file content is well formed: empty, or ending in a line
/// terminator, as every append leaves it.
pub open spec fn terminated(s: Seq<char>) -> bool {
    s.len() == 0 || s[s.len() - 1] == '\n'
}

/// Draining a file that starts with full lines splits into draining
/// those lines and draining the remainder.
proof fn lemma_drain_rec_concat(s: Seq<char>, t: Seq<char>, cur: Seq<char>)
    requires
        s.len() > 0,
        s[s.len() - 1] == '\n',
    ensures
        drain_rec(s + t, cur) == drain_rec(s, cur) + drain_rec(t, Seq::empty()),
    decreases s.len(),
{
    let st = s + t;
    let s1 = s.subrange(1, s.len() as int);
    assert(st[0] == s[0]);
    assert(st.subrange(1, st.len() as int) =~= s1 + t);
    if s[0] == '\n' {
        if s1.len() == 0 {
            assert(s1 + t =~= t);
            assert(parse_line_spec(Seq::<char>::empty()) is None);
            match parse_line_spec(cur) {
                Some(r) => {
                    assert(seq![r] + drain_rec(t, Seq::empty()) =~= (seq![r]
                        + drain_rec(Seq::<char>::empty(), Seq::empty())) + drain_rec(
                        t,
                        Seq::empty(),
                    ));
                },
                None => {
                    assert(drain_rec(t, Seq::empty()) =~= drain_rec(
                        Seq::<char>::empty(),
                        Seq::empty(),
                    ) + drain_rec(t, Seq::empty()));
                },
            }
        } else {
            assert(s1[s1.len() - 1] == '\n');
            lemma_drain_rec_concat(s1, t, Seq::empty());
            match parse_line_spec(cur) {
                Some(r) => {
                    assert(seq![r] + (drain_rec(s1, Seq::empty()) + drain_rec(t, Seq::empty()))
                        =~= (seq![r] + drain_rec(s1, Seq::empty())) + drain_rec(t, Seq::empty()));
                },
                None => {},
            }
        }
    } else {
        assert(s.len() >= 2);
        assert(s1[s1.len() - 1] == '\n');
        lemma_drain_rec_concat(s1, t, cur.push(s[0]));
    }
}

/// Consuming a line free of terminators, then its terminator, parses
/// the accumulated characters as one line.
proof fn lemma_drain_rec_line(line: Seq<char>, cur: Seq<char>)
    requires
        forall|i: int| 0 <= i < line.len() ==> line[i] != '\n',
    ensures
        drain_rec(line + seq!['\n'], cur) == match parse_line_spec(cur + line) {
            Some(r) => seq![r],
            None => Seq::<RecordView>::empty(),
        },
    decreases line.len(),
{
    let s = line + seq!['\n'];
    if line.len() == 0 {
        assert(s[0] == '\n');
        assert(s.subrange(1, s.len() as int) =~= Seq::<char>::empty());
        assert(cur + line =~= cur);
        assert(first_delim_from(Seq::<char>::empty(), 0) is None);
        assert(drain_rec(Seq::<char>::empty(), Seq::<char>::empty())
            =~= Seq::<RecordView>::empty());
        match parse_line_spec(cur) {
            Some(r) => {
                assert(drain_rec(s, cur) == seq![r] + drain_rec(
                    Seq::<char>::empty(),
                    Seq::empty(),
                ));
                assert(seq![r] + Seq::<RecordView>::empty() =~= seq![r]);
            },
            None => {
                assert(drain_rec(s, cur) == drain_rec(Seq::<char>::empty(), Seq::empty()));
            },
        }
    } else {
        assert(s[0] == line[0]);
        assert(s[0] != '\n');
        let line1 = line.subrange(1, line.len() as int);
        assert(s.subrange(1, s.len() as int) =~= line1 + seq!['\n']);
        lemma_drain_rec_line(line1, cur.push(line[0]));
        assert(cur.push(line[0]) + line1 =~= cur + line);
        assert(drain_rec(s, cur) == drain_rec(line1 + seq!['\n'], cur.push(line[0])));
    }
}

/// The encoded line of a cache-safe record holds no terminator.
proof fn lemma_encode_line_no_newline(r: RecordView)
    requires
        r.cache_safe(),
    ensures
        forall|i: int| 0 <= i < encode_line_spec(r).len() ==> encode_line_spec(r)[i] != '\n',
{
    let s = encode_line_spec(r);
    let tn = r.created_at.len() as int;
    assert forall|i: int| 0 <= i < s.len() implies s[i] != '\n' by {
        if i < tn {
            assert(s[i] == r.created_at[i]);
        } else if i == tn {
            assert(s[i] == ':');
        } else if i == tn + 1 {
            assert(s[i] == ' ');
        } else {
            assert(s[i] == r.message[i - tn - 2]);
        }
    }
}

/// Law: appending one entry for a cache-safe record to a well-formed
/// cache file adds exactly that record to what a drain yields, at the
/// end, and leaves the file well formed — the append/drain round trip.
pub proof fn lemma_cache_append(content: Seq<char>, r: RecordView)
    requires
        terminated(content),
        r.cache_safe(),
    ensures
        drain_spec(content + entry_spec(r)) == drain_spec(content).push(r),
        terminated(content + entry_spec(r)),
{
    let e = entry_spec(r);
    let line = encode_line_spec(r);
    assert(e[e.len() - 1] == '\n');
    lemma_encode_line_no_newline(r);
    lemma_drain_rec_line(line, Seq::empty());
    assert(Seq::<char>::empty() + line =~= line);
    lemma_line_round_trip(r);
    assert(drain_rec(e, Seq::empty()) =~= seq![r]);
    if content.len() == 0 {
        assert(content + e =~= e);
        assert(drain_spec(content) =~= Seq::<RecordView>::empty());
        assert(Seq::<RecordView>::empty().push(r) =~= seq![r]);
    } else {
        lemma_drain_rec_concat(content, e, Seq::empty());
        assert(drain_spec(content) + seq![r] =~= drain_spec(content).push(r));
    }
    assert((content + e)[(content + e).len() - 1] == '\n');
}

/// Law: a record logged while offline is not lost: once its entry is
/// appended to the cache file, every subsequent drain of that file
/// yields it — the cache leg of at-least-once delivery.
pub proof fn lemma_offline_log_recorded(content: Seq<char>, r: RecordView)
    requires
        terminated(content),
        r.cache_safe(),
    ensures
        drain_spec(content + entry_spec(r)).contains(r),
{
    lemma_cache_append(content, r);
    assert(drain_spec(content + entry_spec(r)).last() == r);
}

} // verus!
