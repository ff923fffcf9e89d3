//! Extracting the body text of a message (an AutoMod report or an embed) as
//! one or two plain messages that fit Discord's length limit.
use vstd::prelude::*;
use crate::erase::{utf8_len, utf8_width, utf8_width_of};
use crate::parse::{chars_of, string_of};
use crate::text::{nat_decimal, push_str, push_u64, str_to_string};

verus! {

/// The most characters a message may hold.
pub const MESSAGE_CHARS: usize = 2000usize;

/// The characters kept before an ellipsis when a text is cut.
pub const CUT_CHARS: usize = 1997usize;

/// Where `str::split_at_checked(mid)` splits a text: after the leading
/// characters that take exactly `mid` bytes, when there are such; otherwise
/// `mid` is past the end or inside a character, and there is no split.
pub open spec fn split_at_bytes(s: Seq<char>, mid: nat) -> Option<(Seq<char>, Seq<char>)> {
    if exists|k: int| 0 <= k <= s.len() && #[trigger] utf8_len(s.take(k)) == mid {
        let k = choose|k: int| 0 <= k <= s.len() && #[trigger] utf8_len(s.take(k)) == mid;
        Some((s.take(k), s.skip(k)))
    } else {
        None
    }
}

/// The text a message's body is taken from: the first embed's description
/// when not empty, else the message's content, else a note.
pub open spec fn message_body(embed_description: Option<String>, content: Seq<char>) -> Seq<char> {
    let description = match embed_description {
        Some(d) => d@,
        None => Seq::<char>::empty(),
    };
    if description.len() > 0 {
        description
    } else if content.len() > 0 {
        content
    } else {
        "<:mminfo:1279517292455264359> No message body."@
    }
}

/// A text cut to its first 1997 characters and an ellipsis.
pub open spec fn cut(s: Seq<char>) -> Seq<char> {
    s.take(if s.len() < CUT_CHARS { s.len() as int } else { CUT_CHARS as int }) + "..."@
}

/// The one or two messages a body is sent as: itself when it fits; else cut
/// where its 2000th byte ends, each part shortened to fit (the first always
/// ends in an ellipsis), or, when that byte ends inside a character, the body
/// cut alone.
pub open spec fn extracted(body: Seq<char>) -> (Seq<char>, Seq<char>) {
    if body.len() <= MESSAGE_CHARS {
        (body, Seq::empty())
    } else {
        match split_at_bytes(body, MESSAGE_CHARS as nat) {
            Some((a, b)) => (cut(a), if b.len() <= MESSAGE_CHARS {
                b
            } else {
                cut(b)
            }),
            None => (cut(body), Seq::empty()),
        }
    }
}

proof fn lemma_utf8_len_step(s: Seq<char>, k: int)
    requires
        0 <= k < s.len(),
    ensures
        utf8_len(s.take(k + 1)) == utf8_len(s.take(k)) + utf8_width(s[k]),
{
    assert(s.take(k + 1).drop_last() =~= s.take(k));
}

/// Longer prefixes take strictly more bytes.
proof fn lemma_utf8_len_increasing(s: Seq<char>, j: int, k: int)
    requires
        0 <= j < k <= s.len(),
    ensures
        utf8_len(s.take(j)) < utf8_len(s.take(k)),
    decreases k - j,
{
    lemma_utf8_len_step(s, k - 1);
    if j < k - 1 {
        lemma_utf8_len_increasing(s, j, k - 1);
    }
}

/// The split of `str::split_at_checked` (see [`split_at_bytes`]), by the
/// number of leading characters.
fn split_point(s: &Vec<char>, mid: u64) -> (r: Option<usize>)
    requires
        mid <= MESSAGE_CHARS,
    ensures
        match r {
            Some(k) => k <= s@.len() && split_at_bytes(s@, mid as nat) == Some((s@.take(k as int), s@.skip(k as int))),
            None => split_at_bytes(s@, mid as nat) is None,
        },
{
    let mut acc: u64 = 0;
    let mut i: usize = 0;
    while i < s.len() && acc < mid
        invariant
            i <= s@.len(),
            mid <= MESSAGE_CHARS,
            acc == utf8_len(s@.take(i as int)),
            i > 0 ==> utf8_len(s@.take(i as int - 1)) < mid,
        decreases s.len() - i,
    {
        proof {
            lemma_utf8_len_step(s@, i as int);
        }
        acc = acc + utf8_width_of(s[i]);
        i += 1;
    }
    if acc == mid {
        proof {
            assert(utf8_len(s@.take(i as int)) == mid as nat);
            let k = choose|k: int| 0 <= k <= s@.len() && #[trigger] utf8_len(s@.take(k)) == mid as nat;
            if k < i {
                lemma_utf8_len_increasing(s@, k, i as int);
            } else if k > i {
                lemma_utf8_len_increasing(s@, i as int, k);
            }
        }
        Some(i)
    } else {
        proof {
            assert forall|k: int| 0 <= k <= s@.len() implies #[trigger] utf8_len(s@.take(k)) != mid as nat by {
                if k < i {
                    if k < i - 1 {
                        lemma_utf8_len_increasing(s@, k, i as int - 1);
                    }
                } else if k > i {
                    lemma_utf8_len_increasing(s@, i as int, k);
                    assert(i == s@.len() || acc >= mid);
                    assert(i < s@.len());
                }
            }
        }
        None
    }
}

/// The characters `from..to` of `v` as a string.
fn slice_string(v: &Vec<char>, from: usize, to: usize) -> (s: String)
    requires
        from <= to <= v@.len(),
    ensures
        s@ == v@.subrange(from as int, to as int),
{
    let mut out: Vec<char> = Vec::new();
    let mut i: usize = from;
    while i < to
        invariant
            from <= i <= to <= v@.len(),
            out@ == v@.subrange(from as int, i as int),
        decreases to - i,
    {
        out.push(v[i]);
        assert(out@ =~= v@.subrange(from as int, i as int + 1));
        i += 1;
    }
    string_of(&out)
}

/// `v[from..to]` cut (see [`cut`]).
fn cut_string(v: &Vec<char>, from: usize, to: usize) -> (s: String)
    requires
        from <= to <= v@.len(),
    ensures
        s@ == cut(v@.subrange(from as int, to as int)),
{
    let n: usize = if to - from < CUT_CHARS { to - from } else { CUT_CHARS };
    let mut s = slice_string(v, from, from + n);
    push_str(&mut s, "...");
    assert(v@.subrange(from as int, to as int).take(n as int) =~= v@.subrange(from as int, (from + n) as int));
    s
}

/// The body text of a message (see [`message_body`]) as the one or two
/// messages it is sent as (see [`extracted`]); the second is empty when one
/// is enough. `embed_description` is the description of the message's first
/// embed, if it has an embed with one.
pub fn extract_content(embed_description: Option<String>, content: &str) -> (r: (String, String))
    ensures
        (r.0@, r.1@) == extracted(message_body(embed_description, content@)),
{
    let body = match embed_description {
        Some(d) if chars_of(d.as_str()).len() > 0 => d,
        _ => {
            if chars_of(content).len() > 0 {
                str_to_string(content)
            } else {
                str_to_string("<:mminfo:1279517292455264359> No message body.")
            }
        },
    };
    let ghost b = message_body(embed_description, content@);
    assert(body@ == b);
    let v = chars_of(body.as_str());
    if v.len() <= MESSAGE_CHARS {
        return (body, String::new());
    }
    match split_point(&v, MESSAGE_CHARS as u64) {
        Some(k) => {
            let first = cut_string(&v, 0, k);
            let second = if v.len() - k <= MESSAGE_CHARS {
                slice_string(&v, k, v.len())
            } else {
                cut_string(&v, k, v.len())
            };
            assert(v@.subrange(0, k as int) =~= v@.take(k as int));
            assert(v@.subrange(k as int, v@.len() as int) =~= v@.skip(k as int));
            (first, second)
        },
        None => {
            let first = cut_string(&v, 0, v.len());
            assert(v@.subrange(0, v@.len() as int) =~= v@);
            (first, String::new())
        },
    }
}

/// What a button press means while AutoMod reports are cycled through.
#[derive(Debug, Clone, Copy, PartialEq, Eq, Structural)]
pub enum ReportPress {
    /// Show the next report.
    Next,
    /// Stop cycling.
    Stop,
    /// A button of something else; keep waiting.
    Unrelated,
}

/// The identifiers of the two buttons shown with a report: the interaction's
/// identifier plus the report message's, followed by `next` or `stop`.
pub fn report_button_ids(interaction_id: u64, message_id: u64) -> (r: (String, String))
    requires
        interaction_id + message_id <= u64::MAX,
    ensures
        r.0@ == nat_decimal((interaction_id + message_id) as nat) + "next"@,
        r.1@ == nat_decimal((interaction_id + message_id) as nat) + "stop"@,
{
    let id = interaction_id + message_id;
    let mut next = String::new();
    push_u64(&mut next, id);
    push_str(&mut next, "next");
    let mut stop = String::new();
    push_u64(&mut stop, id);
    push_str(&mut stop, "stop");
    (next, stop)
}

/// What a press of the button `pressed` means (see [`ReportPress`]).
pub fn report_press(pressed: &str, next_id: &str, stop_id: &str) -> (p: ReportPress)
    ensures
        p == (if pressed@ == next_id@ {
            ReportPress::Next
        } else if pressed@ == stop_id@ {
            ReportPress::Stop
        } else {
            ReportPress::Unrelated
        }),
{
    let a = str_to_string(pressed);
    if a == str_to_string(next_id) {
        ReportPress::Next
    } else if a == str_to_string(stop_id) {
        ReportPress::Stop
    } else {
        ReportPress::Unrelated
    }
}

/// The note when no AutoMod report was found.
pub fn no_report_found() -> (s: String)
    ensures
        s@ == "<:mminfo:1279517292455264359> No message found."@,
{
    str_to_string("<:mminfo:1279517292455264359> No message found.")
}

} // verus!

verus! {

/// Each extracted message fits in a Discord message: at most 2000 characters.
pub proof fn lemma_extracted_fits(body: Seq<char>)
    ensures
        extracted(body).0.len() <= MESSAGE_CHARS,
        extracted(body).1.len() <= MESSAGE_CHARS,
{
    reveal_strlit("...");
    if body.len() > MESSAGE_CHARS {
        match split_at_bytes(body, MESSAGE_CHARS as nat) {
            Some((a, b)) => {
                assert(cut(a).len() <= CUT_CHARS + 3);
                assert(cut(b).len() <= CUT_CHARS + 3);
            },
            None => {
                assert(cut(body).len() <= CUT_CHARS + 3);
            },
        }
    }
}

} // verus!
