//! Assembling the user-visible reply from a fetched thread message.
//!
//! A backend message carries an ordered list of typed content segments. Only
//! the plain-text segments contribute to the reply; they are joined with a
//! single newline between neighbours.

use vstd::prelude::*;
use vstd::string::StringExecFns;

verus! {

/// One content segment of a thread message: a plain-text piece, or anything
/// else (an image and the like), which the reply ignores.
#[derive(Clone, Debug)]
pub enum Segment {
    Text(String),
    Other,
}

/// The views of a list of strings, in order.
pub open spec fn line_views(lines: Seq<String>) -> Seq<Seq<char>> {
    Seq::new(lines.len(), |i: int| lines[i]@)
}

/// The text pieces of a message's segments, in order; non-text segments are
/// dropped.
pub open spec fn text_views(parts: Seq<Segment>) -> Seq<Seq<char>>
    decreases parts.len(),
{
    if parts.len() == 0 {
        Seq::<Seq<char>>::empty()
    } else {
        let rest = text_views(parts.drop_last());
        match parts.last() {
            Segment::Text(t) => rest.push(t@),
            Segment::Other => rest,
        }
    }
}

/// Lines joined with a single newline between neighbours.
pub open spec fn joined_lines(lines: Seq<Seq<char>>) -> Seq<char>
    decreases lines.len(),
{
    if lines.len() == 0 {
        Seq::<char>::empty()
    } else if lines.len() == 1 {
        lines[0]
    } else {
        joined_lines(lines.drop_last()) + seq!['\n'] + lines.last()
    }
}

/// The reply shown for a fetched message: its text segments joined by
/// newlines.
pub open spec fn reply_view(parts: Seq<Segment>) -> Seq<char> {
    joined_lines(text_views(parts))
}

/// Keeps the text segments of a message, in order, dropping the rest.
pub fn collect_texts(parts: &Vec<Segment>) -> (r: Vec<String>)
    ensures
        line_views(r@) == text_views(parts@),
{
    let mut r: Vec<String> = Vec::new();
    for i in 0..parts.len()
        invariant
            line_views(r@) =~= text_views(parts@.take(i as int)),
    {
        match &parts[i] {
            Segment::Text(t) => r.push(t.clone()),
            Segment::Other => (),
        }
        proof {
            assert(parts@.take(i + 1).drop_last() =~= parts@.take(i as int));
            assert(line_views(r@) =~= text_views(parts@.take(i + 1)));
        }
    }
    proof {
        assert(parts@.take(parts@.len() as int) =~= parts@);
    }
    r
}

/// Joins lines with a single newline between neighbours.
pub fn join_lines(lines: &Vec<String>) -> (r: String)
    ensures
        r@ == joined_lines(line_views(lines@)),
{
    let mut r = String::new();
    for i in 0..lines.len()
        invariant
            r@ =~= joined_lines(line_views(lines@).take(i as int)),
    {
        if i > 0 {
            r.append("\n");
            proof {
                reveal_strlit("\n");
                assert("\n"@ =~= seq!['\n']);
            }
        }
        r.append(lines[i].as_str());
        proof {
            let lv = line_views(lines@);
            assert(lv.take(i + 1).drop_last() =~= lv.take(i as int));
            assert(r@ =~= joined_lines(lv.take(i + 1)));
        }
    }
    proof {
        assert(line_views(lines@).take(lines@.len() as int) =~= line_views(lines@));
    }
    r
}

/// The reply for a fetched message: its text segments joined by newlines.
pub fn reply_text(parts: &Vec<Segment>) -> (r: String)
    ensures
        r@ == reply_view(parts@),
{
    let texts = collect_texts(parts);
    join_lines(&texts)
}

} // verus!
