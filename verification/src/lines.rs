//! Splitting the child's stderr into log lines.
use vstd::prelude::*;

verus! {

/// The line feed.
pub const NEWLINE: u8 = 10;

/// What follows the last line feed of a byte stream: its unfinished line.
pub open spec fn rest(s: Seq<u8>) -> Seq<u8>
    decreases s.len(),
{
    if s.len() == 0 || s.last() == NEWLINE {
        seq![]
    } else {
        rest(s.drop_last()).push(s.last())
    }
}

/// The finished lines of a byte stream, each with its line feed.
pub open spec fn lines(s: Seq<u8>) -> Seq<Seq<u8>>
    decreases s.len(),
{
    if s.len() == 0 {
        seq![]
    } else if s.last() == NEWLINE {
        lines(s.drop_last()).push(rest(s.drop_last()).push(NEWLINE))
    } else {
        lines(s.drop_last())
    }
}

/// The text that is logged for a finished line.
pub open spec fn line_text(line: Seq<u8>) -> Seq<char> {
    crate::text::trimmed(crate::text::utf8_lossy(line))
}

/// A line that is valid UTF-8 is logged as the characters that it encodes,
/// without its line end.
pub open spec fn plain_text(line: Seq<u8>, text: Seq<char>) -> bool {
    vstd::utf8::valid_utf8(line) ==> text == crate::text::trimmed(vstd::utf8::decode_utf8(line))
}

/// The same of several lines.
pub open spec fn plain_texts(v: Seq<Seq<u8>>, texts: Seq<Seq<char>>) -> bool {
    &&& v.len() == texts.len()
    &&& forall|i: int| 0 <= i < v.len() ==> plain_text(#[trigger] v[i], texts[i])
}

/// The texts that are logged for finished lines.
pub open spec fn texts(v: Seq<Seq<u8>>) -> Seq<Seq<char>> {
    v.map_values(|line: Seq<u8>| line_text(line))
}

/// The bytes of each vector, in order.
pub open spec fn contents(v: Seq<Vec<u8>>) -> Seq<Seq<u8>> {
    Seq::new(v.len(), |i: int| v[i]@)
}

/// Adds `chunk` to the unfinished line in `pending` and takes the finished
/// lines out, each with its line feed.
pub fn split_lines(pending: &mut Vec<u8>, chunk: &[u8]) -> (r: Vec<Vec<u8>>)
    ensures
        contents(r@) == lines(old(pending)@ + chunk@),
        final(pending)@ == rest(old(pending)@ + chunk@),
{
    let mut r: Vec<Vec<u8>> = Vec::new();
    let mut line: Vec<u8> = Vec::new();
    pending.extend_from_slice(chunk);
    let ghost all = pending@;
    assert(all =~= old(pending)@ + chunk@);
    let mut i: usize = 0;
    assert(all.take(0) =~= seq![]);
    while i < pending.len()
        invariant
            i <= pending.len(),
            pending@ == all,
            contents(r@) == lines(all.take(i as int)),
            line@ == rest(all.take(i as int)),
        decreases pending.len() - i,
    {
        let b: u8 = pending[i];
        let ghost before = contents(r@);
        assert(all.take(i + 1).drop_last() =~= all.take(i as int));
        line.push(b);
        if b == NEWLINE {
            let ghost finished = line@;
            r.push(line);
            line = Vec::new();
            assert(contents(r@) =~= before.push(finished));
        }
        i += 1;
    }
    assert(all.take(all.len() as int) =~= all);
    *pending = line;
    r
}

/// The text to log for a finished line.
fn decode_line(line: &Vec<u8>) -> (r: String)
    ensures
        r@ == line_text(line@),
        plain_text(line@, r@),
{
    crate::text::trim_line_end(crate::text::from_utf8_lossy(line.as_slice()).as_str())
}

/// Adds `chunk` to the unfinished line in `pending` and gives the texts to log
/// for the lines that it finishes.
pub fn emit_lines(pending: &mut Vec<u8>, chunk: &[u8]) -> (r: Vec<String>)
    ensures
        crate::text::strings(r@) == texts(lines(old(pending)@ + chunk@)),
        plain_texts(lines(old(pending)@ + chunk@), crate::text::strings(r@)),
        final(pending)@ == rest(old(pending)@ + chunk@),
{
    let found = split_lines(pending, chunk);
    let ghost wanted = contents(found@);
    let mut r: Vec<String> = Vec::new();
    let mut i: usize = 0;
    assert(crate::text::strings(r@) =~= texts(wanted.take(0)));
    while i < found.len()
        invariant
            i <= found.len(),
            wanted == contents(found@),
            crate::text::strings(r@) == texts(wanted.take(i as int)),
            plain_texts(wanted.take(i as int), crate::text::strings(r@)),
        decreases found.len() - i,
    {
        let ghost before = crate::text::strings(r@);
        let text = decode_line(&found[i]);
        r.push(text);
        assert(crate::text::strings(r@) =~= before.push(line_text(wanted[i as int])));
        assert(texts(wanted.take(i + 1)) =~= texts(wanted.take(i as int)).push(
            line_text(wanted[i as int]),
        ));
        i += 1;
    }
    assert(wanted.take(wanted.len() as int) =~= wanted);
    r
}

/// All chunks of a stream, one after the other.
pub open spec fn concat(chunks: Seq<Seq<u8>>) -> Seq<u8>
    decreases chunks.len(),
{
    if chunks.len() == 0 {
        seq![]
    } else {
        concat(chunks.drop_last()) + chunks.last()
    }
}

/// No byte is lost, added or moved: the lines and what is left of the last one
/// are the stream.
pub proof fn law_lines_and_rest_are_the_stream(s: Seq<u8>)
    ensures
        concat(lines(s)) + rest(s) == s,
    decreases s.len(),
{
    if s.len() > 0 {
        let t = s.drop_last();
        law_lines_and_rest_are_the_stream(t);
        assert(s =~= t.push(s.last()));
        if s.last() == NEWLINE {
            let line = rest(t).push(NEWLINE);
            assert(lines(s).drop_last() =~= lines(t));
            assert(concat(lines(s)) =~= concat(lines(t)) + line);
            assert(concat(lines(s)) + rest(s) =~= (concat(lines(t)) + rest(t)).push(NEWLINE));
        } else {
            assert(concat(lines(s)) + rest(s) =~= (concat(lines(t)) + rest(t)).push(s.last()));
        }
    } else {
        assert(concat(lines(s)) + rest(s) =~= s);
    }
}

/// A finished line ends in its only line feed, and an unfinished line has none.
pub proof fn law_lines_end_in_their_only_newline(s: Seq<u8>)
    ensures
        !rest(s).contains(NEWLINE),
        forall|i: int|
            0 <= i < lines(s).len() ==> (#[trigger] lines(s)[i]).len() > 0 && lines(s)[i].last()
                == NEWLINE && !lines(s)[i].drop_last().contains(NEWLINE),
    decreases s.len(),
{
    if s.len() > 0 {
        let t = s.drop_last();
        law_lines_end_in_their_only_newline(t);
        if s.last() == NEWLINE {
            assert(rest(t).push(NEWLINE).drop_last() =~= rest(t));
            assert forall|i: int| 0 <= i < lines(s).len() implies (#[trigger] lines(s)[i]).len() > 0
                && lines(s)[i].last() == NEWLINE && !lines(s)[i].drop_last().contains(NEWLINE) by {
                if i < lines(t).len() {
                    assert(lines(s)[i] == lines(t)[i]);
                } else {
                    assert(lines(s)[i] == rest(t).push(NEWLINE));
                }
            }
        } else {
            assert forall|i: int| 0 <= i < rest(s).len() implies rest(s)[i] != NEWLINE by {
                if i < rest(t).len() {
                    assert(rest(t).contains(rest(t)[i]));
                }
            }
        }
    }
}

/// How a stream is cut into chunks makes no difference: reading `a`, keeping
/// its unfinished line and then reading `b` gives what reading both at once
/// gives.
pub proof fn law_chunks_do_not_matter(a: Seq<u8>, b: Seq<u8>)
    ensures
        lines(a + b) == lines(a) + lines(rest(a) + b),
        rest(a + b) == rest(rest(a) + b),
    decreases b.len(),
{
    if b.len() == 0 {
        assert(a + b =~= a);
        assert(rest(a) + b =~= rest(a));
        lemma_unfinished(a);
        assert(lines(a) + lines(rest(a)) =~= lines(a));
    } else {
        law_chunks_do_not_matter(a, b.drop_last());
        assert((a + b).drop_last() =~= a + b.drop_last());
        assert((rest(a) + b).drop_last() =~= rest(a) + b.drop_last());
        assert(lines(a + b) =~= lines(a) + lines(rest(a) + b));
    }
}

/// An unfinished line is its own unfinished line.
proof fn lemma_unfinished(s: Seq<u8>)
    ensures
        rest(rest(s)) == rest(s),
        lines(rest(s)) == Seq::<Seq<u8>>::empty(),
    decreases s.len(),
{
    if s.len() > 0 && s.last() != NEWLINE {
        lemma_unfinished(s.drop_last());
        assert(rest(s).drop_last() =~= rest(s.drop_last()));
    }
}

/// The text of a line is what its bytes decode to without the line ends at its
/// end, and nothing is cut but those.
pub proof fn law_text_is_the_line(line: Seq<u8>)
    ensures
        crate::text::cut(crate::text::utf8_lossy(line), line_text(line)),
{
    crate::text::law_only_line_ends_are_trimmed(crate::text::utf8_lossy(line));
}

/// There is one text for each line, in the order of the lines.
pub proof fn law_every_line_has_its_text(v: Seq<Seq<u8>>)
    ensures
        texts(v).len() == v.len(),
        forall|i: int|
            0 <= i < v.len() ==> crate::text::cut(
                crate::text::utf8_lossy(#[trigger] v[i]),
                texts(v)[i],
            ),
{
    assert forall|i: int| 0 <= i < v.len() implies crate::text::cut(
        crate::text::utf8_lossy(#[trigger] v[i]),
        texts(v)[i],
    ) by {
        law_text_is_the_line(v[i]);
    }
}

/// Valid UTF-8 is logged as the characters that it encodes, without the line
/// ends at its end.
pub proof fn law_plain_lines_are_logged_as_they_are(v: Seq<Seq<u8>>, logged: Seq<Seq<char>>)
    requires
        plain_texts(v, logged),
    ensures
        logged.len() == v.len(),
        forall|i: int|
            0 <= i < v.len() && vstd::utf8::valid_utf8(#[trigger] v[i]) ==> crate::text::cut(
                vstd::utf8::decode_utf8(v[i]),
                logged[i],
            ),
{
    assert forall|i: int|
        0 <= i < v.len() && vstd::utf8::valid_utf8(#[trigger] v[i]) implies crate::text::cut(
        vstd::utf8::decode_utf8(v[i]),
        logged[i],
    ) by {
        assert(plain_text(v[i], logged[i]));
        crate::text::law_only_line_ends_are_trimmed(vstd::utf8::decode_utf8(v[i]));
    }
}

/// Vectors of bytes stand for their own bytes, one for one.
pub proof fn law_contents_are_kept(v: Seq<Vec<u8>>)
    ensures
        contents(v).len() == v.len(),
        forall|i: int| 0 <= i < v.len() ==> #[trigger] contents(v)[i] == v[i]@,
{
}

} // verus!
