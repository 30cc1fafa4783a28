//! The positional patch of a generated package manifest.
//!
//! A manifest is text, taken here as bytes. Its lines are what lies between
//! line feeds. The patch drops the line at a fixed index, which in a freshly
//! generated manifest is the placeholder of the scripts section, and puts the
//! given script lines in its place. Nothing of the manifest is parsed: where
//! the placeholder stands elsewhere, the patch silently damages the file.

use vstd::prelude::*;
use vstd::string::*;
use vstd::utf8::{char_is_scalar, char_u32_cast, encode_scalar, encode_utf8};

verus! {

/// The byte that ends a line.
pub const NEWLINE: u8 = 10;

/// Index of the line that the patch replaces: the seventh line.
pub const PLACEHOLDER_LINE: usize = 6;

/// The lines of a text: the runs of bytes between its line feeds. A text of
/// `n` line feeds has `n + 1` lines, so even the empty text has one.
pub open spec fn lines_of(text: Seq<u8>) -> Seq<Seq<u8>>
    decreases text.len(),
{
    if text.len() == 0 {
        seq![Seq::<u8>::empty()]
    } else {
        let before = lines_of(text.drop_last());
        if text.last() == NEWLINE {
            before.push(Seq::<u8>::empty())
        } else {
            before.update(before.len() - 1, before.last().push(text.last()))
        }
    }
}

/// The text made of the given lines, with one line feed between neighbours.
pub open spec fn text_of(lines: Seq<Seq<u8>>) -> Seq<u8>
    decreases lines.len(),
{
    if lines.len() == 0 {
        Seq::<u8>::empty()
    } else if lines.len() == 1 {
        lines[0]
    } else {
        text_of(lines.drop_last()) + seq![NEWLINE] + lines.last()
    }
}

/// The lines after the patch: those before the placeholder, then the
/// scripts in the order given, then those behind the placeholder.
pub open spec fn spliced(lines: Seq<Seq<u8>>, scripts: Seq<Seq<u8>>) -> Seq<Seq<u8>>
    recommends
        lines.len() > PLACEHOLDER_LINE,
{
    lines.subrange(0, PLACEHOLDER_LINE as int) + scripts + lines.subrange(
        PLACEHOLDER_LINE + 1,
        lines.len() as int,
    )
}

/// The manifest after the patch.
pub open spec fn patched_text(text: Seq<u8>, scripts: Seq<Seq<u8>>) -> Seq<u8>
    recommends
        lines_of(text).len() > PLACEHOLDER_LINE,
{
    text_of(spliced(lines_of(text), scripts))
}

/// The script lines as they are written to the manifest: each in UTF-8.
pub open spec fn script_lines(scripts: Seq<String>) -> Seq<Seq<u8>> {
    Seq::new(scripts.len(), |i: int| encode_utf8(scripts[i]@))
}

/// Whether a line is free of line feeds.
pub open spec fn is_single_line(line: Seq<u8>) -> bool {
    forall|i: int| 0 <= i < line.len() ==> line[i] != NEWLINE
}

/// Whether each of the lines is free of line feeds.
pub open spec fn all_single_lines(lines: Seq<Seq<u8>>) -> bool {
    forall|i: int| 0 <= i < lines.len() ==> is_single_line(#[trigger] lines[i])
}

/// What a vector of lines holds: each line as a sequence of bytes.
pub open spec fn line_views(lines: Seq<Vec<u8>>) -> Seq<Seq<u8>> {
    Seq::new(lines.len(), |i: int| lines[i]@)
}

proof fn lemma_line_views_push(lines: Seq<Vec<u8>>, line: Vec<u8>)
    ensures
        line_views(lines.push(line)) == line_views(lines).push(line@),
{
    assert(line_views(lines.push(line)) =~= line_views(lines).push(line@));
}

/// Every text has at least one line, and no line holds a line feed.
pub proof fn lemma_lines_are_single(text: Seq<u8>)
    ensures
        lines_of(text).len() >= 1,
        all_single_lines(lines_of(text)),
    decreases text.len(),
{
    if text.len() > 0 {
        lemma_lines_are_single(text.drop_last());
        let before = lines_of(text.drop_last());
        let after = lines_of(text);
        assert forall|i: int| 0 <= i < after.len() implies is_single_line(#[trigger] after[i]) by {
            if i < before.len() - 1 {
                assert(after[i] == before[i]);
            } else if text.last() == NEWLINE && i == before.len() - 1 {
                assert(after[i] == before[i]);
            } else if text.last() != NEWLINE {
                assert(is_single_line(before[i]));
                assert(after[i] == before[i].push(text.last()));
            }
        }
    } else {
        assert(is_single_line(lines_of(text)[0]));
    }
}

/// A text without line feeds is one line.
proof fn lemma_lines_of_single_line(line: Seq<u8>)
    requires
        is_single_line(line),
    ensures
        lines_of(line) == seq![line],
    decreases line.len(),
{
    if line.len() > 0 {
        lemma_lines_of_single_line(line.drop_last());
        assert(lines_of(line) =~= seq![line.drop_last().push(line.last())]);
        assert(line.drop_last().push(line.last()) =~= line);
    } else {
        assert(line =~= Seq::<u8>::empty());
    }
}

/// A line feed and a line behind a text add that line to its lines.
proof fn lemma_lines_of_with_line(text: Seq<u8>, line: Seq<u8>)
    requires
        is_single_line(line),
    ensures
        lines_of(text + seq![NEWLINE] + line) == lines_of(text).push(line),
    decreases line.len(),
{
    let whole = text + seq![NEWLINE] + line;
    if line.len() == 0 {
        assert(whole.drop_last() =~= text);
        assert(line =~= Seq::<u8>::empty());
    } else {
        let shorter = line.drop_last();
        lemma_lines_of_with_line(text, shorter);
        assert(whole.drop_last() =~= text + seq![NEWLINE] + shorter);
        assert(whole.last() == line.last());
        assert(shorter.push(line.last()) =~= line);
        assert(lines_of(whole) =~= lines_of(text).push(line));
    }
}

/// Joining lines and splitting the text again gives the same lines, where
/// there is at least one line and none holds a line feed.
pub proof fn law_split_undoes_join(lines: Seq<Seq<u8>>)
    requires
        lines.len() >= 1,
        all_single_lines(lines),
    ensures
        lines_of(text_of(lines)) == lines,
    decreases lines.len(),
{
    if lines.len() == 1 {
        lemma_lines_of_single_line(lines[0]);
        assert(seq![lines[0]] =~= lines);
    } else {
        let front = lines.drop_last();
        assert forall|i: int| 0 <= i < front.len() implies is_single_line(#[trigger] front[i]) by {
            assert(front[i] == lines[i]);
        }
        law_split_undoes_join(front);
        lemma_lines_of_with_line(text_of(front), lines.last());
        assert(front.push(lines.last()) =~= lines);
    }
}

/// Splitting a text and joining its lines gives the same text.
pub proof fn law_join_undoes_split(text: Seq<u8>)
    ensures
        text_of(lines_of(text)) == text,
    decreases text.len(),
{
    if text.len() > 0 {
        let shorter = text.drop_last();
        law_join_undoes_split(shorter);
        lemma_lines_are_single(shorter);
        let before = lines_of(shorter);
        let after = lines_of(text);
        if text.last() == NEWLINE {
            assert(after.drop_last() =~= before);
            assert(text_of(after) =~= shorter + seq![NEWLINE]);
        } else if before.len() == 1 {
            assert(text_of(after) =~= shorter.push(text.last()));
        } else {
            assert(after.drop_last() =~= before.drop_last());
            assert(text_of(after) =~= text_of(before.drop_last()) + seq![NEWLINE]
                + before.last().push(text.last()));
            assert(text_of(after) =~= text_of(before).push(text.last()));
        }
        assert(shorter.push(text.last()) =~= text);
    } else {
        assert(text =~= Seq::<u8>::empty());
    }
}

/// No byte of the encoding of a scalar other than the line feed is a line feed.
proof fn lemma_scalar_bytes(c: u32)
    by (bit_vector)
    requires
        c != 10,
    ensures
        c <= 0x7F ==> (c & 0x7F) as u8 != 10u8,
        (0xC0u8 | ((c >> 6) & 0x1F) as u8) != 10u8,
        (0xE0u8 | ((c >> 12) & 0x0F) as u8) != 10u8,
        (0xF0u8 | ((c >> 18) & 0x7) as u8) != 10u8,
        (0x80u8 | (c & 0x3F) as u8) != 10u8,
        (0x80u8 | ((c >> 6) & 0x3F) as u8) != 10u8,
        (0x80u8 | ((c >> 12) & 0x3F) as u8) != 10u8,
{
}

/// A text without the line feed character is, in UTF-8, free of line feeds.
pub proof fn lemma_encoding_is_single_line(text: Seq<char>)
    requires
        forall|i: int| 0 <= i < text.len() ==> text[i] != '\n',
    ensures
        is_single_line(encode_utf8(text)),
    decreases text.len(),
{
    if text.len() > 0 {
        let first = encode_scalar(text[0] as u32);
        let rest = text.drop_first();
        assert forall|i: int| 0 <= i < rest.len() implies rest[i] != '\n' by {
            assert(rest[i] == text[i + 1]);
        }
        lemma_encoding_is_single_line(rest);
        let scalar = text[0] as u32;
        char_is_scalar(text[0]);
        if scalar == 10 {
            char_u32_cast(text[0], scalar);
            char_u32_cast('\n', 10u32);
        }
        lemma_scalar_bytes(scalar);
        assert(is_single_line(first));
        assert forall|i: int| 0 <= i < encode_utf8(text).len() implies encode_utf8(text)[i]
            != NEWLINE by {
            if i < first.len() {
                assert(encode_utf8(text)[i] == first[i]);
            } else {
                assert(encode_utf8(text)[i] == encode_utf8(rest)[i - first.len()]);
            }
        }
    }
}

/// Script texts without the line feed character are written as single lines.
pub proof fn lemma_scripts_are_single_lines(scripts: Seq<String>)
    requires
        forall|k: int, i: int|
            0 <= k < scripts.len() && 0 <= i < scripts[k]@.len() ==> scripts[k]@[i] != '\n',
    ensures
        all_single_lines(script_lines(scripts)),
{
    assert forall|k: int| 0 <= k < script_lines(scripts).len() implies is_single_line(
        #[trigger] script_lines(scripts)[k],
    ) by {
        lemma_encoding_is_single_line(scripts[k]@);
    }
}

/// The patch keeps order. Read line by line, the patched manifest holds the
/// six lines before the placeholder as they were, then the script lines in
/// the order given, then each line behind the placeholder as it was. This is
/// said of script lines that hold no line feed: one that does is read back
/// as several lines.
pub proof fn law_patch_keeps_order(text: Seq<u8>, scripts: Seq<Seq<u8>>)
    requires
        lines_of(text).len() > PLACEHOLDER_LINE,
        all_single_lines(scripts),
    ensures
        lines_of(patched_text(text, scripts)) == spliced(lines_of(text), scripts),
        lines_of(patched_text(text, scripts)).len() == lines_of(text).len() - 1 + scripts.len(),
        forall|i: int|
            0 <= i < PLACEHOLDER_LINE ==> lines_of(patched_text(text, scripts))[i] == lines_of(
                text,
            )[i],
        forall|k: int|
            0 <= k < scripts.len() ==> lines_of(patched_text(text, scripts))[PLACEHOLDER_LINE
                + k] == scripts[k],
        forall|i: int|
            PLACEHOLDER_LINE < i < lines_of(text).len() ==> lines_of(
                patched_text(text, scripts),
            )[i - 1 + scripts.len()] == lines_of(text)[i],
{
    let before = lines_of(text);
    let after = spliced(before, scripts);
    lemma_lines_are_single(text);
    assert forall|i: int| 0 <= i < after.len() implies is_single_line(#[trigger] after[i]) by {
        if i < PLACEHOLDER_LINE {
            assert(after[i] == before[i]);
        } else if i < PLACEHOLDER_LINE + scripts.len() {
            assert(after[i] == scripts[i - PLACEHOLDER_LINE]);
        } else {
            assert(after[i] == before[i - scripts.len() + 1]);
        }
    }
    law_split_undoes_join(after);
}

/// The patch is not idempotent. A second patch with the same scripts takes
/// the first script line of the first patch for the placeholder: the
/// manifest then holds the script lines, then all but the first of them once
/// more, then what stood behind the placeholder. Unless there is exactly one
/// script line, the manifest has changed again.
pub proof fn law_second_patch_duplicates(text: Seq<u8>, scripts: Seq<Seq<u8>>)
    requires
        lines_of(text).len() > PLACEHOLDER_LINE,
        all_single_lines(scripts),
        lines_of(text).len() + scripts.len() > PLACEHOLDER_LINE + 1,
    ensures
        lines_of(patched_text(text, scripts)).len() > PLACEHOLDER_LINE,
        lines_of(patched_text(patched_text(text, scripts), scripts)) == lines_of(text).subrange(
            0,
            PLACEHOLDER_LINE as int,
        ) + scripts + (scripts + lines_of(text).subrange(
            PLACEHOLDER_LINE + 1,
            lines_of(text).len() as int,
        )).drop_first(),
        scripts.len() != 1 ==> patched_text(patched_text(text, scripts), scripts) != patched_text(
            text,
            scripts,
        ),
{
    let once = patched_text(text, scripts);
    let twice = patched_text(once, scripts);
    law_patch_keeps_order(text, scripts);
    law_patch_keeps_order(once, scripts);
    let tail = lines_of(text).subrange(PLACEHOLDER_LINE + 1, lines_of(text).len() as int);
    assert(lines_of(twice) =~= lines_of(text).subrange(0, PLACEHOLDER_LINE as int) + scripts + (
    scripts + tail).drop_first());
    if scripts.len() != 1 {
        assert(lines_of(twice).len() != lines_of(once).len());
    }
}

/// Splits a text into its lines.
pub fn split_lines(text: &[u8]) -> (lines: Vec<Vec<u8>>)
    ensures
        line_views(lines@) == lines_of(text@),
{
    let mut lines: Vec<Vec<u8>> = Vec::new();
    let mut current: Vec<u8> = Vec::new();
    let mut i: usize = 0;
    assert(text@.subrange(0, 0) =~= Seq::<u8>::empty());
    assert(line_views(lines@).push(current@) =~= seq![Seq::<u8>::empty()]);
    while i < text.len()
        invariant
            i <= text.len(),
            line_views(lines@).push(current@) == lines_of(text@.subrange(0, i as int)),
        decreases text.len() - i,
    {
        let byte = text[i];
        proof {
            let now = text@.subrange(0, i + 1);
            assert(now.drop_last() =~= text@.subrange(0, i as int));
            assert(now.last() == byte);
        }
        if byte == NEWLINE {
            proof {
                lemma_line_views_push(lines@, current);
            }
            lines.push(current);
            current = Vec::new();
        } else {
            current.push(byte);
            assert(line_views(lines@).push(current@) =~= lines_of(text@.subrange(0, i + 1)));
        }
        i = i + 1;
    }
    assert(text@.subrange(0, i as int) =~= text@);
    proof {
        lemma_line_views_push(lines@, current);
    }
    lines.push(current);
    lines
}

/// Appends the bytes of `more` to `text`.
fn append_bytes(text: &mut Vec<u8>, more: &Vec<u8>)
    ensures
        final(text)@ == old(text)@ + more@,
{
    let mut j: usize = 0;
    while j < more.len()
        invariant
            j <= more.len(),
            text@ == old(text)@ + more@.subrange(0, j as int),
        decreases more.len() - j,
    {
        text.push(more[j]);
        assert(text@ =~= old(text)@ + more@.subrange(0, j + 1));
        j = j + 1;
    }
    assert(more@.subrange(0, j as int) =~= more@);
}

/// Joins lines into one text, with one line feed between neighbours.
pub fn join_lines(lines: &Vec<Vec<u8>>) -> (text: Vec<u8>)
    ensures
        text@ == text_of(line_views(lines@)),
{
    let mut text: Vec<u8> = Vec::new();
    let mut k: usize = 0;
    assert(line_views(lines@).subrange(0, 0) =~= Seq::<Seq<u8>>::empty());
    while k < lines.len()
        invariant
            k <= lines.len(),
            text@ == text_of(line_views(lines@).subrange(0, k as int)),
        decreases lines.len() - k,
    {
        proof {
            let now = line_views(lines@).subrange(0, k + 1);
            assert(now.drop_last() =~= line_views(lines@).subrange(0, k as int));
            assert(now.last() == lines@[k as int]@);
        }
        if k > 0 {
            text.push(NEWLINE);
        }
        append_bytes(&mut text, &lines[k]);
        assert(text@ =~= text_of(line_views(lines@).subrange(0, k + 1)));
        k = k + 1;
    }
    assert(line_views(lines@).subrange(0, k as int) =~= line_views(lines@));
    text
}

/// Replaces the placeholder line by the script lines, in the order given.
pub fn splice_scripts(lines: &mut Vec<Vec<u8>>, scripts: &Vec<String>)
    requires
        old(lines).len() > PLACEHOLDER_LINE,
    ensures
        line_views(final(lines)@) == spliced(line_views(old(lines)@), script_lines(scripts@)),
{
    lines.remove(PLACEHOLDER_LINE);
    let mut at: usize = PLACEHOLDER_LINE;
    let mut k: usize = 0;
    assert(line_views(lines@) =~= spliced(
        line_views(old(lines)@),
        script_lines(scripts@).subrange(0, 0),
    ));
    while k < scripts.len()
        invariant
            k <= scripts.len(),
            at == PLACEHOLDER_LINE + k,
            old(lines).len() > PLACEHOLDER_LINE,
            lines.len() == old(lines).len() - 1 + k,
            line_views(lines@) == spliced(
                line_views(old(lines)@),
                script_lines(scripts@).subrange(0, k as int),
            ),
        decreases scripts.len() - k,
    {
        let line = scripts[k].as_str().as_bytes_vec();
        let ghost before = line_views(lines@);
        lines.insert(at, line);
        assert(line_views(lines@) =~= before.insert(at as int, line@));
        assert(line_views(lines@) =~= spliced(
            line_views(old(lines)@),
            script_lines(scripts@).subrange(0, k + 1),
        ));
        assert(at < lines.len());
        at = at + 1;
        k = k + 1;
    }
    assert(script_lines(scripts@).subrange(0, k as int) =~= script_lines(scripts@));
}

/// Patches a manifest: the seventh line is dropped and the script lines
/// stand in its place, in the order given; every other line is kept as it
/// is. A manifest of fewer than seven lines has no placeholder line and is
/// not patched.
pub fn patch_manifest(content: &[u8], scripts: &Vec<String>) -> (patched: Option<Vec<u8>>)
    ensures
        patched is Some <==> lines_of(content@).len() > PLACEHOLDER_LINE,
        patched matches Some(text) ==> text@ == patched_text(content@, script_lines(scripts@)),
{
    let mut lines = split_lines(content);
    if lines.len() <= PLACEHOLDER_LINE {
        return None;
    }
    splice_scripts(&mut lines, scripts);
    Some(join_lines(&lines))
}

} // verus!
