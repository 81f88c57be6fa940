//! The text of an outline.
//!
//! An outline is written as a header line that names the document, followed
//! by one line for each entry, in the order of the entries. The functions of
//! this module say what that text is, as a sequence of characters;
//! [`format_outline`] builds it, and the lemmas state what holds of it.

use crate::document::{path_view, Outline};
use vstd::prelude::*;
use vstd::seq_lib::lemma_flatten_concat;
use vstd::string::*;

verus! {

/// The name under which a document is announced: its path, or `untitled`
/// where it has none.
pub open spec fn display_path(path: Option<Seq<char>>) -> Seq<char> {
    match path {
        Some(path) => path,
        None => "untitled"@,
    }
}

/// The first line of the text: `Symbols for <path>:` and a line feed.
pub open spec fn header_line(path: Option<Seq<char>>) -> Seq<char> {
    "Symbols for "@ + display_path(path) + ":\n"@
}

/// The line of one entry: `- <entry>` and a line feed.
pub open spec fn entry_line(entry: Seq<char>) -> Seq<char> {
    "- "@ + entry + "\n"@
}

/// The lines of the entries, one after the other in the order of the entries.
pub open spec fn entry_lines(entries: Seq<Seq<char>>) -> Seq<char> {
    entries.map_values(|entry: Seq<char>| entry_line(entry)).flatten()
}

/// The whole text: the header line, then the line of every entry.
pub open spec fn outline_text(path: Option<Seq<char>>, entries: Seq<Seq<char>>) -> Seq<char> {
    header_line(path) + entry_lines(entries)
}

/// The number of characters that the lines of the entries take: for each
/// entry its own length and three more, for the dash, the space and the line
/// feed.
pub open spec fn entry_lines_len(entries: Seq<Seq<char>>) -> nat
    decreases entries.len(),
{
    if entries.len() == 0 {
        0
    } else {
        entry_lines_len(entries.drop_last()) + entries.last().len() + 3
    }
}

/// Writes the outline of the document shown under `path`: the header line
/// with the path, or with `untitled` where there is none, then one line for
/// each entry of `outline`. No entry is left out, moved or merged with
/// another.
pub fn format_outline(path: Option<&String>, outline: &Outline) -> (text: String)
    ensures
        text@ == outline_text(path_view(path), outline@),
{
    let mut text = String::from_str("Symbols for ");
    match path {
        Some(path) => text.append(path.as_str()),
        None => text.append("untitled"),
    }
    text.append(":\n");
    proof {
        assert(outline@.take(0) =~= Seq::<Seq<char>>::empty());
        lemma_outline_text_no_entries(path_view(path));
    }
    let mut i: usize = 0;
    while i < outline.path_candidates.len()
        invariant
            i <= outline.path_candidates.len(),
            text@ == outline_text(path_view(path), outline@.take(i as int)),
        decreases outline.path_candidates.len() - i,
    {
        let item = &outline.path_candidates[i];
        text.append("- ");
        text.append(item.string.as_str());
        text.append("\n");
        proof {
            assert(outline@.take(i + 1) =~= outline@.take(i as int).push(item@));
            lemma_outline_text_push(path_view(path), outline@.take(i as int), item@);
        }
        i += 1;
    }
    assert(outline@.take(i as int) =~= outline@);
    text
}

/// No entries, no lines.
pub proof fn lemma_entry_lines_empty()
    ensures
        entry_lines(Seq::empty()) == Seq::<char>::empty(),
{
    assert(Seq::<Seq<char>>::empty().map_values(|entry: Seq<char>| entry_line(entry))
        =~= Seq::<Seq<char>>::empty());
}

/// One more entry at the end adds its line at the end.
pub proof fn lemma_entry_lines_push(entries: Seq<Seq<char>>, entry: Seq<char>)
    ensures
        entry_lines(entries.push(entry)) == entry_lines(entries) + entry_line(entry),
{
    let line = |entry: Seq<char>| entry_line(entry);
    assert(entries.push(entry).map_values(line) =~= entries.map_values(line).push(
        entry_line(entry),
    ));
    entries.map_values(line).lemma_flatten_push(entry_line(entry));
}

/// The lines of two runs of entries, one after the other, are the lines of
/// the first run followed by the lines of the second.
pub proof fn lemma_entry_lines_concat(first: Seq<Seq<char>>, second: Seq<Seq<char>>)
    ensures
        entry_lines(first + second) == entry_lines(first) + entry_lines(second),
{
    let line = |entry: Seq<char>| entry_line(entry);
    assert((first + second).map_values(line) =~= first.map_values(line) + second.map_values(line));
    lemma_flatten_concat(first.map_values(line), second.map_values(line));
}

/// An outline without entries is written as the header line alone.
pub proof fn lemma_outline_text_no_entries(path: Option<Seq<char>>)
    ensures
        outline_text(path, Seq::empty()) == header_line(path),
{
    lemma_entry_lines_empty();
    assert(outline_text(path, Seq::empty()) =~= header_line(path));
}

/// One more entry at the end adds its line at the end of the text and changes
/// nothing before it.
pub proof fn lemma_outline_text_push(
    path: Option<Seq<char>>,
    entries: Seq<Seq<char>>,
    entry: Seq<char>,
)
    ensures
        outline_text(path, entries.push(entry)) == outline_text(path, entries) + entry_line(entry),
{
    lemma_entry_lines_push(entries, entry);
    assert(outline_text(path, entries.push(entry)) =~= outline_text(path, entries) + entry_line(
        entry,
    ));
}

/// The header line of a document without a path is
/// `Symbols for untitled:` and a line feed.
pub proof fn lemma_header_line_untitled()
    ensures
        header_line(None) == "Symbols for untitled:\n"@,
{
    reveal_strlit("Symbols for ");
    reveal_strlit("untitled");
    reveal_strlit(":\n");
    reveal_strlit("Symbols for untitled:\n");
    assert(header_line(None) =~= "Symbols for untitled:\n"@);
}

/// The length of the lines of the entries.
pub proof fn lemma_entry_lines_len(entries: Seq<Seq<char>>)
    ensures
        entry_lines(entries).len() == entry_lines_len(entries),
    decreases entries.len(),
{
    if entries.len() == 0 {
        assert(entries =~= Seq::empty());
        lemma_entry_lines_empty();
    } else {
        reveal_strlit("- ");
        reveal_strlit("\n");
        lemma_entry_lines_len(entries.drop_last());
        assert(entries =~= entries.drop_last().push(entries.last()));
        lemma_entry_lines_push(entries.drop_last(), entries.last());
    }
}

/// The length of the whole text: fourteen characters of the header line
/// around the name of the document, and the lines of the entries.
pub proof fn lemma_outline_text_len(path: Option<Seq<char>>, entries: Seq<Seq<char>>)
    ensures
        outline_text(path, entries).len() == 14 + display_path(path).len() + entry_lines_len(
            entries,
        ),
{
    reveal_strlit("Symbols for ");
    reveal_strlit(":\n");
    lemma_entry_lines_len(entries);
}

/// The text is never empty and ends with a line feed.
pub proof fn lemma_outline_text_ends_with_line_feed(
    path: Option<Seq<char>>,
    entries: Seq<Seq<char>>,
)
    ensures
        outline_text(path, entries).len() > 0,
        outline_text(path, entries).last() == '\n',
{
    reveal_strlit(":\n");
    reveal_strlit("\n");
    if entries.len() == 0 {
        assert(entries =~= Seq::empty());
        lemma_outline_text_no_entries(path);
    } else {
        assert(entries =~= entries.drop_last().push(entries.last()));
        lemma_outline_text_push(path, entries.drop_last(), entries.last());
    }
}

/// Nothing is left out and nothing is moved: the text of the first `n`
/// entries stands unchanged at the start of the whole text, and the line of
/// the entry at `n` follows it at once.
pub proof fn lemma_entry_line_in_place(path: Option<Seq<char>>, entries: Seq<Seq<char>>, n: int)
    requires
        0 <= n < entries.len(),
    ensures
        ({
            let before = outline_text(path, entries.take(n));
            let line = entry_line(entries[n]);
            let after = before.len() + line.len();
            &&& after <= outline_text(path, entries).len()
            &&& outline_text(path, entries).subrange(0, before.len() as int) == before
            &&& outline_text(path, entries).subrange(before.len() as int, after as int) == line
        }),
{
    let before = outline_text(path, entries.take(n));
    let line = entry_line(entries[n]);
    let after = before.len() + line.len();
    let rest = entries.skip(n + 1);
    assert(entries =~= entries.take(n).push(entries[n]) + rest);
    lemma_entry_lines_concat(entries.take(n).push(entries[n]), rest);
    lemma_outline_text_push(path, entries.take(n), entries[n]);
    assert(outline_text(path, entries) =~= before + line + entry_lines(rest));
    assert(outline_text(path, entries).subrange(0, before.len() as int) =~= before);
    assert(outline_text(path, entries).subrange(before.len() as int, after as int) =~= line);
}

} // verus!
