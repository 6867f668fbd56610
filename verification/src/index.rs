//! The ordered list of entries in a support bundle.
use vstd::prelude::*;
use vstd::std_specs::iter::IteratorSpec;
use vstd::string::StrSliceExecFns;
use vstd::string::StringExecFns;

verus! {

/// The character that ends a line of a listing.
pub const LINE_BREAK: char = '\n';

/// The character that ends the path of a directory entry.
pub const DIRECTORY_MARK: char = '/';

/// Number of characters before the first line break of `text`, or the whole
/// length where it has none.
pub open spec fn first_line_len(text: Seq<char>) -> nat
    decreases text.len(),
{
    if text.len() == 0 || text[0] == LINE_BREAK {
        0
    } else {
        1 + first_line_len(text.skip(1))
    }
}

/// The lines of a newline-delimited listing, in the order in which they are
/// written. A line break ends a line, so the last line needs none and an
/// empty text has no lines.
pub open spec fn parse_listing(text: Seq<char>) -> Seq<Seq<char>>
    decreases text.len(),
{
    if text.len() == 0 {
        Seq::empty()
    } else {
        let n = first_line_len(text) as int;
        if n >= text.len() {
            seq![text]
        } else {
            seq![text.take(n)] + parse_listing(text.skip(n + 1))
        }
    }
}

/// Whether `path` names a directory entry: its last character is `/`.
pub open spec fn is_directory_path(path: Seq<char>) -> bool {
    path.len() > 0 && path.last() == DIRECTORY_MARK
}

/// Whether `path` names a directory entry.
pub fn is_directory(path: &str) -> (directory: bool)
    ensures
        directory == is_directory_path(path@),
{
    let len = path.unicode_len();
    len > 0 && path.get_char(len - 1) == DIRECTORY_MARK
}

/// Whether `line` holds no line break.
pub open spec fn is_single_line(line: Seq<char>) -> bool {
    forall|i: int| 0 <= i < line.len() ==> line[i] != LINE_BREAK
}

/// The first line of a text ends at its first line break, or at its end.
pub proof fn lemma_first_line_len(text: Seq<char>)
    ensures
        first_line_len(text) <= text.len(),
        first_line_len(text) < text.len() ==> text[first_line_len(text) as int] == LINE_BREAK,
        is_single_line(text.take(first_line_len(text) as int)),
    decreases text.len(),
{
    if text.len() == 0 || text[0] == LINE_BREAK {
    } else {
        let rest = text.skip(1);
        lemma_first_line_len(rest);
        let n = first_line_len(rest) as int;
        let line = text.take(n + 1);
        assert forall|i: int| 0 <= i < line.len() implies line[i] != LINE_BREAK by {
            if i > 0 {
                assert(rest.take(n)[i - 1] == line[i]);
            }
        }
    }
}

/// A line without a line break, followed by a line break and more text, is
/// the first line of the whole.
pub proof fn lemma_first_line_of_concat(line: Seq<char>, rest: Seq<char>)
    requires
        is_single_line(line),
    ensures
        first_line_len(line + seq![LINE_BREAK] + rest) == line.len(),
        first_line_len(line) == line.len(),
    decreases line.len(),
{
    if line.len() > 0 {
        let whole = line + seq![LINE_BREAK] + rest;
        let tail = line.skip(1);
        assert(whole.skip(1) =~= tail + seq![LINE_BREAK] + rest);
        assert(is_single_line(tail));
        lemma_first_line_of_concat(tail, rest);
    }
}

/// Parsing a text that ends a line, followed by more text, gives the lines of
/// the one and then the lines of the other.
pub proof fn lemma_parse_listing_concat(head: Seq<char>, tail: Seq<char>)
    requires
        head.len() == 0 || head.last() == LINE_BREAK,
    ensures
        parse_listing(head + tail) == parse_listing(head) + parse_listing(tail),
    decreases head.len(),
{
    if head.len() > 0 {
        lemma_first_line_len(head);
        let n = first_line_len(head) as int;
        assert(n < head.len()) by {
            if n >= head.len() {
                assert(head.take(n) =~= head);
            }
        }
        let line = head.take(n);
        let head_rest = head.skip(n + 1);
        assert(head + tail =~= line + seq![LINE_BREAK] + (head_rest + tail));
        lemma_first_line_of_concat(line, head_rest + tail);
        assert((head + tail).take(n) =~= line);
        assert((head + tail).skip(n + 1) =~= head_rest + tail);
        lemma_parse_listing_concat(head_rest, tail);
    }
}

/// A text of one line, with or without its line break, parses to that line.
pub proof fn lemma_parse_single_line(line: Seq<char>)
    requires
        is_single_line(line),
    ensures
        parse_listing(line + seq![LINE_BREAK]) == seq![line],
        line.len() > 0 ==> parse_listing(line) == seq![line],
{
    let ended = line + seq![LINE_BREAK];
    lemma_first_line_of_concat(line, Seq::empty());
    assert(ended.take(line.len() as int) =~= line);
    assert(ended.skip(line.len() as int + 1) =~= Seq::<char>::empty());
    assert(parse_listing(Seq::<char>::empty()) =~= Seq::<Seq<char>>::empty());
}

/// The listing of `names`: each on a line of its own, with a line break
/// between one and the next.
pub open spec fn join_lines(names: Seq<Seq<char>>) -> Seq<char>
    decreases names.len(),
{
    if names.len() == 0 {
        Seq::empty()
    } else if names.len() == 1 {
        names[0]
    } else {
        join_lines(names.drop_last()) + seq![LINE_BREAK] + names.last()
    }
}

/// Whether each of `names` holds no line break.
pub open spec fn all_single_lines(names: Seq<Seq<char>>) -> bool {
    forall|i: int| 0 <= i < names.len() ==> is_single_line(#[trigger] names[i])
}

/// The listing of names without line breaks, with a line break at its end,
/// parses to those names.
pub proof fn lemma_parse_ended_listing(names: Seq<Seq<char>>)
    requires
        names.len() > 0,
        all_single_lines(names),
    ensures
        parse_listing(join_lines(names) + seq![LINE_BREAK]) == names,
    decreases names.len(),
{
    let last = names.last();
    if names.len() == 1 {
        lemma_parse_single_line(last);
    } else {
        let init = names.drop_last();
        let head = join_lines(init) + seq![LINE_BREAK];
        let tail = last + seq![LINE_BREAK];
        assert(join_lines(names) + seq![LINE_BREAK] =~= head + tail);
        lemma_parse_ended_listing(init);
        lemma_parse_listing_concat(head, tail);
        lemma_parse_single_line(last);
    }
}

/// Listing names and parsing the listing gives the names back, where none
/// of them holds a line break and the last one is not empty.
pub proof fn lemma_parse_join_lines(names: Seq<Seq<char>>)
    requires
        all_single_lines(names),
        names.len() > 0 ==> names.last().len() > 0,
    ensures
        parse_listing(join_lines(names)) == names,
{
    if names.len() > 0 {
        let last = names.last();
        lemma_parse_single_line(last);
        if names.len() > 1 {
            let init = names.drop_last();
            lemma_parse_ended_listing(init);
            lemma_parse_listing_concat(join_lines(init) + seq![LINE_BREAK], last);
        }
    }
}

/// A text without its last character, where that is a line break.
pub open spec fn without_final_break(text: Seq<char>) -> Seq<char> {
    if text.len() > 0 && text.last() == LINE_BREAK {
        text.drop_last()
    } else {
        text
    }
}

/// The listing of a first name and more names: the first name alone, or
/// the first name, a line break and the listing of the others.
pub proof fn lemma_join_lines_first(first: Seq<char>, others: Seq<Seq<char>>)
    ensures
        join_lines(seq![first] + others) == if others.len() == 0 {
            first
        } else {
            first + seq![LINE_BREAK] + join_lines(others)
        },
    decreases others.len(),
{
    if others.len() > 0 {
        let init = others.drop_last();
        assert((seq![first] + others).drop_last() =~= seq![first] + init);
        lemma_join_lines_first(first, init);
    }
}

/// The entries of a listing are its lines and nothing else: each is one
/// line, a text that is not empty has one at least, and listed again they
/// give the text back, but for its final line break.
pub proof fn lemma_join_parsed_listing(text: Seq<char>)
    ensures
        all_single_lines(parse_listing(text)),
        text.len() > 0 ==> parse_listing(text).len() > 0,
        join_lines(parse_listing(text)) == without_final_break(text),
    decreases text.len(),
{
    if text.len() > 0 {
        lemma_first_line_len(text);
        let n = first_line_len(text) as int;
        if n >= text.len() {
            assert(text.take(n) =~= text);
        } else {
            let line = text.take(n);
            let rest = text.skip(n + 1);
            let others = parse_listing(rest);
            lemma_join_parsed_listing(rest);
            lemma_join_lines_first(line, others);
            assert(all_single_lines(seq![line] + others));
        }
    }
}

/// Appends one character to a text, by `String::push` of std: the text
/// afterwards is the text before with `c` at its end.
#[verifier::external_body]
fn push_char(text: &mut String, c: char)
    ensures
        final(text)@ == old(text)@.push(c),
{
    text.push(c)
}

/// An ordered list of entry paths, kept in the order of the listing that it
/// was built from.
pub struct SupportBundleIndex {
    files: Vec<String>,
}

/// The texts of `paths`, one for one.
pub open spec fn path_texts(paths: Seq<String>) -> Seq<Seq<char>> {
    paths.map_values(|path: String| path@)
}

impl View for SupportBundleIndex {
    type V = Seq<Seq<char>>;

    closed spec fn view(&self) -> Seq<Seq<char>> {
        path_texts(self.files@)
    }
}

impl SupportBundleIndex {
    /// Builds the index of a newline-delimited listing: one entry per line,
    /// in the order of the listing. No entry holds a line break, and the
    /// entries, listed again, give the listing back but for its final line
    /// break.
    pub fn new(listing: &str) -> (index: Self)
        ensures
            index@ == parse_listing(listing@),
            all_single_lines(index@),
            join_lines(index@) == without_final_break(listing@),
    {
        proof {
            lemma_join_parsed_listing(listing@);
        }
        let mut files: Vec<String> = Vec::new();
        let mut current = String::new();
        let mut started = false;
        let mut chars = listing.chars();
        let ghost text = listing@;
        let ghost mut start: int = 0;
        let ghost mut pos: int = 0;
        loop
            invariant
                text == listing@,
                0 <= start <= pos <= text.len(),
                chars.remaining() == text.skip(pos),
                path_texts(files@) == parse_listing(text.take(start)),
                start == 0 || text[start - 1] == LINE_BREAK,
                current@ == text.subrange(start, pos),
                is_single_line(current@),
                started == (start < pos),
            ensures
                pos == text.len(),
            decreases text.len() - pos,
        {
            match chars.next() {
                None => {
                    break ;
                },
                Some(c) => {
                    if c == LINE_BREAK {
                        proof {
                            let head = text.take(start);
                            let tail = current@ + seq![LINE_BREAK];
                            assert(text.take(pos + 1) =~= head + tail);
                            lemma_parse_listing_concat(head, tail);
                            lemma_parse_single_line(current@);
                            start = pos + 1;
                        }
                        files.push(current);
                        current = String::new();
                        started = false;
                    } else {
                        push_char(&mut current, c);
                        started = true;
                    }
                    proof {
                        pos = pos + 1;
                    }
                },
            }
        }
        proof {
            assert(text.take(pos) =~= text);
        }
        if started {
            proof {
                let head = text.take(start);
                assert(text =~= head + current@);
                lemma_parse_listing_concat(head, current@);
                lemma_parse_single_line(current@);
            }
            files.push(current);
        }
        SupportBundleIndex { files }
    }

    /// Builds the index of the listing of `names`, as `new` does of the text
    /// that holds each name on a line of its own. The entries are the names,
    /// unless one of them holds a line break or the last one is empty.
    pub fn from_names(names: &Vec<String>) -> (index: Self)
        ensures
            index@ == parse_listing(join_lines(path_texts(names@))),
            all_single_lines(path_texts(names@)) && (names@.len() > 0 ==> names@.last()@.len() > 0)
                ==> index@ == path_texts(names@),
    {
        proof {
            let texts = path_texts(names@);
            if all_single_lines(texts) && (names@.len() > 0 ==> names@.last()@.len() > 0) {
                lemma_parse_join_lines(texts);
            }
        }
        let mut listing = String::new();
        let mut i: usize = 0;
        while i < names.len()
            invariant
                i <= names.len(),
                listing@ == join_lines(path_texts(names@).take(i as int)),
            decreases names.len() - i,
        {
            proof {
                let texts = path_texts(names@);
                assert(texts.take(i + 1).drop_last() =~= texts.take(i as int));
            }
            if i > 0 {
                listing.append("\n");
                proof {
                    reveal_strlit("\n");
                }
            }
            listing.append(names[i].as_str());
            i += 1;
        }
        proof {
            assert(path_texts(names@).take(i as int) =~= path_texts(names@));
        }
        SupportBundleIndex::new(listing.as_str())
    }

    /// The entry paths, in the order of the listing.
    pub fn files(&self) -> (files: &Vec<String>)
        ensures
            path_texts(files@) == self@,
    {
        &self.files
    }
}

} // verus!
