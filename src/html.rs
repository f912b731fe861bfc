use vstd::prelude::*;
use vstd::string::StrSliceExecFns;
use crate::text::{contains_text, holds_text, string_of};

verus! {

/// What one character becomes in HTML text: the five characters with a
/// meaning in markup become entities, every other stays as it is.
pub open spec fn escape_char(c: char) -> Seq<char> {
    if c == '&' {
        seq!['&', 'a', 'm', 'p', ';']
    } else if c == '<' {
        seq!['&', 'l', 't', ';']
    } else if c == '>' {
        seq!['&', 'g', 't', ';']
    } else if c == '"' {
        seq!['&', 'q', 'u', 'o', 't', ';']
    } else if c == '\'' {
        seq!['&', '#', '3', '9', ';']
    } else {
        seq![c]
    }
}

/// A text with each character escaped, in order.
pub open spec fn escape_text(s: Seq<char>) -> Seq<char>
    decreases s.len(),
{
    if s.len() == 0 {
        Seq::empty()
    } else {
        escape_text(s.drop_last()) + escape_char(s.last())
    }
}

/// The line break written after each line.
pub open spec fn line_break() -> Seq<char> {
    seq!['<', 'b', 'r', ' ', '/', '>']
}

/// Lines as HTML: each line escaped and followed by a line break.
pub open spec fn html_of_lines(lines: Seq<Seq<char>>) -> Seq<char>
    decreases lines.len(),
{
    if lines.len() == 0 {
        Seq::empty()
    } else {
        html_of_lines(lines.drop_last()) + escape_text(lines.last()) + line_break()
    }
}

/// The characters of each string, in order.
pub open spec fn texts_of(lines: Seq<String>) -> Seq<Seq<char>> {
    lines.map_values(|s: String| s@)
}

fn push_all(out: &mut Vec<char>, chars: &[char])
    ensures
        final(out)@ == old(out)@ + chars@,
{
    let ghost extra = chars@;
    let mut i: usize = 0;
    while i < chars.len()
        invariant
            chars@ == extra,
            i <= chars@.len(),
            out@ == old(out)@ + extra.subrange(0, i as int),
        decreases chars@.len() - i,
    {
        out.push(chars[i]);
        assert(extra.subrange(0, i + 1) == extra.subrange(0, i as int).push(extra[i as int]));
        i = i + 1;
    }
    assert(extra.subrange(0, chars@.len() as int) == extra);
}

fn push_escaped(out: &mut Vec<char>, c: char)
    ensures
        final(out)@ == old(out)@ + escape_char(c),
{
    if c == '&' {
        let e = ['&', 'a', 'm', 'p', ';'];
        assert(e@ =~= escape_char(c));
        push_all(out, &e);
    } else if c == '<' {
        let e = ['&', 'l', 't', ';'];
        assert(e@ =~= escape_char(c));
        push_all(out, &e);
    } else if c == '>' {
        let e = ['&', 'g', 't', ';'];
        assert(e@ =~= escape_char(c));
        push_all(out, &e);
    } else if c == '"' {
        let e = ['&', 'q', 'u', 'o', 't', ';'];
        assert(e@ =~= escape_char(c));
        push_all(out, &e);
    } else if c == '\'' {
        let e = ['&', '#', '3', '9', ';'];
        assert(e@ =~= escape_char(c));
        push_all(out, &e);
    } else {
        out.push(c);
    }
}

fn push_escaped_text(out: &mut Vec<char>, input: &str)
    ensures
        final(out)@ == old(out)@ + escape_text(input@),
{
    let n = input.unicode_len();
    let mut i: usize = 0;
    while i < n
        invariant
            n == input@.len(),
            i <= n,
            out@ == old(out)@ + escape_text(input@.subrange(0, i as int)),
        decreases n - i,
    {
        let c = input.get_char(i);
        push_escaped(out, c);
        let ghost done = input@.subrange(0, i + 1);
        assert(done.drop_last() == input@.subrange(0, i as int));
        assert(done.last() == c);
        i = i + 1;
    }
    assert(input@.subrange(0, n as int) == input@);
}

/// Escapes `&`, `<`, `>`, `"` and `'` for use in HTML text.
pub fn escape_html(input: &str) -> (r: String)
    ensures
        r@ == escape_text(input@),
{
    let mut out: Vec<char> = Vec::new();
    push_escaped_text(&mut out, input);
    string_of(out)
}

/// Renders lines as HTML: each escaped and followed by `<br />`.
pub fn lines_to_html(lines: &Vec<String>) -> (r: String)
    ensures
        r@ == html_of_lines(texts_of(lines@)),
{
    let mut out: Vec<char> = Vec::new();
    let mut i: usize = 0;
    while i < lines.len()
        invariant
            i <= lines@.len(),
            out@ == html_of_lines(texts_of(lines@.subrange(0, i as int))),
        decreases lines@.len() - i,
    {
        push_escaped_text(&mut out, lines[i].as_str());
        let br = ['<', 'b', 'r', ' ', '/', '>'];
        assert(br@ =~= line_break());
        push_all(&mut out, &br);
        let ghost done = texts_of(lines@.subrange(0, i + 1));
        assert(done.drop_last() == texts_of(lines@.subrange(0, i as int)));
        assert(done.last() == lines@[i as int]@);
        i = i + 1;
    }
    assert(lines@.subrange(0, lines@.len() as int) == lines@);
    string_of(out)
}

/// `std::io::Error`, which a reader's failure carries; only passed on.
#[verifier::external_type_specification]
#[verifier::external_body]
pub struct ExIoError(std::io::Error);

/// A source of text lines, such as a file.
pub trait LinesReader {
    fn lines(&self) -> Result<Vec<String>, std::io::Error>;
}

/// Turns the lines of a reader into HTML.
pub struct HtmlTextConverter<Reader: LinesReader> {
    reader: Reader,
}

impl<Reader: LinesReader> HtmlTextConverter<Reader> {
    pub closed spec fn reader(&self) -> Reader {
        self.reader
    }

    pub fn new(lines_reader: Reader) -> (r: Self)
        ensures
            r.reader() == lines_reader,
    {
        HtmlTextConverter { reader: lines_reader }
    }

    /// Reads all lines and renders them as `lines_to_html` does; a read
    /// error is passed on.
    pub fn convert_to_html(&self) -> (r: Result<String, std::io::Error>)
        ensures
            r matches Ok(html) ==> exists|lines: Seq<String>| html@ == html_of_lines(texts_of(lines)),
    {
        match self.reader.lines() {
            Ok(lines) => Ok(lines_to_html(&lines)),
            Err(e) => Err(e),
        }
    }
}

/// The text that marks the end of a page.
pub open spec fn page_marker() -> Seq<char> {
    seq!['P', 'A', 'G', 'E', '_', 'B', 'R', 'E', 'A', 'K']
}

/// Whether a line ends a page.
pub open spec fn is_break_line(line: Seq<char>) -> bool {
    holds_text(line, page_marker())
}

/// How many bytes the lines take in a file: each line and its newline.
pub open spec fn text_bytes(lines: Seq<String>) -> nat
    decreases lines.len(),
{
    if lines.len() == 0 {
        0
    } else {
        text_bytes(lines.drop_last()) + vstd::utf8::encode_utf8(lines.last()@).len() + 1
    }
}

/// Where each page starts, in bytes: the first at 0, each other just after
/// a line that holds the page marker.
pub open spec fn page_starts(lines: Seq<String>) -> Seq<nat>
    decreases lines.len(),
{
    if lines.len() == 0 {
        seq![0]
    } else if is_break_line(lines.last()@) {
        page_starts(lines.drop_last()).push(text_bytes(lines))
    } else {
        page_starts(lines.drop_last())
    }
}

/// How many of the lines come before the first one that holds the marker.
pub open spec fn page_length(lines: Seq<Seq<char>>) -> nat
    decreases lines.len(),
{
    if lines.len() == 0 {
        0
    } else if is_break_line(lines[0]) {
        0
    } else {
        1 + page_length(lines.drop_first())
    }
}

proof fn lemma_text_bytes_grows(lines: Seq<String>, i: int)
    requires
        0 <= i <= lines.len(),
    ensures
        text_bytes(lines.subrange(0, i)) <= text_bytes(lines),
    decreases lines.len(),
{
    if i < lines.len() {
        assert(lines.drop_last().subrange(0, i) == lines.subrange(0, i));
        lemma_text_bytes_grows(lines.drop_last(), i);
    } else {
        assert(lines.subrange(0, i) == lines);
    }
}

/// A text file split into pages at lines that hold `PAGE_BREAK`.
pub struct HtmlPagesConverter {
    filename: String,
    breaks: Vec<u64>,
}

impl HtmlPagesConverter {
    pub closed spec fn name(&self) -> Seq<char> {
        self.filename@
    }

    /// The byte offset at which each page starts.
    pub closed spec fn starts(&self) -> Seq<nat> {
        self.breaks@.map_values(|b: u64| b as nat)
    }

    /// Splits the lines of the file `filename` into pages.
    pub fn from_lines(filename: &str, lines: &Vec<String>) -> (r: Self)
        requires
            text_bytes(lines@) <= u64::MAX,
        ensures
            r.name() == filename@,
            r.starts() == page_starts(lines@),
    {
        let mut breaks: Vec<u64> = vec![0];
        let mut total: u64 = 0;
        let mut i: usize = 0;
        while i < lines.len()
            invariant
                i <= lines@.len(),
                text_bytes(lines@) <= u64::MAX,
                total == text_bytes(lines@.subrange(0, i as int)),
                breaks@.map_values(|b: u64| b as nat) == page_starts(lines@.subrange(0, i as int)),
            decreases lines@.len() - i,
        {
            let ghost done = lines@.subrange(0, i + 1);
            assert(done.drop_last() == lines@.subrange(0, i as int));
            proof {
                lemma_text_bytes_grows(lines@, i + 1);
            }
            let line = lines[i].as_str();
            total = total + line.as_bytes().len() as u64 + 1;
            proof {
                reveal_strlit("PAGE_BREAK");
                assert("PAGE_BREAK"@ =~= page_marker());
            }
            if contains_text(line, "PAGE_BREAK") {
                breaks.push(total);
            }
            assert(done.last() == lines@[i as int]);
            assert(breaks@.map_values(|b: u64| b as nat) =~= page_starts(done));
            i = i + 1;
        }
        assert(lines@.subrange(0, lines@.len() as int) == lines@);
        HtmlPagesConverter { filename: filename.to_owned(), breaks }
    }

    pub fn get_filename(&self) -> (r: &str)
        ensures
            r@ == self.name(),
    {
        self.filename.as_str()
    }

    /// How many pages the file has.
    pub fn page_count(&self) -> (r: usize)
        ensures
            r == self.starts().len(),
    {
        self.breaks.len()
    }

    /// The byte offset at which page `page` starts.
    pub fn page_offset(&self, page: usize) -> (r: u64)
        requires
            page < self.starts().len(),
        ensures
            r as nat == self.starts()[page as int],
    {
        self.breaks[page]
    }

    /// Renders one page, given the lines of the file from the page's start:
    /// the lines before the first that holds `PAGE_BREAK`, as HTML.
    pub fn render_page(lines: &Vec<String>) -> (r: String)
        ensures
            r@ == html_of_lines(texts_of(lines@).take(page_length(texts_of(lines@)) as int)),
    {
        let mut out: Vec<char> = Vec::new();
        let mut i: usize = 0;
        while i < lines.len()
            invariant
                i <= lines@.len(),
                forall|k: int| 0 <= k < i ==> !is_break_line(lines@[k]@),
                out@ == html_of_lines(texts_of(lines@.subrange(0, i as int))),
            ensures
                i <= lines@.len(),
                i == lines@.len() || is_break_line(lines@[i as int]@),
                forall|k: int| 0 <= k < i ==> !is_break_line(lines@[k]@),
                out@ == html_of_lines(texts_of(lines@.subrange(0, i as int))),
            decreases lines@.len() - i,
        {
            proof {
                reveal_strlit("PAGE_BREAK");
                assert("PAGE_BREAK"@ =~= page_marker());
            }
            if contains_text(lines[i].as_str(), "PAGE_BREAK") {
                break;
            }
            push_escaped_text(&mut out, lines[i].as_str());
            let br = ['<', 'b', 'r', ' ', '/', '>'];
            assert(br@ =~= line_break());
            push_all(&mut out, &br);
            let ghost done = texts_of(lines@.subrange(0, i + 1));
            assert(done.drop_last() == texts_of(lines@.subrange(0, i as int)));
            assert(done.last() == lines@[i as int]@);
            i = i + 1;
        }
        proof {
            let texts = texts_of(lines@);
            assert forall|k: int| 0 <= k < lines@.len() implies texts[k] == lines@[k]@ by {}
            lemma_page_length(texts, i as int);
            assert(texts_of(lines@).take(i as int) == texts_of(lines@.subrange(0, i as int)));
        }
        string_of(out)
    }
}

proof fn lemma_page_length(lines: Seq<Seq<char>>, i: int)
    requires
        0 <= i <= lines.len(),
        forall|k: int| 0 <= k < i ==> !is_break_line(lines[k]),
        i == lines.len() || is_break_line(lines[i]),
    ensures
        page_length(lines) == i,
    decreases i,
{
    if i > 0 {
        lemma_page_length(lines.drop_first(), i - 1);
    }
}

} // verus!
