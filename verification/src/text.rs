//! The text model: lines of words, parsed once and never changed.

use vstd::prelude::*;

verus! {

/// The pieces of `s` between occurrences of `sep`. A sequence without `sep`
/// is one piece; two separators in a row enclose an empty piece.
pub open spec fn split_on(s: Seq<char>, sep: char) -> Seq<Seq<char>>
    decreases s.len(),
{
    if s.len() == 0 {
        seq![Seq::<char>::empty()]
    } else {
        let before = split_on(s.drop_last(), sep);
        if s.last() == sep {
            before.push(Seq::<char>::empty())
        } else {
            before.drop_last().push(before.last().push(s.last()))
        }
    }
}

/// The pieces in order, with `sep` between each two of them.
pub open spec fn join_with(pieces: Seq<Seq<char>>, sep: char) -> Seq<char>
    decreases pieces.len(),
{
    if pieces.len() == 0 {
        Seq::<char>::empty()
    } else if pieces.len() == 1 {
        pieces[0]
    } else {
        join_with(pieces.drop_last(), sep) + seq![sep] + pieces.last()
    }
}

/// The words joined by single spaces.
pub open spec fn join_words(words: Seq<Seq<char>>) -> Seq<char> {
    join_with(words, ' ')
}

/// Splitting always gives at least one piece, and no piece holds the
/// separator.
pub proof fn lemma_split_pieces(s: Seq<char>, sep: char)
    ensures
        split_on(s, sep).len() >= 1,
        forall|i: int, k: int|
            0 <= i < split_on(s, sep).len() && 0 <= k < split_on(s, sep)[i].len()
                ==> split_on(s, sep)[i][k] != sep,
    decreases s.len(),
{
    if s.len() > 0 {
        lemma_split_pieces(s.drop_last(), sep);
    }
}

/// Joining the pieces of a split with the separator gives back what was
/// split. So the words of a line, joined by single spaces, are the line as
/// it was written, and the lines of a text, joined by line feeds, are the
/// text.
pub proof fn lemma_join_split(s: Seq<char>, sep: char)
    ensures
        join_with(split_on(s, sep), sep) == s,
        sep == ' ' ==> join_words(split_on(s, sep)) == s,
    decreases s.len(),
{
    if s.len() > 0 {
        let before = split_on(s.drop_last(), sep);
        let pieces = split_on(s, sep);
        lemma_join_split(s.drop_last(), sep);
        lemma_split_pieces(s.drop_last(), sep);
        if s.last() == sep {
            assert(pieces.drop_last() =~= before);
        } else if before.len() > 1 {
            assert(pieces.drop_last() =~= before.drop_last());
        }
        assert(s.drop_last().push(s.last()) =~= s);
    }
}

/// The character sequences of a vector of strings, in order.
pub open spec fn strings_view(v: Seq<String>) -> Seq<Seq<char>> {
    Seq::new(v.len(), |i: int| v[i]@)
}

/// What a raw text parses to: its lines, split at line feeds, each split
/// into words at single spaces. Nothing is trimmed and no run of spaces is
/// collapsed, so empty words are kept.
pub open spec fn parsed(raw: Seq<char>) -> Seq<Seq<Seq<char>>> {
    Seq::new(split_on(raw, '\n').len(), |i: int| split_on(split_on(raw, '\n')[i], ' '))
}

/// Every line of a parsed text, joined by single spaces, is the line of the
/// raw text that it was parsed from.
pub proof fn lemma_parsed_line_joins_back(raw: Seq<char>, i: int)
    requires
        0 <= i < parsed(raw).len(),
    ensures
        parsed(raw).len() == split_on(raw, '\n').len(),
        join_words(parsed(raw)[i]) == split_on(raw, '\n')[i],
{
    lemma_join_split(split_on(raw, '\n')[i], ' ');
}

/// One line of a text: its words in order. `length` is the number of words.
pub struct Line {
    pub words: Vec<String>,
    pub length: usize,
}

impl View for Line {
    type V = Seq<Seq<char>>;

    open spec fn view(&self) -> Seq<Seq<char>> {
        strings_view(self.words@)
    }
}

impl Line {
    /// `length` is the number of words.
    pub open spec fn wf(&self) -> bool {
        self.length == self.words@.len()
    }

    /// The line made of `words`.
    pub fn new(words: Vec<String>) -> (line: Line)
        ensures
            line.words == words,
            line.wf(),
    {
        let length = words.len();
        Line { words, length }
    }
}

impl Clone for Line {
    fn clone(&self) -> (copy: Line)
        ensures
            copy@ == self@,
            copy.length == self.length,
    {
        let mut words: Vec<String> = Vec::new();
        let mut i: usize = 0;
        while i < self.words.len()
            invariant
                i <= self.words@.len(),
                words@.len() == i,
                forall|k: int| 0 <= k < i ==> words@[k]@ == self.words@[k]@,
            decreases self.words@.len() - i,
        {
            words.push(self.words[i].clone());
            i += 1;
        }
        Line { words, length: self.length }
    }
}

/// A loaded text: its lines in order. `length` is the number of lines.
pub struct Text {
    pub lines: Vec<Line>,
    pub length: usize,
}

impl View for Text {
    type V = Seq<Seq<Seq<char>>>;

    open spec fn view(&self) -> Seq<Seq<Seq<char>>> {
        Seq::new(self.lines@.len(), |i: int| self.lines@[i]@)
    }
}

/// The pieces of `s` between occurrences of `sep`, each as a string of its
/// own.
pub fn split_str(s: &str, sep: char) -> (pieces: Vec<String>)
    ensures
        strings_view(pieces@) == split_on(s@, sep),
{
    let n = s.unicode_len();
    let mut pieces: Vec<String> = Vec::new();
    let mut start: usize = 0;
    let mut i: usize = 0;
    proof {
        assert(s@.subrange(0, 0) =~= Seq::<char>::empty());
    }
    while i < n
        invariant
            n == s@.len(),
            start <= i <= n,
            strings_view(pieces@).push(s@.subrange(start as int, i as int)) == split_on(
                s@.subrange(0, i as int),
                sep,
            ),
        decreases n - i,
    {
        let c = s.get_char(i);
        proof {
            assert(s@.subrange(0, i + 1).drop_last() =~= s@.subrange(0, i as int));
        }
        if c == sep {
            let piece = s.substring_char(start, i);
            pieces.push(String::from_str(piece));
            start = i + 1;
            proof {
                assert(s@.subrange(start as int, i + 1) =~= Seq::<char>::empty());
            }
        } else {
            proof {
                assert(s@.subrange(start as int, i + 1) =~= s@.subrange(
                    start as int,
                    i as int,
                ).push(s@[i as int]));
            }
        }
        i += 1;
    }
    let piece = s.substring_char(start, n);
    pieces.push(String::from_str(piece));
    proof {
        assert(s@.subrange(0, n as int) =~= s@);
    }
    pieces
}

/// The first `upto` of `words`, joined by single spaces.
pub fn join_prefix(words: &Vec<String>, upto: usize) -> (joined: String)
    requires
        upto <= words@.len(),
    ensures
        joined@ == join_words(strings_view(words@).subrange(0, upto as int)),
{
    let mut joined = String::new();
    let mut i: usize = 0;
    let ghost all = strings_view(words@);
    while i < upto
        invariant
            i <= upto <= words@.len(),
            all == strings_view(words@),
            joined@ == join_words(all.subrange(0, i as int)),
        decreases upto - i,
    {
        if i > 0 {
            joined.append(" ");
        }
        joined.append(words[i].as_str());
        proof {
            reveal_strlit(" ");
            assert(all.subrange(0, i + 1).drop_last() =~= all.subrange(0, i as int));
        }
        i += 1;
    }
    joined
}

impl Text {
    /// `length` is the number of lines, and every line is well formed.
    pub open spec fn wf(&self) -> bool {
        &&& self.length == self.lines@.len()
        &&& forall|i: int| 0 <= i < self.lines@.len() ==> (#[trigger] self.lines@[i]).wf()
    }

    /// The number of lines.
    pub open spec fn line_count(&self) -> nat {
        self.lines@.len()
    }

    /// The text made of `text`'s lines.
    pub fn new(text: Vec<Line>) -> (t: Text)
        ensures
            t.lines == text,
            t.length == text@.len(),
            t.wf() <==> forall|i: int| 0 <= i < text@.len() ==> (#[trigger] text@[i]).wf(),
    {
        let len = text.len();
        Text { lines: text, length: len }
    }

    /// Parses a raw text: lines are separated by line feeds, words by
    /// single spaces.
    pub fn parse(raw: &str) -> (t: Text)
        ensures
            t@ == parsed(raw@),
            t.wf(),
    {
        let raw_lines = split_str(raw, '\n');
        let mut lines: Vec<Line> = Vec::new();
        let mut i: usize = 0;
        while i < raw_lines.len()
            invariant
                i <= raw_lines@.len(),
                strings_view(raw_lines@) == split_on(raw@, '\n'),
                lines@.len() == i,
                forall|k: int| 0 <= k < i ==> (#[trigger] lines@[k]).wf(),
                forall|k: int|
                    0 <= k < i ==> (#[trigger] lines@[k])@ == split_on(raw_lines@[k]@, ' '),
            decreases raw_lines@.len() - i,
        {
            let words = split_str(raw_lines[i].as_str(), ' ');
            lines.push(Line::new(words));
            i += 1;
        }
        let t = Text::new(lines);
        t
    }

    /// The line at `ind`, if there is one.
    pub fn get_line_by_ind(&self, ind: &usize) -> (line: Option<Line>)
        ensures
            line is Some <==> *ind < self.line_count(),
            line is Some ==> line.unwrap()@ == self@[*ind as int] && line.unwrap().length
                == self.lines@[*ind as int].length,
    {
        if *ind >= self.lines.len() {
            None
        } else {
            Some(self.lines[*ind].clone())
        }
    }

    /// The line at `line_ind` with its words joined by single spaces, if
    /// there is such a line.
    pub fn get_line(&self, line_ind: &usize) -> (line: Option<String>)
        ensures
            line is Some <==> *line_ind < self.line_count(),
            line is Some ==> line.unwrap()@ == join_words(self@[*line_ind as int]),
    {
        if *line_ind >= self.lines.len() {
            None
        } else {
            let l = &self.lines[*line_ind];
            proof {
                assert(l@.subrange(0, l.words@.len() as int) =~= l@);
            }
            Some(join_prefix(&l.words, l.words.len()))
        }
    }

    /// The first `up_to_word_ind` words of the line at `line_ind`, joined by
    /// single spaces, if there is such a line and it has that many words.
    pub fn get_line_up_to_word(&self, line_ind: &usize, up_to_word_ind: &usize) -> (part: Option<
        String,
    >)
        ensures
            part is Some <==> *line_ind < self.line_count() && *up_to_word_ind
                <= self@[*line_ind as int].len(),
            part is Some ==> part.unwrap()@ == join_words(
                self@[*line_ind as int].subrange(0, *up_to_word_ind as int),
            ),
    {
        if *line_ind >= self.lines.len() {
            None
        } else {
            let l = &self.lines[*line_ind];
            if *up_to_word_ind <= l.words.len() {
                Some(join_prefix(&l.words, *up_to_word_ind))
            } else {
                None
            }
        }
    }

    /// The word at `word_ind` of the line at `line_ind`, if both exist.
    pub fn get_word(&self, line_ind: &usize, word_ind: &usize) -> (word: Option<String>)
        ensures
            word is Some <==> *line_ind < self.line_count() && *word_ind
                < self@[*line_ind as int].len(),
            word is Some ==> word.unwrap()@ == self@[*line_ind as int][*word_ind as int],
    {
        if *line_ind >= self.lines.len() {
            None
        } else {
            let l = &self.lines[*line_ind];
            if *word_ind < l.words.len() {
                Some(l.words[*word_ind].clone())
            } else {
                None
            }
        }
    }
}

} // verus!
