//! Reading a console line: a request to leave, or the user to look up.

use crate::error::{ProgramErrors, ProgramErrorsView};
use crate::text::chars_of;
use vstd::prelude::*;

verus! {

/// Whether a character is white space, as Unicode lists it.
pub open spec fn is_blank(c: char) -> bool {
    let n = c as u32;
    ||| 0x09 <= n <= 0x0D
    ||| n == 0x20
    ||| n == 0x85
    ||| n == 0xA0
    ||| n == 0x1680
    ||| 0x2000 <= n <= 0x200A
    ||| n == 0x2028
    ||| n == 0x2029
    ||| n == 0x202F
    ||| n == 0x205F
    ||| n == 0x3000
}

/// A letter of `A` to `Z` as its small letter; any other character as it is.
pub open spec fn lowered(c: char) -> char {
    if 'A' <= c <= 'Z' {
        ((c as u8) + 32) as char
    } else {
        c
    }
}

/// The first position at or after `from` that holds no white space; the
/// length where there is none.
pub open spec fn word_start(line: Seq<char>, from: int) -> int
    decreases line.len() - from,
{
    if 0 <= from < line.len() && is_blank(line[from]) {
        word_start(line, from + 1)
    } else {
        from
    }
}

/// The first position at or after `from` that holds white space; the
/// length where there is none.
pub open spec fn word_end(line: Seq<char>, from: int) -> int
    decreases line.len() - from,
{
    if 0 <= from < line.len() && !is_blank(line[from]) {
        word_end(line, from + 1)
    } else {
        from
    }
}

/// The position just after the last character before `upto` that is no
/// white space; 0 where there is none.
pub open spec fn content_end(line: Seq<char>, upto: int) -> int
    decreases upto,
{
    if 0 < upto <= line.len() && is_blank(line[upto - 1]) {
        content_end(line, upto - 1)
    } else {
        upto
    }
}

/// A line without the white space at its two ends.
pub open spec fn trimmed(line: Seq<char>) -> Seq<char> {
    let start = word_start(line, 0);
    let end = content_end(line, line.len() as int);
    if start < end {
        line.subrange(start, end)
    } else {
        Seq::empty()
    }
}

/// The first run of characters of a line that holds no white space; empty
/// where the line holds nothing else.
pub open spec fn first_word(line: Seq<char>) -> Seq<char> {
    let start = word_start(line, 0);
    line.subrange(start, word_end(line, start))
}

/// A text with its letters of `A` to `Z` made small.
pub open spec fn folded(text: Seq<char>) -> Seq<char> {
    text.map_values(|c: char| lowered(c))
}

/// Whether a line, white space at its ends and the case of its letters
/// set aside, is `q` or `quit`.
pub open spec fn asks_to_quit(line: Seq<char>) -> bool {
    let word = folded(trimmed(line));
    word == "q"@ || word == "quit"@
}

/// What a line asks for.
#[derive(Debug, Clone, PartialEq, Eq)]
pub enum Command {
    /// Leave the program.
    Quit,
    /// Narrate the events of this user.
    Lookup(String),
}

/// The mathematical content of a [`Command`].
pub enum CommandView {
    Quit,
    Lookup(Seq<char>),
}

impl View for Command {
    type V = CommandView;

    open spec fn view(&self) -> CommandView {
        match self {
            Command::Quit => CommandView::Quit,
            Command::Lookup(username) => CommandView::Lookup(username@),
        }
    }
}

/// The reading of a line: a request to leave where the whole line says so;
/// else the first word as the user to look up, what follows it being
/// ignored; a line without a word names nobody.
pub open spec fn reading(line: Seq<char>) -> Result<CommandView, ProgramErrorsView> {
    if asks_to_quit(line) {
        Ok(CommandView::Quit)
    } else if first_word(line).len() == 0 {
        Err(ProgramErrorsView::NoArguments)
    } else {
        Ok(CommandView::Lookup(first_word(line)))
    }
}

/// The mathematical content of what reading a line gave.
pub open spec fn read(result: Result<Command, ProgramErrors>) -> Result<
    CommandView,
    ProgramErrorsView,
> {
    match result {
        Ok(command) => Ok(command@),
        Err(e) => Err(e@),
    }
}

/// Whether a character is white space.
pub fn blank(c: char) -> (yes: bool)
    ensures
        yes == is_blank(c),
{
    let n: u32 = c as u32;
    (0x09 <= n && n <= 0x0D) || n == 0x20 || n == 0x85 || n == 0xA0 || n == 0x1680 || (0x2000
        <= n && n <= 0x200A) || n == 0x2028 || n == 0x2029 || n == 0x202F || n == 0x205F || n
        == 0x3000
}

/// Whether a character is the given small letter or its capital.
fn is_letter(c: char, small: char) -> (yes: bool)
    requires
        'a' <= small <= 'z',
    ensures
        yes == (lowered(c) == small),
{
    let n: u32 = c as u32;
    let s: u32 = small as u32;
    n == s || n + 32 == s
}

/// Whether the characters from `start` to `end` say `q` or `quit`.
fn says_quit(chars: &Vec<char>, start: usize, end: usize) -> (yes: bool)
    requires
        start <= end <= chars.len(),
    ensures
        yes == {
            let word = folded(chars@.subrange(start as int, end as int));
            word == "q"@ || word == "quit"@
        },
{
    proof {
        reveal_strlit("q");
        reveal_strlit("quit");
    }
    let ghost word = folded(chars@.subrange(start as int, end as int));
    assert(word.len() == end - start);
    assert("q"@.len() == 1 && "quit"@.len() == 4);
    if end - start == 1 {
        let yes = is_letter(chars[start], 'q');
        assert(word[0] == lowered(chars@[start as int]));
        assert(yes ==> word =~= "q"@);
        yes
    } else if end - start == 4 {
        let yes = is_letter(chars[start], 'q') && is_letter(chars[start + 1], 'u') && is_letter(
            chars[start + 2],
            'i',
        ) && is_letter(chars[start + 3], 't');
        assert(word[0] == lowered(chars@[start as int]));
        assert(word[1] == lowered(chars@[start + 1]));
        assert(word[2] == lowered(chars@[start + 2]));
        assert(word[3] == lowered(chars@[start + 3]));
        assert(yes ==> word =~= "quit"@);
        yes
    } else {
        false
    }
}

/// Reads a console line.
pub fn parse_user_input(line: &str) -> (result: Result<Command, ProgramErrors>)
    ensures
        read(result) == reading(line@),
{
    let chars = chars_of(line);
    let mut start: usize = 0;
    while start < chars.len() && blank(chars[start])
        invariant
            start <= chars.len(),
            word_start(chars@, 0) == word_start(chars@, start as int),
        decreases chars.len() - start,
    {
        start += 1;
    }
    let mut end: usize = chars.len();
    while end > 0 && blank(chars[end - 1])
        invariant
            end <= chars.len(),
            content_end(chars@, chars@.len() as int) == content_end(chars@, end as int),
        decreases end,
    {
        end -= 1;
    }
    assert(word_start(chars@, 0) == start);
    assert(content_end(chars@, chars@.len() as int) == end);
    let quit = if start < end {
        says_quit(&chars, start, end)
    } else {
        proof {
            reveal_strlit("q");
            reveal_strlit("quit");
            assert(folded(trimmed(line@)).len() == 0);
            assert("q"@.len() == 1 && "quit"@.len() == 4);
        }
        false
    };
    assert(quit == asks_to_quit(line@));
    if quit {
        return Ok(Command::Quit);
    }
    let mut stop: usize = start;
    while stop < chars.len() && !blank(chars[stop])
        invariant
            start <= stop <= chars.len(),
            word_end(chars@, start as int) == word_end(chars@, stop as int),
        decreases chars.len() - stop,
    {
        stop += 1;
    }
    assert(word_end(chars@, start as int) == stop);
    assert(first_word(line@) == line@.subrange(start as int, stop as int));
    if stop == start {
        Err(ProgramErrors::NoArguments)
    } else {
        Ok(Command::Lookup(String::from_str(line.substring_char(start, stop))))
    }
}

/// Where `word_start` lands: at or after `from`, past white space only,
/// and on a character that is none unless it lands at the end.
pub proof fn lemma_word_start(line: Seq<char>, from: int)
    requires
        0 <= from <= line.len(),
    ensures
        from <= word_start(line, from) <= line.len(),
        forall|i: int| from <= i < word_start(line, from) ==> is_blank(#[trigger] line[i]),
        word_start(line, from) < line.len() ==> !is_blank(line[word_start(line, from)]),
    decreases line.len() - from,
{
    if from < line.len() && is_blank(line[from]) {
        lemma_word_start(line, from + 1);
    }
}

/// Where `word_end` lands: at or after `from`, past characters that are
/// no white space, and on white space unless it lands at the end.
pub proof fn lemma_word_end(line: Seq<char>, from: int)
    requires
        0 <= from <= line.len(),
    ensures
        from <= word_end(line, from) <= line.len(),
        forall|i: int| from <= i < word_end(line, from) ==> !is_blank(#[trigger] line[i]),
        word_end(line, from) < line.len() ==> is_blank(line[word_end(line, from)]),
    decreases line.len() - from,
{
    if from < line.len() && !is_blank(line[from]) {
        lemma_word_end(line, from + 1);
    }
}

/// Where `content_end` lands: at or before `upto`, with white space only
/// between the two, and just after a character that is none unless it
/// lands at the start.
pub proof fn lemma_content_end(line: Seq<char>, upto: int)
    requires
        0 <= upto <= line.len(),
    ensures
        0 <= content_end(line, upto) <= upto,
        forall|i: int| content_end(line, upto) <= i < upto ==> is_blank(#[trigger] line[i]),
        content_end(line, upto) > 0 ==> !is_blank(line[content_end(line, upto) - 1]),
    decreases upto,
{
    if 0 < upto && is_blank(line[upto - 1]) {
        lemma_content_end(line, upto - 1);
    }
}

/// A line of nothing but white space, the empty line among them, names
/// nobody.
pub proof fn blank_line_names_nobody(line: Seq<char>)
    requires
        forall|i: int| 0 <= i < line.len() ==> is_blank(#[trigger] line[i]),
    ensures
        reading(line) == Err::<CommandView, ProgramErrorsView>(ProgramErrorsView::NoArguments),
{
    lemma_word_start(line, 0);
    lemma_content_end(line, line.len() as int);
    let start = word_start(line, 0);
    assert(start == line.len());
    lemma_word_end(line, start);
    assert(first_word(line).len() == 0);
    assert(trimmed(line).len() == 0);
    assert(folded(trimmed(line)).len() == 0);
    reveal_strlit("q");
    reveal_strlit("quit");
    assert("q"@.len() == 1 && "quit"@.len() == 4);
}

/// `q` and `quit`, in small or capital letters and with any white space
/// before and after, ask to leave.
pub proof fn quit_is_heard(before: Seq<char>, word: Seq<char>, after: Seq<char>)
    requires
        forall|i: int| 0 <= i < before.len() ==> is_blank(#[trigger] before[i]),
        forall|i: int| 0 <= i < after.len() ==> is_blank(#[trigger] after[i]),
        folded(word) == "q"@ || folded(word) == "quit"@,
    ensures
        reading(before + word + after) == Ok::<CommandView, ProgramErrorsView>(CommandView::Quit),
{
    let line = before + word + after;
    let first = before.len() as int;
    let last = first + word.len();
    reveal_strlit("q");
    reveal_strlit("quit");
    assert(word.len() == folded(word).len());
    assert(word.len() == 1 || word.len() == 4);
    assert(folded(word)[0] == 'q' && lowered(word[0]) == folded(word)[0]);
    assert(folded(word)[word.len() - 1] == lowered(word[word.len() - 1]));
    assert(!is_blank(word[0]));
    assert(!is_blank(word[word.len() - 1]));
    assert(line[first] == word[0]);
    assert(line[last - 1] == word[word.len() - 1]);
    assert forall|i: int| 0 <= i < first implies is_blank(#[trigger] line[i]) by {
        assert(line[i] == before[i]);
    }
    assert forall|i: int| last <= i < line.len() implies is_blank(#[trigger] line[i]) by {
        assert(line[i] == after[i - last]);
    }
    lemma_word_start(line, 0);
    lemma_content_end(line, line.len() as int);
    assert(word_start(line, 0) == first);
    assert(content_end(line, line.len() as int) == last);
    assert(trimmed(line) =~= word);
}

/// The user that a line names is a word: it has a character, and none of
/// its characters is white space.
pub proof fn named_user_is_a_word(line: Seq<char>)
    ensures
        reading(line) matches Ok(CommandView::Lookup(username)) ==> {
            &&& username.len() > 0
            &&& forall|i: int| 0 <= i < username.len() ==> !is_blank(#[trigger] username[i])
        },
{
    lemma_word_start(line, 0);
    lemma_word_end(line, word_start(line, 0));
}

} // verus!
