//! Names of project files, and the wrapping of a text to the width of a
//! list.

use vstd::prelude::*;
use vstd::std_specs::iter::IteratorSpec;
use vstd::string::StringExecFns;

verus! {

/// The extension of a project file, and the name of the hidden folder
/// without its leading dot.
pub const PROJECT_FILE_EXTENSION: &'static str = "pman";

/// `String::push` appends one character.
pub assume_specification[ String::push ](text: &mut String, ch: char)
    ensures
        final(text)@ == old(text)@.push(ch),
;

/// `String::pop` removes the last character and returns it, or returns
/// `None` and changes nothing where the string is empty.
pub assume_specification[ String::pop ](text: &mut String) -> (last: Option<char>)
    ensures
        old(text)@.len() == 0 ==> last is None && final(text)@ == old(text)@,
        old(text)@.len() > 0 ==> last == Some(old(text)@.last()) && final(text)@ == old(
            text,
        )@.drop_last(),
;

/// The characters of a text, in order.
pub fn characters(text: &str) -> (chars: Vec<char>)
    ensures
        chars@ == text@,
{
    broadcast use vstd::string::group_string_axioms;

    let mut chars: Vec<char> = Vec::new();
    let mut rest = text.chars();
    loop
        invariant
            chars@ + rest.remaining() == text@,
        ensures
            chars@ == text@,
        decreases text@.len() - chars@.len(),
    {
        match rest.next() {
            Some(c) => {
                assert(chars@.push(c) + rest.remaining() =~= text@);
                chars.push(c);
            },
            None => {
                assert(chars@ =~= text@);
                break ;
            },
        }
    }
    chars
}

/// What the name of a project file ends with: a dot and the extension.
pub open spec fn file_name_ending() -> Seq<char> {
    seq!['.'] + PROJECT_FILE_EXTENSION@
}

/// The name of the file that holds the project of the given name: the name,
/// a dot and the extension.
pub open spec fn file_name_of(project_name: Seq<char>) -> Seq<char> {
    project_name + file_name_ending()
}

/// Whether a file of this name holds a project: the name ends with a dot and
/// the extension, and something stands before them.
pub open spec fn is_project_file_name(file_name: Seq<char>) -> bool {
    &&& file_name.len() > file_name_ending().len()
    &&& file_name.subrange(file_name.len() - file_name_ending().len(), file_name.len() as int)
        == file_name_ending()
}

/// The file of a project that has a name is named as the file of a project,
/// and a file named so is the file of the project whose name is what stands
/// before the ending.
pub proof fn lemma_project_files_are_named_after_projects(text: Seq<char>)
    ensures
        text.len() > 0 ==> is_project_file_name(file_name_of(text)),
        is_project_file_name(text) ==> text == file_name_of(
            text.subrange(0, text.len() - file_name_ending().len()),
        ),
        is_project_file_name(text) ==> text.len() - file_name_ending().len() > 0,
{
    let ending = file_name_ending();
    if text.len() > 0 {
        let name = file_name_of(text);
        assert(name.subrange(name.len() - ending.len(), name.len() as int) =~= ending);
    }
    if is_project_file_name(text) {
        let cut = text.len() - ending.len();
        assert(text =~= text.subrange(0, cut) + text.subrange(cut, text.len() as int));
    }
}

/// The name of the file that holds the project of the given name.
pub fn project_file_name(project_name: &str) -> (file_name: String)
    ensures
        file_name@ == file_name_of(project_name@),
{
    let mut file_name = String::from_str(project_name);
    file_name.push('.');
    file_name.append(PROJECT_FILE_EXTENSION);
    assert(file_name@ =~= file_name_of(project_name@));
    file_name
}

/// Whether a file of this name holds a project.
pub fn is_project_file(file_name: &str) -> (holds: bool)
    ensures
        holds == is_project_file_name(file_name@),
{
    let name = characters(file_name);
    let mut ending: Vec<char> = Vec::new();
    ending.push('.');
    let mut extension = characters(PROJECT_FILE_EXTENSION);
    ending.append(&mut extension);
    assert(ending@ =~= file_name_ending());
    if name.len() <= ending.len() {
        return false;
    }
    let start = name.len() - ending.len();
    let mut i: usize = 0;
    while i < ending.len()
        invariant
            i <= ending.len(),
            start + ending.len() == name.len(),
            name@ == file_name@,
            ending@ == file_name_ending(),
            forall|j: int| 0 <= j < i ==> name@[start + j] == ending@[j],
        decreases ending.len() - i,
    {
        if name[start + i] != ending[i] {
            assert(name@.subrange(start as int, name@.len() as int)[i as int] != ending@[i as int]);
            return false;
        }
        i += 1;
    }
    assert(name@.subrange(start as int, name@.len() as int) =~= ending@);
    true
}

/// The words of a text: what stands between its spaces. A text without a
/// space is one word, and between two spaces in a row stands an empty word.
pub open spec fn words_of(text: Seq<char>) -> Seq<Seq<char>>
    decreases text.len(),
{
    if text.len() == 0 {
        seq![Seq::empty()]
    } else {
        let before = words_of(text.drop_last());
        if text.last() == ' ' {
            before.push(Seq::empty())
        } else {
            before.drop_last().push(before.last().push(text.last()))
        }
    }
}

/// The number of characters that a line may hold before it is broken: the
/// width less the four characters that the mark of the selected entry
/// takes, and nothing where the width is less than that.
pub open spec fn line_limit(wrap_at_length: u32) -> int {
    if wrap_at_length >= 4 {
        wrap_at_length - 4
    } else {
        0
    }
}

/// The words laid out in lines, and the length of the last line.
///
/// Each word is counted with one character more, for what stands before it.
/// A word that brings the line to the limit starts a new line: a line break
/// stands before it, and the line counts the characters of the word. Any
/// other word goes on the line: a space stands before it.
pub open spec fn laid_out(words: Seq<Seq<char>>, limit: int) -> (Seq<char>, int)
    decreases words.len(),
{
    if words.len() == 0 {
        (Seq::empty(), 0)
    } else {
        let (text, line) = laid_out(words.drop_last(), limit);
        let word = words.last();
        if line + word.len() + 1 >= limit {
            (text.push('\n') + word, word.len() as int)
        } else {
            (text.push(' ') + word, line + word.len() + 1)
        }
    }
}

/// The text wrapped to the given width.
pub open spec fn wrapped(text: Seq<char>, wrap_at_length: u32) -> Seq<char> {
    laid_out(words_of(text), line_limit(wrap_at_length)).0
}

/// A text is never without a word, and the last line is never longer than
/// the words on it with one character more for each.
proof fn lemma_words_and_lines(text: Seq<char>, limit: int)
    ensures
        words_of(text).len() > 0,
        words_of(text).last().len() <= text.len(),
        0 <= laid_out(words_of(text).drop_last(), limit).1 <= text.len() - words_of(
            text,
        ).last().len(),
    decreases text.len(),
{
    if text.len() > 0 {
        lemma_words_and_lines(text.drop_last(), limit);
        let before = words_of(text.drop_last());
        if text.last() == ' ' {
            assert(before.push(Seq::empty()).drop_last() =~= before);
            assert(before =~= before.drop_last().push(before.last()));
        } else {
            assert(before.drop_last().push(before.last().push(text.last())).drop_last()
                =~= before.drop_last());
        }
    } else {
        assert(seq![Seq::<char>::empty()].drop_last() =~= Seq::<Seq<char>>::empty());
    }
}

/// Appends one word to the lines: see `laid_out`.
fn place_word(lines: &mut String, line: usize, word: &Vec<char>, limit: u32) -> (next_line: usize)
    ensures
        ({
            let (text, length) = if line + word@.len() + 1 >= limit {
                (old(lines)@.push('\n') + word@, word@.len() as int)
            } else {
                (old(lines)@.push(' ') + word@, line + word@.len() + 1)
            };
            final(lines)@ == text && next_line == length
        }),
{
    let breaks = match line.checked_add(word.len()) {
        Some(sum) => match sum.checked_add(1) {
            Some(grown) => grown >= limit as usize,
            None => true,
        },
        None => true,
    };
    let next_line = if breaks {
        lines.push('\n');
        word.len()
    } else {
        lines.push(' ');
        line + word.len() + 1
    };
    let ghost start = lines@;
    let mut i: usize = 0;
    while i < word.len()
        invariant
            i <= word.len(),
            lines@ == start + word@.take(i as int),
        decreases word.len() - i,
    {
        lines.push(word[i]);
        assert(start + word@.take(i + 1) =~= (start + word@.take(i as int)).push(word@[i as int]));
        i += 1;
    }
    assert(word@.take(i as int) =~= word@);
    next_line
}

/// Wraps a text to a width, for a list whose selected entry is marked.
/// Every line of the result but the first starts with a line break, and the
/// first starts with a space or a line break: see `laid_out`.
pub fn wrap(string_to_wrap: String, wrap_at_length: u32) -> (lines: String)
    ensures
        lines@ == wrapped(string_to_wrap@, wrap_at_length),
{
    let text = characters(string_to_wrap.as_str());
    let limit: u32 = if wrap_at_length >= 4 {
        wrap_at_length - 4
    } else {
        0
    };
    let mut lines = String::new();
    let mut line: usize = 0;
    let mut word: Vec<char> = Vec::new();
    let mut i: usize = 0;
    proof {
        lemma_words_and_lines(text@.take(0), limit as int);
        assert(text@.take(0) =~= Seq::empty());
        assert(words_of(text@.take(0)).drop_last() =~= Seq::empty());
    }
    while i < text.len()
        invariant
            i <= text.len(),
            limit == line_limit(wrap_at_length),
            words_of(text@.take(i as int)).last() == word@,
            laid_out(words_of(text@.take(i as int)).drop_last(), limit as int) == (
                lines@,
                line as int,
            ),
        decreases text.len() - i,
    {
        let ghost before = text@.take(i as int);
        let ghost after = text@.take(i + 1);
        proof {
            assert(after.drop_last() =~= before);
            lemma_words_and_lines(before, limit as int);
            lemma_words_and_lines(after, limit as int);
        }
        if text[i] == ' ' {
            proof {
                assert(words_of(after).drop_last() =~= words_of(before));
                assert(words_of(before) =~= words_of(before).drop_last().push(word@));
                assert(words_of(before).drop_last().push(word@).drop_last() =~= words_of(
                    before,
                ).drop_last());
            }
            line = place_word(&mut lines, line, &word, limit);
            word = Vec::new();
        } else {
            word.push(text[i]);
            proof {
                assert(words_of(after).drop_last() =~= words_of(before).drop_last());
            }
        }
        i += 1;
    }
    proof {
        assert(text@.take(i as int) =~= text@);
        lemma_words_and_lines(text@, limit as int);
        assert(words_of(text@) =~= words_of(text@).drop_last().push(word@));
        assert(words_of(text@).drop_last().push(word@).drop_last() =~= words_of(
            text@,
        ).drop_last());
    }
    let _ = place_word(&mut lines, line, &word, limit);
    lines
}

} // verus!
