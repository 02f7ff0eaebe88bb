//! Text building blocks shared by the formatters and the router.

use vstd::prelude::*;
use vstd::std_specs::iter::IteratorSpec;
use vstd::string::*;

verus! {

/// The character that stands for one decimal digit.
pub open spec fn digit(value: nat) -> char {
    if value == 0 {
        '0'
    } else if value == 1 {
        '1'
    } else if value == 2 {
        '2'
    } else if value == 3 {
        '3'
    } else if value == 4 {
        '4'
    } else if value == 5 {
        '5'
    } else if value == 6 {
        '6'
    } else if value == 7 {
        '7'
    } else if value == 8 {
        '8'
    } else {
        '9'
    }
}

/// A number written in base ten, without leading zeros.
pub open spec fn decimal(value: nat) -> Seq<char>
    decreases value,
{
    if value < 10 {
        seq![digit(value)]
    } else {
        decimal(value / 10).push(digit(value % 10))
    }
}

/// The first `count` characters of a text, or all of it where it is shorter.
pub open spec fn prefix(text: Seq<char>, count: nat) -> Seq<char> {
    if count < text.len() {
        text.take(count as int)
    } else {
        text
    }
}

/// How many characters stand before the first line feed of a text.
pub open spec fn line_length(text: Seq<char>) -> nat
    decreases text.len(),
{
    if text.len() == 0 || text[0] == '\n' {
        0
    } else {
        1 + line_length(text.drop_first())
    }
}

/// A text up to, and without, its first line feed.
pub open spec fn first_line(text: Seq<char>) -> Seq<char> {
    text.take(line_length(text) as int)
}

/// The parts of a text in order, with a separator between neighbours.
pub open spec fn join(parts: Seq<Seq<char>>, separator: Seq<char>) -> Seq<char>
    decreases parts.len(),
{
    if parts.len() == 0 {
        Seq::empty()
    } else if parts.len() == 1 {
        parts[0]
    } else {
        join(parts.drop_last(), separator) + separator + parts.last()
    }
}

/// The views of a list of strings.
pub open spec fn views(parts: Seq<String>) -> Seq<Seq<char>> {
    parts.map_values(|part: String| part@)
}

/// A line is never longer than its text and holds no line feed; it ends at the
/// end of the text or in front of a line feed.
pub proof fn lemma_line_length(text: Seq<char>)
    ensures
        line_length(text) <= text.len(),
        forall|i: int| 0 <= i < line_length(text) ==> text[i] != '\n',
        line_length(text) < text.len() ==> text[line_length(text) as int] == '\n',
    decreases text.len(),
{
    if text.len() == 0 || text[0] == '\n' {
    } else {
        let rest = text.drop_first();
        lemma_line_length(rest);
        assert forall|i: int| 0 <= i < line_length(text) implies text[i] != '\n' by {
            if i > 0 {
                assert(text[i] == rest[i - 1]);
            }
        }
        if line_length(text) < text.len() {
            assert(text[line_length(text) as int] == rest[line_length(rest) as int]);
        }
    }
}

/// The position of the first line feed is the line's length.
pub proof fn lemma_line_ends_at(text: Seq<char>, end: int)
    requires
        0 <= end <= text.len(),
        forall|i: int| 0 <= i < end ==> text[i] != '\n',
        end < text.len() ==> text[end] == '\n',
    ensures
        line_length(text) == end,
{
    lemma_line_length(text);
    let found = line_length(text) as int;
    if found < end {
        assert(text[found] == '\n');
    } else if end < found {
        assert(text[end] == '\n');
    }
}

fn digit_text(value: u64) -> (text: &'static str)
    requires
        value < 10,
    ensures
        text@ == seq![digit(value as nat)],
{
    proof {
        reveal_strlit("0");
        reveal_strlit("1");
        reveal_strlit("2");
        reveal_strlit("3");
        reveal_strlit("4");
        reveal_strlit("5");
        reveal_strlit("6");
        reveal_strlit("7");
        reveal_strlit("8");
        reveal_strlit("9");
    }
    let text = if value == 0 {
        "0"
    } else if value == 1 {
        "1"
    } else if value == 2 {
        "2"
    } else if value == 3 {
        "3"
    } else if value == 4 {
        "4"
    } else if value == 5 {
        "5"
    } else if value == 6 {
        "6"
    } else if value == 7 {
        "7"
    } else if value == 8 {
        "8"
    } else {
        "9"
    };
    assert(text@ =~= seq![digit(value as nat)]);
    text
}

/// Writes a number in base ten.
pub fn decimal_string(value: u64) -> (text: String)
    ensures
        text@ == decimal(value as nat),
    decreases value,
{
    if value < 10 {
        digit_text(value).to_owned()
    } else {
        let mut text = decimal_string(value / 10);
        text.append(digit_text(value % 10));
        text
    }
}

/// Whether two texts hold the same characters.
pub fn same_text(left: &str, right: &str) -> (same: bool)
    ensures
        same == (left@ == right@),
{
    let left_owned = left.to_owned();
    let right_owned = right.to_owned();
    left_owned == right_owned
}

/// The first `count` characters of a text, or all of it where it is shorter.
pub fn prefix_of<'a>(text: &'a str, count: usize) -> (head: &'a str)
    ensures
        head@ == prefix(text@, count as nat),
{
    let length = text.unicode_len();
    if count < length {
        let head = text.substring_char(0, count);
        assert(head@ =~= text@.take(count as int));
        head
    } else {
        text
    }
}

/// A text up to, and without, its first line feed.
pub fn first_line_of<'a>(text: &'a str) -> (line: &'a str)
    ensures
        line@ == first_line(text@),
{
    let length = text.unicode_len();
    let mut rest = text.chars();
    let mut end: usize = 0;
    loop
        invariant_except_break
            end + rest.remaining().len() == text@.len(),
            rest.remaining() == text@.skip(end as int),
        invariant
            length == text@.len(),
            forall|i: int| 0 <= i < end ==> text@[i] != '\n',
        ensures
            end <= text@.len(),
            forall|i: int| 0 <= i < end ==> text@[i] != '\n',
            end < text@.len() ==> text@[end as int] == '\n',
        decreases length - end,
    {
        let ghost before = rest.remaining();
        match rest.next() {
            Some(character) => {
                assert(character == text@[end as int]);
                if character == '\n' {
                    break ;
                }
                assert(before.drop_first() =~= text@.skip(end + 1));
                end = end + 1;
            },
            None => {
                break ;
            },
        }
    }
    proof {
        lemma_line_ends_at(text@, end as int);
    }
    let line = text.substring_char(0, end);
    assert(line@ =~= text@.take(end as int));
    line
}

/// Joins texts with a separator between neighbours.
pub fn join_strings(parts: &Vec<String>, separator: &str) -> (text: String)
    ensures
        text@ == join(views(parts@), separator@),
{
    let mut text = String::new();
    let mut index: usize = 0;
    while index < parts.len()
        invariant
            index <= parts.len(),
            text@ == join(views(parts@).take(index as int), separator@),
        decreases parts.len() - index,
    {
        let ghost done = views(parts@).take(index as int);
        let ghost next = views(parts@).take(index + 1);
        assert(next.drop_last() =~= done);
        assert(next.last() == parts@[index as int]@);
        if index > 0 {
            text.append(separator);
        }
        text.append(parts[index].as_str());
        assert(text@ =~= join(next, separator@)) by {
            if index == 0 {
                assert(done.len() == 0);
            }
        }
        index = index + 1;
    }
    assert(views(parts@).take(parts.len() as int) =~= views(parts@));
    text
}

} // verus!
