//! Small verified helpers on strings.

use vstd::prelude::*;
use vstd::string::*;

verus! {

/// Whether two string slices hold the same characters.
pub fn str_eq(a: &str, b: &str) -> (same: bool)
    ensures
        same == (a@ == b@),
{
    a.to_owned() == b.to_owned()
}

/// The character of one decimal digit.
pub open spec fn digit_char(d: nat) -> char {
    if d == 0 {
        '0'
    } else if d == 1 {
        '1'
    } else if d == 2 {
        '2'
    } else if d == 3 {
        '3'
    } else if d == 4 {
        '4'
    } else if d == 5 {
        '5'
    } else if d == 6 {
        '6'
    } else if d == 7 {
        '7'
    } else if d == 8 {
        '8'
    } else {
        '9'
    }
}

/// The decimal notation of a natural number, without leading zeros.
pub open spec fn decimal(n: nat) -> Seq<char>
    decreases n,
{
    if n < 10 {
        seq![digit_char(n)]
    } else {
        decimal(n / 10).push(digit_char(n % 10))
    }
}

fn digit_str(d: u64) -> (text: &'static str)
    requires
        d < 10,
    ensures
        text@ == seq![digit_char(d as nat)],
{
    proof {
        reveal_strlit("0");
        reveal_strlit("1");
        reveal_strlit("2");
        reveal_strlit("3");
        reveal_strlit("4");
        reveal_strlit("5");
        reveal_strlit("6");
        reveal_strlit("7");
        reveal_strlit("8");
        reveal_strlit("9");
    }
    let text = if d == 0 {
        "0"
    } else if d == 1 {
        "1"
    } else if d == 2 {
        "2"
    } else if d == 3 {
        "3"
    } else if d == 4 {
        "4"
    } else if d == 5 {
        "5"
    } else if d == 6 {
        "6"
    } else if d == 7 {
        "7"
    } else if d == 8 {
        "8"
    } else {
        "9"
    };
    assert(text@ =~= seq![digit_char(d as nat)]);
    text
}

/// Writes a number in decimal notation.
pub fn u64_to_string(n: u64) -> (text: String)
    ensures
        text@ == decimal(n as nat),
    decreases n,
{
    if n < 10 {
        digit_str(n).to_owned()
    } else {
        let mut text = u64_to_string(n / 10);
        text.append(digit_str(n % 10));
        assert(text@ =~= decimal(n as nat));
        text
    }
}

/// The concatenation of two strings.
pub fn join2(a: &str, b: &str) -> (text: String)
    ensures
        text@ == a@ + b@,
{
    let mut text = a.to_owned();
    text.append(b);
    text
}

/// The concatenation of three strings.
pub fn join3(a: &str, b: &str, c: &str) -> (text: String)
    ensures
        text@ == a@ + b@ + c@,
{
    let mut text = a.to_owned();
    text.append(b);
    text.append(c);
    text
}

/// Appends one character to a string, by `String::push`, which puts the
/// character at the end and leaves the rest as it is.
#[verifier::external_body]
fn push_char(text: &mut String, c: char)
    ensures
        final(text)@ == old(text)@.push(c),
{
    text.push(c)
}

/// What each string of a list holds.
pub open spec fn texts(list: Seq<String>) -> Seq<Seq<char>> {
    list.map_values(|s: String| s@)
}

/// The lines of a text: what stands between its line breaks. A text
/// without a line break is one line, and so is the empty text.
pub open spec fn lines_of(text: Seq<char>) -> Seq<Seq<char>>
    decreases text.len(),
{
    if text.len() == 0 {
        seq![Seq::<char>::empty()]
    } else {
        let before = lines_of(text.drop_last());
        if text.last() == '\n' {
            before.push(Seq::<char>::empty())
        } else {
            before.update(before.len() - 1, before.last().push(text.last()))
        }
    }
}

/// The text made of the parts with a line break between each two.
pub open spec fn joined(parts: Seq<Seq<char>>) -> Seq<char>
    decreases parts.len(),
{
    if parts.len() == 0 {
        Seq::<char>::empty()
    } else if parts.len() == 1 {
        parts[0]
    } else {
        joined(parts.drop_last()).push('\n') + parts.last()
    }
}

/// A text has at least one line, one more than it has line breaks, and
/// no line holds a line break.
pub proof fn lemma_lines_of(text: Seq<char>)
    ensures
        lines_of(text).len() >= 1,
        lines_of(text).len() == 1 + text.filter(|c: char| c == '\n').len(),
        forall|i: int, j: int|
            0 <= i < lines_of(text).len() && 0 <= j < lines_of(text)[i].len() ==> lines_of(
                text,
            )[i][j] != '\n',
    decreases text.len(),
{
    reveal(Seq::filter);
    if text.len() > 0 {
        lemma_lines_of(text.drop_last());
    }
}

/// Putting the lines of a text together again, with a line break between
/// each two, gives the text.
pub proof fn lemma_split_then_join(text: Seq<char>)
    ensures
        joined(lines_of(text)) == text,
    decreases text.len(),
{
    if text.len() == 0 {
        assert(joined(lines_of(text)) =~= text);
    } else {
        let front = text.drop_last();
        lemma_split_then_join(front);
        lemma_lines_of(front);
        let before = lines_of(front);
        let now = lines_of(text);
        if text.last() == '\n' {
            assert(now.drop_last() =~= before);
            assert(joined(now) =~= joined(before).push('\n'));
            assert(front.push('\n') =~= text);
        } else {
            if before.len() == 1 {
                assert(joined(now) =~= before[0].push(text.last()));
            } else {
                assert(now.drop_last() =~= before.drop_last());
                assert(joined(now) =~= (joined(before.drop_last()).push('\n') + before.last()).push(
                    text.last(),
                ));
            }
            assert(front.push(text.last()) =~= text);
        }
    }
}

/// Cuts a text into its lines.
pub fn split_lines(text: &str) -> (lines: Vec<String>)
    ensures
        texts(lines@) == lines_of(text@),
{
    let mut lines: Vec<String> = Vec::new();
    let mut line = String::new();
    proof {
        assert(text@.take(0) =~= Seq::<char>::empty());
        assert(texts(lines@).push(line@) =~= lines_of(text@.take(0)));
    }
    for c in it: text.chars()
        invariant
            it.seq() == text@,
            texts(lines@).push(line@) == lines_of(text@.take(it.index() as int)),
    {
        proof {
            assert(text@.take(it.index() as int + 1).drop_last() =~= text@.take(
                it.index() as int,
            ));
            assert(text@.take(it.index() as int + 1).last() == c);
        }
        let ghost before = texts(lines@).push(line@);
        if c == '\n' {
            lines.push(line);
            line = String::new();
            proof {
                assert(texts(lines@).push(line@) =~= before.push(Seq::<char>::empty()));
            }
        } else {
            push_char(&mut line, c);
            proof {
                assert(texts(lines@).push(line@) =~= before.update(
                    before.len() - 1,
                    before.last().push(c),
                ));
            }
        }
    }
    proof {
        assert(text@.take(text@.len() as int) =~= text@);
    }
    let ghost before = texts(lines@).push(line@);
    lines.push(line);
    proof {
        assert(texts(lines@) =~= before);
    }
    lines
}

/// Puts the parts together, with a line break between each two.
pub fn join_lines(parts: &Vec<String>) -> (text: String)
    ensures
        text@ == joined(texts(parts@)),
{
    let mut text = String::new();
    let mut i: usize = 0;
    proof {
        assert(texts(parts@).take(0) =~= Seq::<Seq<char>>::empty());
    }
    while i < parts.len()
        invariant
            i <= parts.len(),
            text@ == joined(texts(parts@).take(i as int)),
        decreases parts.len() - i,
    {
        proof {
            let now = texts(parts@).take(i as int + 1);
            assert(now.drop_last() =~= texts(parts@).take(i as int));
            assert(now.last() == parts@[i as int]@);
            if i == 0 {
                assert(joined(now) =~= parts@[0]@);
            }
        }
        if i > 0 {
            push_char(&mut text, '\n');
        }
        text.append(parts[i].as_str());
        proof {
            assert(text@ =~= joined(texts(parts@).take(i as int + 1)));
        }
        i = i + 1;
    }
    proof {
        assert(texts(parts@).take(parts@.len() as int) =~= texts(parts@));
    }
    text
}

/// A text with each of its spaces replaced by `with`.
pub open spec fn spaces_replaced(text: Seq<char>, with: char) -> Seq<char> {
    text.map_values(
        |c: char|
            if c == ' ' {
                with
            } else {
                c
            },
    )
}

/// Replaces each space of a text by `with`.
pub fn replace_spaces(text: &str, with: char) -> (replaced: String)
    ensures
        replaced@ == spaces_replaced(text@, with),
{
    let mut replaced = String::new();
    for c in it: text.chars()
        invariant
            it.seq() == text@,
            replaced@ == spaces_replaced(text@.take(it.index() as int), with),
    {
        if c == ' ' {
            push_char(&mut replaced, with);
        } else {
            push_char(&mut replaced, c);
        }
        proof {
            assert(replaced@ =~= spaces_replaced(text@.take(it.index() as int + 1), with));
        }
    }
    proof {
        assert(text@.take(text@.len() as int) =~= text@);
    }
    replaced
}

} // verus!
