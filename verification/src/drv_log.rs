//! The log of a derivation as a viewer shows it: chunks arrive one by
//! one, and the lines of all of them are shown.

use crate::text::{join2, join_lines, joined, lines_of, replace_spaces, spaces_replaced, split_lines,
    texts};
use vstd::prelude::*;

verus! {

/// The chunks of the log that have arrived, in order.
#[derive(Debug, PartialEq, Eq)]
pub struct Model {
    log: Vec<String>,
}

/// What reaches the viewer.
#[derive(Debug, PartialEq, Eq)]
pub enum Msg {
    Chunk(String),
}

impl Clone for Msg {
    fn clone(&self) -> (copy: Self)
        ensures
            copy == *self,
    {
        match self {
            Msg::Chunk(chunk) => Msg::Chunk(chunk.clone()),
        }
    }
}

impl View for Model {
    type V = Seq<Seq<char>>;

    closed spec fn view(&self) -> Seq<Seq<char>> {
        texts(self.log@)
    }
}

/// The space that a browser does not collapse.
pub const HARD_SPACE: char = '\u{a0}';

/// The address from which the log of `drv` is streamed.
pub open spec fn log_url(api_url: Seq<char>, drv: Seq<char>) -> Seq<char> {
    api_url + "/drv-log"@ + drv
}

/// The lines that the viewer shows: the chunks are put together with a
/// line break between each two and cut at every line break, and in each
/// line the spaces are made hard.
pub open spec fn shown(chunks: Seq<Seq<char>>) -> Seq<Seq<char>> {
    lines_of(joined(chunks)).map_values(|line: Seq<char>| spaces_replaced(line, HARD_SPACE))
}

/// The address from which the log of `drv` is streamed.
pub fn url(api_url: &str, drv: &str) -> (url: String)
    ensures
        url@ == log_url(api_url@, drv@),
{
    let head = join2(api_url, "/drv-log");
    join2(head.as_str(), drv)
}

/// A viewer to which nothing has arrived.
pub fn init() -> (model: Model)
    ensures
        model@ == Seq::<Seq<char>>::empty(),
{
    let model = Model { log: Vec::new() };
    assert(model@ =~= Seq::empty());
    model
}

/// Takes in what has arrived: a chunk is put after those before it.
pub fn update(msg: Msg, model: &mut Model)
    ensures
        match msg {
            Msg::Chunk(chunk) => final(model)@ == old(model)@.push(chunk@),
        },
{
    match msg {
        Msg::Chunk(chunk) => {
            model.log.push(chunk);
            assert(model@ =~= old(model)@.push(chunk@));
        },
    }
}

/// The lines that the viewer shows.
pub fn view(model: &Model) -> (lines: Vec<String>)
    ensures
        texts(lines@) == shown(model@),
{
    let text = join_lines(&model.log);
    let raw = split_lines(text.as_str());
    let mut lines: Vec<String> = Vec::new();
    let mut i: usize = 0;
    while i < raw.len()
        invariant
            i <= raw.len(),
            texts(raw@) == lines_of(joined(model@)),
            lines@.len() == i,
            forall|k: int|
                0 <= k < i ==> (#[trigger] lines@[k])@ == spaces_replaced(raw@[k]@, HARD_SPACE),
        decreases raw.len() - i,
    {
        lines.push(replace_spaces(raw[i].as_str(), HARD_SPACE));
        i = i + 1;
    }
    proof {
        assert(texts(lines@).len() == shown(model@).len());
        assert forall|k: int| 0 <= k < lines@.len() implies texts(lines@)[k] == shown(
            model@,
        )[k] by {
            assert(texts(raw@)[k] == raw@[k]@);
        }
        assert(texts(lines@) =~= shown(model@));
    }
    lines
}

} // verus!
