use crate::model::Workspace;
use vstd::prelude::*;

verus! {

/// The client's configuration: the workspaces to sign in to.
pub struct Config {
    pub workspaces: Vec<Workspace>,
}

/// The text made of `lines`, each one followed by a line end.
pub open spec fn lines_text(lines: Seq<Seq<char>>) -> Seq<char>
    decreases lines.len(),
{
    if lines.len() == 0 {
        Seq::<char>::empty()
    } else {
        lines_text(lines.drop_last()) + lines.last() + seq!['\n']
    }
}

/// The configuration text rebuilt from the lines read from the file: each
/// line followed by a line end.
pub fn config_buffer(lines: &Vec<String>) -> (buffer: String)
    ensures
        buffer@ == lines_text(lines@.map_values(|line: String| line@)),
{
    let ghost views = lines@.map_values(|line: String| line@);
    let mut buffer = String::new();
    let n = lines.len();
    assert(views.take(0) =~= Seq::<Seq<char>>::empty());
    for i in 0..n
        invariant
            n == lines@.len(),
            views == lines@.map_values(|line: String| line@),
            buffer@ == lines_text(views.take(i as int)),
    {
        buffer.append(lines[i].as_str());
        buffer.append("\n");
        proof {
            reveal_strlit("\n");
        }
        assert(views.take(i + 1).drop_last() =~= views.take(i as int));
    }
    assert(views.take(n as int) =~= views);
    buffer
}

/// One more line read adds that line and a line end at the end of the text,
/// whatever came before.
pub proof fn lemma_lines_text_push(lines: Seq<Seq<char>>, line: Seq<char>)
    ensures
        lines_text(lines.push(line)) == lines_text(lines) + line + seq!['\n'],
{
    assert(lines.push(line).drop_last() =~= lines);
}

/// The text of two runs of lines one after the other is the text of the
/// first run followed by the text of the second: no line is lost, reordered
/// or changed.
pub proof fn lemma_lines_text_concat(first: Seq<Seq<char>>, second: Seq<Seq<char>>)
    ensures
        lines_text(first + second) == lines_text(first) + lines_text(second),
    decreases second.len(),
{
    if second.len() == 0 {
        assert(first + second =~= first);
        assert(lines_text(first) + lines_text(second) =~= lines_text(first));
    } else {
        let rest = second.drop_last();
        lemma_lines_text_concat(first, rest);
        assert((first + second).drop_last() =~= first + rest);
        assert((first + second).last() == second.last());
        assert(lines_text(first + second) =~= lines_text(first) + lines_text(second));
    }
}

/// The text of one line is that line followed by a line end.
pub proof fn lemma_lines_text_single(line: Seq<char>)
    ensures
        lines_text(seq![line]) == line + seq!['\n'],
{
    assert(seq![line].drop_last() =~= Seq::<Seq<char>>::empty());
    assert(lines_text(Seq::<Seq<char>>::empty()) == Seq::<char>::empty());
    assert(seq![line].last() == line);
    assert(lines_text(seq![line]) =~= line + seq!['\n']);
}

} // verus!
