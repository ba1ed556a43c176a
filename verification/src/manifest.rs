use vstd::prelude::*;
use vstd::string::StringExecFns;
use crate::title::song_list;

verus! {

/// The text of a manifest: the titles in order, a line feed between each two,
/// nothing before the first and nothing behind the last.
pub open spec fn joined_lines(titles: Seq<Seq<char>>) -> Seq<char>
    decreases titles.len(),
{
    if titles.len() == 0 {
        Seq::empty()
    } else if titles.len() == 1 {
        titles[0]
    } else {
        joined_lines(titles.drop_last()) + seq!['\n'] + titles.last()
    }
}

/// The text of the manifest of `songs`: one title per line, and no line feed
/// behind the last.
pub fn manifest_text(songs: &Vec<String>) -> (text: String)
    ensures
        text@ == joined_lines(song_list(songs@)),
{
    let mut text = String::new();
    let ghost titles = song_list(songs@);
    let mut i: usize = 0;
    assert(titles.take(0) =~= Seq::<Seq<char>>::empty());
    while i < songs.len()
        invariant
            i <= songs.len(),
            titles == song_list(songs@),
            text@ == joined_lines(titles.take(i as int)),
        decreases songs.len() - i,
    {
        let ghost upto = titles.take(i + 1);
        proof {
            assert(upto.drop_last() =~= titles.take(i as int));
            assert(upto.last() == songs@[i as int]@);
        }
        if i > 0 {
            text.push('\n');
            assert(text@ =~= joined_lines(titles.take(i as int)) + seq!['\n']);
        } else {
            assert(upto[0] == songs@[i as int]@);
            assert(Seq::<char>::empty() + upto[0] =~= upto[0]);
        }
        text.append(songs[i].as_str());
        i += 1;
    }
    assert(titles.take(i as int) =~= titles);
    text
}

} // verus!
