use vstd::prelude::*;
use vstd::string::StringExecFns;
use crate::text::{from_chars, to_chars};

verus! {

/// `pat` stands in `s` at position `i`.
pub open spec fn occurs_at(s: Seq<char>, pat: Seq<char>, i: int) -> bool {
    &&& 0 <= i
    &&& i + pat.len() <= s.len()
    &&& s.subrange(i, i + pat.len()) == pat
}

/// `pat` is not empty and stands somewhere in `s`.
pub open spec fn has_fragment(s: Seq<char>, pat: Seq<char>) -> bool {
    pat.len() > 0 && exists|i: int| occurs_at(s, pat, i)
}

/// `s` without the occurrences of `pat`: the text is read once from the left,
/// an occurrence that starts at the reading position is dropped whole and
/// reading goes on behind it, so the occurrences dropped do not overlap. An
/// empty `pat` removes nothing.
pub open spec fn remove_all(s: Seq<char>, pat: Seq<char>) -> Seq<char>
    decreases s.len(),
{
    if pat.len() == 0 || s.len() == 0 {
        s
    } else if occurs_at(s, pat, 0) {
        remove_all(s.skip(pat.len() as int), pat)
    } else {
        seq![s[0]] + remove_all(s.skip(1), pat)
    }
}

/// Whether `pat` stands in `s` at position `i`.
fn matches_at(s: &Vec<char>, pat: &Vec<char>, i: usize) -> (b: bool)
    requires
        i <= s.len(),
    ensures
        b == occurs_at(s@, pat@, i as int),
{
    if pat.len() > s.len() - i {
        return false;
    }
    let mut k: usize = 0;
    while k < pat.len()
        invariant
            i <= s.len(),
            pat.len() <= s.len() - i,
            k <= pat.len(),
            forall|j: int| 0 <= j < k ==> s@[i + j] == pat@[j],
        decreases pat.len() - k,
    {
        if s[i + k] != pat[k] {
            assert(s@.subrange(i as int, i + pat.len())[k as int] == s@[i + k]);
            return false;
        }
        k += 1;
    }
    assert(s@.subrange(i as int, i + pat.len()) =~= pat@);
    true
}

/// Removes the occurrences of `pat` from `s`, as `remove_all` states.
pub fn remove_fragment(s: &Vec<char>, pat: &Vec<char>) -> (out: Vec<char>)
    ensures
        out@ == remove_all(s@, pat@),
{
    let mut out: Vec<char> = Vec::new();
    if pat.len() == 0 {
        let mut j: usize = 0;
        while j < s.len()
            invariant
                j <= s.len(),
                out@ == s@.take(j as int),
            decreases s.len() - j,
        {
            out.push(s[j]);
            j += 1;
        }
        assert(out@ =~= s@);
        return out;
    }
    let mut i: usize = 0;
    assert(s@.skip(0) =~= s@);
    while i < s.len()
        invariant
            i <= s.len(),
            pat.len() > 0,
            out@ + remove_all(s@.skip(i as int), pat@) == remove_all(s@, pat@),
        decreases s.len() - i,
    {
        let ghost rest = s@.skip(i as int);
        let hit = matches_at(s, pat, i);
        proof {
            if i + pat.len() <= s.len() {
                assert(rest.subrange(0, pat.len() as int) =~= s@.subrange(
                    i as int,
                    i + pat.len(),
                ));
            }
            assert(occurs_at(rest, pat@, 0) == occurs_at(s@, pat@, i as int));
        }
        if hit {
            proof {
                assert(rest.skip(pat.len() as int) =~= s@.skip(i + pat.len()));
            }
            i += pat.len();
        } else {
            proof {
                assert(rest.skip(1) =~= s@.skip(i + 1));
                assert(out@.push(s@[i as int]) + remove_all(s@.skip(i + 1), pat@) =~= out@
                    + (seq![rest[0]] + remove_all(rest.skip(1), pat@)));
            }
            out.push(s[i]);
            i += 1;
        }
    }
    assert(s@.skip(i as int) =~= Seq::<char>::empty());
    assert(out@ + Seq::<char>::empty() =~= out@);
    out
}

/// The fragments that cleanup removes from a title, in the order in which it
/// removes them.
pub open spec fn denylist() -> Seq<Seq<char>> {
    seq![
        "\""@,
        "(Official Audio)"@,
        "(Official Music)"@,
        "(Official Video)"@,
        "(Official Music Video)"@,
        "(Free Download on SoundCloud)"@,
        "[Official Audio]"@,
        "[Official Video]"@,
        "[Official Video 2019]"@,
        "(videoclip)"@,
        "[OFFICIAL MUSIC VIDEO]"@,
        ".wmv"@,
        "(Lyric Video)"@,
        "(lyrics)"@,
        "(Music Video)"@,
    ]
}

/// `s` after the fragments of `pats` were removed one after the other, the
/// first of `pats` first, each from what the one before it left.
pub open spec fn remove_each(s: Seq<char>, pats: Seq<Seq<char>>) -> Seq<char>
    decreases pats.len(),
{
    if pats.len() == 0 {
        s
    } else {
        remove_all(remove_each(s, pats.drop_last()), pats.last())
    }
}

/// The cleaned form of a title: every fragment of the denylist removed, in the
/// denylist's order. Matching is exact and case-sensitive; what surrounds a
/// removed fragment, white space included, stays.
pub open spec fn cleaned(s: Seq<char>) -> Seq<char> {
    remove_each(s, denylist())
}

/// No fragment of the denylist stands anywhere in `s`.
pub open spec fn is_clean(s: Seq<char>) -> bool {
    forall|k: int| 0 <= k < denylist().len() ==> !has_fragment(s, #[trigger] denylist()[k])
}

/// The denylist as values.
pub fn denylist_fragments() -> (list: Vec<&'static str>)
    ensures
        list@.len() == denylist().len(),
        forall|k: int| 0 <= k < list@.len() ==> (#[trigger] list@[k])@ == denylist()[k],
{
    vec![
        "\"",
        "(Official Audio)",
        "(Official Music)",
        "(Official Video)",
        "(Official Music Video)",
        "(Free Download on SoundCloud)",
        "[Official Audio]",
        "[Official Video]",
        "[Official Video 2019]",
        "(videoclip)",
        "[OFFICIAL MUSIC VIDEO]",
        ".wmv",
        "(Lyric Video)",
        "(lyrics)",
        "(Music Video)",
    ]
}

/// Cleans a title for use as a search term: removes every occurrence of each
/// fragment of the denylist. Nothing is trimmed.
pub fn clean_title(title: &str) -> (clean: String)
    ensures
        clean@ == cleaned(title@),
{
    let fragments = denylist_fragments();
    let mut current = to_chars(title);
    let mut k: usize = 0;
    assert(denylist().take(0) =~= Seq::<Seq<char>>::empty());
    while k < fragments.len()
        invariant
            k <= fragments.len(),
            fragments@.len() == denylist().len(),
            forall|j: int| 0 <= j < fragments@.len() ==> (#[trigger] fragments@[j])@ == denylist()[j],
            current@ == remove_each(title@, denylist().take(k as int)),
        decreases fragments.len() - k,
    {
        let pat = to_chars(fragments[k]);
        current = remove_fragment(&current, &pat);
        proof {
            let upto = denylist().take(k + 1);
            assert(upto.drop_last() =~= denylist().take(k as int));
            assert(upto.last() == denylist()[k as int]);
        }
        k += 1;
    }
    assert(denylist().take(k as int) =~= denylist());
    from_chars(&current)
}

/// Removing a fragment from a text in which it does not stand changes nothing.
pub proof fn lemma_remove_absent(s: Seq<char>, pat: Seq<char>)
    requires
        !has_fragment(s, pat),
    ensures
        remove_all(s, pat) == s,
    decreases s.len(),
{
    if pat.len() > 0 && s.len() > 0 {
        assert(!occurs_at(s, pat, 0));
        let rest = s.skip(1);
        assert forall|i: int| !occurs_at(rest, pat, i) by {
            if occurs_at(rest, pat, i) {
                assert(s.subrange(i + 1, i + 1 + pat.len()) =~= rest.subrange(i, i + pat.len()));
                assert(occurs_at(s, pat, i + 1));
            }
        }
        lemma_remove_absent(rest, pat);
        assert(seq![s[0]] + rest =~= s);
    }
}

/// Removing several fragments from a text in which none of them stands
/// changes nothing.
pub proof fn lemma_remove_each_absent(s: Seq<char>, pats: Seq<Seq<char>>)
    requires
        forall|k: int| 0 <= k < pats.len() ==> !has_fragment(s, #[trigger] pats[k]),
    ensures
        remove_each(s, pats) == s,
    decreases pats.len(),
{
    if pats.len() > 0 {
        let front = pats.drop_last();
        assert forall|k: int| 0 <= k < front.len() implies !has_fragment(s, #[trigger] front[k]) by {
            assert(front[k] == pats[k]);
        }
        lemma_remove_each_absent(s, front);
        assert(pats.last() == pats[pats.len() - 1]);
        lemma_remove_absent(s, pats.last());
    }
}

/// Removal adds nothing: a character that does not stand in a text does not
/// stand in what removal leaves of it, which is no longer than the text.
pub proof fn lemma_remove_only_removes(s: Seq<char>, pat: Seq<char>, c: char)
    ensures
        remove_all(s, pat).len() <= s.len(),
        !s.contains(c) ==> !remove_all(s, pat).contains(c),
    decreases s.len(),
{
    if pat.len() > 0 && s.len() > 0 {
        if occurs_at(s, pat, 0) {
            let rest = s.skip(pat.len() as int);
            lemma_remove_only_removes(rest, pat, c);
            if rest.contains(c) {
                let i = choose|i: int| 0 <= i < rest.len() && rest[i] == c;
                assert(s[i + pat.len()] == c);
            }
        } else {
            let rest = s.skip(1);
            lemma_remove_only_removes(rest, pat, c);
            if rest.contains(c) {
                let i = choose|i: int| 0 <= i < rest.len() && rest[i] == c;
                assert(s[i + 1] == c);
            }
            let kept = seq![s[0]] + remove_all(rest, pat);
            if kept.contains(c) {
                let i = choose|i: int| 0 <= i < kept.len() && kept[i] == c;
                if i == 0 {
                    assert(s[0] == c);
                } else {
                    assert(remove_all(rest, pat)[i - 1] == c);
                }
            }
        }
    }
}

/// Removing a fragment of one character leaves no such character.
pub proof fn lemma_remove_single(s: Seq<char>, c: char)
    ensures
        !remove_all(s, seq![c]).contains(c),
    decreases s.len(),
{
    let pat = seq![c];
    if s.len() > 0 {
        if occurs_at(s, pat, 0) {
            lemma_remove_single(s.skip(1), c);
        } else {
            assert(s.subrange(0, 1) =~= seq![s[0]]);
            assert(s[0] != c) by {
                if s[0] == c {
                    assert(seq![s[0]] =~= pat);
                }
            }
            let rest = s.skip(1);
            lemma_remove_single(rest, c);
            let kept = seq![s[0]] + remove_all(rest, pat);
            if kept.contains(c) {
                let i = choose|i: int| 0 <= i < kept.len() && kept[i] == c;
                assert(i > 0);
                assert(remove_all(rest, pat)[i - 1] == c);
            }
        }
    }
}

/// Removing several fragments adds nothing either.
pub proof fn lemma_remove_each_only_removes(s: Seq<char>, pats: Seq<Seq<char>>, c: char)
    ensures
        remove_each(s, pats).len() <= s.len(),
        !s.contains(c) ==> !remove_each(s, pats).contains(c),
    decreases pats.len(),
{
    if pats.len() > 0 {
        lemma_remove_each_only_removes(s, pats.drop_last(), c);
        lemma_remove_only_removes(remove_each(s, pats.drop_last()), pats.last(), c);
    }
}

/// `remove_each` goes through the fragments from the first on: removing all
/// of them is removing the first and then the others from what is left.
pub proof fn lemma_remove_each_from_first(s: Seq<char>, pats: Seq<Seq<char>>)
    requires
        pats.len() > 0,
    ensures
        remove_each(s, pats) == remove_each(remove_all(s, pats[0]), pats.skip(1)),
    decreases pats.len(),
{
    if pats.len() == 1 {
        assert(pats.drop_last() =~= Seq::<Seq<char>>::empty());
        assert(pats.skip(1) =~= Seq::<Seq<char>>::empty());
        assert(remove_each(s, pats.drop_last()) == s);
    } else {
        let front = pats.drop_last();
        lemma_remove_each_from_first(s, front);
        assert(front[0] == pats[0]);
        assert(front.skip(1) =~= pats.skip(1).drop_last());
        assert(pats.skip(1).last() == pats.last());
    }
}

/// A cleaned title is no longer than the title and holds no quote character.
pub proof fn lemma_cleaned_has_no_quote(s: Seq<char>)
    ensures
        cleaned(s).len() <= s.len(),
        !cleaned(s).contains('\u{22}'),
{
    reveal_strlit("\"");
    let quote = denylist()[0];
    assert(quote =~= seq!['\u{22}']);
    let unquoted = remove_all(s, quote);
    lemma_remove_each_from_first(s, denylist());
    lemma_remove_single(s, '\u{22}');
    lemma_remove_each_only_removes(unquoted, denylist().skip(1), '\u{22}');
    lemma_remove_each_only_removes(s, denylist(), '\u{22}');
}

/// Cleanup leaves a clean title as it is, so cleaning it once more, or any
/// number of times, still gives the same title.
pub proof fn lemma_clean_title_is_fixed(s: Seq<char>)
    requires
        is_clean(s),
    ensures
        cleaned(s) == s,
        cleaned(cleaned(s)) == s,
{
    lemma_remove_each_absent(s, denylist());
}

/// The end of a channel name that marks an artist's auto-generated channel.
pub open spec fn topic_suffix() -> Seq<char> {
    "- Topic"@
}

/// What stands between the artist and the title in a normalized title.
pub open spec fn artist_separator() -> Seq<char> {
    " - "@
}

/// `s` ends with `suffix`.
pub open spec fn ends_with(s: Seq<char>, suffix: Seq<char>) -> bool {
    suffix.len() <= s.len() && occurs_at(s, suffix, s.len() - suffix.len())
}

/// White space, as Unicode defines it.
pub open spec fn is_white_space(c: char) -> bool {
    let u = c as u32;
    ||| 0x09 <= u <= 0x0D
    ||| u == 0x20
    ||| u == 0x85
    ||| u == 0xA0
    ||| u == 0x1680
    ||| 0x2000 <= u <= 0x200A
    ||| u == 0x2028
    ||| u == 0x2029
    ||| u == 0x202F
    ||| u == 0x205F
    ||| u == 0x3000
}

/// A character that is dropped from the end of an artist's name: white space
/// or a hyphen.
pub open spec fn is_trailing_separator(c: char) -> bool {
    is_white_space(c) || c == '-'
}

/// `s` without the trailing separators at its end.
pub open spec fn trim_end(s: Seq<char>) -> Seq<char>
    decreases s.len(),
{
    if s.len() > 0 && is_trailing_separator(s.last()) {
        trim_end(s.drop_last())
    } else {
        s
    }
}

/// The artist that a channel name ending in the topic suffix stands for: what
/// precedes the suffix, without trailing separators.
pub open spec fn artist_of(channel: Seq<char>) -> Seq<char>
    recommends
        ends_with(channel, topic_suffix()),
{
    trim_end(channel.take(channel.len() - topic_suffix().len()))
}

/// The normalized title of a playlist entry. An entry without a channel name
/// stands for removed media and has none. Where the channel name ends with the
/// topic suffix, it is the artist, the separator and the title; else the title
/// as it is.
pub open spec fn normalized_title(title: Seq<char>, channel: Option<Seq<char>>) -> Option<
    Seq<char>,
> {
    match channel {
        None => None,
        Some(name) => if ends_with(name, topic_suffix()) {
            Some(artist_of(name) + artist_separator() + title)
        } else {
            Some(title)
        },
    }
}

/// For a channel name made of `prefix` and the topic suffix, the normalized
/// title is `prefix` without its trailing separators, the separator and the
/// title.
pub proof fn lemma_topic_channel(title: Seq<char>, prefix: Seq<char>)
    ensures
        normalized_title(title, Some(prefix + topic_suffix())) == Some(
            trim_end(prefix) + artist_separator() + title,
        ),
{
    let name = prefix + topic_suffix();
    assert(name.subrange(name.len() - topic_suffix().len(), name.len() as int) =~= topic_suffix());
    assert(name.take(name.len() - topic_suffix().len()) =~= prefix);
}

/// The characters of an optional string slice.
pub open spec fn str_option_view(s: Option<&str>) -> Option<Seq<char>> {
    match s {
        Some(text) => Some(text@),
        None => None,
    }
}

/// The characters of an optional string.
pub open spec fn string_option_view(s: Option<String>) -> Option<Seq<char>> {
    match s {
        Some(text) => Some(text@),
        None => None,
    }
}

/// Whether `c` is dropped from the end of an artist's name.
pub fn trailing_separator(c: char) -> (b: bool)
    ensures
        b == is_trailing_separator(c),
{
    let u: u32 = c as u32;
    (0x09 <= u && u <= 0x0D) || u == 0x20 || u == 0x85 || u == 0xA0 || u == 0x1680 || (0x2000 <= u
        && u <= 0x200A) || u == 0x2028 || u == 0x2029 || u == 0x202F || u == 0x205F || u == 0x3000
        || c == '-'
}

/// The normalized title of a playlist entry with the title `title` and the
/// channel name `channel`, if the entry has one.
pub fn normalize_title(title: &str, channel: Option<&str>) -> (normalized: Option<String>)
    ensures
        string_option_view(normalized) == normalized_title(title@, str_option_view(channel)),
{
    let name = match channel {
        None => {
            return None;
        },
        Some(name) => to_chars(name),
    };
    let suffix = to_chars("- Topic");
    if suffix.len() > name.len() || !matches_at(&name, &suffix, name.len() - suffix.len()) {
        return Some(title.to_owned());
    }
    let ghost prefix = name@.take(name.len() - suffix.len());
    let mut end: usize = name.len() - suffix.len();
    assert(name@.take(end as int) =~= prefix);
    while end > 0 && trailing_separator(name[end - 1])
        invariant
            end <= name.len(),
            trim_end(name@.take(end as int)) == trim_end(prefix),
        decreases end,
    {
        assert(name@.take(end as int).drop_last() =~= name@.take(end - 1));
        end -= 1;
    }
    let mut out = String::new();
    let mut i: usize = 0;
    while i < end
        invariant
            i <= end <= name.len(),
            out@ == name@.take(i as int),
        decreases end - i,
    {
        out.push(name[i]);
        assert(name@.take(i as int).push(name@[i as int]) =~= name@.take(i + 1));
        i += 1;
    }
    out.append(" - ");
    out.append(title);
    Some(out)
}

/// A list of titles as plain values.
pub open spec fn song_list(songs: Seq<String>) -> Seq<Seq<char>> {
    songs.map_values(|song: String| song@)
}

/// The cleaned titles of a list, in the list's order.
pub open spec fn cleaned_list(songs: Seq<Seq<char>>) -> Seq<Seq<char>> {
    songs.map_values(|song: Seq<char>| cleaned(song))
}

/// Cleans every title of a list, as `clean_title` does, keeping the order.
pub fn clean_titles(songs: &Vec<String>) -> (clean: Vec<String>)
    ensures
        song_list(clean@) == cleaned_list(song_list(songs@)),
{
    let mut clean: Vec<String> = Vec::new();
    let mut i: usize = 0;
    while i < songs.len()
        invariant
            i <= songs.len(),
            song_list(clean@) == cleaned_list(song_list(songs@)).take(i as int),
        decreases songs.len() - i,
    {
        let title = clean_title(songs[i].as_str());
        let ghost before = song_list(clean@);
        clean.push(title);
        assert(song_list(clean@) =~= before.push(title@));
        assert(before.push(title@) =~= cleaned_list(song_list(songs@)).take(i + 1));
        i += 1;
    }
    assert(cleaned_list(song_list(songs@)).take(i as int) =~= cleaned_list(song_list(songs@)));
    clean
}

} // verus!
