use vstd::prelude::*;
use crate::title::{normalize_title, normalized_title, song_list, string_option_view};

verus! {

/// One entry of a playlist page.
#[derive(Clone, Debug, PartialEq, Eq)]
pub struct PlaylistItem {
    /// The entry's title.
    pub title: String,
    /// The display name of the channel that owns the media; `None` where the
    /// media was removed or is unavailable.
    pub channel: Option<String>,
}

/// One page of a playlist: its entries in order, and the cursor of the next
/// page where there is one.
#[derive(Clone, Debug, PartialEq, Eq)]
pub struct Page {
    pub items: Vec<PlaylistItem>,
    pub next_cursor: Option<String>,
}

/// A playlist entry as plain values.
pub struct PlaylistItemView {
    pub title: Seq<char>,
    pub channel: Option<Seq<char>>,
}

/// A page as plain values.
pub struct PageView {
    pub items: Seq<PlaylistItemView>,
    pub next_cursor: Option<Seq<char>>,
}

impl View for PlaylistItem {
    type V = PlaylistItemView;

    open spec fn view(&self) -> PlaylistItemView {
        PlaylistItemView { title: self.title@, channel: string_option_view(self.channel) }
    }
}

/// The entries of a page as plain values.
pub open spec fn item_views(items: Seq<PlaylistItem>) -> Seq<PlaylistItemView> {
    items.map_values(|item: PlaylistItem| item@)
}

impl View for Page {
    type V = PageView;

    open spec fn view(&self) -> PageView {
        PageView {
            items: item_views(self.items@),
            next_cursor: string_option_view(self.next_cursor),
        }
    }
}

/// The normalized titles of the entries that have one, in the entries' order.
pub open spec fn eligible_titles(items: Seq<PlaylistItemView>) -> Seq<Seq<char>>
    decreases items.len(),
{
    if items.len() == 0 {
        Seq::empty()
    } else {
        let front = eligible_titles(items.drop_last());
        match normalized_title(items.last().title, items.last().channel) {
            Some(title) => front.push(title),
            None => front,
        }
    }
}

/// Appends to `song_names` the normalized title of each entry of `items` that
/// has one, in the entries' order. Entries of removed media add nothing.
pub fn extract_songs(items: &Vec<PlaylistItem>, song_names: &mut Vec<String>)
    ensures
        song_list(final(song_names)@) == song_list(old(song_names)@) + eligible_titles(
            item_views(items@),
        ),
{
    let ghost before = song_list(song_names@);
    let ghost views = item_views(items@);
    let mut i: usize = 0;
    assert(views.take(0) =~= Seq::<PlaylistItemView>::empty());
    assert(before + Seq::<Seq<char>>::empty() =~= before);
    while i < items.len()
        invariant
            i <= items.len(),
            views == item_views(items@),
            song_list(song_names@) == before + eligible_titles(views.take(i as int)),
        decreases items.len() - i,
    {
        let item = &items[i];
        let channel: Option<&str> = match &item.channel {
            Some(name) => Some(name.as_str()),
            None => None,
        };
        let ghost upto = views.take(i + 1);
        proof {
            assert(upto.drop_last() =~= views.take(i as int));
            assert(upto.last() == item@);
        }
        match normalize_title(item.title.as_str(), channel) {
            Some(title) => {
                let ghost listed = song_list(song_names@);
                song_names.push(title);
                assert(song_list(song_names@) =~= listed.push(title@));
                assert(listed.push(title@) =~= before + eligible_titles(upto));
            },
            None => {},
        }
        i += 1;
    }
    assert(views.take(i as int) =~= views);
}

/// One entry of a page as the playlist service sent it: the title may be
/// missing.
#[derive(Clone, Debug, PartialEq, Eq)]
pub struct RawItem {
    pub title: Option<String>,
    pub channel: Option<String>,
}

/// One page as the playlist service sent it: the list of entries may be
/// missing.
#[derive(Clone, Debug, PartialEq, Eq)]
pub struct RawPage {
    pub items: Option<Vec<RawItem>>,
    pub next_cursor: Option<String>,
}

/// A raw entry as plain values.
pub struct RawItemView {
    pub title: Option<Seq<char>>,
    pub channel: Option<Seq<char>>,
}

/// A raw page as plain values.
pub struct RawPageView {
    pub items: Option<Seq<RawItemView>>,
    pub next_cursor: Option<Seq<char>>,
}

impl View for RawItem {
    type V = RawItemView;

    open spec fn view(&self) -> RawItemView {
        RawItemView {
            title: string_option_view(self.title),
            channel: string_option_view(self.channel),
        }
    }
}

/// Raw entries as plain values.
pub open spec fn raw_item_views(items: Seq<RawItem>) -> Seq<RawItemView> {
    items.map_values(|item: RawItem| item@)
}

impl View for RawPage {
    type V = RawPageView;

    open spec fn view(&self) -> RawPageView {
        RawPageView {
            items: match self.items {
                Some(items) => Some(raw_item_views(items@)),
                None => None,
            },
            next_cursor: string_option_view(self.next_cursor),
        }
    }
}

/// A raw page has the expected shape: the list of entries is there, and every
/// entry has a title.
pub open spec fn is_well_formed(raw: RawPageView) -> bool {
    &&& raw.items is Some
    &&& forall|i: int| 0 <= i < raw.items->Some_0.len() ==> (#[trigger] raw.items->Some_0[i]).title
        is Some
}

/// The entry that a raw entry with a title stands for.
pub open spec fn item_of(raw: RawItemView) -> PlaylistItemView
    recommends
        raw.title is Some,
{
    PlaylistItemView { title: raw.title->Some_0, channel: raw.channel }
}

/// The page that a well-formed raw page stands for.
pub open spec fn page_of(raw: RawPageView) -> PageView
    recommends
        is_well_formed(raw),
{
    PageView {
        items: raw.items->Some_0.map_values(|item: RawItemView| item_of(item)),
        next_cursor: raw.next_cursor,
    }
}

/// The page that `raw` stands for, or `None` where `raw` does not have the
/// expected shape.
pub fn checked_page(raw: RawPage) -> (page: Option<Page>)
    ensures
        page is Some <==> is_well_formed(raw@),
        page is Some ==> page->Some_0@ == page_of(raw@),
{
    let RawPage { items: raw_items, next_cursor } = raw;
    let raw_items = match raw_items {
        Some(raw_items) => raw_items,
        None => {
            return None;
        },
    };
    let ghost all = raw_item_views(raw_items@);
    let mut items: Vec<PlaylistItem> = Vec::new();
    for raw_item in it: raw_items.into_iter()
        invariant
            it.seq() == raw_items@,
            all == raw_item_views(raw_items@),
            raw@.items == Some(all),
            forall|i: int| 0 <= i < it.index() ==> (#[trigger] all[i]).title is Some,
            item_views(items@) == all.take(it.index() as int).map_values(
                |item: RawItemView| item_of(item),
            ),
    {
        let ghost index = it.index() as int;
        assert(all[index] == raw_item@);
        let RawItem { title, channel } = raw_item;
        match title {
            None => {
                assert(all[index].title is None);
                return None;
            },
            Some(title) => {
                let ghost before = item_views(items@);
                let item = PlaylistItem { title, channel };
                items.push(item);
                assert(item_views(items@) =~= before.push(item@));
                assert(before.push(item@) =~= all.take(index + 1).map_values(
                    |item: RawItemView| item_of(item),
                ));
            },
        }
    }
    assert(all.take(all.len() as int) =~= all);
    Some(Page { items, next_cursor })
}

} // verus!
