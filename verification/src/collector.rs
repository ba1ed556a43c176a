use vstd::prelude::*;
use crate::playlist::{
    checked_page, eligible_titles, extract_songs, is_well_formed, page_of, Page, PageView, RawPage,
    RawPageView,
};
use crate::title::{song_list, string_option_view};

verus! {

/// The number of entries asked for with each page.
pub const PAGE_SIZE: u32 = 50;

/// The playlist service could not give a page: authentication, quota,
/// transport or a response that could not be read.
#[derive(Clone, Debug, PartialEq, Eq)]
pub struct UpstreamError {
    /// What the service or the transport reported.
    pub message: String,
}

/// One request for a page of a playlist.
#[derive(Clone, Debug, PartialEq, Eq)]
pub struct FetchRequest {
    pub playlist_id: String,
    /// The cursor that the page before handed out; `None` for the first page.
    pub cursor: Option<String>,
    pub max_results: u32,
}

/// What came back for a request.
#[derive(Clone, Debug, PartialEq, Eq)]
pub enum Fetched {
    Page(Page),
    Failure(UpstreamError),
}

/// A finished collection.
#[derive(Clone, Debug, PartialEq, Eq)]
pub struct Collected {
    /// The normalized titles, pages in the order fetched and entries in the
    /// order of their page.
    pub songs: Vec<String>,
    /// How many pages were fetched.
    pub pages: u64,
}

/// A collection under way: one request is due, and its answer decides how the
/// collection goes on.
#[derive(Debug)]
pub struct Collector {
    playlist_id: String,
    cursor: Option<String>,
    songs: Vec<String>,
    pages: u64,
}

/// How a collection stands after one answer.
#[derive(Debug)]
pub enum Step {
    /// Another page is to be fetched, with the request of the collector.
    Fetch(Collector),
    /// The last page was taken in.
    Done(Collected),
    /// A fetch failed; nothing of what was collected is handed out.
    Failed(UpstreamError),
}

/// A request as plain values.
pub struct FetchRequestView {
    pub playlist_id: Seq<char>,
    pub cursor: Option<Seq<char>>,
    pub max_results: nat,
}

/// An answer as plain values.
pub enum FetchedView {
    Page(PageView),
    Failure(Seq<char>),
}

/// A finished collection as plain values.
pub struct CollectedView {
    pub songs: Seq<Seq<char>>,
    pub pages: nat,
}

/// A collection under way as plain values: the playlist, the cursor of the
/// request that is due, the titles collected and the number of pages taken in.
pub struct CollectorView {
    pub playlist_id: Seq<char>,
    pub cursor: Option<Seq<char>>,
    pub songs: Seq<Seq<char>>,
    pub pages: nat,
}

/// A step as plain values.
pub enum StepView {
    Fetch(CollectorView),
    Done(CollectedView),
    Failed(Seq<char>),
}

impl View for FetchRequest {
    type V = FetchRequestView;

    open spec fn view(&self) -> FetchRequestView {
        FetchRequestView {
            playlist_id: self.playlist_id@,
            cursor: string_option_view(self.cursor),
            max_results: self.max_results as nat,
        }
    }
}

impl View for Fetched {
    type V = FetchedView;

    open spec fn view(&self) -> FetchedView {
        match self {
            Fetched::Page(page) => FetchedView::Page(page@),
            Fetched::Failure(error) => FetchedView::Failure(error.message@),
        }
    }
}

impl View for Collected {
    type V = CollectedView;

    open spec fn view(&self) -> CollectedView {
        CollectedView { songs: song_list(self.songs@), pages: self.pages as nat }
    }
}

impl View for Collector {
    type V = CollectorView;

    closed spec fn view(&self) -> CollectorView {
        CollectorView {
            playlist_id: self.playlist_id@,
            cursor: string_option_view(self.cursor),
            songs: song_list(self.songs@),
            pages: self.pages as nat,
        }
    }
}

impl View for Step {
    type V = StepView;

    open spec fn view(&self) -> StepView {
        match self {
            Step::Fetch(collector) => StepView::Fetch(collector@),
            Step::Done(collected) => StepView::Done(collected@),
            Step::Failed(error) => StepView::Failed(error.message@),
        }
    }
}

/// A collection of `playlist_id` before its first request.
pub open spec fn started(playlist_id: Seq<char>) -> CollectorView {
    CollectorView { playlist_id, cursor: None, songs: Seq::empty(), pages: 0 }
}

/// The request that is due in `collector`.
pub open spec fn due_request(collector: CollectorView) -> FetchRequestView {
    FetchRequestView {
        playlist_id: collector.playlist_id,
        cursor: collector.cursor,
        max_results: PAGE_SIZE as nat,
    }
}

/// How `collector` stands after `answer` came back for its request. A page
/// adds its eligible titles behind those collected; its cursor, if it has one,
/// is that of the next request, and without one the collection is done. A
/// failure ends the collection with the error alone.
pub open spec fn step_of(collector: CollectorView, answer: FetchedView) -> StepView {
    match answer {
        FetchedView::Failure(message) => StepView::Failed(message),
        FetchedView::Page(page) => {
            let songs = collector.songs + eligible_titles(page.items);
            match page.next_cursor {
                Some(cursor) => StepView::Fetch(
                    CollectorView {
                        playlist_id: collector.playlist_id,
                        cursor: Some(cursor),
                        songs,
                        pages: collector.pages + 1,
                    },
                ),
                None => StepView::Done(CollectedView { songs, pages: collector.pages + 1 }),
            }
        },
    }
}

/// What the error says where a page did not have the expected shape.
pub open spec fn malformed_message() -> Seq<char> {
    "malformed response"@
}

/// The answer that a raw page stands for: its page where it is well formed,
/// else a failure.
pub open spec fn answer_of(raw: RawPageView) -> FetchedView {
    if is_well_formed(raw) {
        FetchedView::Page(page_of(raw))
    } else {
        FetchedView::Failure(malformed_message())
    }
}

impl Fetched {
    /// The answer that a page of the service stands for, as `answer_of`
    /// states.
    pub fn from_raw(raw: RawPage) -> (answer: Fetched)
        ensures
            answer@ == answer_of(raw@),
    {
        match checked_page(raw) {
            Some(page) => Fetched::Page(page),
            None => Fetched::Failure(UpstreamError { message: "malformed response".to_owned() }),
        }
    }
}

impl Collector {
    /// Starts the collection of a playlist: the first request is due, without
    /// a cursor.
    pub fn start(playlist_id: String) -> (collector: Collector)
        ensures
            collector@ == started(playlist_id@),
    {
        let collector = Collector { playlist_id, cursor: None, songs: Vec::new(), pages: 0 };
        assert(collector@.songs =~= Seq::<Seq<char>>::empty());
        collector
    }

    /// The request that is due.
    pub fn request(&self) -> (request: FetchRequest)
        ensures
            request@ == due_request(self@),
    {
        FetchRequest {
            playlist_id: self.playlist_id.clone(),
            cursor: self.cursor.clone(),
            max_results: PAGE_SIZE,
        }
    }

    /// How many pages were taken in so far.
    pub fn pages(&self) -> (pages: u64)
        ensures
            pages == self@.pages,
    {
        self.pages
    }

    /// Takes in the answer to the request that was due.
    pub fn step(self, answer: Fetched) -> (step: Step)
        requires
            self@.pages < u64::MAX,
        ensures
            step@ == step_of(self@, answer@),
    {
        match answer {
            Fetched::Failure(error) => Step::Failed(error),
            Fetched::Page(page) => {
                let Page { items, next_cursor } = page;
                let Collector { playlist_id, cursor: _, mut songs, pages } = self;
                extract_songs(&items, &mut songs);
                match next_cursor {
                    Some(cursor) => Step::Fetch(
                        Collector { playlist_id, cursor: Some(cursor), songs, pages: pages + 1 },
                    ),
                    None => Step::Done(Collected { songs, pages: pages + 1 }),
                }
            },
        }
    }
}

/// Answers as plain values.
pub open spec fn fetched_views(answers: Seq<Fetched>) -> Seq<FetchedView> {
    answers.map_values(|answer: Fetched| answer@)
}

/// How a collection stands when the answers of `answers` come back one after
/// the other, each for the request that is due then. Answers behind the one
/// that ends the collection are never taken in.
pub open spec fn run(collector: CollectorView, answers: Seq<FetchedView>) -> StepView
    decreases answers.len(),
{
    if answers.len() == 0 {
        StepView::Fetch(collector)
    } else {
        match step_of(collector, answers[0]) {
            StepView::Fetch(next) => run(next, answers.skip(1)),
            ended => ended,
        }
    }
}

/// `run`, from a step instead of a collector.
pub open spec fn run_on(step: StepView, answers: Seq<FetchedView>) -> StepView {
    match step {
        StepView::Fetch(collector) => run(collector, answers),
        ended => ended,
    }
}

/// Collects the playlist `playlist_id` from answers that are at hand already,
/// as `run` states.
pub fn replay(playlist_id: String, answers: Vec<Fetched>) -> (step: Step)
    ensures
        step@ == run(started(playlist_id@), fetched_views(answers@)),
{
    let ghost all = fetched_views(answers@);
    let ghost first = started(playlist_id@);
    let count: usize = answers.len();
    let mut state = Step::Fetch(Collector::start(playlist_id));
    assert(all.skip(0) =~= all);
    for answer in it: answers.into_iter()
        invariant
            it.seq() == answers@,
            answers@.len() == count,
            all == fetched_views(answers@),
            run_on(state@, all.skip(it.index() as int)) == run(first, all),
            state@ is Fetch ==> state@->Fetch_0.pages <= it.index(),
    {
        proof {
            let rest = all.skip(it.index() as int);
            assert(rest[0] == answer@);
            assert(rest.skip(1) =~= all.skip(it.index() + 1));
        }
        state =
        match state {
            Step::Fetch(collector) => collector.step(answer),
            ended => ended,
        };
    }
    assert(all.skip(all.len() as int) =~= Seq::<FetchedView>::empty());
    state
}

/// The pages of `pages` as answers.
pub open spec fn page_answers(pages: Seq<PageView>) -> Seq<FetchedView> {
    pages.map_values(|page: PageView| FetchedView::Page(page))
}

/// The eligible titles of all pages, pages in order and entries in the order
/// of their page.
pub open spec fn titles_of_pages(pages: Seq<PageView>) -> Seq<Seq<char>>
    decreases pages.len(),
{
    if pages.len() == 0 {
        Seq::empty()
    } else {
        eligible_titles(pages[0].items) + titles_of_pages(pages.skip(1))
    }
}

/// The number of eligible entries of all pages together.
pub open spec fn eligible_count(pages: Seq<PageView>) -> nat
    decreases pages.len(),
{
    if pages.len() == 0 {
        0
    } else {
        eligible_titles(pages[0].items).len() + eligible_count(pages.skip(1))
    }
}

/// Every page but the last carries a cursor, and the last carries none.
pub open spec fn is_complete_walk(pages: Seq<PageView>) -> bool {
    &&& pages.len() > 0
    &&& pages.last().next_cursor is None
    &&& forall|k: int| 0 <= k < pages.len() - 1 ==> (#[trigger] pages[k]).next_cursor is Some
}

/// The titles of all pages are as many as the pages' eligible entries.
pub proof fn lemma_titles_count(pages: Seq<PageView>)
    ensures
        titles_of_pages(pages).len() == eligible_count(pages),
    decreases pages.len(),
{
    if pages.len() > 0 {
        lemma_titles_count(pages.skip(1));
    }
}

/// A page without a cursor ends the collection: it is the only page taken in
/// from there, whatever answers stand behind it.
pub proof fn lemma_last_page_ends(
    collector: CollectorView,
    page: PageView,
    later: Seq<FetchedView>,
)
    requires
        page.next_cursor is None,
    ensures
        run(collector, seq![FetchedView::Page(page)] + later) == StepView::Done(
            CollectedView {
                songs: collector.songs + eligible_titles(page.items),
                pages: collector.pages + 1,
            },
        ),
{
    assert((seq![FetchedView::Page(page)] + later)[0] == FetchedView::Page(page));
}

/// A walk over pages of which all but the last carry a cursor takes as many
/// fetches as there are pages, and collects the titles of the eligible entries
/// of all of them, page by page and entry by entry.
pub proof fn lemma_complete_walk(collector: CollectorView, pages: Seq<PageView>)
    requires
        is_complete_walk(pages),
    ensures
        run(collector, page_answers(pages)) == StepView::Done(
            CollectedView {
                songs: collector.songs + titles_of_pages(pages),
                pages: collector.pages + pages.len(),
            },
        ),
    decreases pages.len(),
{
    let answers = page_answers(pages);
    let rest = pages.skip(1);
    assert(answers[0] == FetchedView::Page(pages[0]));
    assert(answers.skip(1) =~= page_answers(rest));
    let songs = collector.songs + eligible_titles(pages[0].items);
    if pages.len() == 1 {
        assert(pages.last() == pages[0]);
        assert(titles_of_pages(rest) =~= Seq::<Seq<char>>::empty());
        assert(songs =~= collector.songs + titles_of_pages(pages));
    } else {
        assert(pages[0].next_cursor is Some);
        let next = CollectorView {
            playlist_id: collector.playlist_id,
            cursor: pages[0].next_cursor,
            songs,
            pages: collector.pages + 1,
        };
        assert(rest.last() == pages.last());
        assert forall|k: int| 0 <= k < rest.len() - 1 implies (#[trigger] rest[k]).next_cursor
            is Some by {
            assert(rest[k] == pages[k + 1]);
        }
        lemma_complete_walk(next, rest);
        assert(songs + titles_of_pages(rest) =~= collector.songs + titles_of_pages(pages));
    }
}

/// Collecting a playlist whose pages form a complete walk fetches each page
/// once and yields the titles of all eligible entries, as many as there are
/// such entries, in page order and then entry order.
pub proof fn lemma_collection_of_walk(playlist_id: Seq<char>, pages: Seq<PageView>)
    requires
        is_complete_walk(pages),
    ensures
        run(started(playlist_id), page_answers(pages)) == StepView::Done(
            CollectedView { songs: titles_of_pages(pages), pages: pages.len() },
        ),
        titles_of_pages(pages).len() == eligible_count(pages),
{
    lemma_complete_walk(started(playlist_id), pages);
    lemma_titles_count(pages);
    assert(Seq::<Seq<char>>::empty() + titles_of_pages(pages) =~= titles_of_pages(pages));
}

} // verus!
