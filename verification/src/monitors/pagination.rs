//! Walking through the pages of a monitor search.
//!
//! The iteration sends nothing itself. It says what is to be done next: fetch a page, hand
//! out a monitor, report a failure, or stop. Whoever drives it performs each fetch and
//! brings the outcome back.
use crate::client::{
    plain_request, resolve, resolved, result_view, Client, ClientModel, DatadogError,
    DatadogErrorModel, DatadogResult, HttpRequest, HttpRequestModel, HttpResponse, Method,
};
use crate::monitors::{
    search_path, Monitor, MonitorModel, MonitorsSearchRequest, MonitorsSearchRequestModel,
    MonitorsSearchResponse, MonitorsSearchResponseModel,
};
use vstd::prelude::*;

verus! {

/// An iteration over the monitors that a search finds, page by page.
#[derive(Debug, Clone, PartialEq, Eq)]
pub struct MonitorsSearchIter {
    /// The search query. It is the same for every page.
    pub query: String,
    /// How many monitors a page holds. It is the same for every page.
    pub per_page: Option<u64>,
    /// The sort order. It is the same for every page.
    pub sort: Option<String>,
    /// The number of the page that is fetched next.
    pub page: u64,
    /// The monitors that were fetched and are not handed out yet, in the order of the page.
    pub pending: Vec<Monitor>,
    /// A failure that was met and is not reported yet.
    pub failure: Option<DatadogError>,
    /// Whether no page is fetched any more: the last page came, or a fetch failed.
    pub finished: bool,
}

/// The model of a `MonitorsSearchIter`.
pub ghost struct MonitorsSearchIterModel {
    pub query: Seq<char>,
    pub per_page: Option<u64>,
    pub sort: Option<Seq<char>>,
    pub page: u64,
    pub pending: Seq<MonitorModel>,
    pub failure: Option<DatadogErrorModel>,
    pub finished: bool,
}

impl View for MonitorsSearchIter {
    type V = MonitorsSearchIterModel;

    open spec fn view(&self) -> MonitorsSearchIterModel {
        MonitorsSearchIterModel {
            query: self.query@,
            per_page: self.per_page,
            sort: self.sort.deep_view(),
            page: self.page,
            pending: self.pending.deep_view(),
            failure: self.failure.deep_view(),
            finished: self.finished,
        }
    }
}

/// What is to be done next in an iteration.
#[derive(Debug, Clone, PartialEq, Eq)]
pub enum Step {
    /// Send this request and bring back what came of it.
    Fetch(HttpRequest),
    /// The next monitor.
    Yield(Monitor),
    /// The iteration failed, and this is why. Nothing follows but `Done`.
    Fail(DatadogError),
    /// The iteration is over.
    Done,
}

/// The model of a `Step`.
pub ghost enum StepModel {
    Fetch(HttpRequestModel),
    Yield(MonitorModel),
    Fail(DatadogErrorModel),
    Done,
}

impl View for Step {
    type V = StepModel;

    open spec fn view(&self) -> StepModel {
        match self {
            Step::Fetch(request) => StepModel::Fetch(request@),
            Step::Yield(monitor) => StepModel::Yield(monitor@),
            Step::Fail(error) => StepModel::Fail(error@),
            Step::Done => StepModel::Done,
        }
    }
}

/// What comes of fetching a page: the page, or the reason why there is none.
pub type Outcome = Result<MonitorsSearchResponseModel, DatadogErrorModel>;

/// The iteration as it starts: at the page that the search names, or at page 0.
pub open spec fn started(request: MonitorsSearchRequestModel) -> MonitorsSearchIterModel {
    MonitorsSearchIterModel {
        query: request.query,
        per_page: request.per_page,
        sort: request.sort,
        page: match request.page {
            Some(page) => page,
            None => 0,
        },
        pending: Seq::empty(),
        failure: None,
        finished: false,
    }
}

/// The search for the page that is fetched next: the search that the iteration started
/// from, but for the page number.
pub open spec fn page_search(it: MonitorsSearchIterModel) -> MonitorsSearchRequestModel {
    MonitorsSearchRequestModel {
        query: it.query,
        page: Some(it.page),
        per_page: it.per_page,
        sort: it.sort,
    }
}

/// The request that fetches the next page.
pub open spec fn page_request(
    it: MonitorsSearchIterModel,
    client: ClientModel,
) -> HttpRequestModel {
    plain_request(client, Method::Get, search_path(page_search(it)), None)
}

/// Whether the iteration waits for a page: nothing is left to hand out or to report, and
/// the last page has not come.
pub open spec fn awaits_page(it: MonitorsSearchIterModel) -> bool {
    it.pending.len() == 0 && it.failure is None && !it.finished
}

/// What is to be done next, and the iteration after it. Monitors that were fetched are
/// handed out first, one by one and in their order. A failure is reported once. After the
/// last page there is nothing more to do. Else the next page is fetched.
pub open spec fn next_step(it: MonitorsSearchIterModel, client: ClientModel) -> (
    StepModel,
    MonitorsSearchIterModel,
) {
    if it.pending.len() > 0 {
        (
            StepModel::Yield(it.pending[0]),
            MonitorsSearchIterModel { pending: it.pending.drop_first(), ..it },
        )
    } else if it.failure is Some {
        (StepModel::Fail(it.failure->0), MonitorsSearchIterModel { failure: None, ..it })
    } else if it.finished {
        (StepModel::Done, it)
    } else {
        (StepModel::Fetch(page_request(it, client)), it)
    }
}

/// Whether a page is the last one: its number has reached the number of pages.
pub open spec fn is_last_page(page: MonitorsSearchResponseModel) -> bool {
    page.metadata.page >= page.metadata.page_count
}

/// The iteration after the outcome of a fetch. A failure ends it, and no monitor is handed
/// out after it. The monitors of a page are handed out next; after the last page no other
/// is fetched, else the page number grows by one. The number cannot grow beyond the
/// greatest `u64`: the iteration ends there too. An outcome that the iteration does not
/// wait for leaves it as it is.
pub open spec fn accepted(
    it: MonitorsSearchIterModel,
    outcome: Outcome,
) -> MonitorsSearchIterModel {
    if !awaits_page(it) {
        it
    } else {
        match outcome {
            Err(error) => MonitorsSearchIterModel { failure: Some(error), finished: true, ..it },
            Ok(page) => if is_last_page(page) || it.page == u64::MAX {
                MonitorsSearchIterModel { pending: page.monitors, finished: true, ..it }
            } else {
                MonitorsSearchIterModel {
                    pending: page.monitors,
                    page: (it.page + 1) as u64,
                    ..it
                }
            },
        }
    }
}

impl MonitorsSearchRequest {
    /// Starts an iteration over all the monitors that this search finds, from the page that
    /// it names, or from page 0. Nothing is fetched before the first step.
    pub fn iter(&self) -> (it: MonitorsSearchIter)
        ensures
            it@ == started(self@),
    {
        let page = match self.page {
            Some(page) => page,
            None => 0,
        };
        let sort = match &self.sort {
            Some(order) => Some(order.clone()),
            None => None,
        };
        let pending: Vec<Monitor> = Vec::new();
        assert(pending.deep_view() =~= Seq::<MonitorModel>::empty());
        MonitorsSearchIter {
            query: self.query.clone(),
            per_page: self.per_page,
            sort,
            page,
            pending,
            failure: None,
            finished: false,
        }
    }
}

impl MonitorsSearchIter {
    /// Says what is to be done next.
    pub fn next(&mut self, client: &Client) -> (step: Step)
        ensures
            (step@, final(self)@) == next_step(old(self)@, client@),
    {
        if self.pending.len() > 0 {
            let monitor = self.pending.remove(0);
            assert(self.pending.deep_view() =~= old(self).pending.deep_view().drop_first());
            Step::Yield(monitor)
        } else {
            assert(self.pending.deep_view().len() == 0);
            match self.failure.take() {
                Some(error) => Step::Fail(error),
                None => {
                    if self.finished {
                        Step::Done
                    } else {
                        let sort = match &self.sort {
                            Some(order) => Some(order.clone()),
                            None => None,
                        };
                        let search = MonitorsSearchRequest {
                            query: self.query.clone(),
                            page: Some(self.page),
                            per_page: self.per_page,
                            sort,
                        };
                        Step::Fetch(search.send(client))
                    }
                },
            }
        }
    }

    /// Takes in the outcome of fetching the page that was asked for.
    pub fn accept(&mut self, outcome: DatadogResult<MonitorsSearchResponse>)
        ensures
            final(self)@ == accepted(old(self)@, result_view(outcome)),
    {
        assert(self.pending.deep_view().len() == self.pending.len());
        if self.pending.len() > 0 || self.failure.is_some() || self.finished {
            return ;
        }
        match outcome {
            Err(error) => {
                self.failure = Some(error);
                self.finished = true;
            },
            Ok(response) => {
                let last = response.metadata.page >= response.metadata.page_count;
                self.pending = response.monitors;
                if last || self.page == u64::MAX {
                    self.finished = true;
                } else {
                    self.page = self.page + 1;
                }
            },
        }
    }

    /// Takes in the response to the request that fetches the page that was asked for.
    pub fn receive(&mut self, response: &HttpResponse)
        ensures
            final(self)@ == accepted(
                old(self)@,
                resolved::<MonitorsSearchResponse>(response.status, response.body@),
            ),
    {
        self.accept(resolve::<MonitorsSearchResponse>(response));
    }
}

/// What an iteration comes to when it is run to its end.
pub ghost struct Run {
    /// The monitors that were handed out, in their order.
    pub items: Seq<MonitorModel>,
    /// The requests that were sent, in their order.
    pub fetches: Seq<HttpRequestModel>,
    /// The failure that was reported, if one was.
    pub failure: Option<DatadogErrorModel>,
    /// Whether the iteration came to its end. It does not where a request was sent and
    /// nothing is left to answer it.
    pub done: bool,
}

/// Runs an iteration against an endpoint that answers the fetches, in turn, with the given
/// outcomes: each step is done as `next_step` says, and each fetch is answered with the
/// next outcome.
pub open spec fn run(
    it: MonitorsSearchIterModel,
    client: ClientModel,
    outcomes: Seq<Outcome>,
) -> Run
    decreases outcomes.len(), it.pending.len(), (if it.failure is Some {
        1nat
    } else {
        0nat
    }),
{
    let step = next_step(it, client);
    match step.0 {
        StepModel::Yield(monitor) => {
            let rest = run(step.1, client, outcomes);
            Run { items: seq![monitor] + rest.items, ..rest }
        },
        StepModel::Fail(error) => {
            let rest = run(step.1, client, outcomes);
            Run { failure: Some(error), ..rest }
        },
        StepModel::Done => Run {
            items: Seq::empty(),
            fetches: Seq::empty(),
            failure: None,
            done: true,
        },
        StepModel::Fetch(request) => if outcomes.len() == 0 {
            Run { items: Seq::empty(), fetches: seq![request], failure: None, done: false }
        } else {
            let rest = run(accepted(step.1, outcomes[0]), client, outcomes.drop_first());
            Run { fetches: seq![request] + rest.fetches, ..rest }
        },
    }
}

/// The monitors of the pages, page after page.
pub open spec fn all_monitors(pages: Seq<MonitorsSearchResponseModel>) -> Seq<MonitorModel>
    decreases pages.len(),
{
    if pages.len() == 0 {
        Seq::empty()
    } else {
        pages[0].monitors + all_monitors(pages.drop_first())
    }
}

/// The outcomes of an endpoint that answers with the given pages.
pub open spec fn answers(pages: Seq<MonitorsSearchResponseModel>) -> Seq<Outcome> {
    Seq::new(pages.len(), |i: int| Ok(pages[i]))
}

/// The requests for `count` pages in a row, from the page that the iteration is at.
pub open spec fn fetches_from(it: MonitorsSearchIterModel, client: ClientModel, count: nat) -> Seq<
    HttpRequestModel,
> {
    Seq::new(
        count,
        |i: int| page_request(MonitorsSearchIterModel { page: (it.page + i) as u64, ..it }, client),
    )
}

/// The monitors that are waiting are handed out before anything else happens.
pub proof fn lemma_run_hands_out_pending(
    it: MonitorsSearchIterModel,
    client: ClientModel,
    outcomes: Seq<Outcome>,
)
    ensures
        run(it, client, outcomes) == ({
            let rest = run(
                MonitorsSearchIterModel { pending: Seq::empty(), ..it },
                client,
                outcomes,
            );
            Run { items: it.pending + rest.items, ..rest }
        }),
    decreases it.pending.len(),
{
    let emptied = MonitorsSearchIterModel { pending: Seq::empty(), ..it };
    let rest = run(emptied, client, outcomes);
    if it.pending.len() > 0 {
        let after = MonitorsSearchIterModel { pending: it.pending.drop_first(), ..it };
        lemma_run_hands_out_pending(after, client, outcomes);
        assert(MonitorsSearchIterModel { pending: Seq::empty(), ..after } == emptied);
        assert(seq![it.pending[0]] + (it.pending.drop_first() + rest.items) =~= it.pending
            + rest.items);
    } else {
        assert(it.pending =~= Seq::empty());
        assert(it.pending + rest.items =~= rest.items);
    }
}

/// Pages are fetched one after the other until one says that it is the last, and their
/// monitors are handed out in the order of the pages and, within a page, in the order of
/// the page. Run against an endpoint that answers with `pages`, of which the last one is
/// the first to say that it is the last, an iteration hands out exactly the monitors of
/// these pages and sends exactly one request for each of them. Whatever the endpoint could
/// answer to more requests, no more is sent.
pub proof fn lemma_run_over_pages(
    it: MonitorsSearchIterModel,
    client: ClientModel,
    pages: Seq<MonitorsSearchResponseModel>,
    more: Seq<Outcome>,
)
    requires
        awaits_page(it),
        pages.len() > 0,
        it.page + pages.len() - 1 <= u64::MAX,
        forall|i: int| 0 <= i < pages.len() - 1 ==> !is_last_page(#[trigger] pages[i]),
        is_last_page(pages.last()),
    ensures
        run(it, client, answers(pages) + more) == (Run {
            items: all_monitors(pages),
            fetches: fetches_from(it, client, pages.len()),
            failure: None,
            done: true,
        }),
    decreases pages.len(),
{
    let outcomes = answers(pages) + more;
    assert(outcomes[0] == Ok::<MonitorsSearchResponseModel, DatadogErrorModel>(pages[0]));
    let after = accepted(it, outcomes[0]);
    let emptied = MonitorsSearchIterModel { pending: Seq::empty(), ..after };
    lemma_run_hands_out_pending(after, client, outcomes.drop_first());
    assert(it.pending =~= Seq::empty());
    assert(MonitorsSearchIterModel { page: (it.page + 0) as u64, ..it } == it);
    if pages.len() == 1 {
        assert(all_monitors(pages.drop_first()) =~= Seq::empty());
        assert(all_monitors(pages) =~= pages[0].monitors);
        assert(fetches_from(it, client, 1) =~= seq![page_request(it, client)]);
        assert(pages[0].monitors + Seq::<MonitorModel>::empty() =~= pages[0].monitors);
        assert(seq![page_request(it, client)] + Seq::<HttpRequestModel>::empty() =~= seq![
            page_request(it, client),
        ]);
    } else {
        let tail = pages.drop_first();
        assert(!is_last_page(pages[0]));
        assert(outcomes.drop_first() =~= answers(tail) + more);
        assert forall|i: int| 0 <= i < tail.len() - 1 implies !is_last_page(
            #[trigger] tail[i],
        ) by {
            assert(tail[i] == pages[i + 1]);
        }
        assert(tail.last() == pages.last());
        lemma_run_over_pages(emptied, client, tail, more);
        assert forall|i: int| 0 <= i < tail.len() implies #[trigger] fetches_from(
            emptied,
            client,
            tail.len(),
        )[i] == fetches_from(it, client, pages.len())[i + 1] by {
            assert(MonitorsSearchIterModel { page: (emptied.page + i) as u64, ..emptied }
                == MonitorsSearchIterModel { page: (it.page + (i + 1)) as u64, ..it });
        }
        assert(fetches_from(it, client, pages.len()) =~= seq![page_request(it, client)]
            + fetches_from(emptied, client, tail.len()));
    }
}

/// With a first page that says that it is the last, one request is sent and no more.
pub proof fn lemma_single_page(
    it: MonitorsSearchIterModel,
    client: ClientModel,
    page: MonitorsSearchResponseModel,
    more: Seq<Outcome>,
)
    requires
        awaits_page(it),
        is_last_page(page),
    ensures
        run(it, client, answers(seq![page]) + more).fetches == seq![page_request(it, client)],
        run(it, client, answers(seq![page]) + more).items == page.monitors,
{
    let pages = seq![page];
    lemma_run_over_pages(it, client, pages, more);
    assert(it.pending =~= Seq::empty());
    assert(MonitorsSearchIterModel { page: (it.page + 0) as u64, ..it } == it);
    assert(fetches_from(it, client, 1) =~= seq![page_request(it, client)]);
    assert(all_monitors(pages.drop_first()) =~= Seq::empty());
    assert(all_monitors(pages) =~= page.monitors);
}

/// With one page in all, reported by a first page that bears the number 1 or a greater
/// one, exactly one request is sent.
pub proof fn lemma_one_page_one_fetch(
    it: MonitorsSearchIterModel,
    client: ClientModel,
    page: MonitorsSearchResponseModel,
    more: Seq<Outcome>,
)
    requires
        awaits_page(it),
        page.metadata.page_count == 1,
        page.metadata.page >= 1,
    ensures
        run(it, client, answers(seq![page]) + more).fetches.len() == 1,
{
    lemma_single_page(it, client, page, more);
}

/// A fetch that fails ends the iteration with that failure. The monitors of the pages
/// before it were handed out; nothing is handed out after it, and nothing more is fetched.
pub proof fn lemma_run_until_failure(
    it: MonitorsSearchIterModel,
    client: ClientModel,
    pages: Seq<MonitorsSearchResponseModel>,
    error: DatadogErrorModel,
    more: Seq<Outcome>,
)
    requires
        awaits_page(it),
        it.page + pages.len() <= u64::MAX,
        forall|i: int| 0 <= i < pages.len() ==> !is_last_page(#[trigger] pages[i]),
    ensures
        run(
            it,
            client,
            answers(pages) + seq![Err::<MonitorsSearchResponseModel, DatadogErrorModel>(error)]
                + more,
        ) == (Run {
            items: all_monitors(pages),
            fetches: fetches_from(it, client, pages.len() + 1),
            failure: Some(error),
            done: true,
        }),
    decreases pages.len(),
{
    let failed = seq![Err::<MonitorsSearchResponseModel, DatadogErrorModel>(error)];
    let outcomes = answers(pages) + failed + more;
    let after = accepted(it, outcomes[0]);
    assert(it.pending =~= Seq::empty());
    assert(MonitorsSearchIterModel { page: (it.page + 0) as u64, ..it } == it);
    if pages.len() == 0 {
        assert(outcomes[0] == failed[0]);
        let reported = MonitorsSearchIterModel { failure: None, ..after };
        assert(next_step(after, client) == (StepModel::Fail(error), reported));
        assert(next_step(reported, client).0 == StepModel::Done);
        assert(run(reported, client, outcomes.drop_first()) == (Run {
            items: Seq::empty(),
            fetches: Seq::empty(),
            failure: None,
            done: true,
        }));
        assert(all_monitors(pages) =~= Seq::empty());
        assert(fetches_from(it, client, 1) =~= seq![page_request(it, client)]);
        assert(seq![page_request(it, client)] + Seq::<HttpRequestModel>::empty() =~= seq![
            page_request(it, client),
        ]);
    } else {
        assert(outcomes[0] == Ok::<MonitorsSearchResponseModel, DatadogErrorModel>(pages[0]));
        let emptied = MonitorsSearchIterModel { pending: Seq::empty(), ..after };
        lemma_run_hands_out_pending(after, client, outcomes.drop_first());
        let tail = pages.drop_first();
        assert(!is_last_page(pages[0]));
        assert(outcomes.drop_first() =~= answers(tail) + failed + more);
        assert forall|i: int| 0 <= i < tail.len() implies !is_last_page(#[trigger] tail[i]) by {
            assert(tail[i] == pages[i + 1]);
        }
        lemma_run_until_failure(emptied, client, tail, error, more);
        assert forall|i: int| 0 <= i < tail.len() + 1 implies #[trigger] fetches_from(
            emptied,
            client,
            tail.len() + 1,
        )[i] == fetches_from(it, client, pages.len() + 1)[i + 1] by {
            assert(MonitorsSearchIterModel { page: (emptied.page + i) as u64, ..emptied }
                == MonitorsSearchIterModel { page: (it.page + (i + 1)) as u64, ..it });
        }
        assert(fetches_from(it, client, pages.len() + 1) =~= seq![page_request(it, client)]
            + fetches_from(emptied, client, tail.len() + 1));
    }
}

} // verus!
