//! The steps from a page's address to its recipe, and the adapters that
//! know one publisher each.
//!
//! Fetching a page and reading its HTML is the caller's work. The decisions
//! between those pieces of work are made here: a [`Scrape`] says what is to
//! be done next, takes what came of it as an [`Event`], and ends with the
//! recipe or with the reason why there is none. Nothing in between is handed
//! out: a scrape yields a whole recipe or none.

use crate::amount::{decimal_digits, push_decimal};
use crate::ingredient::ErrorView;
use crate::recipe::{RecipeView, ScrapedRecipe};
use crate::scraper::bbc_good_food::{BBCGoodFoodRecipe, BBCGoodFoodScraper};
use crate::text::{chars_of, spells};
use vstd::prelude::*;

pub mod bbc_good_food;

verus! {

#[derive(Debug)]
pub enum Error {
    /// The page could not be fetched; carries the reason.
    Reqwest(String),
    /// The page is no HTML that can be read; carries the reason.
    Html(String),
    NotARecipe,
    /// No adapter is registered for the host, which it carries.
    UnrecognisedHost(String),
    /// The structured data does not fit the adapter; carries the reason.
    Json(String),
    Ingredient(crate::ingredient::Error),
}

/// An [`Error`] with its texts as sequences of characters.
pub enum ScrapeErrorView {
    Reqwest(Seq<char>),
    Html(Seq<char>),
    NotARecipe,
    UnrecognisedHost(Seq<char>),
    Json(Seq<char>),
    Ingredient(ErrorView),
}

impl View for Error {
    type V = ScrapeErrorView;

    open spec fn view(&self) -> ScrapeErrorView {
        match self {
            Error::Reqwest(reason) => ScrapeErrorView::Reqwest(reason@),
            Error::Html(reason) => ScrapeErrorView::Html(reason@),
            Error::NotARecipe => ScrapeErrorView::NotARecipe,
            Error::UnrecognisedHost(host) => ScrapeErrorView::UnrecognisedHost(host@),
            Error::Json(reason) => ScrapeErrorView::Json(reason@),
            Error::Ingredient(e) => ScrapeErrorView::Ingredient(e@),
        }
    }
}

/// How a scrape ended, with its texts as sequences of characters.
pub open spec fn outcome_view(r: Result<ScrapedRecipe, Error>) -> Result<
    RecipeView,
    ScrapeErrorView,
> {
    match r {
        Ok(recipe) => Ok(recipe@),
        Err(e) => Err(e@),
    }
}

/// The stages of a scrape, in their order.
#[derive(Debug, Clone, Copy, PartialEq, Eq)]
pub enum Stage {
    Fetching,
    ParsingHtml,
    LocatingStructuredData,
    DispatchingAdapter,
    Adapting,
    Done,
}

impl ScrapeErrorView {
    /// The stage that ends a scrape with this error.
    pub open spec fn stage(self) -> Stage {
        match self {
            ScrapeErrorView::Reqwest(_) => Stage::Fetching,
            ScrapeErrorView::Html(_) => Stage::ParsingHtml,
            ScrapeErrorView::NotARecipe => Stage::LocatingStructuredData,
            ScrapeErrorView::UnrecognisedHost(_) => Stage::DispatchingAdapter,
            ScrapeErrorView::Json(_) => Stage::Adapting,
            ScrapeErrorView::Ingredient(_) => Stage::Adapting,
        }
    }
}

impl Error {
    /// The stage that ended the scrape with this error.
    pub fn stage(&self) -> (r: Stage)
        ensures
            r == self@.stage(),
    {
        match self {
            Error::Reqwest(_) => Stage::Fetching,
            Error::Html(_) => Stage::ParsingHtml,
            Error::NotARecipe => Stage::LocatingStructuredData,
            Error::UnrecognisedHost(_) => Stage::DispatchingAdapter,
            Error::Json(_) => Stage::Adapting,
            Error::Ingredient(_) => Stage::Adapting,
        }
    }
}

/// An adapter: it knows one publisher, whose pages it reads on one host,
/// and maps that publisher's structured data onto the recipe record. New
/// publishers are added by new adapters, and the steps of a scrape stay as
/// they are.
///
/// An adapter states in `host_name` and `outcome` what its `host` and its
/// `scrape` give. What is proved of a scrape holds for every adapter that
/// keeps to what it states.
pub trait Scraper: Copy {
    /// The structured data of a page as the caller hands it to the adapter.
    type Value;

    /// The host whose pages the adapter reads.
    spec fn host_name(&self) -> Seq<char>;

    /// What the adapter makes of `value`, found on the page at `url`.
    spec fn outcome(&self, url: Seq<char>, value: Self::Value) -> Result<
        RecipeView,
        ScrapeErrorView,
    >;

    /// The host whose pages the adapter reads.
    fn host(&self) -> (r: &'static str)
        ensures
            r@ == self.host_name(),
    ;

    /// Maps the structured data onto the recipe record.
    fn scrape(&self, url: String, value: Self::Value) -> (r: Result<ScrapedRecipe, Error>)
        ensures
            outcome_view(r) == self.outcome(url@, value),
    ;
}

/// The structured data of a page as the publishers that are known here lay
/// it out.
#[derive(Debug, Clone)]
pub enum Payload {
    BBCGoodFood(BBCGoodFoodRecipe),
    /// The data does not fit the layout; carries the reason.
    Malformed(String),
}

/// An adapter that knows no publisher and fails whenever it is asked.
#[derive(Debug, Clone, Copy, PartialEq, Eq)]
pub struct DummyScraper;

impl Scraper for DummyScraper {
    type Value = Payload;

    open spec fn host_name(&self) -> Seq<char> {
        "dummy"@
    }

    open spec fn outcome(&self, url: Seq<char>, value: Payload) -> Result<
        RecipeView,
        ScrapeErrorView,
    > {
        Err(ScrapeErrorView::Json("dummy scraper"@))
    }

    fn host(&self) -> (r: &'static str) {
        "dummy"
    }

    fn scrape(&self, _url: String, _value: Payload) -> (r: Result<ScrapedRecipe, Error>) {
        Err(Error::Json("dummy scraper".to_owned()))
    }
}

/// The adapters that are known here, one for each publisher.
#[derive(Debug, Clone, Copy, PartialEq, Eq)]
pub enum Adapter {
    BBCGoodFood,
    Dummy,
}

impl Scraper for Adapter {
    type Value = Payload;

    open spec fn host_name(&self) -> Seq<char> {
        match self {
            Adapter::BBCGoodFood => BBCGoodFoodScraper.host_name(),
            Adapter::Dummy => DummyScraper.host_name(),
        }
    }

    open spec fn outcome(&self, url: Seq<char>, value: Payload) -> Result<
        RecipeView,
        ScrapeErrorView,
    > {
        match self {
            Adapter::BBCGoodFood => BBCGoodFoodScraper.outcome(url, value),
            Adapter::Dummy => DummyScraper.outcome(url, value),
        }
    }

    fn host(&self) -> (r: &'static str) {
        match self {
            Adapter::BBCGoodFood => BBCGoodFoodScraper.host(),
            Adapter::Dummy => DummyScraper.host(),
        }
    }

    fn scrape(&self, url: String, value: Payload) -> (r: Result<ScrapedRecipe, Error>) {
        match self {
            Adapter::BBCGoodFood => BBCGoodFoodScraper.scrape(url, value),
            Adapter::Dummy => DummyScraper.scrape(url, value),
        }
    }
}

/// The first of `adapters`, from the `i`th on, that reads the pages of
/// `host`.
pub open spec fn adapter_from<A: Scraper>(adapters: Seq<A>, host: Seq<char>, i: int) -> Option<A>
    decreases adapters.len() - i,
{
    if i < 0 || i >= adapters.len() {
        None
    } else if adapters[i].host_name() == host {
        Some(adapters[i])
    } else {
        adapter_from(adapters, host, i + 1)
    }
}

/// No host has two of the adapters.
pub open spec fn hosts_are_distinct<A: Scraper>(adapters: Seq<A>) -> bool {
    forall|i: int, j: int|
        0 <= i < j < adapters.len() ==> (#[trigger] adapters[i]).host_name() != (
        #[trigger] adapters[j]).host_name()
}

/// The adapters that a scrape may use, found by the exact name of the host:
/// each host has one adapter at most. It is filled once and read from then
/// on.
#[derive(Debug, Clone)]
pub struct Registry<A> {
    pub adapters: Vec<A>,
}

impl Registry<Adapter> {
    /// The registry of all adapters that are known here.
    pub fn scrapers() -> (r: Registry<Adapter>)
        ensures
            r.wf(),
            r.adapters@ == seq![Adapter::BBCGoodFood, Adapter::Dummy],
    {
        let mut adapters: Vec<Adapter> = Vec::new();
        adapters.push(Adapter::BBCGoodFood);
        adapters.push(Adapter::Dummy);
        proof {
            reveal_strlit("www.bbcgoodfood.com");
            reveal_strlit("dummy");
            assert("www.bbcgoodfood.com"@.len() != "dummy"@.len());
        }
        Registry { adapters }
    }
}

impl<A: Scraper> Registry<A> {
    /// The adapter that is registered for `host`.
    pub open spec fn lookup(&self, host: Seq<char>) -> Option<A> {
        adapter_from(self.adapters@, host, 0)
    }

    /// Each host has one adapter at most.
    pub open spec fn wf(&self) -> bool {
        hosts_are_distinct(self.adapters@)
    }

    /// A registry without adapters.
    pub fn new() -> (r: Registry<A>)
        ensures
            r.wf(),
            r.adapters@.len() == 0,
            forall|host: Seq<char>| r.lookup(host) is None,
    {
        Registry { adapters: Vec::new() }
    }

    /// Registers `adapter` for its host, unless the host has one already.
    pub fn register(&mut self, adapter: A)
        ensures
            old(self).wf() ==> final(self).wf(),
            forall|host: Seq<char>|
                #[trigger] final(self).lookup(host) == if old(self).lookup(host) is None && host
                    == adapter.host_name() {
                    Some(adapter)
                } else {
                    old(self).lookup(host)
                },
    {
        if self.get(adapter.host()).is_none() {
            self.adapters.push(adapter);
            proof {
                assert forall|host: Seq<char>|
                    #[trigger] self.lookup(host) == if old(self).lookup(host) is None && host
                        == adapter.host_name() {
                        Some(adapter)
                    } else {
                        old(self).lookup(host)
                    } by {
                    lemma_adapter_from_push(old(self).adapters@, adapter, host, 0);
                }
                lemma_adapter_from_none(old(self).adapters@, adapter.host_name(), 0);
            }
        }
    }

    /// The adapter that is registered for `host`.
    pub fn get(&self, host: &str) -> (r: Option<A>)
        ensures
            r == self.lookup(host@),
    {
        let name = chars_of(host);
        let mut i: usize = 0;
        while i < self.adapters.len()
            invariant
                i <= self.adapters@.len(),
                name@ == host@,
                self.lookup(host@) == adapter_from(self.adapters@, host@, i as int),
            decreases self.adapters@.len() - i,
        {
            let adapter = self.adapters[i];
            if spells(&name, adapter.host()) {
                return Some(adapter);
            }
            i += 1;
        }
        None
    }
}

/// Where no adapter is found for a host, none of the adapters reads it.
pub proof fn lemma_adapter_from_none<A: Scraper>(adapters: Seq<A>, host: Seq<char>, i: int)
    requires
        0 <= i <= adapters.len(),
        adapter_from(adapters, host, i) is None,
    ensures
        forall|j: int| i <= j < adapters.len() ==> (#[trigger] adapters[j]).host_name() != host,
    decreases adapters.len() - i,
{
    if i < adapters.len() {
        lemma_adapter_from_none(adapters, host, i + 1);
    }
}

/// In a registry where each host has one adapter at most, the adapter that
/// is found for a host is the only one that reads it.
pub proof fn lemma_lookup_is_the_only_one<A: Scraper>(
    registry: &Registry<A>,
    host: Seq<char>,
    j: int,
)
    requires
        registry.wf(),
        0 <= j < registry.adapters@.len(),
        registry.adapters@[j].host_name() == host,
    ensures
        registry.lookup(host) == Some(registry.adapters@[j]),
{
    lemma_adapter_from_first(registry.adapters@, host, 0, j);
}

proof fn lemma_adapter_from_first<A: Scraper>(
    adapters: Seq<A>,
    host: Seq<char>,
    i: int,
    j: int,
)
    requires
        0 <= i <= j < adapters.len(),
        adapters[j].host_name() == host,
        forall|k: int| i <= k < j ==> (#[trigger] adapters[k]).host_name() != host,
    ensures
        adapter_from(adapters, host, i) == Some(adapters[j]),
    decreases j - i,
{
    if i < j {
        lemma_adapter_from_first(adapters, host, i + 1, j);
    }
}

/// Looking up in a registry with one more adapter at its end.
pub proof fn lemma_adapter_from_push<A: Scraper>(
    adapters: Seq<A>,
    adapter: A,
    host: Seq<char>,
    i: int,
)
    requires
        0 <= i <= adapters.len(),
    ensures
        adapter_from(adapters.push(adapter), host, i) == if adapter_from(adapters, host, i)
            is None && host == adapter.host_name() {
            Some(adapter)
        } else {
            adapter_from(adapters, host, i)
        },
    decreases adapters.len() - i,
{
    if i < adapters.len() {
        if adapters[i].host_name() != host {
            lemma_adapter_from_push(adapters, adapter, host, i + 1);
        }
    } else {
        assert(adapter_from(adapters.push(adapter), host, i + 1) is None);
    }
}

/// The host of the address `url`; nothing where `url` is no address or an
/// address without a host.
pub uninterp spec fn host_of_url(url: Seq<char>) -> Option<Seq<char>>;

/// The host of the address `url`: `url::Url::parse` reads the address, and
/// `Url::host_str` gives its host as text, a domain or an IP address, if it
/// has one. What is taken on trust is that the same text always gives the
/// same host; nothing is claimed of what that host is.
#[verifier::external_body]
fn url_host(url: &str) -> (host: Option<String>)
    ensures
        host.deep_view() == host_of_url(url@),
{
    match url::Url::parse(url) {
        Ok(address) => match address.host_str() {
            Some(host) => Some(host.to_owned()),
            None => None,
        },
        Err(_) => None,
    }
}

/// What a scrape tells the page's server about itself: the name of the
/// product, a slash, its version, and in brackets the address of its
/// repository.
pub fn user_agent(name: &str, version: &str, repository: &str) -> (r: String)
    ensures
        r@ == name@ + seq!['/'] + version@ + seq![' ', '('] + repository@ + seq![')'],
{
    let mut agent = name.to_owned();
    agent.append("/");
    agent.append(version);
    agent.append(" (");
    agent.append(repository);
    agent.append(")");
    proof {
        reveal_strlit("/");
        reveal_strlit(" (");
        reveal_strlit(")");
    }
    agent
}

/// The first position at or after `from` of a block whose type is exactly
/// "Recipe" (the number of blocks if there is none).
pub open spec fn recipe_block(types: Seq<Seq<char>>, from: int) -> int
    decreases types.len() - from,
{
    if 0 <= from < types.len() && types[from] != "Recipe"@ {
        recipe_block(types, from + 1)
    } else {
        from
    }
}

/// The first block of a page that holds a recipe, given the types of the
/// page's structured-data blocks in their order.
pub fn find_recipe(types: &Vec<String>) -> (r: Option<usize>)
    ensures
        match r {
            Some(i) => i < types@.len() && i == recipe_block(types.deep_view(), 0),
            None => recipe_block(types.deep_view(), 0) == types@.len(),
        },
{
    let mut i: usize = 0;
    while i < types.len()
        invariant
            i <= types@.len(),
            recipe_block(types.deep_view(), 0) == recipe_block(types.deep_view(), i as int),
        decreases types@.len() - i,
    {
        if spells(&chars_of(types[i].as_str()), "Recipe") {
            return Some(i);
        }
        i += 1;
    }
    None
}

/// The adapter for a page, given the host of its address.
pub open spec fn dispatched<A: Scraper>(registry: &Registry<A>, host: Option<Seq<char>>) -> Result<
    A,
    ScrapeErrorView,
> {
    match host {
        Some(name) => match registry.lookup(name) {
            Some(adapter) => Ok(adapter),
            None => Err(ScrapeErrorView::UnrecognisedHost(name)),
        },
        None => Err(ScrapeErrorView::UnrecognisedHost(Seq::empty())),
    }
}

/// The adapter that is registered for `host`. An address without a host has
/// no adapter; the error then carries an empty name.
pub fn dispatch<A: Scraper>(registry: &Registry<A>, host: Option<String>) -> (r: Result<A, Error>)
    ensures
        match r {
            Ok(adapter) => dispatched(registry, host.deep_view()) == Ok::<A, ScrapeErrorView>(
                adapter,
            ),
            Err(e) => dispatched(registry, host.deep_view()) == Err::<A, ScrapeErrorView>(e@),
        },
{
    match host {
        Some(name) => match registry.get(name.as_str()) {
            Some(adapter) => Ok(adapter),
            None => Err(Error::UnrecognisedHost(name)),
        },
        None => Err(Error::UnrecognisedHost(String::new())),
    }
}

/// Where a scrape stands between two pieces of the caller's work.
#[derive(Debug, Clone, Copy, PartialEq, Eq)]
pub enum State<A> {
    /// The page is being fetched.
    Fetching,
    /// The page is being read as HTML.
    ParsingHtml,
    /// The block at `block` is being laid out for `adapter`.
    Adapting { block: usize, adapter: A },
}

/// What the caller is to do next.
#[derive(Debug, Clone, Copy, PartialEq, Eq)]
pub enum Request<A> {
    /// Fetch the page with one GET.
    Fetch,
    /// Read the body as HTML and collect its structured-data blocks.
    ParseHtml,
    /// Lay the block at `block` out as `adapter`'s publisher does.
    Decode { block: usize, adapter: A },
}

/// What came of the caller's work.
#[derive(Debug, Clone)]
pub enum Event<V> {
    /// The page answered with this HTTP status.
    Response(u16),
    /// The page did not answer, or not in time; carries the reason.
    Unreachable(String),
    /// The body was read; carries the types of its structured-data blocks
    /// in their order.
    Page(Vec<String>),
    /// The body is no HTML that can be read; carries the reason.
    MalformedPage(String),
    /// The block was laid out.
    Block(V),
}

impl<A: Scraper> State<A> {
    /// What the caller is to do in this state.
    pub open spec fn pending(self) -> Request<A> {
        match self {
            State::Fetching => Request::Fetch,
            State::ParsingHtml => Request::ParseHtml,
            State::Adapting { block, adapter } => Request::Decode { block, adapter },
        }
    }

    /// The stage of the scrape that this state belongs to.
    pub open spec fn stage(self) -> Stage {
        match self {
            State::Fetching => Stage::Fetching,
            State::ParsingHtml => Stage::ParsingHtml,
            State::Adapting { .. } => Stage::Adapting,
        }
    }
}

/// A scrape after a step: under way with a new state, or at its end.
pub enum Outcome<A> {
    Continue(State<A>),
    Finished(Result<RecipeView, ScrapeErrorView>),
}

/// The reason that is given for a page that answers with `status`.
pub open spec fn status_reason(status: u16) -> Seq<char> {
    "HTTP status "@ + decimal_digits(status as nat)
}

/// The step that a scrape of `url` takes from `state` on `event`.
///
/// A page must answer with a success status. Its first block of the type
/// "Recipe" is the one to read, and the host of `url` decides the adapter.
/// An event that does not answer what the state waits for changes nothing.
pub open spec fn next<A: Scraper>(
    registry: &Registry<A>,
    url: Seq<char>,
    state: State<A>,
    event: Event<A::Value>,
) -> Outcome<A> {
    match (state, event) {
        (State::Fetching, Event::Response(status)) => if 200 <= status < 300 {
            Outcome::Continue(State::ParsingHtml)
        } else {
            Outcome::Finished(Err(ScrapeErrorView::Reqwest(status_reason(status))))
        },
        (State::Fetching, Event::Unreachable(reason)) => Outcome::Finished(
            Err(ScrapeErrorView::Reqwest(reason@)),
        ),
        (State::ParsingHtml, Event::MalformedPage(reason)) => Outcome::Finished(
            Err(ScrapeErrorView::Html(reason@)),
        ),
        (State::ParsingHtml, Event::Page(types)) => {
            let block = recipe_block(types.deep_view(), 0);
            if block >= types@.len() {
                Outcome::Finished(Err(ScrapeErrorView::NotARecipe))
            } else {
                match dispatched(registry, host_of_url(url)) {
                    Ok(adapter) => Outcome::Continue(
                        State::Adapting { block: block as usize, adapter },
                    ),
                    Err(e) => Outcome::Finished(Err(e)),
                }
            }
        },
        (State::Adapting { block, adapter }, Event::Block(payload)) => Outcome::Finished(
            adapter.outcome(url, payload),
        ),
        _ => Outcome::Continue(state),
    }
}

/// The course of a scrape from `state` over `events`: it takes one step for
/// each event until it is over or the events have run out.
pub open spec fn run<A: Scraper>(
    registry: &Registry<A>,
    url: Seq<char>,
    state: State<A>,
    events: Seq<Event<A::Value>>,
) -> Outcome<A>
    decreases events.len(),
{
    if events.len() == 0 {
        Outcome::Continue(state)
    } else {
        match next(registry, url, state, events[0]) {
            Outcome::Continue(then) => run(registry, url, then, events.drop_first()),
            Outcome::Finished(r) => Outcome::Finished(r),
        }
    }
}

/// A page whose host has no adapter never yields a recipe, whatever comes
/// of fetching and reading it: the scrape does not get as far as adapting,
/// and if it ends, it ends with a failure of fetching, of reading the HTML
/// or of locating a recipe, or else with the host as unrecognised.
pub proof fn lemma_unregistered_host_yields_no_recipe<A: Scraper>(
    registry: &Registry<A>,
    url: Seq<char>,
    events: Seq<Event<A::Value>>,
)
    requires
        dispatched(registry, host_of_url(url)) is Err,
    ensures
        match run(registry, url, State::<A>::Fetching, events) {
            Outcome::Continue(state) => !(state is Adapting),
            Outcome::Finished(r) => r is Err && (r->Err_0 is Reqwest || r->Err_0 is Html
                || r->Err_0 is NotARecipe || Err::<A, ScrapeErrorView>(r->Err_0)
                == dispatched(registry, host_of_url(url))),
        },
{
    lemma_run_without_adapter(registry, url, State::<A>::Fetching, events);
}

/// A page whose address has a host without an adapter, once it is fetched,
/// read and found to hold a recipe, ends the scrape with that host as
/// unrecognised.
pub proof fn lemma_unregistered_host_is_unrecognised<A: Scraper>(
    registry: &Registry<A>,
    url: Seq<char>,
    types: Vec<String>,
)
    requires
        host_of_url(url) is Some,
        registry.lookup(host_of_url(url)->0) is None,
        recipe_block(types.deep_view(), 0) < types@.len(),
    ensures
        next(registry, url, State::<A>::Fetching, Event::<A::Value>::Response(200))
            == Outcome::<A>::Continue(State::ParsingHtml),
        next(registry, url, State::<A>::ParsingHtml, Event::<A::Value>::Page(types))
            == Outcome::<A>::Finished(
            Err(ScrapeErrorView::UnrecognisedHost(host_of_url(url)->0)),
        ),
{
}

proof fn lemma_run_without_adapter<A: Scraper>(
    registry: &Registry<A>,
    url: Seq<char>,
    state: State<A>,
    events: Seq<Event<A::Value>>,
)
    requires
        dispatched(registry, host_of_url(url)) is Err,
        !(state is Adapting),
    ensures
        match run(registry, url, state, events) {
            Outcome::Continue(state) => !(state is Adapting),
            Outcome::Finished(r) => r is Err && (r->Err_0 is Reqwest || r->Err_0 is Html
                || r->Err_0 is NotARecipe || Err::<A, ScrapeErrorView>(r->Err_0)
                == dispatched(registry, host_of_url(url))),
        },
    decreases events.len(),
{
    if events.len() > 0 {
        match next(registry, url, state, events[0]) {
            Outcome::Continue(then) => {
                lemma_run_without_adapter(registry, url, then, events.drop_first());
            },
            Outcome::Finished(_) => {},
        }
    }
}

/// One scrape of one page.
#[derive(Debug, Clone)]
pub struct Scrape<A> {
    /// The address of the page.
    pub url: String,
    pub state: State<A>,
}

/// A scrape after a step.
#[derive(Debug)]
pub enum Step<A> {
    /// The scrape goes on: do what its state waits for.
    Continue(Scrape<A>),
    /// The scrape is over.
    Finished(Result<ScrapedRecipe, Error>),
}

impl<A: Scraper> Outcome<A> {
    /// The stage that the scrape is at after the step.
    pub open spec fn stage(self) -> Stage {
        match self {
            Outcome::Continue(state) => state.stage(),
            Outcome::Finished(Ok(_)) => Stage::Done,
            Outcome::Finished(Err(e)) => e.stage(),
        }
    }
}

impl<A: Scraper> Step<A> {
    /// The stage that the scrape is at: the stage of its state while it goes
    /// on, the stage that failed where it ended without a recipe, and done
    /// where it ended with one.
    pub fn stage(&self) -> (r: Stage)
        ensures
            match self {
                Step::Continue(scrape) => r == scrape.state.stage(),
                Step::Finished(outcome) => r == Outcome::<A>::Finished(
                    outcome_view(*outcome),
                ).stage(),
            },
    {
        match self {
            Step::Continue(scrape) => match scrape.state {
                State::Fetching => Stage::Fetching,
                State::ParsingHtml => Stage::ParsingHtml,
                State::Adapting { .. } => Stage::Adapting,
            },
            Step::Finished(Ok(_)) => Stage::Done,
            Step::Finished(Err(e)) => e.stage(),
        }
    }

    /// The step as an [`Outcome`]; a scrape that goes on keeps its address.
    pub open spec fn outcome(self, url: Seq<char>) -> Option<Outcome<A>> {
        match self {
            Step::Continue(scrape) => if scrape.url@ == url {
                Some(Outcome::Continue(scrape.state))
            } else {
                None
            },
            Step::Finished(r) => Some(Outcome::Finished(outcome_view(r))),
        }
    }
}

impl<A: Scraper> Scrape<A> {
    /// A scrape of the page at `url`, about to fetch it.
    pub fn new(url: String) -> (r: Scrape<A>)
        ensures
            r.url == url,
            r.state == State::<A>::Fetching,
    {
        Scrape { url, state: State::Fetching }
    }

    /// What the caller is to do next.
    pub fn request(&self) -> (r: Request<A>)
        ensures
            r == self.state.pending(),
    {
        match self.state {
            State::Fetching => Request::Fetch,
            State::ParsingHtml => Request::ParseHtml,
            State::Adapting { block, adapter } => Request::Decode { block, adapter },
        }
    }

    /// Takes what came of the caller's work and decides how the scrape goes
    /// on. The host of the address is read here, so what is promised holds
    /// for whatever host the address has.
    pub fn step(self, registry: &Registry<A>, event: Event<A::Value>) -> (r: Step<A>)
        ensures
            r.outcome(self.url@) == Some(next(registry, self.url@, self.state, event)),
    {
        match self.state {
            State::Fetching => match event {
                Event::Response(status) => Self::fetched(self.url, status),
                Event::Unreachable(reason) => Step::Finished(Err(Error::Reqwest(reason))),
                _ => Step::Continue(self),
            },
            State::ParsingHtml => match event {
                Event::Page(types) => {
                    let host = url_host(self.url.as_str());
                    Self::parsed(self.url, registry, &types, host)
                },
                Event::MalformedPage(reason) => Step::Finished(Err(Error::Html(reason))),
                _ => Step::Continue(self),
            },
            State::Adapting { block, adapter } => match event {
                Event::Block(payload) => Step::Finished(adapter.scrape(self.url, payload)),
                _ => Step::Continue(self),
            },
        }
    }

    /// The step on the answer of the page.
    pub fn fetched(url: String, status: u16) -> (r: Step<A>)
        ensures
            r.outcome(url@) == Some(
                if 200 <= status < 300 {
                    Outcome::Continue(State::<A>::ParsingHtml)
                } else {
                    Outcome::Finished(Err(ScrapeErrorView::Reqwest(status_reason(status))))
                },
            ),
    {
        if 200 <= status && status < 300 {
            Step::Continue(Scrape { url, state: State::ParsingHtml })
        } else {
            let mut reason = "HTTP status ".to_owned();
            push_decimal(&mut reason, status as u64);
            Step::Finished(Err(Error::Reqwest(reason)))
        }
    }

    /// The step on the blocks of the page, given the host of its address:
    /// the first recipe among the blocks is located, and the adapter for the
    /// host is looked up.
    pub fn parsed(
        url: String,
        registry: &Registry<A>,
        types: &Vec<String>,
        host: Option<String>,
    ) -> (r: Step<A>)
        ensures
            r.outcome(url@) == Some(
                if recipe_block(types.deep_view(), 0) >= types@.len() {
                    Outcome::Finished(Err(ScrapeErrorView::NotARecipe))
                } else {
                    match dispatched(registry, host.deep_view()) {
                        Ok(adapter) => Outcome::Continue(
                            State::Adapting {
                                block: recipe_block(types.deep_view(), 0) as usize,
                                adapter,
                            },
                        ),
                        Err(e) => Outcome::Finished(Err(e)),
                    }
                },
            ),
    {
        match find_recipe(types) {
            None => Step::Finished(Err(Error::NotARecipe)),
            Some(block) => match dispatch(registry, host) {
                Ok(adapter) => Step::Continue(
                    Scrape { url, state: State::Adapting { block, adapter } },
                ),
                Err(e) => Step::Finished(Err(e)),
            },
        }
    }
}

} // verus!
