//! Gathering the adapters' outcomes into one record with a quote per exchange.
use vstd::prelude::*;
use crate::exchanges::{empty_quote, lemma_names_distinct, response_quote, Binance, Coinbase, Exchange, Lbank, QuoteView, Tick, MEXC};

verus! {

/// The quotes of all known exchanges; an exchange that could not be read has
/// both prices empty.
#[derive(Clone, Debug, PartialEq, Eq)]
pub struct OrderBook {
    pub binance: Tick,
    pub mexc: Tick,
    pub lbank: Tick,
    pub coinbase: Tick,
}

/// A book as one quote per exchange.
pub struct OrderBookView {
    pub binance: QuoteView,
    pub mexc: QuoteView,
    pub lbank: QuoteView,
    pub coinbase: QuoteView,
}

impl View for OrderBook {
    type V = OrderBookView;

    open spec fn view(&self) -> OrderBookView {
        OrderBookView { binance: self.binance@, mexc: self.mexc@, lbank: self.lbank@, coinbase: self.coinbase@ }
    }
}

/// One adapter's outcome: its name and quote, or a failure whose message
/// does not matter to the aggregate.
pub type Outcome = Result<(String, Tick), String>;

/// An outcome with its failure message set aside.
pub open spec fn outcome_view(o: Outcome) -> Option<(Seq<char>, QuoteView)> {
    match o {
        Ok((name, tick)) => Some((name@, tick@)),
        Err(_) => None,
    }
}

pub open spec fn outcomes_view(os: Seq<Outcome>) -> Seq<Option<(Seq<char>, QuoteView)>> {
    os.map_values(|o: Outcome| outcome_view(o))
}

/// The quote that the last successful outcome under `name` gave, or the empty
/// quote where none did.
pub open spec fn quote_for(os: Seq<Option<(Seq<char>, QuoteView)>>, name: Seq<char>) -> QuoteView
    decreases os.len(),
{
    if os.len() == 0 {
        empty_quote()
    } else {
        match os.last() {
            Some((n, q)) if n == name => q,
            _ => quote_for(os.drop_last(), name),
        }
    }
}

/// The book filled by looking up each known exchange's name.
pub open spec fn book_of(os: Seq<Option<(Seq<char>, QuoteView)>>) -> OrderBookView {
    OrderBookView {
        binance: quote_for(os, Binance.spec_name()),
        mexc: quote_for(os, MEXC.spec_name()),
        lbank: quote_for(os, Lbank.spec_name()),
        coinbase: quote_for(os, Coinbase.spec_name()),
    }
}

/// What an adapter's unit of work comes to: the quote of the fetched body
/// filed under the adapter's name, or a failure where the fetch or the parse
/// failed.
pub open spec fn settled<E: Exchange + ?Sized>(ex: &E, fetched: Result<Seq<char>, ()>) -> Option<(Seq<char>, QuoteView)> {
    match fetched {
        Ok(body) => match response_quote(ex, body) {
            Some(q) => Some((ex.spec_name(), q)),
            None => None,
        },
        Err(_) => None,
    }
}

/// What the transport gave, with its error message set aside.
pub open spec fn fetched_view(fetched: Result<String, String>) -> Result<Seq<char>, ()> {
    match fetched {
        Ok(body) => Ok(body@),
        Err(_) => Err(()),
    }
}

/// Finishes one adapter's unit of work once the transport is done: `fetched`
/// is the response body, or the transport's error. Transport and parse
/// failures come out alike.
pub fn settle<E: Exchange + ?Sized>(ex: &E, fetched: Result<String, String>) -> (r: Outcome)
    ensures
        outcome_view(r) == settled(ex, fetched_view(fetched)),
{
    let body = fetched?;
    let tick = ex.parse(body.as_str())?;
    Ok((ex.name().to_owned(), tick))
}

fn copy_tick(t: &Tick) -> (r: Tick)
    ensures
        r@ == t@,
{
    Tick { bid: t.bid.clone(), ask: t.ask.clone() }
}

/// Builds the book from the outcomes of all adapters: each known exchange
/// gets the quote of the last successful outcome under its name, or the empty
/// quote.
pub fn assemble(outcomes: &Vec<Outcome>) -> (r: OrderBook)
    ensures
        r@ == book_of(outcomes_view(outcomes@)),
{
    let binance = Binance.name().to_owned();
    let mexc = MEXC.name().to_owned();
    let lbank = Lbank.name().to_owned();
    let coinbase = Coinbase.name().to_owned();
    let mut book = OrderBook {
        binance: Tick::default(),
        mexc: Tick::default(),
        lbank: Tick::default(),
        coinbase: Tick::default(),
    };
    let ghost all = outcomes_view(outcomes@);
    let mut i: usize = 0;
    while i < outcomes.len()
        invariant
            all == outcomes_view(outcomes@),
            i <= outcomes.len(),
            binance@ == Binance.spec_name(),
            mexc@ == MEXC.spec_name(),
            lbank@ == Lbank.spec_name(),
            coinbase@ == Coinbase.spec_name(),
            book@ == book_of(all.take(i as int)),
        decreases outcomes.len() - i,
    {
        proof {
            lemma_names_distinct();
            assert(all.take(i + 1).drop_last() =~= all.take(i as int));
            assert(all.take(i + 1).last() == outcome_view(outcomes@[i as int]));
        }
        match &outcomes[i] {
            Ok((name, tick)) => {
                if *name == binance {
                    book.binance = copy_tick(tick);
                } else if *name == mexc {
                    book.mexc = copy_tick(tick);
                } else if *name == lbank {
                    book.lbank = copy_tick(tick);
                } else if *name == coinbase {
                    book.coinbase = copy_tick(tick);
                }
            },
            Err(_) => {},
        }
        i = i + 1;
    }
    assert(all.take(outcomes.len() as int) =~= all);
    book
}

/// An exchange with no successful outcome under its name gets the empty
/// quote, whatever the other exchanges gave.
pub proof fn lemma_failed_exchange_is_empty(os: Seq<Option<(Seq<char>, QuoteView)>>, name: Seq<char>)
    requires
        forall|i: int| 0 <= i < os.len() ==> !(#[trigger] os[i] matches Some(e) && e.0 == name),
    ensures
        quote_for(os, name) == empty_quote(),
    decreases os.len(),
{
    if os.len() > 0 {
        assert(!(os[os.len() - 1] matches Some(e) && e.0 == name));
        lemma_failed_exchange_is_empty(os.drop_last(), name);
    }
}

/// An exchange keeps the quote of its last successful outcome, whatever
/// failed elsewhere.
pub proof fn lemma_succeeded_exchange_kept(
    os: Seq<Option<(Seq<char>, QuoteView)>>,
    i: int,
    name: Seq<char>,
    q: QuoteView,
)
    requires
        0 <= i < os.len(),
        os[i] == Some((name, q)),
        forall|j: int| i < j < os.len() ==> !(#[trigger] os[j] matches Some(e) && e.0 == name),
    ensures
        quote_for(os, name) == q,
    decreases os.len(),
{
    if i < os.len() - 1 {
        assert(!(os[os.len() - 1] matches Some(e) && e.0 == name));
        lemma_succeeded_exchange_kept(os.drop_last(), i, name, q);
    }
}

/// When every adapter failed, the book still holds every exchange, each with
/// the empty quote.
pub proof fn lemma_total_failure(os: Seq<Option<(Seq<char>, QuoteView)>>)
    requires
        forall|i: int| 0 <= i < os.len() ==> #[trigger] os[i] is None,
    ensures
        book_of(os) == (OrderBookView {
            binance: empty_quote(),
            mexc: empty_quote(),
            lbank: empty_quote(),
            coinbase: empty_quote(),
        }),
{
    lemma_failed_exchange_is_empty(os, Binance.spec_name());
    lemma_failed_exchange_is_empty(os, MEXC.spec_name());
    lemma_failed_exchange_is_empty(os, Lbank.spec_name());
    lemma_failed_exchange_is_empty(os, Coinbase.spec_name());
}

/// Aggregating the same fetched bodies again settles every adapter alike and
/// fills the same book, whatever the transport's error messages were.
pub proof fn lemma_same_responses_same_book<E: Exchange + ?Sized>(
    ex: &E,
    first: Result<String, String>,
    second: Result<String, String>,
    others: Seq<Option<(Seq<char>, QuoteView)>>,
)
    requires
        fetched_view(first) == fetched_view(second),
    ensures
        settled(ex, fetched_view(first)) == settled(ex, fetched_view(second)),
        book_of(others.push(settled(ex, fetched_view(first))))
            == book_of(others.push(settled(ex, fetched_view(second)))),
{
}

} // verus!
