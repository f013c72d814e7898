//! One adapter per exchange: its name, the endpoint to ask, and how the top of
//! its order book is read from the answer.
use vstd::prelude::*;
use crate::json::{error_message, json_view, member, number_text, parsed_document, read_document, JsonView};

verus! {

/// The best bid and ask prices of one exchange, kept as the text the exchange
/// sent.
#[derive(Clone, Debug, PartialEq, Eq)]
pub struct Tick {
    pub bid: String,
    pub ask: String,
}

/// A quote as a pair of texts.
pub struct QuoteView {
    pub bid: Seq<char>,
    pub ask: Seq<char>,
}

impl View for Tick {
    type V = QuoteView;

    open spec fn view(&self) -> QuoteView {
        QuoteView { bid: self.bid@, ask: self.ask@ }
    }
}

impl Default for Tick {
    /// The quote of an exchange that could not be read: both prices empty.
    fn default() -> (r: Tick)
        ensures
            r@ == empty_quote(),
    {
        Tick { bid: String::new(), ask: String::new() }
    }
}

/// The quote with both prices empty.
pub open spec fn empty_quote() -> QuoteView {
    QuoteView { bid: Seq::empty(), ask: Seq::empty() }
}

/// The quote a parse gives, or `None` where it failed.
pub open spec fn quote_of(r: Result<Tick, String>) -> Option<QuoteView> {
    match r {
        Ok(t) => Some(t@),
        Err(_) => None,
    }
}

/// How one price level of an order book is written.
#[derive(Clone, Copy)]
pub enum LevelShape {
    /// `[price, size]`, both strings.
    TextPair,
    /// `[price, size, orders]`, of any JSON types; a price that is neither a
    /// string nor a number reads as empty.
    LooseTriple,
}

/// The text of a price element that may be a string or a number.
pub open spec fn loose_price(v: JsonView) -> Seq<char> {
    match v {
        JsonView::Text(s) => s,
        JsonView::Number(t) => t,
        _ => Seq::empty(),
    }
}

/// The price of one level, or `None` where the level is not of that shape.
pub open spec fn level_price(shape: LevelShape, level: JsonView) -> Option<Seq<char>> {
    match level {
        JsonView::Array(items) => match shape {
            LevelShape::TextPair => if items.len() == 2 && items[0] is Text && items[1] is Text {
                Some(items[0]->Text_0)
            } else {
                None
            },
            LevelShape::LooseTriple => if items.len() == 3 {
                Some(loose_price(items[0]))
            } else {
                None
            },
        },
        _ => None,
    }
}

/// The price of the first level of one side of a book: the side must be a
/// non-empty array whose levels all have the shape.
pub open spec fn top_price(shape: LevelShape, side: JsonView) -> Option<Seq<char>> {
    match side {
        JsonView::Array(levels) => if levels.len() > 0 && forall|i: int|
            0 <= i < levels.len() ==> #[trigger] level_price(shape, levels[i]) is Some {
            level_price(shape, levels[0])
        } else {
            None
        },
        _ => None,
    }
}

/// The quote of a book written as an object with `bids` and `asks`.
pub open spec fn book_quote(shape: LevelShape, book: JsonView) -> Option<QuoteView> {
    match book {
        JsonView::Object(m) => if m.contains_key("bids"@) && m.contains_key("asks"@) {
            match (top_price(shape, m["bids"@]), top_price(shape, m["asks"@])) {
                (Some(bid), Some(ask)) => Some(QuoteView { bid, ask }),
                _ => None,
            }
        } else {
            None
        },
        _ => None,
    }
}

/// The quote of a book wrapped in an object under `data`.
pub open spec fn wrapped_book_quote(shape: LevelShape, doc: JsonView) -> Option<QuoteView> {
    match doc {
        JsonView::Object(m) => if m.contains_key("data"@) {
            book_quote(shape, m["data"@])
        } else {
            None
        },
        _ => None,
    }
}

fn read_level(shape: LevelShape, level: &serde_json::Value) -> (r: Option<String>)
    ensures
        match r {
            Some(s) => level_price(shape, json_view(*level)) == Some(s@),
            None => level_price(shape, json_view(*level)) is None,
        },
{
    let items = match level.as_array() {
        Some(items) => items,
        None => return None,
    };
    match shape {
        LevelShape::TextPair => {
            if items.len() != 2 {
                return None;
            }
            match (items[0].as_str(), items[1].as_str()) {
                (Some(price), Some(_)) => Some(price.to_owned()),
                _ => None,
            }
        },
        LevelShape::LooseTriple => {
            if items.len() != 3 {
                return None;
            }
            match items[0].as_str() {
                Some(price) => Some(price.to_owned()),
                None => match number_text(&items[0]) {
                    Some(price) => Some(price),
                    None => Some(String::new()),
                },
            }
        },
    }
}


fn read_top(shape: LevelShape, side: &serde_json::Value) -> (r: Option<String>)
    ensures
        match r {
            Some(s) => top_price(shape, json_view(*side)) == Some(s@),
            None => top_price(shape, json_view(*side)) is None,
        },
{
    let levels = match side.as_array() {
        Some(levels) => levels,
        None => return None,
    };
    if levels.len() == 0 {
        return None;
    }
    let ghost items = json_view(*side)->Array_0;
    let mut i: usize = 0;
    while i < levels.len()
        invariant
            json_view(*side) == JsonView::Array(items),
            levels@.len() == items.len(),
            forall|j: int| 0 <= j < items.len() ==> json_view(#[trigger] levels@[j]) == items[j],
            0 <= i <= levels.len(),
            forall|j: int| 0 <= j < i ==> #[trigger] level_price(shape, items[j]) is Some,
        decreases levels.len() - i,
    {
        if read_level(shape, &levels[i]).is_none() {
            assert(level_price(shape, items[i as int]) is None);
            return None;
        }
        i = i + 1;
    }
    read_level(shape, &levels[0])
}

fn read_book(shape: LevelShape, book: &serde_json::Value) -> (r: Result<Tick, String>)
    ensures
        quote_of(r) == book_quote(shape, json_view(*book)),
{
    let (bids, asks) = match (member(book, "bids"), member(book, "asks")) {
        (Some(bids), Some(asks)) => (bids, asks),
        _ => return Err("order book lacks bids or asks".to_owned()),
    };
    let bid = match read_top(shape, bids) {
        Some(bid) => bid,
        None => return Err("bids are empty or malformed".to_owned()),
    };
    let ask = match read_top(shape, asks) {
        Some(ask) => ask,
        None => return Err("asks are empty or malformed".to_owned()),
    };
    Ok(Tick { bid, ask })
}

fn read_wrapped_book(shape: LevelShape, doc: &serde_json::Value) -> (r: Result<Tick, String>)
    ensures
        quote_of(r) == wrapped_book_quote(shape, json_view(*doc)),
{
    match member(doc, "data") {
        Some(book) => read_book(shape, book),
        None => Err("response lacks data".to_owned()),
    }
}

fn read_text(body: &str) -> (r: Result<serde_json::Value, String>)
    ensures
        match r {
            Ok(v) => parsed_document(body@) == Some(json_view(v)),
            Err(_) => parsed_document(body@) is None,
        },
{
    match read_document(body) {
        Ok(v) => Ok(v),
        Err(e) => Err(error_message(&e)),
    }
}


/// The quote that an adapter reads from a response text: `None` where the
/// text is not JSON or the document is not of the exchange's shape.
pub open spec fn response_quote<E: Exchange + ?Sized>(ex: &E, text: Seq<char>) -> Option<QuoteView> {
    match parsed_document(text) {
        Some(doc) => ex.spec_decode(doc),
        None => None,
    }
}

/// What every exchange adapter offers: a name to file its quote under, the
/// endpoint to ask, and the reading of the answer.
pub trait Exchange {
    /// The adapter's name.
    spec fn spec_name(&self) -> Seq<char>;

    /// The adapter's endpoint.
    spec fn spec_url(&self) -> Seq<char>;

    /// The quote that this exchange's answer holds, or `None` where the
    /// document does not have the exchange's shape.
    spec fn spec_decode(&self, doc: JsonView) -> Option<QuoteView>;

    /// A lowercase name, unique among the adapters.
    fn name(&self) -> (r: &'static str)
        ensures
            r@ == self.spec_name(),
    ;

    /// The full URL of the order-book request, pair and depth included.
    fn url(&self) -> (r: &'static str)
        ensures
            r@ == self.spec_url(),
    ;

    /// Reads the top of the book from a JSON document.
    fn decode(&self, doc: &serde_json::Value) -> (r: Result<Tick, String>)
        ensures
            quote_of(r) == self.spec_decode(json_view(*doc)),
    ;

    /// Reads the top of the book from a response body; fails on text that is
    /// not JSON and on a document of another shape.
    fn parse(&self, body: &str) -> (r: Result<Tick, String>)
        ensures
            quote_of(r) == match parsed_document(body@) {
                Some(doc) => self.spec_decode(doc),
                None => None,
            },
    ;
}

pub struct Binance;

impl Exchange for Binance {
    open spec fn spec_name(&self) -> Seq<char> {
        "binance"@
    }

    open spec fn spec_url(&self) -> Seq<char> {
        "https://api.binance.us/api/v3/depth?symbol=BTCUSDT&limit=1"@
    }

    open spec fn spec_decode(&self, doc: JsonView) -> Option<QuoteView> {
        book_quote(LevelShape::TextPair, doc)
    }

    fn name(&self) -> (r: &'static str) {
        "binance"
    }

    fn url(&self) -> (r: &'static str) {
        "https://api.binance.us/api/v3/depth?symbol=BTCUSDT&limit=1"
    }

    fn decode(&self, doc: &serde_json::Value) -> (r: Result<Tick, String>) {
        read_book(LevelShape::TextPair, doc)
    }

    fn parse(&self, body: &str) -> (r: Result<Tick, String>) {
        let doc = read_text(body)?;
        self.decode(&doc)
    }
}

pub struct MEXC;

impl Exchange for MEXC {
    open spec fn spec_name(&self) -> Seq<char> {
        "mexc"@
    }

    open spec fn spec_url(&self) -> Seq<char> {
        "https://api.mexc.com/api/v3/depth?symbol=BTCUSDT&limit=1"@
    }

    open spec fn spec_decode(&self, doc: JsonView) -> Option<QuoteView> {
        book_quote(LevelShape::TextPair, doc)
    }

    fn name(&self) -> (r: &'static str) {
        "mexc"
    }

    fn url(&self) -> (r: &'static str) {
        "https://api.mexc.com/api/v3/depth?symbol=BTCUSDT&limit=1"
    }

    fn decode(&self, doc: &serde_json::Value) -> (r: Result<Tick, String>) {
        read_book(LevelShape::TextPair, doc)
    }

    fn parse(&self, body: &str) -> (r: Result<Tick, String>) {
        let doc = read_text(body)?;
        self.decode(&doc)
    }
}

pub struct Lbank;

impl Exchange for Lbank {
    open spec fn spec_name(&self) -> Seq<char> {
        "lbank"@
    }

    open spec fn spec_url(&self) -> Seq<char> {
        "https://api.lbank.info/v2/depth.do?symbol=btc_usdt&size=1"@
    }

    open spec fn spec_decode(&self, doc: JsonView) -> Option<QuoteView> {
        wrapped_book_quote(LevelShape::TextPair, doc)
    }

    fn name(&self) -> (r: &'static str) {
        "lbank"
    }

    fn url(&self) -> (r: &'static str) {
        "https://api.lbank.info/v2/depth.do?symbol=btc_usdt&size=1"
    }

    fn decode(&self, doc: &serde_json::Value) -> (r: Result<Tick, String>) {
        read_wrapped_book(LevelShape::TextPair, doc)
    }

    fn parse(&self, body: &str) -> (r: Result<Tick, String>) {
        let doc = read_text(body)?;
        self.decode(&doc)
    }
}

pub struct Coinbase;

impl Exchange for Coinbase {
    open spec fn spec_name(&self) -> Seq<char> {
        "coinbase"@
    }

    open spec fn spec_url(&self) -> Seq<char> {
        "https://api.exchange.coinbase.com/products/BTC-USD/book?level=1"@
    }

    open spec fn spec_decode(&self, doc: JsonView) -> Option<QuoteView> {
        book_quote(LevelShape::LooseTriple, doc)
    }

    fn name(&self) -> (r: &'static str) {
        "coinbase"
    }

    fn url(&self) -> (r: &'static str) {
        "https://api.exchange.coinbase.com/products/BTC-USD/book?level=1"
    }

    fn decode(&self, doc: &serde_json::Value) -> (r: Result<Tick, String>) {
        read_book(LevelShape::LooseTriple, doc)
    }

    fn parse(&self, body: &str) -> (r: Result<Tick, String>) {
        let doc = read_text(body)?;
        self.decode(&doc)
    }
}

/// The adapters' names are non-empty and pairwise distinct, so each quote has
/// a place of its own in the aggregate.
pub proof fn lemma_names_distinct()
    ensures
        Binance.spec_name().len() > 0,
        MEXC.spec_name().len() > 0,
        Lbank.spec_name().len() > 0,
        Coinbase.spec_name().len() > 0,
        Binance.spec_name() != MEXC.spec_name(),
        Binance.spec_name() != Lbank.spec_name(),
        Binance.spec_name() != Coinbase.spec_name(),
        MEXC.spec_name() != Lbank.spec_name(),
        MEXC.spec_name() != Coinbase.spec_name(),
        Lbank.spec_name() != Coinbase.spec_name(),
{
    reveal_strlit("binance");
    reveal_strlit("mexc");
    reveal_strlit("lbank");
    reveal_strlit("coinbase");
    assert("binance"@[0] != "mexc"@[0]);
    assert("binance"@[0] != "lbank"@[0]);
    assert("binance"@[0] != "coinbase"@[0]);
    assert("mexc"@[0] != "lbank"@[0]);
    assert("mexc"@[0] != "coinbase"@[0]);
    assert("lbank"@[0] != "coinbase"@[0]);
}

/// A level `[price, size]` written with two strings.
pub open spec fn text_level(price: Seq<char>, size: Seq<char>) -> JsonView {
    JsonView::Array(seq![JsonView::Text(price), JsonView::Text(size)])
}

/// One side of a book that holds a single level.
pub open spec fn one_level(level: JsonView) -> JsonView {
    JsonView::Array(seq![level])
}

/// A book whose sides each hold one `[price, size]` level reads as exactly
/// those two prices, on every adapter of that shape; Lbank reads it under
/// `data`.
pub proof fn lemma_one_level_text_book(
    m: Map<Seq<char>, JsonView>,
    bid: Seq<char>,
    bid_size: Seq<char>,
    ask: Seq<char>,
    ask_size: Seq<char>,
)
    requires
        m.contains_key("bids"@),
        m.contains_key("asks"@),
        m["bids"@] == one_level(text_level(bid, bid_size)),
        m["asks"@] == one_level(text_level(ask, ask_size)),
    ensures
        Binance.spec_decode(JsonView::Object(m)) == Some(QuoteView { bid, ask }),
        MEXC.spec_decode(JsonView::Object(m)) == Some(QuoteView { bid, ask }),
        forall|w: Map<Seq<char>, JsonView>| #[trigger] w.contains_key("data"@) && w["data"@] == JsonView::Object(m)
            ==> Lbank.spec_decode(JsonView::Object(w)) == Some(QuoteView { bid, ask }),
{
    assert(level_price(LevelShape::TextPair, text_level(bid, bid_size)) == Some(bid));
    assert(level_price(LevelShape::TextPair, text_level(ask, ask_size)) == Some(ask));
    assert(top_price(LevelShape::TextPair, m["bids"@]) == Some(bid));
    assert(top_price(LevelShape::TextPair, m["asks"@]) == Some(ask));
}

/// A Coinbase book whose sides each hold one `[price, size, orders]` level
/// with the price as a string reads as exactly those two prices.
pub proof fn lemma_one_level_coinbase_book(
    m: Map<Seq<char>, JsonView>,
    bid: Seq<char>,
    bid_rest: (JsonView, JsonView),
    ask: Seq<char>,
    ask_rest: (JsonView, JsonView),
)
    requires
        m.contains_key("bids"@),
        m.contains_key("asks"@),
        m["bids"@] == one_level(JsonView::Array(seq![JsonView::Text(bid), bid_rest.0, bid_rest.1])),
        m["asks"@] == one_level(JsonView::Array(seq![JsonView::Text(ask), ask_rest.0, ask_rest.1])),
    ensures
        Coinbase.spec_decode(JsonView::Object(m)) == Some(QuoteView { bid, ask }),
{
    assert(top_price(LevelShape::LooseTriple, m["bids"@]) == Some(bid));
    assert(top_price(LevelShape::LooseTriple, m["asks"@]) == Some(ask));
}

/// A Coinbase price sent as a JSON number reads as the text serde_json
/// renders for that number.
pub proof fn lemma_coinbase_number_price(
    m: Map<Seq<char>, JsonView>,
    bid: Seq<char>,
    bid_rest: (JsonView, JsonView),
    ask: Seq<char>,
    ask_rest: (JsonView, JsonView),
)
    requires
        m.contains_key("bids"@),
        m.contains_key("asks"@),
        m["bids"@] == one_level(JsonView::Array(seq![JsonView::Number(bid), bid_rest.0, bid_rest.1])),
        m["asks"@] == one_level(JsonView::Array(seq![JsonView::Number(ask), ask_rest.0, ask_rest.1])),
    ensures
        Coinbase.spec_decode(JsonView::Object(m)) == Some(QuoteView { bid, ask }),
{
    assert(top_price(LevelShape::LooseTriple, m["bids"@]) == Some(bid));
    assert(top_price(LevelShape::LooseTriple, m["asks"@]) == Some(ask));
}

/// A book with no bid levels or no ask levels reads as a failure on every
/// adapter.
pub proof fn lemma_empty_side_fails(m: Map<Seq<char>, JsonView>)
    requires
        (m.contains_key("bids"@) && m["bids"@] == JsonView::Array(Seq::empty()))
            || (m.contains_key("asks"@) && m["asks"@] == JsonView::Array(Seq::empty())),
    ensures
        Binance.spec_decode(JsonView::Object(m)) is None,
        MEXC.spec_decode(JsonView::Object(m)) is None,
        Coinbase.spec_decode(JsonView::Object(m)) is None,
        forall|w: Map<Seq<char>, JsonView>| #[trigger] w.contains_key("data"@) && w["data"@] == JsonView::Object(m)
            ==> Lbank.spec_decode(JsonView::Object(w)) is None,
{
}

/// Text that serde_json does not read as JSON fails on every adapter, and
/// always alike.
pub proof fn lemma_unreadable_text_fails<E: Exchange + ?Sized>(ex: &E, text: Seq<char>)
    requires
        parsed_document(text) is None,
    ensures
        response_quote(ex, text) is None,
{
}

} // verus!
