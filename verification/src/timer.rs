//! The price fetch pipeline: what is kept of an external answer, and how
//! fetched prices enter the store.
use vstd::prelude::*;
use crate::error::{Error, Result};
use crate::state::pair_price::{after_insert, append_point, PairKey, PairPrice};

verus! {

/// One header of an HTTP answer.
#[derive(Debug, Clone, PartialEq, Eq)]
pub struct HttpHeader {
    pub name: String,
    pub value: String,
}

/// An HTTP answer of an external price source.
#[derive(Debug, Clone, PartialEq, Eq)]
pub struct HttpResponse {
    /// The status code.
    pub status: u64,
    /// The headers, in the order received.
    pub headers: Vec<HttpHeader>,
    /// The body.
    pub body: Vec<u8>,
}

/// What the transport hands to the normalizer: the raw answer and the
/// context that the request was made with.
#[derive(Debug, Clone, PartialEq, Eq)]
pub struct TransformArgs {
    pub response: HttpResponse,
    pub context: Vec<u8>,
}

/// The fetch that a price update asks for.
#[derive(Debug, Clone, PartialEq, Eq)]
pub enum PriceRequest {
    /// Ask the single-pair source for one pair.
    Coinbase { pair: PairKey },
    /// Ask the multi-pair source once for all the pairs.
    Coingecko { pairs: Vec<PairKey> },
}

/// Why a fetch gave nothing to store.
#[derive(Debug, Clone, PartialEq, Eq)]
pub enum FetchError {
    /// The call did not come back with an answer; the text says why.
    Transport(String),
    /// The answer could not be read as prices; the text says why.
    Malformed(String),
}

/// What a fetch gave: the parsed answer, or why there is none.
pub type Fetched<T> = std::result::Result<T, FetchError>;

/// The error that a caller is told for a fetch that gave nothing.
pub open spec fn fetch_failure(e: FetchError) -> Error {
    match e {
        FetchError::Transport(text) => Error::RemoteCallFailed(text),
        FetchError::Malformed(text) => Error::InvalidArgument(text),
    }
}

/// The error that a caller is told for a fetch that gave nothing.
pub fn failed_fetch(e: FetchError) -> (r: Error)
    ensures
        r == fetch_failure(e),
{
    match e {
        FetchError::Transport(text) => Error::RemoteCallFailed(text),
        FetchError::Malformed(text) => Error::InvalidArgument(text),
    }
}

/// Strips an external answer down to what replicas can agree on: the status
/// and the body stay, every header goes.
pub fn transform(raw: TransformArgs) -> (r: HttpResponse)
    ensures
        r.status == raw.response.status,
        r.body == raw.response.body,
        r.headers@ == Seq::<HttpHeader>::empty(),
{
    HttpResponse { status: raw.response.status, headers: Vec::new(), body: raw.response.body }
}

/// The price that a parsed answer holds for a pair: that of the first quote
/// under the pair's name.
pub open spec fn quoted_price(quotes: Seq<(String, u64)>, key: Seq<char>) -> Option<u64>
    decreases quotes.len(),
{
    if quotes.len() == 0 {
        None
    } else if quotes[0].0@ == key {
        Some(quotes[0].1)
    } else {
        quoted_price(quotes.drop_first(), key)
    }
}

/// The store after one batch: going through the requested pairs in order,
/// each pair that the answer quotes gets one point at the time `now`, and
/// each other pair is passed over.
pub open spec fn after_batch(
    series: Map<Seq<char>, Seq<(u64, u64)>>,
    keys: Seq<PairKey>,
    now: u64,
    quotes: Seq<(String, u64)>,
    capacity: nat,
) -> Map<Seq<char>, Seq<(u64, u64)>>
    decreases keys.len(),
{
    if keys.len() == 0 {
        series
    } else {
        let first = match quoted_price(quotes, keys[0]@) {
            Some(price) => after_insert(series, keys[0]@, (now, price), capacity),
            None => series,
        };
        after_batch(first, keys.drop_first(), now, quotes, capacity)
    }
}

/// Whether the store knows every pair of a list.
pub open spec fn all_known(series: Map<Seq<char>, Seq<(u64, u64)>>, keys: Seq<PairKey>) -> bool {
    forall|i: int| 0 <= i < keys.len() ==> series.contains_key(#[trigger] keys[i]@)
}

/// A batch adds no pair and removes none.
pub proof fn lemma_batch_keeps_pairs(
    series: Map<Seq<char>, Seq<(u64, u64)>>,
    keys: Seq<PairKey>,
    now: u64,
    quotes: Seq<(String, u64)>,
    capacity: nat,
)
    ensures
        after_batch(series, keys, now, quotes, capacity).dom() == series.dom(),
    decreases keys.len(),
{
    if keys.len() > 0 {
        let first = match quoted_price(quotes, keys[0]@) {
            Some(price) => after_insert(series, keys[0]@, (now, price), capacity),
            None => series,
        };
        assert(first.dom() =~= series.dom());
        lemma_batch_keeps_pairs(first, keys.drop_first(), now, quotes, capacity);
    }
}

/// A batch leaves untouched the series of every pair that was not asked for
/// and of every pair that the answer does not quote.
pub proof fn lemma_batch_skips(
    series: Map<Seq<char>, Seq<(u64, u64)>>,
    keys: Seq<PairKey>,
    now: u64,
    quotes: Seq<(String, u64)>,
    capacity: nat,
    key: Seq<char>,
)
    requires
        series.contains_key(key),
        quoted_price(quotes, key) is None || forall|i: int|
            0 <= i < keys.len() ==> (#[trigger] keys[i])@ != key,
    ensures
        after_batch(series, keys, now, quotes, capacity)[key] == series[key],
    decreases keys.len(),
{
    if keys.len() > 0 {
        let first = match quoted_price(quotes, keys[0]@) {
            Some(price) => after_insert(series, keys[0]@, (now, price), capacity),
            None => series,
        };
        assert(first.contains_key(key) && first[key] == series[key]);
        let rest = keys.drop_first();
        assert forall|i: int| 0 <= i < rest.len() && !(quoted_price(quotes, key) is None) implies (
        #[trigger] rest[i])@ != key by {
            assert(rest[i] == keys[i + 1]);
        }
        lemma_batch_skips(first, rest, now, quotes, capacity, key);
    }
}

/// A batch gives exactly one new point to a pair that is asked for once and
/// that the answer quotes: the quoted price at the time of the batch.
pub proof fn lemma_batch_inserts(
    series: Map<Seq<char>, Seq<(u64, u64)>>,
    keys: Seq<PairKey>,
    now: u64,
    quotes: Seq<(String, u64)>,
    capacity: nat,
    at: int,
)
    requires
        0 <= at < keys.len(),
        series.contains_key(keys[at]@),
        quoted_price(quotes, keys[at]@) is Some,
        forall|i: int| 0 <= i < keys.len() && i != at ==> (#[trigger] keys[i])@ != keys[at]@,
    ensures
        after_batch(series, keys, now, quotes, capacity)[keys[at]@] == append_point(
            series[keys[at]@],
            (now, quoted_price(quotes, keys[at]@)->0),
            capacity,
        ),
    decreases keys.len(),
{
    let key = keys[at]@;
    let first = match quoted_price(quotes, keys[0]@) {
        Some(price) => after_insert(series, keys[0]@, (now, price), capacity),
        None => series,
    };
    let rest = keys.drop_first();
    if at == 0 {
        assert forall|i: int| 0 <= i < rest.len() implies (#[trigger] rest[i])@ != key by {
            assert(rest[i] == keys[i + 1]);
        }
        lemma_batch_skips(first, rest, now, quotes, capacity, key);
    } else {
        assert(keys[0]@ != key);
        assert(first.contains_key(key) && first[key] == series[key]);
        assert(rest[at - 1] == keys[at]);
        assert forall|i: int| 0 <= i < rest.len() && i != at - 1 implies (#[trigger] rest[i])@
            != rest[at - 1]@ by {
            assert(rest[i] == keys[i + 1]);
        }
        lemma_batch_inserts(first, rest, now, quotes, capacity, at - 1);
    }
}

/// Looks a pair up in a parsed answer.
pub fn find_quote(quotes: &Vec<(String, u64)>, key: &PairKey) -> (r: Option<u64>)
    ensures
        r == quoted_price(quotes@, key@),
{
    let mut i: usize = 0;
    assert(quotes@.skip(0) =~= quotes@);
    while i < quotes.len()
        invariant
            i <= quotes.len(),
            quoted_price(quotes@.skip(i as int), key@) == quoted_price(quotes@, key@),
        decreases quotes.len() - i,
    {
        proof {
            assert(quotes@.skip(i as int)[0] == quotes@[i as int]);
            assert(quotes@.skip(i as int).drop_first() =~= quotes@.skip(i + 1));
        }
        if quotes[i].0 == key.0 {
            return Some(quotes[i].1);
        }
        i += 1;
    }
    assert(quotes@.skip(i as int).len() == 0);
    None
}

/// Whether the store knows every pair of a list.
pub fn all_exist(pair_keys: &Vec<PairKey>, pair_price: &PairPrice) -> (r: bool)
    ensures
        r == all_known(pair_price@, pair_keys@),
{
    let mut i: usize = 0;
    while i < pair_keys.len()
        invariant
            i <= pair_keys.len(),
            forall|j: int| 0 <= j < i ==> pair_price@.contains_key(#[trigger] pair_keys@[j]@),
        decreases pair_keys.len() - i,
    {
        if !pair_price.is_exist(&pair_keys[i]) {
            return false;
        }
        i += 1;
    }
    true
}

/// Takes what the single-pair source gave for a pair. A price is stored at
/// the time `now`; a failed or unreadable fetch is reported and changes
/// nothing.
pub fn sync_coinbase_price(
    pair_key: &PairKey,
    now: u64,
    fetched: Fetched<u64>,
    pair_price: &mut PairPrice,
) -> (r: Result<()>)
    ensures
        final(pair_price).spec_capacity() == old(pair_price).spec_capacity(),
        match fetched {
            Err(e) => r == Err::<(), Error>(fetch_failure(e)) && final(pair_price)@ == old(pair_price)@,
            Ok(price) => {
                &&& final(pair_price)@ == after_insert(
                    old(pair_price)@,
                    pair_key@,
                    (now, price),
                    old(pair_price).spec_capacity(),
                )
                &&& r == if old(pair_price)@.contains_key(pair_key@) {
                    Ok(())
                } else {
                    Err::<(), Error>(Error::PairNotExist)
                }
            },
        },
{
    match fetched {
        Err(e) => Err(failed_fetch(e)),
        Ok(price) => pair_price.insert(pair_key, now, price),
    }
}

/// Takes what one call of the multi-pair source gave. Quoted prices are
/// stored, all at the time `now`, and pairs that the answer does not quote
/// are passed over. A failed or unreadable fetch is reported and changes
/// nothing; if the store does not know one of the pairs, nothing is stored
/// either.
pub fn sync_coingecko_price(
    pair_keys: &Vec<PairKey>,
    now: u64,
    fetched: Fetched<Vec<(String, u64)>>,
    pair_price: &mut PairPrice,
) -> (r: Result<()>)
    ensures
        final(pair_price).spec_capacity() == old(pair_price).spec_capacity(),
        match fetched {
            Err(e) => r == Err::<(), Error>(fetch_failure(e)) && final(pair_price)@ == old(pair_price)@,
            Ok(quotes) => if all_known(old(pair_price)@, pair_keys@) {
                r == Ok::<(), Error>(()) && final(pair_price)@ == after_batch(
                    old(pair_price)@,
                    pair_keys@,
                    now,
                    quotes@,
                    old(pair_price).spec_capacity(),
                )
            } else {
                r == Err::<(), Error>(Error::PairNotExist) && final(pair_price)@ == old(pair_price)@
            },
        },
{
    let quotes = match fetched {
        Err(e) => {
            return Err(failed_fetch(e));
        },
        Ok(quotes) => quotes,
    };
    if !all_exist(pair_keys, pair_price) {
        return Err(Error::PairNotExist);
    }
    let ghost start = pair_price@;
    let ghost capacity = pair_price.spec_capacity();
    let mut i: usize = 0;
    assert(pair_keys@.skip(0) =~= pair_keys@);
    while i < pair_keys.len()
        invariant
            i <= pair_keys.len(),
            pair_price.spec_capacity() == capacity,
            all_known(pair_price@, pair_keys@),
            after_batch(pair_price@, pair_keys@.skip(i as int), now, quotes@, capacity)
                == after_batch(start, pair_keys@, now, quotes@, capacity),
        decreases pair_keys.len() - i,
    {
        proof {
            assert(pair_keys@.skip(i as int)[0] == pair_keys@[i as int]);
            assert(pair_keys@.skip(i as int).drop_first() =~= pair_keys@.skip(i + 1));
            assert(pair_price@.contains_key(pair_keys@[i as int]@));
        }
        let ghost before = pair_price@;
        match find_quote(&quotes, &pair_keys[i]) {
            Some(price) => {
                let _ = pair_price.insert(&pair_keys[i], now, price);
            },
            None => {},
        }
        proof {
            assert(pair_price@.dom() =~= before.dom());
            assert forall|j: int| 0 <= j < pair_keys@.len() implies pair_price@.contains_key(
                #[trigger] pair_keys@[j]@,
            ) by {
                assert(before.contains_key(pair_keys@[j]@));
                assert(pair_price@.dom().contains(pair_keys@[j]@));
            }
        }
        i += 1;
    }
    assert(pair_keys@.skip(i as int).len() == 0);
    Ok(())
}

} // verus!
