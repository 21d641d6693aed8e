use vstd::prelude::*;

verus! {

/// Where and what to ask the exchange for.
pub struct Api {
    pub base_url: String,
    pub symbol: String,
    pub interval: String,
}

/// The address of the kline endpoint for a base URL, symbol and interval.
pub open spec fn request_url_spec(base: Seq<char>, symbol: Seq<char>, interval: Seq<char>) -> Seq<
    char,
> {
    base + "/open/api/v2/market/kline?symbol="@ + symbol + "&interval="@ + interval
}

impl Api {
    /// An API description for a given exchange, symbol and interval.
    pub fn from(base_url: &str, symbol: String, interval: String) -> (r: Self)
        ensures
            r.base_url@ == base_url@,
            r.symbol@ == symbol@,
            r.interval@ == interval@,
    {
        Api { base_url: String::from_str(base_url), symbol, interval }
    }

    /// The default configuration: MEXC, BTC_USDT, one-minute candles.
    pub fn mexc() -> (r: Self)
        ensures
            r.base_url@ == "https://www.mexc.com"@,
            r.symbol@ == "BTC_USDT"@,
            r.interval@ == "1m"@,
    {
        Api {
            base_url: String::from_str("https://www.mexc.com"),
            symbol: String::from_str("BTC_USDT"),
            interval: String::from_str("1m"),
        }
    }

    /// The URL that one fetch requests.
    pub fn request_url(&self) -> (r: String)
        ensures
            r@ == request_url_spec(self.base_url@, self.symbol@, self.interval@),
    {
        let mut r = self.base_url.clone();
        r.append("/open/api/v2/market/kline?symbol=");
        r.append(self.symbol.as_str());
        r.append("&interval=");
        r.append(self.interval.as_str());
        r
    }
}

/// Why a response could not be decoded.
#[derive(Debug, Clone, Copy, PartialEq, Eq, Structural)]
pub enum DecodeError {
    /// A JSON number that has no 64-bit float value.
    InvalidNumber,
    /// A numeric field that is neither a string nor a number.
    WrongType,
}

/// The JSON value found in a numeric field of a candlestick. A float is held
/// as its IEEE-754 bit pattern.
#[derive(Debug, Clone, Copy, PartialEq, Eq, Structural)]
pub enum FieldValue {
    /// A JSON string, with the bits of the float it parses to, or `None`
    /// when it is no float literal.
    Text(Option<u64>),
    /// A JSON number, with the bits of its 64-bit float value, if it has one.
    Number(Option<u64>),
    /// Any other JSON value: object, array, null or boolean.
    Other,
}

/// The bit pattern of the float `0.0`.
pub const ZERO_BITS: u64 = 0;

/// How one numeric field decodes: strings and numbers both give a float, an
/// unparsable string gives `0.0`, any other JSON value fails.
pub open spec fn field_spec(v: FieldValue) -> Result<u64, DecodeError> {
    match v {
        FieldValue::Text(Some(bits)) => Ok(bits),
        FieldValue::Text(None) => Ok(ZERO_BITS),
        FieldValue::Number(Some(bits)) => Ok(bits),
        FieldValue::Number(None) => Err(DecodeError::InvalidNumber),
        FieldValue::Other => Err(DecodeError::WrongType),
    }
}

/// Decodes a numeric field that the exchange sends either as a string or as
/// a number.
pub fn str_or_f64(v: &FieldValue) -> (r: Result<u64, DecodeError>)
    ensures
        r == field_spec(*v),
{
    match v {
        FieldValue::Text(Some(bits)) => Ok(*bits),
        FieldValue::Text(None) => Ok(ZERO_BITS),
        FieldValue::Number(Some(bits)) => Ok(*bits),
        FieldValue::Number(None) => Err(DecodeError::InvalidNumber),
        FieldValue::Other => Err(DecodeError::WrongType),
    }
}

/// One OHLCV sample. Prices and quantities are IEEE-754 bit patterns of
/// 64-bit floats.
#[derive(Debug, Clone, Copy, PartialEq, Eq, Structural)]
pub struct CandleStick {
    pub timestamp: u32,
    pub open: u64,
    pub close: u64,
    pub high: u64,
    pub low: u64,
    pub volume: u64,
    pub amount: u64,
}

/// One candlestick as it stands in the JSON body, before its numeric fields
/// are decoded.
#[derive(Debug, Clone, Copy, PartialEq, Eq, Structural)]
pub struct RawCandle {
    pub timestamp: u32,
    pub open: FieldValue,
    pub close: FieldValue,
    pub high: FieldValue,
    pub low: FieldValue,
    pub volume: FieldValue,
    pub amount: FieldValue,
}

/// How a raw candlestick decodes: the first failing field, in wire order,
/// decides the error.
pub open spec fn candle_spec(raw: RawCandle) -> Result<CandleStick, DecodeError> {
    if field_spec(raw.open) is Err {
        Err(field_spec(raw.open)->Err_0)
    } else if field_spec(raw.close) is Err {
        Err(field_spec(raw.close)->Err_0)
    } else if field_spec(raw.high) is Err {
        Err(field_spec(raw.high)->Err_0)
    } else if field_spec(raw.low) is Err {
        Err(field_spec(raw.low)->Err_0)
    } else if field_spec(raw.volume) is Err {
        Err(field_spec(raw.volume)->Err_0)
    } else if field_spec(raw.amount) is Err {
        Err(field_spec(raw.amount)->Err_0)
    } else {
        Ok(
            CandleStick {
                timestamp: raw.timestamp,
                open: field_spec(raw.open)->Ok_0,
                close: field_spec(raw.close)->Ok_0,
                high: field_spec(raw.high)->Ok_0,
                low: field_spec(raw.low)->Ok_0,
                volume: field_spec(raw.volume)->Ok_0,
                amount: field_spec(raw.amount)->Ok_0,
            },
        )
    }
}

/// The wire form of a candlestick, every float written as a JSON number.
pub open spec fn encode_spec(c: CandleStick) -> RawCandle {
    RawCandle {
        timestamp: c.timestamp,
        open: FieldValue::Number(Some(c.open)),
        close: FieldValue::Number(Some(c.close)),
        high: FieldValue::Number(Some(c.high)),
        low: FieldValue::Number(Some(c.low)),
        volume: FieldValue::Number(Some(c.volume)),
        amount: FieldValue::Number(Some(c.amount)),
    }
}

impl CandleStick {
    /// Decodes the numeric fields of a raw candlestick.
    pub fn decode(raw: &RawCandle) -> (r: Result<CandleStick, DecodeError>)
        ensures
            r == candle_spec(*raw),
    {
        let open = match str_or_f64(&raw.open) {
            Ok(x) => x,
            Err(e) => return Err(e),
        };
        let close = match str_or_f64(&raw.close) {
            Ok(x) => x,
            Err(e) => return Err(e),
        };
        let high = match str_or_f64(&raw.high) {
            Ok(x) => x,
            Err(e) => return Err(e),
        };
        let low = match str_or_f64(&raw.low) {
            Ok(x) => x,
            Err(e) => return Err(e),
        };
        let volume = match str_or_f64(&raw.volume) {
            Ok(x) => x,
            Err(e) => return Err(e),
        };
        let amount = match str_or_f64(&raw.amount) {
            Ok(x) => x,
            Err(e) => return Err(e),
        };
        Ok(CandleStick { timestamp: raw.timestamp, open, close, high, low, volume, amount })
    }

    /// The wire form of this candlestick, with every float as a JSON number.
    pub fn encode(&self) -> (r: RawCandle)
        ensures
            r == encode_spec(*self),
    {
        RawCandle {
            timestamp: self.timestamp,
            open: FieldValue::Number(Some(self.open)),
            close: FieldValue::Number(Some(self.close)),
            high: FieldValue::Number(Some(self.high)),
            low: FieldValue::Number(Some(self.low)),
            volume: FieldValue::Number(Some(self.volume)),
            amount: FieldValue::Number(Some(self.amount)),
        }
    }
}

/// A decoded response: the exchange's status code and its candlesticks, in
/// the order the exchange sent them.
pub struct Request {
    /// 0 on success, otherwise an error reported by the exchange.
    pub code: u8,
    pub data: Vec<CandleStick>,
}

/// Whether every candlestick of `raw` decodes.
pub open spec fn all_decode(raw: Seq<RawCandle>) -> bool {
    forall|i: int| 0 <= i < raw.len() ==> #[trigger] candle_spec(raw[i]) is Ok
}

impl Request {
    /// Decodes a whole response body. One failing candlestick discards the
    /// response: the error of the first one that fails is returned.
    pub fn decode(code: u8, raw: &Vec<RawCandle>) -> (r: Result<Request, DecodeError>)
        ensures
            r is Ok <==> all_decode(raw@),
            r matches Ok(req) ==> req.code == code && req.data@.len() == raw@.len() && forall|
                i: int,
            |
                0 <= i < raw@.len() ==> candle_spec(raw@[i]) == Ok::<CandleStick, DecodeError>(
                    #[trigger] req.data@[i],
                ),
            r matches Err(e) ==> exists|i: int|
                0 <= i < raw@.len() && candle_spec(#[trigger] raw@[i]) == Err::<
                    CandleStick,
                    DecodeError,
                >(e) && forall|j: int| 0 <= j < i ==> #[trigger] candle_spec(raw@[j]) is Ok,
    {
        let mut data: Vec<CandleStick> = Vec::new();
        let mut i: usize = 0;
        while i < raw.len()
            invariant
                i <= raw@.len(),
                data@.len() == i,
                forall|j: int| 0 <= j < i ==> candle_spec(raw@[j]) == Ok::<CandleStick, DecodeError>(
                    #[trigger] data@[j],
                ),
                forall|j: int| 0 <= j < i ==> #[trigger] candle_spec(raw@[j]) is Ok,
            decreases raw@.len() - i,
        {
            match CandleStick::decode(&raw[i]) {
                Ok(c) => data.push(c),
                Err(e) => {
                    return Err(e);
                },
            }
            i = i + 1;
        }
        Ok(Request { code, data })
    }
}

/// A number and a string that parse to the same float decode alike.
pub proof fn lemma_text_and_number_agree(bits: u64)
    ensures
        field_spec(FieldValue::Text(Some(bits))) == field_spec(FieldValue::Number(Some(bits))),
        field_spec(FieldValue::Number(Some(bits))) == Ok::<u64, DecodeError>(bits),
{
}

/// A string that is no float literal decodes to `0.0`, never to an error.
pub proof fn lemma_unparsable_text_is_zero()
    ensures
        field_spec(FieldValue::Text(None)) == Ok::<u64, DecodeError>(ZERO_BITS),
{
}

/// Encoding a candlestick to its wire form and decoding it gives it back.
pub proof fn lemma_encode_decode(c: CandleStick)
    ensures
        candle_spec(encode_spec(c)) == Ok::<CandleStick, DecodeError>(c),
{
}

} // verus!
