use kline_dash::candlesticks::{Api, CandleStick, DecodeError, FieldValue, RawCandle, Request};
use kline_dash::terminal::{
    column_width, visible_rows, Action, Control, FetchError, KeyCommand, LayoutError, Phase, Row,
    Size, Terminal,
};
use kline_dash::utils::{format_date_time, pad, seconds_to_date};
use serde_json::Value;

fn field(v: &Value) -> FieldValue {
    match v {
        Value::String(s) => FieldValue::Text(s.parse::<f64>().ok().map(f64::to_bits)),
        Value::Number(n) => FieldValue::Number(n.as_f64().map(f64::to_bits)),
        _ => FieldValue::Other,
    }
}

fn raw_candle(v: &Value) -> RawCandle {
    RawCandle {
        timestamp: v["timestamp"].as_u64().unwrap() as u32,
        open: field(&v["open"]),
        close: field(&v["close"]),
        high: field(&v["high"]),
        low: field(&v["low"]),
        volume: field(&v["volume"]),
        amount: field(&v["amount"]),
    }
}

fn decode_body(body: &str) -> Result<Request, DecodeError> {
    let v: Value = serde_json::from_str(body).unwrap();
    let raw: Vec<RawCandle> = v["data"].as_array().unwrap().iter().map(raw_candle).collect();
    Request::decode(v["code"].as_u64().unwrap() as u8, &raw)
}

fn row(c: &CandleStick) -> Row {
    Row {
        timestamp: c.timestamp,
        open: f64::from_bits(c.open).to_string(),
        close: f64::from_bits(c.close).to_string(),
        high: f64::from_bits(c.high).to_string(),
        low: f64::from_bits(c.low).to_string(),
    }
}

fn decode_one(text: &str) -> Result<u64, DecodeError> {
    let v: Value = serde_json::from_str(text).unwrap();
    kline_dash::candlesticks::str_or_f64(&field(&v))
}

#[test]
fn string_test() {
    assert_eq!(seconds_to_date(1669899600), "2022-12-01 13:00:00");
}

#[test]
fn date_of_epoch_and_end_of_range() {
    assert_eq!(seconds_to_date(0), "1970-01-01 00:00:00");
    assert_eq!(seconds_to_date(u32::MAX), "2106-02-07 06:28:15");
    assert_eq!(seconds_to_date(951782400), "2000-02-29 00:00:00");
}

#[test]
fn pad_examples() {
    assert_eq!(pad("x", 5, " "), "x    ");
    assert_eq!(pad("x", 5, " ").len(), 5);
    assert_eq!(pad("", 3, "-"), "---");
    assert_eq!(pad("", 2, "─"), "──");
    assert_eq!(pad("abcdef", 3, " "), "abcdef");
}

#[test]
fn column_width_formula() {
    assert_eq!(column_width(8), 0);
    assert_eq!(column_width(80), 14);
    assert_eq!(column_width(83), 15);
    for w in 8u16..300 {
        assert_eq!(column_width(w), ((w - 3) / 5 - 1) as usize);
    }
}

#[test]
fn visible_rows_clamped() {
    assert_eq!(visible_rows(24), 16);
    assert_eq!(visible_rows(8), 0);
    assert_eq!(visible_rows(3), 0);
}

#[test]
fn string_and_number_decode_alike() {
    assert_eq!(decode_one("\"12.5\""), Ok(12.5f64.to_bits()));
    assert_eq!(decode_one("12.5"), Ok(12.5f64.to_bits()));
}

#[test]
fn unparsable_string_is_zero() {
    assert_eq!(decode_one("\"abc\""), Ok(0.0f64.to_bits()));
    assert_eq!(decode_one("\"\""), Ok(0.0f64.to_bits()));
}

#[test]
fn wrong_type_is_an_error() {
    assert_eq!(decode_one("null"), Err(DecodeError::WrongType));
    assert_eq!(decode_one("[1]"), Err(DecodeError::WrongType));
    assert_eq!(decode_one("true"), Err(DecodeError::WrongType));
    assert_eq!(decode_one("{}"), Err(DecodeError::WrongType));
    assert_eq!(
        kline_dash::candlesticks::str_or_f64(&FieldValue::Number(None)),
        Err(DecodeError::InvalidNumber)
    );
}

#[test]
fn response_decodes_in_order() {
    let body = "{\"code\":0,\"data\":[\
        {\"timestamp\":2,\"open\":\"1\",\"close\":2,\"high\":\"3\",\"low\":4,\"volume\":\"x\",\"amount\":6},\
        {\"timestamp\":1,\"open\":7,\"close\":8,\"high\":9,\"low\":10,\"volume\":11,\"amount\":12}]}";
    let req = decode_body(body).unwrap();
    assert_eq!(req.code, 0);
    assert_eq!(req.data.len(), 2);
    assert_eq!(req.data[0].timestamp, 2);
    assert_eq!(req.data[1].timestamp, 1);
    assert_eq!(f64::from_bits(req.data[0].high), 3.0);
    assert_eq!(f64::from_bits(req.data[0].volume), 0.0);
    assert_eq!(f64::from_bits(req.data[1].amount), 12.0);
}

#[test]
fn one_bad_field_discards_the_response() {
    let body = "{\"code\":0,\"data\":[\
        {\"timestamp\":2,\"open\":\"1\",\"close\":2,\"high\":\"3\",\"low\":4,\"volume\":5,\"amount\":6},\
        {\"timestamp\":1,\"open\":7,\"close\":null,\"high\":9,\"low\":10,\"volume\":11,\"amount\":12}]}";
    assert!(matches!(decode_body(body), Err(DecodeError::WrongType)));
}

#[test]
fn encode_decode_round_trip() {
    let c = CandleStick {
        timestamp: 1669899600,
        open: 100.25f64.to_bits(),
        close: 0.1f64.to_bits(),
        high: 101.0f64.to_bits(),
        low: 99.5f64.to_bits(),
        volume: 12345.678f64.to_bits(),
        amount: 1.0e-7f64.to_bits(),
    };
    let raw = c.encode();
    assert_eq!(CandleStick::decode(&raw), Ok(c));
    let mut m = serde_json::Map::new();
    m.insert("timestamp".to_string(), Value::from(c.timestamp));
    m.insert("open".to_string(), Value::from(f64::from_bits(c.open)));
    m.insert("close".to_string(), Value::from(f64::from_bits(c.close)));
    m.insert("high".to_string(), Value::from(f64::from_bits(c.high)));
    m.insert("low".to_string(), Value::from(f64::from_bits(c.low)));
    m.insert("volume".to_string(), Value::from(f64::from_bits(c.volume)));
    m.insert("amount".to_string(), Value::from(f64::from_bits(c.amount)));
    let text = Value::Object(m).to_string();
    let back: Value = serde_json::from_str(&text).unwrap();
    assert_eq!(CandleStick::decode(&raw_candle(&back)), Ok(c));
}

#[test]
fn request_url_and_configuration() {
    let api = Api::mexc();
    assert_eq!(api.base_url, "https://www.mexc.com");
    assert_eq!(api.symbol, "BTC_USDT");
    assert_eq!(api.interval, "1m");
    assert_eq!(
        api.request_url(),
        "https://www.mexc.com/open/api/v2/market/kline?symbol=BTC_USDT&interval=1m"
    );
    let other = Api::from("http://x", "ETH_USDT".to_string(), "5m".to_string());
    assert_eq!(other.request_url(), "http://x/open/api/v2/market/kline?symbol=ETH_USDT&interval=5m");
}

#[test]
fn narrow_terminal_is_refused() {
    assert!(matches!(Terminal::new(Size::from(7, 24), Api::mexc()), Err(LayoutError::TooNarrow)));
    let mut t = Terminal::new(Size::from(8, 24), Api::mexc()).unwrap();
    assert_eq!(t.resize(Size::from(5, 10)), Err(LayoutError::TooNarrow));
    assert_eq!(t.size, Size::from(8, 24));
    assert_eq!(t.resize(Size::from(40, 10)), Ok(()));
    assert_eq!(t.size, Size::from(40, 10));
}

#[test]
fn short_response_fills_blank_rows() {
    let t = Terminal::new(Size::from(60, 12), Api::mexc()).unwrap();
    let req = decode_body(
        "{\"code\":0,\"data\":[{\"timestamp\":0,\"open\":1,\"close\":2,\"high\":3,\"low\":4,\"volume\":5,\"amount\":6}]}",
    )
    .unwrap();
    let rows: Vec<Row> = req.data.iter().map(row).collect();
    let lines = t.display_api_data(&rows);
    assert_eq!(lines.len(), 4);
    assert!(lines[0].contains("1970-01-01 00:00:00"));
    assert_eq!(lines[1], "");
    assert_eq!(lines[2], "");
    assert_eq!(lines[3], "");
    assert_eq!(t.display_api_data(&Vec::new()).len(), 4);
}

#[test]
fn end_to_end_render() {
    let body = "{\"code\":0,\"data\":[{\"timestamp\":1669899600,\"open\":\"100\",\"close\":100.5,\"high\":\"101\",\"low\":\"99\",\"volume\":\"10\",\"amount\":\"1000\"}]}";
    let req = decode_body(body).unwrap();
    let api = Api::from("https://www.mexc.com", "BTC_USDT".to_string(), "1m".to_string());
    let t = Terminal::new(Size::from(120, 12), api).unwrap();
    let rows: Vec<Row> = req.data.iter().map(row).collect();
    let lines = t.display_dashboard(&rows);
    assert_eq!(lines.len(), 10);
    assert!(lines[0].contains("BTC_USDT -- 1m"));
    assert_eq!(lines[0], format!("{}BTC_USDT -- 1m", " ".repeat(53)));
    assert_eq!(lines[1], "");
    assert_eq!(
        lines[2],
        format!(
            " ┌ Date {}┬ Open {}┬ Close {}┬ High {}┬ Low {}┐",
            "─".repeat(16),
            "─".repeat(16),
            "─".repeat(15),
            "─".repeat(16),
            "─".repeat(17)
        )
    );
    assert_eq!(
        lines[3],
        format!(
            " │2022-12-01 13:00:00{}│100{}│100.5{}│101{}│99{}│",
            " ".repeat(3),
            " ".repeat(19),
            " ".repeat(17),
            " ".repeat(19),
            " ".repeat(20)
        )
    );
    assert_eq!(lines[4], "");
    assert_eq!(lines[7], format!(" └{}┘", vec!["─".repeat(22); 5].join("┴")));
    assert_eq!(lines[8], "  Commands: ");
    assert_eq!(lines[9], "  \tQuit: Ctr+Q \t Update data: Ctr+U ");
}

#[test]
fn loading_screen_is_centered() {
    let t = Terminal::new(Size::from(40, 9), Api::mexc()).unwrap();
    let lines = t.fetching_data_screen();
    assert_eq!(lines.len(), 9);
    assert_eq!(lines[4], format!("{}Fetching data...", " ".repeat(12)));
    assert_eq!(lines[0], "");
    assert_eq!(lines[3], "");
    assert_eq!(lines[8], "");
    let tall = Terminal::new(Size::from(80, 30), Api::mexc()).unwrap();
    let lines = tall.fetching_data_screen();
    assert_eq!(lines.len(), 30);
    assert_eq!(lines[15], format!("{}Fetching data...", " ".repeat(32)));
    assert_eq!(lines[10], "");
}

#[test]
fn date_time_formatting() {
    assert_eq!(format_date_time((2022, 12, 1), 46800), "2022-12-01 13:00:00");
    assert_eq!(format_date_time((1970, 1, 1), 0), "1970-01-01 00:00:00");
    assert_eq!(format_date_time((7, 3, 9), 86399), "0007-03-09 23:59:59");
}

#[test]
fn controller_cycle() {
    let mut t = Terminal::new(Size::from(80, 24), Api::mexc()).unwrap();
    assert_eq!(t.control, Control { phase: Phase::Idle, update: true });
    assert_eq!(t.begin(), Action::Fetch);
    assert_eq!(t.control.phase, Phase::Fetching);
    assert_eq!(t.handle_keypress(KeyCommand::Refresh), Action::Wait);
    let req = Request { code: 0, data: Vec::new() };
    assert_eq!(t.fetch_done(Ok(req)), Action::Render);
    assert_eq!(t.control, Control { phase: Phase::Rendered, update: false });
    assert!(t.last.is_some());
    assert_eq!(t.handle_keypress(KeyCommand::Other), Action::ReadKey);
    assert_eq!(t.control.phase, Phase::Rendered);
    assert_eq!(t.handle_keypress(KeyCommand::Refresh), Action::Fetch);
    assert_eq!(t.control.phase, Phase::Fetching);
    assert_eq!(t.fetch_done(Err(FetchError::Transport)), Action::ReadKey);
    assert_eq!(t.control, Control { phase: Phase::Idle, update: false });
    assert!(t.last.is_some());
    assert_eq!(t.begin(), Action::ReadKey);
    assert_eq!(t.handle_keypress(KeyCommand::Quit), Action::Exit);
    assert_eq!(t.control.phase, Phase::Quitting);
    assert_eq!(t.handle_keypress(KeyCommand::Refresh), Action::Exit);
    assert_eq!(t.begin(), Action::Exit);
}

#[test]
fn quit_from_every_state() {
    for phase in [Phase::Idle, Phase::Fetching, Phase::Rendered, Phase::Quitting] {
        let mut t = Terminal::new(Size::from(80, 24), Api::mexc()).unwrap();
        t.control = Control { phase, update: false };
        assert_eq!(t.handle_keypress(KeyCommand::Quit), Action::Exit);
        assert_eq!(t.control.phase, Phase::Quitting);
    }
}
