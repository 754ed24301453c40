use quik_bot::bot::_transaction_str;
use quik_bot::bot::is_trading_time_at;
use quik_bot::bot::is_weekday;
use quik_bot::bot::trading_hours;
use quik_bot::bot::AppCommand;
use quik_bot::bot::Bot;
use quik_bot::bot::BotAction;
use quik_bot::bot::BotEvent;
use quik_bot::bot::BotState;
use quik_bot::bot::Instrument;
use quik_bot::bot::InstrumentData;
use quik_bot::bot::Operation;
use quik_bot::bot::TransactionReply;
use quik_bot::clock::Weekday;
use quik_bot::ema::Candle;
use quik_bot::signal::CrossoverSignal;
use quik_bot::signal::Signal;

fn flat_candle(close: i64) -> Candle {
    Candle { open: close, high: close, low: close, close, volume: 1_000_000 }
}

fn flat_candles(n: usize, close: i64) -> Vec<Candle> {
    let mut v = Vec::new();
    for _ in 0..n {
        v.push(flat_candle(close));
    }
    v
}

fn instrument(sec_code: &str, periods: usize) -> Instrument {
    Instrument {
        sec_code: sec_code.to_string(),
        // 1.0% hysteresis.
        crossover_signal: CrossoverSignal::new(1000, periods),
    }
}

// Data whose short indicator diverges 2% above the long one.
fn diverging_data() -> Option<InstrumentData> {
    Some(InstrumentData {
        short_candles: flat_candles(8, 102_000_000),
        long_candles: flat_candles(21, 100_000_000),
        last_price: Some(105_000_000),
    })
}

fn bot_with(instruments: Vec<Instrument>) -> Bot {
    Bot::new(instruments, 5, 8, 21)
}

const EXPECTED_COMMAND: &str = "ACCOUNT=NL0122200034; CLIENT_CODE=10127; TYPE=M; TRANS_ID=1; \
CLASSCODE=QJSIM; SECCODE=SBER;; ACTION=NEW_ORDER; OPERATION=B;; QUANTITY=1;";

#[test]
fn transaction_str_formats_the_exact_command() {
    assert_eq!(_transaction_str("SBER", "B").unwrap(), EXPECTED_COMMAND);
    assert_eq!(
        _transaction_str("VTBR", "S").unwrap(),
        "ACCOUNT=NL0122200034; CLIENT_CODE=10127; TYPE=M; TRANS_ID=1; CLASSCODE=QJSIM; \
         SECCODE=VTBR;; ACTION=NEW_ORDER; OPERATION=S;; QUANTITY=1;"
    );
}

#[test]
fn transaction_str_rejects_empty_parts() {
    assert_eq!(_transaction_str("", "B"), Err("SECCODE cannot be empty"));
    assert_eq!(_transaction_str("", ""), Err("SECCODE cannot be empty"));
    assert_eq!(_transaction_str("SBER", ""), Err("OPERATION cannot be empty"));
}

#[test]
fn weekday_schedule() {
    assert!(is_weekday(Weekday::Mon));
    assert!(is_weekday(Weekday::Fri));
    assert!(!is_weekday(Weekday::Sat));
    assert!(!is_weekday(Weekday::Sun));
    assert_eq!(trading_hours(Weekday::Wed), (3, 24));
    assert_eq!(trading_hours(Weekday::Sun), (6, 24));
}

#[test]
fn trading_time_bounds_are_strict() {
    assert!(!is_trading_time_at(Weekday::Mon, 3));
    assert!(is_trading_time_at(Weekday::Mon, 4));
    assert!(is_trading_time_at(Weekday::Mon, 23));
    assert!(!is_trading_time_at(Weekday::Mon, 0));
    assert!(!is_trading_time_at(Weekday::Sat, 6));
    assert!(is_trading_time_at(Weekday::Sat, 7));
}

#[test]
fn shutdown_emits_teardown_sequence_once() {
    let mut bot = bot_with(vec![instrument("SBER", 1)]);
    assert_eq!(bot.state, BotState::Running);
    let actions = bot.handle_event(BotEvent::Command(AppCommand::Shutdown));
    assert_eq!(
        actions,
        vec![
            BotAction::UnsubscribeOrders,
            BotAction::UnsubscribeTrades,
            BotAction::Disconnect,
        ]
    );
    assert_eq!(bot.state, BotState::ShuttingDown);
    // A second shutdown command does not repeat the teardown.
    let again = bot.handle_event(BotEvent::Command(AppCommand::Shutdown));
    assert!(again.is_empty());
    bot.confirm_teardown();
    assert_eq!(bot.state, BotState::Stopped);
}

#[test]
fn no_transaction_after_shutdown_mid_tick() {
    let mut bot = bot_with(vec![instrument("SBER", 1)]);
    let actions = bot.handle_event(BotEvent::Command(AppCommand::Shutdown));
    assert_eq!(actions.len(), 3);
    // A tick that would have produced a buy signal arrives after the command
    // was observed: nothing is submitted and the instrument is untouched.
    let tick = BotEvent::Tick { trading: true, data: vec![diverging_data()] };
    let actions = bot.handle_event(tick);
    assert!(actions.is_empty());
    assert_eq!(bot.instruments[0].crossover_signal.time_in_state, 0);
}

#[test]
fn tick_submits_records_and_broadcasts_on_a_signal() {
    let mut bot = bot_with(vec![instrument("SBER", 1)]);
    let tick = BotEvent::Tick { trading: true, data: vec![diverging_data()] };
    let actions = bot.handle_event(tick);
    assert_eq!(
        actions,
        vec![
            BotAction::SubmitTransaction(EXPECTED_COMMAND.to_string()),
            BotAction::Record {
                sec_code: "SBER".to_string(),
                short_ema: 102_000_000,
                long_ema: 100_000_000,
                last_price: 105_000_000,
                operation: Operation::SignalBuy,
            },
            BotAction::Broadcast {
                sec_code: "SBER".to_string(),
                signal: Signal::Buy,
                last_price: 105_000_000,
            },
        ]
    );
    assert_eq!(bot.state, BotState::Running);
}

#[test]
fn tick_outside_trading_hours_does_nothing() {
    let mut bot = bot_with(vec![instrument("SBER", 1)]);
    let tick = BotEvent::Tick { trading: false, data: vec![diverging_data()] };
    let actions = bot.handle_event(tick);
    assert!(actions.is_empty());
    assert_eq!(bot.instruments[0].crossover_signal.time_in_state, 0);
}

#[test]
fn one_failing_instrument_does_not_stop_the_others() {
    let mut bot = bot_with(vec![instrument("BAD", 1), instrument("SBER", 1)]);
    // The first instrument's short window is one candle short; the second is
    // complete and produces a sell signal.
    let bad = Some(InstrumentData {
        short_candles: flat_candles(7, 102_000_000),
        long_candles: flat_candles(21, 100_000_000),
        last_price: Some(105_000_000),
    });
    let good = Some(InstrumentData {
        short_candles: flat_candles(8, 98_000_000),
        long_candles: flat_candles(21, 100_000_000),
        last_price: Some(97_000_000),
    });
    let actions = bot.handle_event(BotEvent::Tick { trading: true, data: vec![bad, good] });
    assert_eq!(actions.len(), 3);
    assert!(matches!(&actions[0], BotAction::SubmitTransaction(cmd) if cmd.contains("SECCODE=SBER;;") && cmd.contains("OPERATION=S;;")));
    assert!(matches!(&actions[2], BotAction::Broadcast { sec_code, signal: Signal::Sell, .. } if sec_code == "SBER"));
    // The failed instrument's state machine was not advanced.
    assert_eq!(bot.instruments[0].crossover_signal.time_in_state, 0);
    assert_eq!(bot.instruments[1].crossover_signal.time_in_state, 1);
}

#[test]
fn missing_last_price_skips_the_instrument() {
    let mut bot = bot_with(vec![instrument("SBER", 1)]);
    let data = Some(InstrumentData {
        short_candles: flat_candles(8, 102_000_000),
        long_candles: flat_candles(21, 100_000_000),
        last_price: None,
    });
    let actions = bot.handle_event(BotEvent::Tick { trading: true, data: vec![data] });
    assert!(actions.is_empty());
    assert_eq!(bot.instruments[0].crossover_signal.time_in_state, 0);
}

#[test]
fn replies_are_observed_without_actions() {
    let mut bot = bot_with(vec![instrument("SBER", 1)]);
    let reply = TransactionReply {
        result_code: 0,
        error_code: 0,
        reply_code: 3,
        trans_id: 1,
        order_num: 123456,
    };
    let actions = bot.handle_event(BotEvent::Reply(reply));
    assert!(actions.is_empty());
    assert_eq!(bot.state, BotState::Running);
}
