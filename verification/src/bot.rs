//! Orchestration of the trading loop.
//!
//! The host process runs one control loop that waits on a shutdown command,
//! inbound terminal callback events, and a periodic evaluation tick, and
//! performs I/O: it fetches candle windows, submits transactions, records
//! indicator rows and broadcasts notifications. Every decision of that loop
//! is made here, by a state machine from `(state, event)` to
//! `(next state, actions)`, so that the decisions are verified while the I/O
//! stays outside.
//!
//! The tick evaluation of one instrument never disturbs the others: a failed
//! indicator computation or missing price skips only that instrument. After a
//! shutdown command is observed the machine leaves `Running` forever, emits
//! the teardown sequence exactly once, and never again asks for a transaction
//! to be submitted.

use crate::clock::Weekday;
use crate::clock::now_weekday_hour;
use crate::ema::Candle;
use crate::ema::Ema;
use crate::ema::spec_calc;
use crate::signal::CrossoverSignal;
use crate::signal::Signal;
use crate::signal::spec_update;
use vstd::prelude::*;
use vstd::string::StringExecFns;

verus! {

/// Command the host delivers to the orchestration loop.
#[derive(Debug, PartialEq, Eq, Structural, Clone, Copy)]
pub enum AppCommand {
    /// One-shot external shutdown signal: once observed, the loop enters
    /// teardown and never resumes evaluation.
    Shutdown,
}

/// Kind of recorded operation attached to an indicator row.
#[derive(Debug, PartialEq, Eq, Structural, Clone, Copy)]
pub enum Operation {
    TransactionReply,
    SignalBuy,
    SignalSell,
    OrderBuy,
    OrderSell,
    TradeBuy,
    TradeSell,
    NoneOperation,
}

/// A tracked trading instrument: its security code and the signal state
/// machine that belongs to it alone.
pub struct Instrument {
    pub sec_code: String,
    pub crossover_signal: CrossoverSignal,
}

/// The evaluation inputs the host fetched for one instrument on one tick:
/// the two candle windows and the latest trade price (`None` when the price
/// could not be fetched; the instrument is then skipped).
pub struct InstrumentData {
    pub short_candles: Vec<Candle>,
    pub long_candles: Vec<Candle>,
    pub last_price: Option<i64>,
}

/// A transaction reply delivered asynchronously by the terminal's callback.
#[derive(Debug, PartialEq, Eq, Structural, Clone, Copy)]
pub struct TransactionReply {
    pub result_code: i64,
    pub error_code: i64,
    pub reply_code: i64,
    pub trans_id: i64,
    pub order_num: u64,
}

/// The loop's lifecycle.
#[derive(Debug, PartialEq, Eq, Structural, Clone, Copy)]
pub enum BotState {
    Running,
    ShuttingDown,
    Stopped,
}

/// An event the loop waits on.
pub enum BotEvent {
    /// The external shutdown command arrived.
    Command(AppCommand),
    /// A periodic evaluation tick, with the evaluation inputs the host
    /// fetched for each tracked instrument, in registration order.
    Tick { trading: bool, data: Vec<Option<InstrumentData>> },
    /// An inbound transaction reply from the terminal callback.
    Reply(TransactionReply),
}

/// An effect the host must perform on the loop's behalf.
#[derive(Debug, PartialEq)]
pub enum BotAction {
    /// Submit this transaction command string to the terminal.
    SubmitTransaction(String),
    /// Record an indicator row for this instrument.
    Record {
        sec_code: String,
        short_ema: i64,
        long_ema: i64,
        last_price: i64,
        operation: Operation,
    },
    /// Notify the broadcast collaborator of an emitted signal.
    Broadcast { sec_code: String, signal: Signal, last_price: i64 },
    /// Withdraw the order feed subscription.
    UnsubscribeOrders,
    /// Withdraw the trade feed subscription.
    UnsubscribeTrades,
    /// Disconnect from the terminal.
    Disconnect,
}

/// Mathematical model of a [`BotAction`].
pub ghost enum ActionView {
    Submit(Seq<char>),
    Record {
        sec_code: Seq<char>,
        short_ema: i64,
        long_ema: i64,
        last_price: i64,
        operation: Operation,
    },
    Broadcast { sec_code: Seq<char>, signal: Signal, last_price: i64 },
    UnsubscribeOrders,
    UnsubscribeTrades,
    Disconnect,
}

impl View for BotAction {
    type V = ActionView;

    open spec fn view(&self) -> ActionView {
        match self {
            BotAction::SubmitTransaction(s) => ActionView::Submit(s@),
            BotAction::Record { sec_code, short_ema, long_ema, last_price, operation } => (
            ActionView::Record {
                sec_code: sec_code@,
                short_ema: *short_ema,
                long_ema: *long_ema,
                last_price: *last_price,
                operation: *operation,
            }),
            BotAction::Broadcast { sec_code, signal, last_price } => (ActionView::Broadcast {
                sec_code: sec_code@,
                signal: *signal,
                last_price: *last_price,
            }),
            BotAction::UnsubscribeOrders => ActionView::UnsubscribeOrders,
            BotAction::UnsubscribeTrades => ActionView::UnsubscribeTrades,
            BotAction::Disconnect => ActionView::Disconnect,
        }
    }
}

/// The models of a sequence of actions.
pub open spec fn action_views(actions: Seq<BotAction>) -> Seq<ActionView> {
    actions.map_values(|a: BotAction| a@)
}

/// Mathematical model of a [`BotEvent`].
pub ghost enum EventView {
    Command(AppCommand),
    Tick { trading: bool, data: Seq<Option<InstrumentData>> },
    Reply(TransactionReply),
}

impl View for BotEvent {
    type V = EventView;

    open spec fn view(&self) -> EventView {
        match self {
            BotEvent::Command(c) => EventView::Command(*c),
            BotEvent::Tick { trading, data } => (EventView::Tick {
                trading: *trading,
                data: data@,
            }),
            BotEvent::Reply(r) => EventView::Reply(*r),
        }
    }
}

/// Mathematical model of a [`Bot`].
pub ghost struct BotView {
    pub state: BotState,
    pub instruments: Seq<Instrument>,
    pub timeframe: i32,
    pub short_num_of_candles: i32,
    pub long_num_of_candles: i32,
}

/// The orchestration state machine: the loop's lifecycle state, the tracked
/// instruments in registration order, and the evaluation configuration.
pub struct Bot {
    pub state: BotState,
    pub instruments: Vec<Instrument>,
    /// Width of one candle bucket, in minutes (handed to the data source).
    pub timeframe: i32,
    /// Window size of the short indicator, in candles.
    pub short_num_of_candles: i32,
    /// Window size of the long indicator, in candles.
    pub long_num_of_candles: i32,
}

impl View for Bot {
    type V = BotView;

    open spec fn view(&self) -> BotView {
        BotView {
            state: self.state,
            instruments: self.instruments@,
            timeframe: self.timeframe,
            short_num_of_candles: self.short_num_of_candles,
            long_num_of_candles: self.long_num_of_candles,
        }
    }
}

/// Evaluation of one instrument on one tick: computes both indicators from
/// the fetched windows, feeds them to the instrument's signal state machine,
/// and on an emitted signal asks for a transaction submission, an indicator
/// record, and a broadcast. Any failure (missing data, indicator error,
/// missing price, an unformattable command) skips the instrument, leaving it
/// unchanged and asking for nothing.
pub open spec fn spec_eval_one(
    instr: Instrument,
    d: Option<InstrumentData>,
    short_n: int,
    long_n: int,
) -> (Instrument, Seq<ActionView>) {
    match d {
        None => (instr, Seq::empty()),
        Some(dd) => match (spec_calc(dd.short_candles@, short_n), spec_calc(
            dd.long_candles@,
            long_n,
        )) {
            (Ok(s), Ok(l)) => match dd.last_price {
                None => (instr, Seq::empty()),
                Some(price) => {
                    let upd = spec_update(instr.crossover_signal, s, l);
                    let instr2 = Instrument {
                        sec_code: instr.sec_code,
                        crossover_signal: upd.0,
                    };
                    match upd.1 {
                        None => (instr2, Seq::empty()),
                        Some(sig) => if instr.sec_code@.len() == 0 {
                            (instr2, Seq::empty())
                        } else {
                            let op_str = if sig == Signal::Buy {
                                "B"@
                            } else {
                                "S"@
                            };
                            let op = if sig == Signal::Buy {
                                Operation::SignalBuy
                            } else {
                                Operation::SignalSell
                            };
                            (
                                instr2,
                                seq![
                                    ActionView::Submit(
                                        spec_transaction_str(instr.sec_code@, op_str),
                                    ),
                                    ActionView::Record {
                                        sec_code: instr.sec_code@,
                                        short_ema: s as i64,
                                        long_ema: l as i64,
                                        last_price: price,
                                        operation: op,
                                    },
                                    ActionView::Broadcast {
                                        sec_code: instr.sec_code@,
                                        signal: sig,
                                        last_price: price,
                                    },
                                ],
                            )
                        },
                    }
                },
            },
            _ => (instr, Seq::empty()),
        },
    }
}

/// One evaluation tick over all instruments, in registration order: the
/// updated instruments and the concatenated actions. Every instrument is
/// evaluated; a failure in one never disturbs the rest.
pub open spec fn spec_tick(
    instrs: Seq<Instrument>,
    data: Seq<Option<InstrumentData>>,
    short_n: int,
    long_n: int,
) -> (Seq<Instrument>, Seq<ActionView>)
    recommends
        data.len() == instrs.len(),
    decreases instrs.len(),
{
    if instrs.len() == 0 {
        (Seq::empty(), Seq::empty())
    } else {
        let head = spec_eval_one(
            instrs[0],
            if data.len() > 0 {
                data[0]
            } else {
                None
            },
            short_n,
            long_n,
        );
        let rest = spec_tick(
            instrs.skip(1),
            if data.len() > 0 {
                data.skip(1)
            } else {
                data
            },
            short_n,
            long_n,
        );
        (seq![head.0] + rest.0, head.1 + rest.1)
    }
}

/// A tick evaluates every instrument: none is dropped, whatever fails.
pub proof fn lemma_spec_tick_evaluates_all(
    instrs: Seq<Instrument>,
    data: Seq<Option<InstrumentData>>,
    short_n: int,
    long_n: int,
)
    ensures
        spec_tick(instrs, data, short_n, long_n).0.len() == instrs.len(),
    decreases instrs.len(),
{
    if instrs.len() > 0 {
        lemma_spec_tick_evaluates_all(
            instrs.skip(1),
            if data.len() > 0 {
                data.skip(1)
            } else {
                data
            },
            short_n,
            long_n,
        );
    }
}

/// One transition of the orchestration state machine. Outside `Running`
/// every event is inert. In `Running`, a shutdown command moves to
/// `ShuttingDown` and emits the fixed teardown sequence; a reply is merely
/// observed; a tick outside trading hours does nothing, and a tick inside
/// them evaluates every instrument.
pub open spec fn spec_handle(pre: BotView, ev: EventView) -> (BotView, Seq<ActionView>) {
    if pre.state != BotState::Running {
        (pre, Seq::empty())
    } else {
        match ev {
            EventView::Command(AppCommand::Shutdown) => (
                BotView { state: BotState::ShuttingDown, ..pre },
                seq![
                    ActionView::UnsubscribeOrders,
                    ActionView::UnsubscribeTrades,
                    ActionView::Disconnect,
                ],
            ),
            EventView::Reply(_) => (pre, Seq::empty()),
            EventView::Tick { trading, data } => if trading {
                let r = spec_tick(
                    pre.instruments,
                    data,
                    pre.short_num_of_candles as int,
                    pre.long_num_of_candles as int,
                );
                (BotView { instruments: r.0, ..pre }, r.1)
            } else {
                (pre, Seq::empty())
            },
        }
    }
}

/// Folds [`spec_handle`] over a sequence of events, collecting all actions.
pub open spec fn spec_run_events(pre: BotView, events: Seq<EventView>) -> (BotView, Seq<
    ActionView,
>)
    decreases events.len(),
{
    if events.len() == 0 {
        (pre, Seq::empty())
    } else {
        let first = spec_handle(pre, events[0]);
        let rest = spec_run_events(first.0, events.skip(1));
        (rest.0, first.1 + rest.1)
    }
}

/// Once the loop has left `Running`, no sequence of further events produces
/// any action: in particular, no transaction is ever submitted and the
/// teardown sequence is never emitted a second time.
pub proof fn law_no_actions_after_shutdown(pre: BotView, events: Seq<EventView>)
    requires
        pre.state != BotState::Running,
    ensures
        spec_run_events(pre, events) == (pre, Seq::<ActionView>::empty()),
    decreases events.len(),
{
    if events.len() > 0 {
        law_no_actions_after_shutdown(pre, events.skip(1));
        assert(Seq::<ActionView>::empty() + Seq::<ActionView>::empty()
            =~= Seq::<ActionView>::empty());
    }
}

/// A shutdown command observed while running yields the unsubscribe and
/// disconnect sequence exactly once, and whatever events follow it — further
/// commands, replies or ticks, even one delivered mid-tick — produce no
/// further action and no transaction submission.
pub proof fn law_shutdown_handled_exactly_once(pre: BotView, events: Seq<EventView>)
    requires
        pre.state == BotState::Running,
    ensures
        ({
            let first = spec_handle(pre, EventView::Command(AppCommand::Shutdown));
            let rest = spec_run_events(first.0, events);
            first.1 == seq![
                ActionView::UnsubscribeOrders,
                ActionView::UnsubscribeTrades,
                ActionView::Disconnect,
            ] && rest.1 == Seq::<ActionView>::empty()
        }),
{
    let first = spec_handle(pre, EventView::Command(AppCommand::Shutdown));
    law_no_actions_after_shutdown(first.0, events);
}

/// Evaluates one instrument as [`spec_eval_one`] says, mutating its signal
/// state machine in place and returning the actions the host must perform.
fn evaluate_instrument(
    instr: &mut Instrument,
    d: &Option<InstrumentData>,
    short_n: i32,
    long_n: i32,
) -> (acts: Vec<BotAction>)
    requires
        short_n >= 1,
        long_n >= 1,
    ensures
        ({
            let r = spec_eval_one(*old(instr), *d, short_n as int, long_n as int);
            *final(instr) == r.0 && action_views(acts@) == r.1
        }),
{
    proof {
        assert(action_views(Seq::<BotAction>::empty()) =~= Seq::<ActionView>::empty());
    }
    let dd = match d {
        Some(dd) => dd,
        None => {
            return Vec::new();
        },
    };
    let short_r = Ema::calc(&dd.short_candles, short_n);
    let long_r = Ema::calc(&dd.long_candles, long_n);
    let (s, l) = match (short_r, long_r) {
        (Ok(s), Ok(l)) => (s, l),
        _ => {
            return Vec::new();
        },
    };
    let price = match dd.last_price {
        Some(price) => price,
        None => {
            return Vec::new();
        },
    };
    let sig_opt = instr.crossover_signal.update(s, l);
    let sig = match sig_opt {
        Some(sig) => sig,
        None => {
            return Vec::new();
        },
    };
    let op_str = match sig {
        Signal::Buy => "B",
        Signal::Sell => "S",
    };
    proof {
        reveal_strlit("B");
        reveal_strlit("S");
    }
    let cmd = match _transaction_str(instr.sec_code.as_str(), op_str) {
        Ok(cmd) => cmd,
        Err(_) => {
            // the security code is empty; the failure is logged by the host
            return Vec::new();
        },
    };
    let op = match sig {
        Signal::Buy => Operation::SignalBuy,
        Signal::Sell => Operation::SignalSell,
    };
    let mut acts: Vec<BotAction> = Vec::new();
    acts.push(BotAction::SubmitTransaction(cmd));
    acts.push(
        BotAction::Record {
            sec_code: instr.sec_code.clone(),
            short_ema: s,
            long_ema: l,
            last_price: price,
            operation: op,
        },
    );
    acts.push(
        BotAction::Broadcast { sec_code: instr.sec_code.clone(), signal: sig, last_price: price },
    );
    proof {
        let r = spec_eval_one(*old(instr), *d, short_n as int, long_n as int);
        assert(action_views(acts@) =~= r.1);
    }
    acts
}

impl Bot {
    /// The evaluation configuration is usable: both indicator windows ask for
    /// at least one candle.
    pub open spec fn wf(self) -> bool {
        self.short_num_of_candles >= 1 && self.long_num_of_candles >= 1
    }

    /// Creates the orchestration state machine in `Running` over the given
    /// instruments, in registration order.
    pub fn new(
        instruments: Vec<Instrument>,
        timeframe: i32,
        short_num_of_candles: i32,
        long_num_of_candles: i32,
    ) -> (bot: Bot)
        requires
            short_num_of_candles >= 1,
            long_num_of_candles >= 1,
        ensures
            bot.wf(),
            bot@ == (BotView {
                state: BotState::Running,
                instruments: instruments@,
                timeframe,
                short_num_of_candles,
                long_num_of_candles,
            }),
    {
        Bot {
            state: BotState::Running,
            instruments,
            timeframe,
            short_num_of_candles,
            long_num_of_candles,
        }
    }

    /// Handles one event as [`spec_handle`] says, returning the actions the
    /// host must perform, in order. A tick event carries one evaluation input
    /// per tracked instrument.
    pub fn handle_event(&mut self, event: BotEvent) -> (actions: Vec<BotAction>)
        requires
            old(self).wf(),
            event@ matches EventView::Tick { data, .. } ==> data.len()
                == old(self).instruments@.len(),
        ensures
            final(self).wf(),
            ({
                let r = spec_handle(old(self)@, event@);
                final(self)@ == r.0 && action_views(actions@) == r.1
            }),
    {
        proof {
            assert(action_views(Seq::<BotAction>::empty()) =~= Seq::<ActionView>::empty());
        }
        let running = match self.state {
            BotState::Running => true,
            _ => false,
        };
        if !running {
            return Vec::new();
        }
        match event {
            BotEvent::Command(AppCommand::Shutdown) => {
                self.state = BotState::ShuttingDown;
                let mut acts: Vec<BotAction> = Vec::new();
                acts.push(BotAction::UnsubscribeOrders);
                acts.push(BotAction::UnsubscribeTrades);
                acts.push(BotAction::Disconnect);
                proof {
                    assert(action_views(acts@) =~= seq![
                        ActionView::UnsubscribeOrders,
                        ActionView::UnsubscribeTrades,
                        ActionView::Disconnect,
                    ]);
                }
                acts
            },
            BotEvent::Reply(_) => Vec::new(),
            BotEvent::Tick { trading, data } => {
                if !trading {
                    return Vec::new();
                }
                let sn = self.short_num_of_candles;
                let ln = self.long_num_of_candles;
                let ghost orig = self.instruments@;
                let ghost dseq = data@;
                let ghost full = spec_tick(orig, dseq, sn as int, ln as int);
                let mut acts: Vec<BotAction> = Vec::new();
                let n = self.instruments.len();
                let mut i: usize = 0;
                proof {
                    assert(orig.skip(0) =~= orig);
                    assert(dseq.skip(0) =~= dseq);
                    assert(orig.take(0) =~= Seq::<Instrument>::empty());
                    assert(Seq::<Instrument>::empty() + full.0 =~= full.0);
                    assert(Seq::<ActionView>::empty() + full.1 =~= full.1);
                }
                while i < n
                    invariant
                        0 <= i <= n,
                        n == orig.len(),
                        dseq.len() == n,
                        dseq == data@,
                        n == self.instruments@.len(),
                        self.state == old(self).state,
                        self.timeframe == old(self).timeframe,
                        self.short_num_of_candles == old(self).short_num_of_candles,
                        self.long_num_of_candles == old(self).long_num_of_candles,
                        sn == old(self).short_num_of_candles,
                        ln == old(self).long_num_of_candles,
                        sn >= 1,
                        ln >= 1,
                        full == spec_tick(orig, dseq, sn as int, ln as int),
                        forall|j: int| i <= j < n ==> self.instruments@[j] == orig[j],
                        full.0 == self.instruments@.take(i as int) + spec_tick(
                            orig.skip(i as int),
                            dseq.skip(i as int),
                            sn as int,
                            ln as int,
                        ).0,
                        full.1 == action_views(acts@) + spec_tick(
                            orig.skip(i as int),
                            dseq.skip(i as int),
                            sn as int,
                            ln as int,
                        ).1,
                    decreases n - i,
                {
                    let ghost pre_instruments = self.instruments@;
                    let ghost pre_acts = acts@;
                    proof {
                        assert(orig.skip(i as int)[0] == orig[i as int]);
                        assert(dseq.skip(i as int)[0] == dseq[i as int]);
                        assert(orig.skip(i as int).skip(1) =~= orig.skip(i as int + 1));
                        assert(dseq.skip(i as int).skip(1) =~= dseq.skip(i as int + 1));
                    }
                    let mut new_acts = evaluate_instrument(&mut self.instruments[i], &data[i], sn, ln);
                    let ghost new_acts_view = new_acts@;
                    acts.append(&mut new_acts);
                    proof {
                        let r = spec_eval_one(orig[i as int], dseq[i as int], sn as int, ln as int);
                        assert(self.instruments@ == pre_instruments.update(i as int, r.0));
                        assert(self.instruments@.take(i as int + 1) =~= pre_instruments.take(
                            i as int,
                        ) + seq![r.0]);
                        assert(pre_instruments.take(i as int) + seq![r.0] + spec_tick(
                            orig.skip(i as int + 1),
                            dseq.skip(i as int + 1),
                            sn as int,
                            ln as int,
                        ).0 =~= pre_instruments.take(i as int) + (seq![r.0] + spec_tick(
                            orig.skip(i as int + 1),
                            dseq.skip(i as int + 1),
                            sn as int,
                            ln as int,
                        ).0));
                        assert(action_views(acts@) =~= action_views(pre_acts) + action_views(
                            new_acts_view,
                        ));
                        assert(action_views(pre_acts) + action_views(new_acts_view) + spec_tick(
                            orig.skip(i as int + 1),
                            dseq.skip(i as int + 1),
                            sn as int,
                            ln as int,
                        ).1 =~= action_views(pre_acts) + (action_views(new_acts_view) + spec_tick(
                            orig.skip(i as int + 1),
                            dseq.skip(i as int + 1),
                            sn as int,
                            ln as int,
                        ).1));
                    }
                    i = i + 1;
                }
                proof {
                    assert(orig.skip(n as int).len() == 0);
                    assert(dseq.skip(n as int).len() == 0);
                    assert(self.instruments@.take(n as int) =~= self.instruments@);
                    assert(full.0 =~= self.instruments@);
                    assert(full.1 =~= action_views(acts@));
                }
                acts
            },
        }
    }

    /// Marks the teardown sequence complete: the loop is stopped for good.
    pub fn confirm_teardown(&mut self)
        requires
            old(self)@.state == BotState::ShuttingDown,
        ensures
            final(self)@ == (BotView { state: BotState::Stopped, ..old(self)@ }),
    {
        self.state = BotState::Stopped;
    }
}

/// The exact transaction command string for a security code and an operation
/// code, as the terminal's order-submission syntax wants it.
pub open spec fn spec_transaction_str(sec_code: Seq<char>, operation: Seq<char>) -> Seq<char> {
    "ACCOUNT=NL0122200034; CLIENT_CODE=10127; TYPE=M; TRANS_ID=1; CLASSCODE=QJSIM; SECCODE="@
        + sec_code + ";; ACTION=NEW_ORDER; OPERATION="@ + operation + ";; QUANTITY=1;"@
}

/// Formats the order-submission command for the given security code and
/// operation code ("B" to buy, "S" to sell). Fails exactly when either part
/// is empty.
pub fn _transaction_str(sec_code: &str, operation: &str) -> (r: Result<String, &'static str>)
    ensures
        sec_code@.len() == 0 ==> (r matches Err(e) && e@ == "SECCODE cannot be empty"@),
        sec_code@.len() > 0 && operation@.len() == 0 ==> (r matches Err(e) && e@
            == "OPERATION cannot be empty"@),
        sec_code@.len() > 0 && operation@.len() > 0 ==> (r matches Ok(s) && s@
            == spec_transaction_str(sec_code@, operation@)),
{
    if sec_code.is_empty() {
        return Err("SECCODE cannot be empty");
    }
    if operation.is_empty() {
        return Err("OPERATION cannot be empty");
    }
    let transaction = String::from_str(
        "ACCOUNT=NL0122200034; CLIENT_CODE=10127; TYPE=M; TRANS_ID=1; CLASSCODE=QJSIM; SECCODE=",
    );
    let transaction = transaction.concat(sec_code);
    let transaction = transaction.concat(";; ACTION=NEW_ORDER; OPERATION=");
    let transaction = transaction.concat(operation);
    let transaction = transaction.concat(";; QUANTITY=1;");
    Ok(transaction)
}

/// Whether the day is a weekday (Monday through Friday).
pub open spec fn spec_is_weekday(weekday: Weekday) -> bool {
    !(weekday is Sat || weekday is Sun)
}

/// Checks whether the specified day is a weekday (Monday through Friday).
pub fn is_weekday(weekday: Weekday) -> (b: bool)
    ensures
        b == spec_is_weekday(weekday),
{
    match weekday {
        Weekday::Sat => false,
        Weekday::Sun => false,
        _ => true,
    }
}

/// The trading start and end hours for the day of the week: trading starts
/// after 3h on weekdays and after 6h on weekends, and ends before 24h.
pub open spec fn spec_trading_hours(weekday: Weekday) -> (u32, u32) {
    if spec_is_weekday(weekday) {
        (3u32, 24u32)
    } else {
        (6u32, 24u32)
    }
}

/// Returns the trading start and end hours based on the day of the week.
pub fn trading_hours(weekday: Weekday) -> (hours: (u32, u32))
    ensures
        hours == spec_trading_hours(weekday),
{
    if is_weekday(weekday) {
        (3, 24)
    } else {
        (6, 24)
    }
}

/// Whether the hour of the day falls inside the trading schedule: strictly
/// after the start hour and strictly before the end hour.
pub open spec fn spec_is_trading_time_at(weekday: Weekday, hour: u32) -> bool {
    let hours = spec_trading_hours(weekday);
    hour > hours.0 && hour < hours.1
}

/// Decides whether the given weekday and hour fall inside the trading
/// schedule.
pub fn is_trading_time_at(weekday: Weekday, hour: u32) -> (b: bool)
    ensures
        b == spec_is_trading_time_at(weekday, hour),
{
    let hours = trading_hours(weekday);
    hour > hours.0 && hour < hours.1
}

/// Checks whether the current wall-clock time corresponds to the trading
/// schedule. The clock is an outside dependency, so nothing is promised of
/// the result; the decision itself is [`is_trading_time_at`], verified for
/// every weekday and hour.
pub fn is_trading_time() -> bool {
    let now = now_weekday_hour();
    is_trading_time_at(now.0, now.1)
}

} // verus!
