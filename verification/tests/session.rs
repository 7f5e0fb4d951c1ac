use std::cell::RefCell;
use std::rc::Rc;

use wormhole_core::{
    APIAction, APIEvent, BossMachine, Bridge, BridgeState, Delivery, Event, Idle, Machine,
    Machines, Protocol, RendezvousMachine, Stimulus, Timing, WormholeCore, WormholeIO,
};

/// A protocol whose payloads are all short strings.
struct Text;

impl Protocol for Text {
    type Command = &'static str;
    type Notification = &'static str;
    type Mood = &'static str;
    type IOEvent = &'static str;
    type IOAction = &'static str;
    type TimingLogEvent = &'static str;
    type AllocatorEvent = &'static str;
    type BossEvent = &'static str;
    type CodeEvent = &'static str;
    type InputEvent = &'static str;
    type KeyEvent = &'static str;
    type ListerEvent = &'static str;
    type MailboxEvent = &'static str;
    type NameplateEvent = &'static str;
    type OrderEvent = &'static str;
    type ReceiveEvent = &'static str;
    type RendezvousEvent = &'static str;
    type SendEvent = &'static str;
    type TerminatorEvent = &'static str;
}

type Ev = Event<Text>;

type Log = Rc<RefCell<Vec<String>>>;

/// A machine that writes down what it is given and answers from a table.
struct Scripted {
    name: &'static str,
    log: Log,
    answer: fn(&str) -> Vec<Ev>,
}

fn silent(_: &str) -> Vec<Ev> {
    Vec::new()
}

impl Scripted {
    fn new(name: &'static str, log: &Log, answer: fn(&str) -> Vec<Ev>) -> Self {
        Scripted { name, log: log.clone(), answer }
    }

    fn quiet(name: &'static str, log: &Log) -> Self {
        Scripted::new(name, log, silent)
    }

    fn note(&self, door: &str, payload: &str) {
        self.log.borrow_mut().push(format!("{}{}{}", self.name, door, payload));
    }
}

impl Machine<Text> for Scripted {
    type Payload = &'static str;
    type State = ();

    fn process(&mut self, payload: &'static str) -> Vec<Ev> {
        self.note(":", payload);
        (self.answer)(payload)
    }
}

impl BossMachine<Text> for Scripted {
    fn process_api(&mut self, event: APIEvent<Text>) -> Vec<Ev> {
        let payload = match event {
            APIEvent::Close => "api-close",
            APIEvent::Command(c) => c,
        };
        self.note("<", payload);
        (self.answer)(payload)
    }
}

impl RendezvousMachine<Text> for Scripted {
    fn process_io(&mut self, event: &'static str) -> Vec<Ev> {
        self.note("<", event);
        (self.answer)(event)
    }
}

struct Wiring;

impl Machines<Text> for Wiring {
    type Allocator = Scripted;
    type Boss = Scripted;
    type Code = Scripted;
    type Input = Scripted;
    type Key = Scripted;
    type Lister = Scripted;
    type Mailbox = Scripted;
    type Nameplate = Scripted;
    type Order = Scripted;
    type Receive = Scripted;
    type Rendezvous = Scripted;
    type Send = Scripted;
    type Terminator = Scripted;
}

type Core = WormholeCore<Text, Wiring>;

/// An engine in which every machine is silent but the ones given.
fn engine(log: &Log, scripts: &[(&'static str, fn(&str) -> Vec<Ev>)]) -> Core {
    let make = |name: &'static str| {
        for (n, answer) in scripts {
            if *n == name {
                return Scripted::new(name, log, *answer);
            }
        }
        Scripted::quiet(name, log)
    };
    WormholeCore::new(
        make("allocator"),
        make("boss"),
        make("code"),
        make("input"),
        make("key"),
        make("lister"),
        make("mailbox"),
        make("nameplate"),
        make("order"),
        make("receive"),
        make("rendezvous"),
        make("send"),
        make("terminator"),
    )
}

fn new_log() -> Log {
    Rc::new(RefCell::new(Vec::new()))
}

fn notices(actions: &[APIAction<Text>]) -> Vec<String> {
    let mut out = Vec::new();
    for a in actions {
        match a {
            APIAction::GotClosed(m) => out.push(format!("closed:{}", m)),
            APIAction::Notice(n) => out.push(format!("{}", n)),
        }
    }
    out
}

fn logged(log: &Log) -> Vec<String> {
    log.borrow().clone()
}

#[test]
fn command_enters_through_the_boss() {
    fn boss(p: &str) -> Vec<Ev> {
        match p {
            "hello" => vec![Event::API(APIAction::Notice("welcome"))],
            _ => Vec::new(),
        }
    }
    let log = new_log();
    let mut core = engine(&log, &[("boss", boss)]);
    let actions = core.do_api(APIEvent::Command("hello"));
    assert_eq!(notices(&actions), vec!["welcome"]);
    assert_eq!(logged(&log), vec!["boss<hello"]);
}

#[test]
fn close_command_reaches_the_boss_as_close() {
    let log = new_log();
    let mut core = engine(&log, &[]);
    let actions = core.do_api(APIEvent::Close);
    assert!(actions.is_empty());
    assert_eq!(logged(&log), vec!["boss<api-close"]);
}

#[test]
fn report_enters_through_the_rendezvous() {
    fn rendezvous(p: &str) -> Vec<Ev> {
        match p {
            "connected" => vec![Event::Nameplate("connected")],
            _ => Vec::new(),
        }
    }
    let log = new_log();
    let mut core = engine(&log, &[("rendezvous", rendezvous)]);
    let actions = core.do_io("connected");
    assert!(actions.is_empty());
    assert_eq!(logged(&log), vec!["rendezvous<connected", "nameplate:connected"]);
}

#[test]
fn every_variant_goes_to_its_own_machine() {
    fn boss(p: &str) -> Vec<Ev> {
        match p {
            "fan-out" => vec![
                Event::Allocator("a"),
                Event::Boss("b"),
                Event::Code("c"),
                Event::Input("i"),
                Event::Key("k"),
                Event::Lister("l"),
                Event::Mailbox("m"),
                Event::Nameplate("n"),
                Event::Order("o"),
                Event::Receive("r"),
                Event::Rendezvous("rv"),
                Event::Send("s"),
                Event::Terminator("t"),
            ],
            _ => Vec::new(),
        }
    }
    let log = new_log();
    let mut core = engine(&log, &[("boss", boss)]);
    let actions = core.do_api(APIEvent::Command("fan-out"));
    assert!(actions.is_empty());
    assert_eq!(
        logged(&log),
        vec![
            "boss<fan-out",
            "allocator:a",
            "boss:b",
            "code:c",
            "input:i",
            "key:k",
            "lister:l",
            "mailbox:m",
            "nameplate:n",
            "order:o",
            "receive:r",
            "rendezvous:rv",
            "send:s",
            "terminator:t",
        ]
    );
}

#[test]
fn notifications_come_out_in_production_order() {
    fn boss(p: &str) -> Vec<Ev> {
        match p {
            "go" => vec![
                Event::API(APIAction::Notice("one")),
                Event::Code("x"),
                Event::API(APIAction::Notice("two")),
            ],
            "y" => vec![Event::API(APIAction::Notice("four"))],
            _ => Vec::new(),
        }
    }
    fn code(p: &str) -> Vec<Ev> {
        match p {
            "x" => vec![Event::API(APIAction::Notice("three")), Event::Boss("y")],
            _ => Vec::new(),
        }
    }
    let log = new_log();
    let mut core = engine(&log, &[("boss", boss), ("code", code)]);
    let actions = core.do_api(APIEvent::Command("go"));
    assert_eq!(notices(&actions), vec!["one", "two", "three", "four"]);
    assert_eq!(logged(&log), vec!["boss<go", "code:x", "boss:y"]);
}

#[test]
fn drain_is_breadth_first() {
    fn boss(p: &str) -> Vec<Ev> {
        match p {
            "go" => vec![Event::Code("a"), Event::Key("b")],
            _ => Vec::new(),
        }
    }
    fn code(p: &str) -> Vec<Ev> {
        match p {
            "a" => vec![Event::API(APIAction::Notice("1")), Event::Mailbox("c")],
            _ => Vec::new(),
        }
    }
    fn key(p: &str) -> Vec<Ev> {
        match p {
            "b" => vec![Event::API(APIAction::Notice("2"))],
            _ => Vec::new(),
        }
    }
    fn mailbox(p: &str) -> Vec<Ev> {
        match p {
            "c" => vec![Event::API(APIAction::Notice("3"))],
            _ => Vec::new(),
        }
    }
    let log = new_log();
    let mut core =
        engine(&log, &[("boss", boss), ("code", code), ("key", key), ("mailbox", mailbox)]);
    let actions = core.do_api(APIEvent::Command("go"));
    // Depth first would give 1, 3, 2.
    assert_eq!(notices(&actions), vec!["1", "2", "3"]);
    assert_eq!(logged(&log), vec!["boss<go", "code:a", "key:b", "mailbox:c"]);
}

#[test]
fn machine_may_schedule_its_own_continuation() {
    fn boss(p: &str) -> Vec<Ev> {
        match p {
            "count" => vec![Event::Order("3")],
            _ => Vec::new(),
        }
    }
    fn order(p: &str) -> Vec<Ev> {
        match p {
            "3" => vec![Event::API(APIAction::Notice("three")), Event::Order("2")],
            "2" => vec![Event::API(APIAction::Notice("two")), Event::Order("1")],
            "1" => vec![Event::API(APIAction::Notice("one"))],
            _ => Vec::new(),
        }
    }
    let log = new_log();
    let mut core = engine(&log, &[("boss", boss), ("order", order)]);
    let actions = core.do_api(APIEvent::Command("count"));
    assert_eq!(notices(&actions), vec!["three", "two", "one"]);
    assert_eq!(logged(&log), vec!["boss<count", "order:3", "order:2", "order:1"]);
}

#[test]
fn silent_machine_leaves_no_trace() {
    fn boss(p: &str) -> Vec<Ev> {
        match p {
            "poke" => vec![Event::Lister("refresh")],
            _ => Vec::new(),
        }
    }
    let log = new_log();
    let mut core = engine(&log, &[("boss", boss)]);
    let actions = core.do_api(APIEvent::Command("poke"));
    assert!(actions.is_empty());
    assert!(core.take_io().is_empty());
    assert!(core.timing().samples().is_empty());
    // The lister was asked once and nobody after it.
    assert_eq!(logged(&log), vec!["boss<poke", "lister:refresh"]);
}

#[test]
fn empty_seed_returns_at_once() {
    let log = new_log();
    let mut core = engine(&log, &[]);
    assert!(core.do_api(APIEvent::Command("nothing")).is_empty());
    assert!(core.do_io("nothing").is_empty());
    assert_eq!(logged(&log), vec!["boss<nothing", "rendezvous<nothing"]);
}

#[test]
fn io_instructions_are_handed_over_in_dispatch_order() {
    fn rendezvous(p: &str) -> Vec<Ev> {
        match p {
            "connected" => vec![Event::IO("send bind"), Event::Mailbox("open"), Event::IO("send list")],
            _ => Vec::new(),
        }
    }
    fn mailbox(p: &str) -> Vec<Ev> {
        match p {
            "open" => vec![Event::IO("send open")],
            _ => Vec::new(),
        }
    }
    let log = new_log();
    let mut core = engine(&log, &[("rendezvous", rendezvous), ("mailbox", mailbox)]);
    let actions = core.do_io("connected");
    assert!(actions.is_empty());
    assert_eq!(core.take_io(), vec!["send bind", "send list", "send open"]);
    // An instruction is no input to any machine.
    assert_eq!(logged(&log), vec!["rendezvous<connected", "mailbox:open"]);
}

#[test]
fn take_io_leaves_nothing_behind() {
    fn boss(p: &str) -> Vec<Ev> {
        match p {
            "a" => vec![Event::IO("first")],
            "b" => vec![Event::IO("second"), Event::IO("third")],
            _ => Vec::new(),
        }
    }
    let log = new_log();
    let mut core = engine(&log, &[("boss", boss)]);
    let _ = core.do_api(APIEvent::Command("a"));
    let _ = core.do_api(APIEvent::Command("b"));
    // Instructions wait across cycles until they are collected.
    assert_eq!(core.take_io(), vec!["first", "second", "third"]);
    assert!(core.take_io().is_empty());
    let _ = core.do_api(APIEvent::Command("a"));
    assert_eq!(core.take_io(), vec!["first"]);
}

#[test]
fn timing_samples_of_a_machine_go_to_the_collector() {
    fn boss(p: &str) -> Vec<Ev> {
        match p {
            "go" => vec![Event::Key("start")],
            _ => Vec::new(),
        }
    }
    fn key(p: &str) -> Vec<Ev> {
        match p {
            "start" => vec![
                Event::Timing("pake began"),
                Event::API(APIAction::Notice("key")),
                Event::Timing("pake done"),
                Event::Send("flush"),
            ],
            _ => Vec::new(),
        }
    }
    fn send(p: &str) -> Vec<Ev> {
        match p {
            "flush" => vec![Event::Timing("flushed")],
            _ => Vec::new(),
        }
    }
    let log = new_log();
    let mut core = engine(&log, &[("boss", boss), ("key", key), ("send", send)]);
    let actions = core.do_api(APIEvent::Command("go"));
    assert_eq!(notices(&actions), vec!["key"]);
    assert_eq!(*core.timing().samples(), vec!["pake began", "pake done", "flushed"]);
    // No machine ever saw a sample.
    assert_eq!(logged(&log), vec!["boss<go", "key:start", "send:flush"]);
}

#[test]
fn timing_sample_in_the_seed_is_collected() {
    fn boss(p: &str) -> Vec<Ev> {
        match p {
            "go" => vec![
                Event::Timing("early"),
                Event::Key("start"),
                Event::API(APIAction::Notice("done")),
                Event::Timing("entered"),
            ],
            _ => Vec::new(),
        }
    }
    fn key(p: &str) -> Vec<Ev> {
        match p {
            "start" => vec![Event::Timing("later")],
            _ => Vec::new(),
        }
    }
    let log = new_log();
    let mut core = engine(&log, &[("boss", boss), ("key", key)]);
    let actions = core.do_api(APIEvent::Command("go"));
    assert_eq!(notices(&actions), vec!["done"]);
    // The samples of the entry machine's batch come first, then what the
    // machines produce during the drain.
    assert_eq!(*core.timing().samples(), vec!["early", "entered", "later"]);
    // No machine ever saw a sample.
    assert_eq!(logged(&log), vec!["boss<go", "key:start"]);
}

#[test]
fn timing_sample_of_a_report_is_collected() {
    fn rendezvous(p: &str) -> Vec<Ev> {
        match p {
            "connected" => vec![Event::Timing("connected at 3")],
            _ => Vec::new(),
        }
    }
    let log = new_log();
    let mut core = engine(&log, &[("rendezvous", rendezvous)]);
    assert!(core.do_io("connected").is_empty());
    assert_eq!(*core.timing().samples(), vec!["connected at 3"]);
    assert_eq!(logged(&log), vec!["rendezvous<connected"]);
}

#[test]
fn each_cycle_returns_only_its_own_notifications() {
    fn boss(p: &str) -> Vec<Ev> {
        match p {
            "first" => vec![Event::API(APIAction::Notice("a")), Event::API(APIAction::Notice("b"))],
            "second" => vec![Event::API(APIAction::Notice("c"))],
            _ => Vec::new(),
        }
    }
    let log = new_log();
    let mut core = engine(&log, &[("boss", boss)]);
    assert_eq!(notices(&core.do_api(APIEvent::Command("first"))), vec!["a", "b"]);
    assert_eq!(notices(&core.do_api(APIEvent::Command("second"))), vec!["c"]);
    assert!(core.do_api(APIEvent::Command("third")).is_empty());
}

#[test]
fn closing_notification_is_returned_like_any_other() {
    fn boss(p: &str) -> Vec<Ev> {
        match p {
            "api-close" => vec![Event::Terminator("close")],
            _ => Vec::new(),
        }
    }
    fn terminator(p: &str) -> Vec<Ev> {
        match p {
            "close" => vec![
                Event::API(APIAction::Notice("bye")),
                Event::API(APIAction::GotClosed("happy")),
            ],
            _ => Vec::new(),
        }
    }
    let log = new_log();
    let mut core = engine(&log, &[("boss", boss), ("terminator", terminator)]);
    let actions = core.do_api(APIEvent::Close);
    assert_eq!(notices(&actions), vec!["bye", "closed:happy"]);
    assert!(!actions[0].is_closed());
    assert!(actions[1].is_closed());
}

#[test]
fn collector_keeps_samples_in_order() {
    let mut timing: Timing<Text> = Timing::new();
    assert!(timing.samples().is_empty());
    timing.add("one");
    timing.add("two");
    assert_eq!(*timing.samples(), vec!["one", "two"]);
}

#[test]
fn outbox_hands_out_oldest_first() {
    let mut io: WormholeIO<Text> = WormholeIO::new();
    assert!(io.take().is_empty());
    io.process("open");
    io.process("send");
    assert_eq!(io.take(), vec!["open", "send"]);
    assert!(io.take().is_empty());
    io.process("close");
    assert_eq!(io.take(), vec!["close"]);
}

#[test]
fn idle_machines_swallow_everything() {
    struct Spare;
    impl Machines<Text> for Spare {
        type Allocator = Idle<&'static str>;
        type Boss = Scripted;
        type Code = Idle<&'static str>;
        type Input = Idle<&'static str>;
        type Key = Idle<&'static str>;
        type Lister = Idle<&'static str>;
        type Mailbox = Idle<&'static str>;
        type Nameplate = Idle<&'static str>;
        type Order = Idle<&'static str>;
        type Receive = Idle<&'static str>;
        type Rendezvous = Idle<&'static str>;
        type Send = Idle<&'static str>;
        type Terminator = Idle<&'static str>;
    }
    fn boss(p: &str) -> Vec<Ev> {
        match p {
            "go" => vec![
                Event::Allocator("a"),
                Event::Rendezvous("b"),
                Event::API(APIAction::Notice("done")),
                Event::Terminator("c"),
            ],
            _ => Vec::new(),
        }
    }
    let log = new_log();
    let mut core: WormholeCore<Text, Spare> = WormholeCore::new(
        Idle::new(),
        Scripted::new("boss", &log, boss),
        Idle::new(),
        Idle::new(),
        Idle::new(),
        Idle::new(),
        Idle::new(),
        Idle::new(),
        Idle::new(),
        Idle::new(),
        Idle::new(),
        Idle::new(),
        Idle::new(),
    );
    assert_eq!(notices(&core.do_api(APIEvent::Command("go"))), vec!["done"]);
    assert!(core.do_io("report").is_empty());
    assert!(core.take_io().is_empty());
    assert_eq!(logged(&log), vec!["boss<go"]);
}

fn split(actions: Vec<APIAction<Text>>) -> (Vec<String>, bool) {
    let (send, close) = APIAction::deliverable(actions);
    (notices(&send), close)
}

#[test]
fn deliverable_of_nothing_is_nothing() {
    assert_eq!(split(Vec::new()), (Vec::<String>::new(), false));
}

#[test]
fn deliverable_without_close_is_everything() {
    let actions = vec![APIAction::Notice("a"), APIAction::Notice("b"), APIAction::Notice("c")];
    assert_eq!(split(actions), (vec!["a".to_string(), "b".to_string(), "c".to_string()], false));
}

#[test]
fn deliverable_ends_with_the_close() {
    let actions = vec![
        APIAction::Notice("a"),
        APIAction::Notice("b"),
        APIAction::GotClosed("happy"),
        APIAction::Notice("c"),
    ];
    assert_eq!(
        split(actions),
        (vec!["a".to_string(), "b".to_string(), "closed:happy".to_string()], true)
    );
}

#[test]
fn deliverable_with_close_first_is_the_close_alone() {
    let actions = vec![APIAction::GotClosed("lonely"), APIAction::Notice("a")];
    assert_eq!(split(actions), (vec!["closed:lonely".to_string()], true));
}

#[test]
fn deliverable_ends_with_the_first_of_two_closes() {
    let actions = vec![
        APIAction::Notice("a"),
        APIAction::GotClosed("happy"),
        APIAction::Notice("b"),
        APIAction::GotClosed("scared"),
    ];
    assert_eq!(split(actions), (vec!["a".to_string(), "closed:happy".to_string()], true));
}

#[test]
fn deliverable_with_close_last_is_everything() {
    let actions = vec![APIAction::Notice("a"), APIAction::GotClosed("happy")];
    assert_eq!(split(actions), (vec!["a".to_string(), "closed:happy".to_string()], true));
}

/// The machines of a small session: a code is made on request, the relay is
/// greeted once the connection stands, and a close command winds down.
fn session(log: &Log) -> Bridge<Text, Wiring> {
    fn boss(p: &str) -> Vec<Ev> {
        match p {
            "generate code" => vec![Event::Code("allocate")],
            "got code" => vec![Event::API(APIAction::Notice("code: 4-purple-sausages"))],
            "send" => vec![Event::API(APIAction::Notice("queued")), Event::Send("hello")],
            "api-close" => vec![Event::Terminator("close")],
            "closed" => vec![
                Event::API(APIAction::Notice("bye")),
                Event::API(APIAction::GotClosed("happy")),
                Event::API(APIAction::Notice("too late")),
            ],
            _ => Vec::new(),
        }
    }
    fn code(p: &str) -> Vec<Ev> {
        match p {
            "allocate" => vec![Event::Boss("got code")],
            _ => Vec::new(),
        }
    }
    fn rendezvous(p: &str) -> Vec<Ev> {
        match p {
            "connected" => vec![Event::IO("send: bind"), Event::Nameplate("connected")],
            "stop" => vec![Event::IO("close socket"), Event::Terminator("stopped")],
            "lost" => vec![Event::Terminator("stopped")],
            _ => Vec::new(),
        }
    }
    fn nameplate(p: &str) -> Vec<Ev> {
        match p {
            "connected" => vec![Event::IO("send: claim")],
            _ => Vec::new(),
        }
    }
    fn send(p: &str) -> Vec<Ev> {
        match p {
            "hello" => vec![Event::IO("send: add hello")],
            _ => Vec::new(),
        }
    }
    fn terminator(p: &str) -> Vec<Ev> {
        match p {
            "close" => vec![Event::Rendezvous("stop")],
            "stopped" => vec![Event::Boss("closed")],
            _ => Vec::new(),
        }
    }
    Bridge::new(engine(
        log,
        &[
            ("boss", boss),
            ("code", code),
            ("rendezvous", rendezvous),
            ("nameplate", nameplate),
            ("send", send),
            ("terminator", terminator),
        ],
    ))
}

fn accepted(delivery: Option<Delivery<Text>>) -> (Vec<&'static str>, Vec<String>, bool) {
    match delivery {
        Some(d) => (d.io, notices(&d.actions), d.close),
        None => panic!("the stimulus was refused"),
    }
}

#[test]
fn session_from_code_to_close() {
    let log = new_log();
    let mut bridge = session(&log);
    assert_eq!(bridge.state(), BridgeState::Running);

    // A code is generated before any connection stands: no I/O yet.
    let (io, sent, close) = accepted(bridge.accept(Stimulus::Api(APIEvent::Command("generate code"))));
    assert_eq!(sent, vec!["code: 4-purple-sausages"]);
    assert!(io.is_empty());
    assert!(!close);

    // The connection stands: the relay is written to, the application is not.
    let (io, sent, close) = accepted(bridge.accept(Stimulus::Io("connected")));
    assert_eq!(io, vec!["send: bind", "send: claim"]);
    assert!(sent.is_empty());
    assert!(!close);
    assert_eq!(bridge.state(), BridgeState::Running);

    // The close command: one closing notification, the last to go out.
    let (io, sent, close) = accepted(bridge.accept(Stimulus::Api(APIEvent::Close)));
    assert_eq!(io, vec!["close socket"]);
    assert_eq!(sent, vec!["bye", "closed:happy"]);
    assert!(close);
    assert_eq!(bridge.state(), BridgeState::Closed);
}

#[test]
fn close_command_yields_exactly_one_closing_notification() {
    fn boss(p: &str) -> Vec<Ev> {
        match p {
            "api-close" => vec![Event::Terminator("close")],
            "closed" => vec![Event::API(APIAction::GotClosed("happy"))],
            _ => Vec::new(),
        }
    }
    fn terminator(p: &str) -> Vec<Ev> {
        match p {
            "close" => vec![Event::Boss("closed")],
            _ => Vec::new(),
        }
    }
    let log = new_log();
    let mut core = engine(&log, &[("boss", boss), ("terminator", terminator)]);
    let actions = core.do_api(APIEvent::Close);
    assert_eq!(notices(&actions), vec!["closed:happy"]);
    assert_eq!(actions.iter().filter(|a| a.is_closed()).count(), 1);
}

#[test]
fn nothing_is_delivered_after_the_close() {
    let log = new_log();
    let mut bridge = session(&log);
    let (_, sent, close) = accepted(bridge.accept(Stimulus::Api(APIEvent::Close)));
    // "too late" was produced behind the closing notification.
    assert_eq!(sent, vec!["bye", "closed:happy"]);
    assert!(close);
}

#[test]
fn closed_bridge_refuses_every_stimulus() {
    let log = new_log();
    let mut bridge = session(&log);
    assert!(bridge.accept(Stimulus::Api(APIEvent::Close)).is_some());
    let seen = logged(&log).len();
    assert!(bridge.accept(Stimulus::Api(APIEvent::Command("generate code"))).is_none());
    assert!(bridge.accept(Stimulus::Io("connected")).is_none());
    assert!(bridge.accept(Stimulus::ApiExhausted).is_none());
    assert!(bridge.accept(Stimulus::Api(APIEvent::Close)).is_none());
    assert_eq!(bridge.state(), BridgeState::Closed);
    // No machine was asked again, and nothing was left for the I/O layer.
    assert_eq!(logged(&log).len(), seen);
}

#[test]
fn exhausted_command_source_closes_the_session() {
    let log = new_log();
    let mut bridge = session(&log);
    let (io, sent, close) = accepted(bridge.accept(Stimulus::ApiExhausted));
    assert_eq!(io, vec!["close socket"]);
    assert_eq!(sent, vec!["bye", "closed:happy"]);
    assert!(close);
    assert_eq!(bridge.state(), BridgeState::Closed);
    // The boss was handed a close command.
    assert_eq!(logged(&log)[0], "boss<api-close");
}

#[test]
fn exhaustion_and_close_command_are_handled_alike() {
    let by_command = new_log();
    let mut bridge = session(&by_command);
    let first = accepted(bridge.accept(Stimulus::Api(APIEvent::Close)));
    let by_exhaustion = new_log();
    let mut bridge = session(&by_exhaustion);
    let second = accepted(bridge.accept(Stimulus::ApiExhausted));
    assert_eq!(first, second);
    assert_eq!(logged(&by_command), logged(&by_exhaustion));
}

#[test]
fn session_that_does_not_answer_a_close_stays_open() {
    let log = new_log();
    let mut bridge = Bridge::new(engine(&log, &[]));
    let (io, sent, close) = accepted(bridge.accept(Stimulus::ApiExhausted));
    assert!(io.is_empty());
    assert!(sent.is_empty());
    assert!(!close);
    assert_eq!(bridge.state(), BridgeState::Running);
    // The close may still come with a later report of the I/O layer.
    assert!(bridge.accept(Stimulus::Io("lost")).is_some());
}

#[test]
fn close_may_come_with_a_report() {
    let log = new_log();
    let mut bridge = session(&log);
    let (_, sent, close) = accepted(bridge.accept(Stimulus::Io("lost")));
    assert_eq!(sent, vec!["bye", "closed:happy"]);
    assert!(close);
    assert_eq!(bridge.state(), BridgeState::Closed);
}

#[test]
fn one_drain_cycle_per_stimulus() {
    let log = new_log();
    let mut bridge = session(&log);
    let stimuli = vec![
        Stimulus::Api(APIEvent::Command("send")),
        Stimulus::Io("connected"),
        Stimulus::Api(APIEvent::Command("send")),
        Stimulus::Api(APIEvent::Command("unknown")),
        Stimulus::Io("noise"),
    ];
    let mut deliveries = 0;
    for s in stimuli {
        if bridge.accept(s).is_some() {
            deliveries += 1;
        }
    }
    assert_eq!(deliveries, 5);
    // Each stimulus went through its door exactly once.
    let entries: Vec<String> = logged(&log).into_iter().filter(|l| l.contains('<')).collect();
    assert_eq!(
        entries,
        vec!["boss<send", "rendezvous<connected", "boss<send", "boss<unknown", "rendezvous<noise"]
    );
}

#[test]
fn delivery_holds_what_its_own_stimulus_produced() {
    let log = new_log();
    let mut bridge = session(&log);
    let (io, sent, _) = accepted(bridge.accept(Stimulus::Api(APIEvent::Command("send"))));
    assert_eq!(sent, vec!["queued"]);
    assert_eq!(io, vec!["send: add hello"]);
    let (io, sent, _) = accepted(bridge.accept(Stimulus::Api(APIEvent::Command("generate code"))));
    assert_eq!(sent, vec!["code: 4-purple-sausages"]);
    assert!(io.is_empty());
    assert!(bridge.engine().timing().samples().is_empty());
}
