use std::cell::Cell;
use std::rc::Rc;

use dispatching::demux::DemuxBuilder;
use dispatching::dispatcher::DispatcherBuilder;
use dispatching::error_handler::ErrorLog;
use dispatching::guard::{Guard, Guards};
use dispatching::handler::Handler;
use dispatching::outcome::{DispatchError, HandleResult};
use dispatching::service::Service;

/// A routing-table entry over integer events.
enum IntService {
    /// Claims events at or above `min` and raises the flag.
    FlagIfAtLeast { min: i32, flag: Rc<Cell<u32>> },
    /// Claims every event and raises the flag.
    FlagAlways { flag: Rc<Cell<u32>> },
    /// Claims every event and reports a failure.
    Failing,
}

impl Handler<i32, String> for IntService {
    fn spec_claims(&self, _upd: i32) -> bool {
        unreachable!()
    }

    fn spec_post(&self, _upd: i32, _out: HandleResult<String>) -> bool {
        unreachable!()
    }

    fn handle(&self, upd: i32) -> Result<HandleResult<String>, i32> {
        match self {
            IntService::FlagIfAtLeast { min, flag } => {
                if upd >= *min {
                    flag.set(flag.get() + 1);
                    Ok(HandleResult::Done)
                } else {
                    Err(upd)
                }
            }
            IntService::FlagAlways { flag } => {
                flag.set(flag.get() + 1);
                Ok(HandleResult::Done)
            }
            IntService::Failing => Ok(HandleResult::Failed(format!("failed on {}", upd))),
        }
    }
}

/// A routing-table entry over string events.
enum StrService {
    /// Claims events longer than ten characters and raises the flag.
    LongOnly { flag: Rc<Cell<u32>> },
    /// Claims every event and raises the flag.
    Always { flag: Rc<Cell<u32>> },
}

impl Handler<String, String> for StrService {
    fn spec_claims(&self, _upd: String) -> bool {
        unreachable!()
    }

    fn spec_post(&self, _upd: String, _out: HandleResult<String>) -> bool {
        unreachable!()
    }

    fn handle(&self, upd: String) -> Result<HandleResult<String>, String> {
        match self {
            StrService::LongOnly { flag } => {
                if upd.len() > 10 {
                    flag.set(flag.get() + 1);
                    Ok(HandleResult::Done)
                } else {
                    Err(upd)
                }
            }
            StrService::Always { flag } => {
                flag.set(flag.get() + 1);
                Ok(HandleResult::Done)
            }
        }
    }
}

fn flag() -> Rc<Cell<u32>> {
    Rc::new(Cell::new(0))
}

#[test]
fn first_match_shadows_later_services() {
    let first = flag();
    let second = flag();
    let mut demux = DemuxBuilder::new();
    demux.add_service(IntService::FlagAlways { flag: first.clone() });
    demux.add_service(IntService::FlagAlways { flag: second.clone() });
    let demux = demux.build();

    assert!(matches!(demux.handle(7), Ok(HandleResult::Done)));
    assert_eq!(first.get(), 1);
    assert_eq!(second.get(), 0);
}

#[test]
fn no_match_returns_event_unchanged() {
    let mut demux = DemuxBuilder::new();
    demux.add_service(IntService::FlagIfAtLeast { min: 10, flag: flag() });
    let demux = demux.build();

    match demux.handle(3) {
        Err(e) => assert_eq!(e, 3),
        Ok(_) => panic!("an event below the threshold must not be claimed"),
    }
}

#[test]
fn empty_table_never_matches() {
    let demux = DemuxBuilder::<i32, String, IntService>::new().build();
    match demux.handle(42) {
        Err(e) => assert_eq!(e, 42),
        Ok(_) => panic!("an empty routing table must claim nothing"),
    }
}

#[test]
fn later_service_runs_when_earlier_declines() {
    let long = flag();
    let always = flag();
    let mut demux = DemuxBuilder::new();
    demux.add_service(StrService::LongOnly { flag: long.clone() });
    demux.add_service(StrService::Always { flag: always.clone() });
    let demux = demux.build();

    assert!(matches!(demux.handle(String::from("abc")), Ok(HandleResult::Done)));
    assert_eq!(long.get(), 0);
    assert_eq!(always.get(), 1);
}

#[test]
fn unmatched_event_reaches_sink_as_no_handler() {
    let builder = DispatcherBuilder::<i32, String, (), IntService>::new();
    let mut dispatcher = builder
        .handle(IntService::FlagIfAtLeast { min: 10, flag: flag() })
        .error_handler(ErrorLog::new())
        .build();

    dispatcher.dispatch_one(3);
    let errors = dispatcher.into_error_handler().into_errors();
    assert_eq!(errors.len(), 1);
    match &errors[0] {
        DispatchError::NoHandler(e) => assert_eq!(*e, 3),
        DispatchError::HandlerError(_) => panic!("no handler ran, so no handler error"),
    }
}

#[test]
fn handler_failure_reaches_sink_as_handler_error() {
    let builder = DispatcherBuilder::<i32, String, (), IntService>::new();
    let mut dispatcher = builder
        .handle(IntService::Failing)
        .error_handler(ErrorLog::new())
        .build();

    dispatcher.dispatch_one(9);
    let errors = dispatcher.into_error_handler().into_errors();
    assert_eq!(errors.len(), 1);
    match &errors[0] {
        DispatchError::HandlerError(e) => assert_eq!(e, "failed on 9"),
        DispatchError::NoHandler(_) => panic!("the failing service claims every event"),
    }
}

#[test]
fn successful_dispatch_leaves_sink_untouched() {
    let hits = flag();
    let builder = DispatcherBuilder::<i32, String, (), IntService>::new();
    let mut dispatcher = builder
        .handle(IntService::FlagAlways { flag: hits.clone() })
        .error_handler(ErrorLog::new())
        .build();

    dispatcher.dispatch_one(1);
    assert_eq!(hits.get(), 1);
    let errors = dispatcher.into_error_handler().into_errors();
    assert_eq!(errors.len(), 0);
}

#[test]
fn batch_of_hundred_events_yields_hundred_outcomes() {
    let handled = flag();
    let builder = DispatcherBuilder::<i32, String, (), IntService>::new();
    let mut dispatcher = builder
        .handle(IntService::FlagIfAtLeast { min: 50, flag: handled.clone() })
        .error_handler(ErrorLog::new())
        .build();

    let events: Vec<i32> = (0..100).collect();
    dispatcher.dispatch_stream(events);

    let absorbed = dispatcher.into_error_handler().into_errors();
    assert_eq!(handled.get(), 50);
    assert_eq!(absorbed.len(), 50);
    assert_eq!(handled.get() as usize + absorbed.len(), 100);
    for (i, err) in absorbed.iter().enumerate() {
        match err {
            DispatchError::NoHandler(e) => assert_eq!(*e, i as i32),
            DispatchError::HandlerError(_) => panic!("unclaimed events carry no handler error"),
        }
    }
}

#[test]
fn unmatched_batch_absorbs_one_error_per_event() {
    let builder = DispatcherBuilder::<i32, String, (), IntService>::new();
    let mut dispatcher = builder
        .handle(IntService::FlagIfAtLeast { min: 1000, flag: flag() })
        .error_handler(ErrorLog::new())
        .build();

    let events: Vec<i32> = (0..100).collect();
    dispatcher.dispatch_stream(events);

    let absorbed = dispatcher.into_error_handler().into_errors();
    assert_eq!(absorbed.len(), 100);
    for (i, err) in absorbed.iter().enumerate() {
        match err {
            DispatchError::NoHandler(e) => assert_eq!(*e, i as i32),
            DispatchError::HandlerError(_) => panic!("nothing was claimed, so nothing failed"),
        }
    }
}

/// Accepts strings made of ASCII characters only.
struct AsciiGuard;

impl Guard<String> for AsciiGuard {
    fn spec_check(&self, _update: &String) -> bool {
        unreachable!()
    }

    fn check(&self, update: &String) -> bool {
        update.is_ascii()
    }
}

#[test]
fn ascii_service_stores_first_char_and_rejects_non_ascii() {
    let stored: Rc<Cell<Option<char>>> = Rc::new(Cell::new(None));
    let stored2 = stored.clone();
    let service = Service::new(
        Guards::new().add(AsciiGuard),
        move |s: String| {
            stored2.set(s.chars().next());
            HandleResult::Done
        },
    );
    let builder = DispatcherBuilder::<String, (), (), _>::new();
    let mut dispatcher = builder.handle(service).error_handler(ErrorLog::new()).build();

    dispatcher.dispatch_one(String::from("Hello"));
    assert_eq!(stored.get(), Some('H'));

    dispatcher.dispatch_one(String::from("h\u{e9}llo"));
    let errors = dispatcher.into_error_handler().into_errors();
    assert_eq!(errors.len(), 1);
    match &errors[0] {
        DispatchError::NoHandler(e) => assert_eq!(e, "h\u{e9}llo"),
        DispatchError::HandlerError(_) => panic!("the guard rejects before any handler runs"),
    }
}
