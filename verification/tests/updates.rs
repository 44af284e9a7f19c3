use std::cell::Cell;
use std::rc::Rc;

use dispatching::dispatcher::DispatcherBuilder;
use dispatching::error_handler::{ErrorHandler, ErrorLog};
use dispatching::guard::Guards;
use dispatching::handler::FnHandlerWrapper;
use dispatching::outcome::{DispatchError, HandleResult};
use dispatching::parser::{Parser, ParserOut, RecombineFrom};
use dispatching::service::Service;
use dispatching::types::{CallbackQuery, Poll, PollAnswer, Update, UpdateKind};
use dispatching::update_parser::{ParseGuard, UpdateParserHandler};
use dispatching::updates;
use dispatching::updates::parser as update_kind;
use dispatching::updates::UpdateRest;

fn poll_update(id: i32) -> Update {
    Update {
        id,
        kind: UpdateKind::Poll(Poll { id: String::from("p1"), question: String::from("why?") }),
    }
}

fn callback_update(id: i32) -> Update {
    Update {
        id,
        kind: UpdateKind::CallbackQuery(CallbackQuery {
            id: String::from("cq"),
            data: Some(String::from("payload")),
        }),
    }
}

#[test]
fn poll_lens_round_trip() {
    let original = poll_update(21);
    match update_kind::Poll.parse(original.clone()) {
        Ok(out) => {
            let (data, rest) = out.into_inner();
            assert_eq!(data.question, "why?");
            assert_eq!(rest, UpdateRest(21));
            let rebuilt =
                <Update as RecombineFrom<update_kind::Poll>>::recombine(ParserOut::new(data, rest));
            assert_eq!(rebuilt, original);
        }
        Err(_) => panic!("a poll update must be narrowed by the poll lens"),
    }
}

#[test]
fn callback_lens_rejects_other_kinds_unchanged() {
    let original = poll_update(8);
    match update_kind::CallbackQuery.parse(original.clone()) {
        Err(e) => assert_eq!(e, original),
        Ok(_) => panic!("a poll update is not a callback query"),
    }
}

#[test]
fn poll_answer_lens_rejects_poll() {
    let original = poll_update(1);
    match update_kind::PollAnswer.parse(original.clone()) {
        Err(e) => assert_eq!(e, original),
        Ok(_) => panic!("a poll update is not a poll answer"),
    }
    let answered = Update {
        id: 2,
        kind: UpdateKind::PollAnswer(PollAnswer { poll_id: String::from("p1") }),
    };
    assert!(update_kind::PollAnswer.parse(answered).is_ok());
}

#[test]
fn any_builder_hands_the_update_through_whole() {
    let stored: Rc<Cell<Option<i32>>> = Rc::new(Cell::new(None));
    let stored2 = stored.clone();
    let service = updates::any::<()>().to(move |u: Update| {
        stored2.set(Some(u.id));
        HandleResult::Done
    });
    let mut dispatcher = DispatcherBuilder::<Update, (), (), _>::new()
        .handle(service)
        .error_handler(ErrorLog::new())
        .build();

    dispatcher.dispatch_one(poll_update(77));
    assert_eq!(stored.get(), Some(77));
    assert_eq!(dispatcher.into_error_handler().len(), 0);
}

#[test]
fn guarded_total_parse_service_routes_by_kind() {
    let stored: Rc<Cell<Option<String>>> = Rc::new(Cell::new(None));
    let stored2 = stored.clone();
    let handler = UpdateParserHandler::<_, update_kind::CallbackQuery, Update, ()>::new(
        FnHandlerWrapper::new(move |q: CallbackQuery| {
            stored2.set(q.data);
            HandleResult::Done
        }),
    );
    let service = Service {
        guards: Guards::new().add(ParseGuard::<Update, update_kind::CallbackQuery>::new()),
        handler,
    };
    let mut dispatcher = DispatcherBuilder::<Update, (), (), _>::new()
        .handle(service)
        .error_handler(ErrorLog::new())
        .build();

    dispatcher.dispatch_one(callback_update(5));
    assert_eq!(stored.take(), Some(String::from("payload")));

    let stray = poll_update(6);
    dispatcher.dispatch_one(stray.clone());
    let errors = dispatcher.into_error_handler().into_errors();
    assert_eq!(errors.len(), 1);
    match &errors[0] {
        DispatchError::NoHandler(e) => assert_eq!(*e, stray),
        DispatchError::HandlerError(_) => panic!("the guard rejects before any handler runs"),
    }
}

#[test]
fn error_log_keeps_arrival_order() {
    let mut log: ErrorLog<i32, String> = ErrorLog::new();
    assert_eq!(log.len(), 0);
    log.handle_error(DispatchError::NoHandler(1));
    log.handle_error(DispatchError::HandlerError(String::from("late")));
    assert_eq!(log.len(), 2);
    let errors = log.into_errors();
    assert!(matches!(&errors[0], DispatchError::NoHandler(1)));
    assert!(matches!(&errors[1], DispatchError::HandlerError(m) if m == "late"));
}
