use std::cell::Cell;
use std::rc::Rc;

use dispatching::dispatcher::DispatcherBuilder;
use dispatching::error_handler::ErrorLog;
use dispatching::guard::Guard;
use dispatching::handler::Handler;
use dispatching::outcome::{DispatchError, HandleResult};
use dispatching::types::{
    CallbackQuery, Chat, ForwardKind, MediaKind, Message, MessageCommon, MessageKind, Update,
    UpdateKind,
};
use dispatching::updates;

fn text_message(text: &str) -> Message {
    Message {
        id: 199785,
        date: 1568289890,
        chat: Chat { id: 250918540 },
        via_bot: None,
        kind: MessageKind::Common(MessageCommon {
            from: None,
            forward_kind: ForwardKind::Origin,
            media_kind: MediaKind::Text { text: String::from(text) },
        }),
    }
}

fn text_update(id: i32, text: &str) -> Update {
    Update { id, kind: UpdateKind::Message(text_message(text)) }
}

fn callback_update(id: i32) -> Update {
    Update {
        id,
        kind: UpdateKind::CallbackQuery(CallbackQuery { id: String::from("cq"), data: None }),
    }
}

/// Accepts every message.
struct AnyMessage;

impl Guard<Message> for AnyMessage {
    fn spec_check(&self, _update: &Message) -> bool {
        unreachable!()
    }

    fn check(&self, _update: &Message) -> bool {
        true
    }
}

/// A message handler that claims nothing; a placeholder fallback slot.
struct NeverHandler;

impl Handler<Message, ()> for NeverHandler {
    fn spec_claims(&self, _upd: Message) -> bool {
        unreachable!()
    }

    fn spec_post(&self, _upd: Message, _out: HandleResult<()>) -> bool {
        unreachable!()
    }

    fn handle(&self, upd: Message) -> Result<HandleResult<()>, Message> {
        Err(upd)
    }
}

/// Accepts strings containing a fixed fragment.
struct Contains(&'static str);

impl Guard<String> for Contains {
    fn spec_check(&self, _update: &String) -> bool {
        unreachable!()
    }

    fn check(&self, update: &String) -> bool {
        update.contains(self.0)
    }
}

#[test]
fn text_message_routes_to_common_handler() {
    let handled = Rc::new(Cell::new(false));
    let handled2 = handled.clone();
    let service = updates::message::<()>().common::<AnyMessage, NeverHandler>().by(
        move |message: Message| {
            assert_eq!(message.text().map(String::as_str), Some("text"));
            handled2.set(true);
            HandleResult::Done
        },
    );
    let mut dispatcher = DispatcherBuilder::<Update, (), (), _>::new()
        .handle(service)
        .error_handler(ErrorLog::new())
        .build();

    dispatcher.dispatch_one(text_update(0, "text"));
    assert!(handled.get());
    assert_eq!(dispatcher.into_error_handler().len(), 0);
}

#[test]
fn non_message_update_misses_common_handler() {
    let handled = Rc::new(Cell::new(false));
    let handled2 = handled.clone();
    let service = updates::message::<()>().common::<AnyMessage, NeverHandler>().by(
        move |_message: Message| {
            handled2.set(true);
            HandleResult::Done
        },
    );
    let mut dispatcher = DispatcherBuilder::<Update, (), (), _>::new()
        .handle(service)
        .error_handler(ErrorLog::new())
        .build();

    let stray = callback_update(5);
    dispatcher.dispatch_one(stray.clone());
    assert!(!handled.get());
    let errors = dispatcher.into_error_handler().into_errors();
    assert_eq!(errors.len(), 1);
    match &errors[0] {
        DispatchError::NoHandler(e) => assert_eq!(*e, stray),
        DispatchError::HandlerError(_) => panic!("no handler ran on a callback query"),
    }
}

#[test]
fn guard_chain_with_fallback_routes_both_ways() {
    let main_hits = Rc::new(Cell::new(0u32));
    let fallback_hits = Rc::new(Cell::new(0u32));
    let main2 = main_hits.clone();
    let fallback2 = fallback_hits.clone();

    let service = updates::message::<()>()
        .common()
        .with_text(Contains("hi"))
        .or_with_text(Contains("yo"))
        .or_else(move |_m: Message| {
            fallback2.set(fallback2.get() + 1);
            HandleResult::Done
        })
        .by(move |_m: Message| {
            main2.set(main2.get() + 1);
            HandleResult::Done
        });
    let mut dispatcher = DispatcherBuilder::<Update, (), (), _>::new()
        .handle(service)
        .error_handler(ErrorLog::new())
        .build();

    dispatcher.dispatch_one(text_update(1, "say hi"));
    assert_eq!((main_hits.get(), fallback_hits.get()), (1, 0));

    dispatcher.dispatch_one(text_update(2, "yo there"));
    assert_eq!((main_hits.get(), fallback_hits.get()), (2, 0));

    dispatcher.dispatch_one(text_update(3, "nope"));
    assert_eq!((main_hits.get(), fallback_hits.get()), (2, 1));

    assert_eq!(dispatcher.into_error_handler().len(), 0);
}

#[test]
fn terminal_step_freezes_open_guard_slot() {
    // No `or_else` terminates the slot, yet attaching the terminal handler
    // freezes it: a message failing the guard is absorbed silently instead
    // of reaching the handler or the sink.
    let main_hits = Rc::new(Cell::new(0u32));
    let main2 = main_hits.clone();

    let service = updates::message::<()>()
        .common::<_, NeverHandler>()
        .with_text(Contains("hi"))
        .by(move |_m: Message| {
            main2.set(main2.get() + 1);
            HandleResult::Done
        });
    let mut dispatcher = DispatcherBuilder::<Update, (), (), _>::new()
        .handle(service)
        .error_handler(ErrorLog::new())
        .build();

    dispatcher.dispatch_one(text_update(1, "no greeting"));
    assert_eq!(main_hits.get(), 0);

    dispatcher.dispatch_one(text_update(2, "hi friend"));
    assert_eq!(main_hits.get(), 1);

    assert_eq!(dispatcher.into_error_handler().len(), 0);
}

/// Accepts integers at or above a threshold.
struct AtLeast(i32);

impl Guard<i32> for AtLeast {
    fn spec_check(&self, _update: &i32) -> bool {
        unreachable!()
    }

    fn check(&self, update: &i32) -> bool {
        *update >= self.0
    }
}

#[test]
fn message_id_guard_filters_by_id() {
    let main_hits = Rc::new(Cell::new(0u32));
    let main2 = main_hits.clone();

    let service = updates::message::<()>()
        .common::<_, NeverHandler>()
        .with_id(AtLeast(100))
        .by(move |_m: Message| {
            main2.set(main2.get() + 1);
            HandleResult::Done
        });
    let mut dispatcher = DispatcherBuilder::<Update, (), (), _>::new()
        .handle(service)
        .error_handler(ErrorLog::new())
        .build();

    let mut low = text_update(1, "a");
    match &mut low.kind {
        UpdateKind::Message(m) => m.id = 5,
        _ => unreachable!(),
    }
    dispatcher.dispatch_one(low);
    assert_eq!(main_hits.get(), 0);

    dispatcher.dispatch_one(text_update(2, "b"));
    assert_eq!(main_hits.get(), 1);
}

/// Accepts chat ids at or above a threshold.
struct ChatAtLeast(i64);

impl Guard<i64> for ChatAtLeast {
    fn spec_check(&self, _update: &i64) -> bool {
        unreachable!()
    }

    fn check(&self, update: &i64) -> bool {
        *update >= self.0
    }
}

#[test]
fn chat_id_guard_filters_by_chat() {
    let main_hits = Rc::new(Cell::new(0u32));
    let main2 = main_hits.clone();

    let service = updates::message::<()>()
        .common::<_, NeverHandler>()
        .with_chat_id(ChatAtLeast(1000))
        .by(move |_m: Message| {
            main2.set(main2.get() + 1);
            HandleResult::Done
        });
    let mut dispatcher = DispatcherBuilder::<Update, (), (), _>::new()
        .handle(service)
        .error_handler(ErrorLog::new())
        .build();

    let mut small = text_update(1, "a");
    match &mut small.kind {
        UpdateKind::Message(m) => m.chat.id = 3,
        _ => unreachable!(),
    }
    dispatcher.dispatch_one(small);
    assert_eq!(main_hits.get(), 0);

    dispatcher.dispatch_one(text_update(2, "b"));
    assert_eq!(main_hits.get(), 1);
}

#[test]
fn update_parser_to_attaches_handler_directly() {
    let stored: Rc<Cell<Option<i32>>> = Rc::new(Cell::new(None));
    let stored2 = stored.clone();
    let service = updates::message::<()>().to(move |m: Message| {
        stored2.set(Some(m.date));
        HandleResult::Done
    });
    let mut dispatcher = DispatcherBuilder::<Update, (), (), _>::new()
        .handle(service)
        .error_handler(ErrorLog::new())
        .build();

    dispatcher.dispatch_one(text_update(1, "x"));
    assert_eq!(stored.get(), Some(1568289890));

    dispatcher.dispatch_one(callback_update(2));
    assert_eq!(dispatcher.into_error_handler().len(), 1);
}
