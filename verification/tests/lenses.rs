use std::cell::Cell;
use std::rc::Rc;

use dispatching::dispatcher::DispatcherBuilder;
use dispatching::error_handler::ErrorLog;
use dispatching::handler::{Handler, HandlerInto};
use dispatching::messages::parser as message_kind;
use dispatching::outcome::{DispatchError, HandleResult};
use dispatching::parser::{MapParser, Parser, ParserHandler, ParserOut, RecombineFrom};
use dispatching::types::{Chat, Message, MessageKind, Poll, Update, UpdateKind};
use dispatching::updates::parser as update_kind;
use dispatching::updates::UpdateRest;

fn title_message() -> Message {
    Message {
        id: 7,
        date: 100,
        chat: Chat { id: 1 },
        via_bot: None,
        kind: MessageKind::NewChatTitle(String::from("new title")),
    }
}

fn poll_update(id: i32) -> Update {
    Update {
        id,
        kind: UpdateKind::Poll(Poll { id: String::from("p"), question: String::from("q?") }),
    }
}

#[test]
fn lens_round_trip_reconstructs_update() {
    let original = Update { id: 3, kind: UpdateKind::Message(title_message()) };
    match update_kind::Message.parse(original.clone()) {
        Ok(out) => {
            let (data, rest) = out.into_inner();
            assert_eq!(data, title_message());
            assert_eq!(rest, UpdateRest(3));
            let rebuilt =
                <Update as RecombineFrom<update_kind::Message>>::recombine(ParserOut::new(data, rest));
            assert_eq!(rebuilt, original);
        }
        Err(_) => panic!("a message update must be narrowed by the message lens"),
    }
}

#[test]
fn lens_mismatch_returns_update_exactly() {
    let original = poll_update(4);
    match update_kind::Message.parse(original.clone()) {
        Err(e) => assert_eq!(e, original),
        Ok(_) => panic!("a poll update must not be narrowed by the message lens"),
    }
}

#[test]
fn identity_lens_accepts_everything() {
    let original = poll_update(11);
    match update_kind::Update.parse(original.clone()) {
        Ok(out) => {
            let (data, rest) = out.into_inner();
            assert_eq!(data, original);
            assert_eq!(rest, ());
        }
        Err(_) => panic!("the identity lens accepts every update"),
    }
}

#[test]
fn composed_lens_narrows_common_message() {
    let message = Message {
        id: 8,
        date: 5,
        chat: Chat { id: 2 },
        via_bot: None,
        kind: MessageKind::Common(dispatching::types::MessageCommon {
            from: None,
            forward_kind: dispatching::types::ForwardKind::Origin,
            media_kind: dispatching::types::MediaKind::Other,
        }),
    };
    let original = Update { id: 1, kind: UpdateKind::Message(message.clone()) };
    let composed = MapParser::new(update_kind::Message, message_kind::Common);
    match composed.parse(original) {
        Ok(out) => {
            let (data, rest) = out.into_inner();
            assert_eq!(data, message);
            assert_eq!(rest, (UpdateRest(1), ()));
        }
        Err(_) => panic!("a common message must pass both stages"),
    }
}

#[test]
fn composed_lens_failing_second_stage_returns_original_update() {
    // The update carries a message, so the first stage succeeds; the message
    // is a title change, so the second stage declines.  What comes back must
    // be the original update, not the intermediate message.
    let original = Update { id: 9, kind: UpdateKind::Message(title_message()) };
    let composed = MapParser::new(update_kind::Message, message_kind::Common);
    match composed.parse(original.clone()) {
        Err(e) => assert_eq!(e, original),
        Ok(_) => panic!("a title change is not a common message"),
    }
}

#[test]
fn composed_lens_failing_first_stage_returns_original_update() {
    let original = poll_update(2);
    let composed = MapParser::new(update_kind::Message, message_kind::Common);
    match composed.parse(original.clone()) {
        Err(e) => assert_eq!(e, original),
        Ok(_) => panic!("a poll update carries no message"),
    }
}

/// A triple of integers, narrowed to its head by [`HeadLens`].
#[derive(Debug, Clone, PartialEq)]
struct Nums(u32, u32, u32);

struct HeadLens;

impl RecombineFrom<HeadLens> for Nums {
    type Out = u32;
    type Rest = (u32, u32);

    fn spec_recombine(_info: ParserOut<u32, (u32, u32)>) -> Nums {
        unreachable!()
    }

    fn recombine(info: ParserOut<u32, (u32, u32)>) -> Nums {
        let (a, (b, c)) = info.into_inner();
        Nums(a, b, c)
    }
}

impl Parser<Nums, u32, (u32, u32)> for HeadLens {
    fn spec_accepts(&self, _src: Nums) -> bool {
        unreachable!()
    }

    fn spec_out(&self, _src: Nums) -> ParserOut<u32, (u32, u32)> {
        unreachable!()
    }

    fn parse(&self, src: Nums) -> Result<ParserOut<u32, (u32, u32)>, Nums> {
        Ok(ParserOut::new(src.0, (src.1, src.2)))
    }

    fn lemma_round_trip(&self, _src: Nums) {
        unreachable!()
    }
}

#[test]
fn parser_handler_stores_narrowed_head() {
    let stored: Rc<Cell<Option<u32>>> = Rc::new(Cell::new(None));
    let stored2 = stored.clone();
    let service = ParserHandler::new(HeadLens, move |head: u32| {
        stored2.set(Some(head));
        HandleResult::Done
    });
    let mut dispatcher = DispatcherBuilder::<Nums, String, (), _>::new()
        .handle(service)
        .error_handler(ErrorLog::new())
        .build();

    dispatcher.dispatch_one(Nums(1, 2, 3));
    assert_eq!(stored.get(), Some(1));
    assert_eq!(dispatcher.into_error_handler().len(), 0);
}

/// Claims only even heads; declines odd ones, handing the head back.
struct EvenHeadService {
    stored: Rc<Cell<Option<u32>>>,
}

impl Handler<u32, String> for EvenHeadService {
    fn spec_claims(&self, _upd: u32) -> bool {
        unreachable!()
    }

    fn spec_post(&self, _upd: u32, _out: HandleResult<String>) -> bool {
        unreachable!()
    }

    fn handle(&self, upd: u32) -> Result<HandleResult<String>, u32> {
        if upd % 2 == 0 {
            self.stored.set(Some(upd));
            Ok(HandleResult::Done)
        } else {
            Err(upd)
        }
    }
}

impl HandlerInto<EvenHeadService> for EvenHeadService {
    fn spec_into_handler(self) -> EvenHeadService {
        unreachable!()
    }

    fn into_handler(self) -> EvenHeadService {
        self
    }
}

#[test]
fn declined_narrowing_reconstructs_the_whole_event() {
    let stored: Rc<Cell<Option<u32>>> = Rc::new(Cell::new(None));
    let service = ParserHandler::new(HeadLens, EvenHeadService { stored: stored.clone() });
    let mut dispatcher = DispatcherBuilder::<Nums, String, (), _>::new()
        .handle(service)
        .error_handler(ErrorLog::new())
        .build();

    dispatcher.dispatch_one(Nums(3, 2, 1));
    assert_eq!(stored.get(), None);
    let errors = dispatcher.into_error_handler().into_errors();
    assert_eq!(errors.len(), 1);
    match &errors[0] {
        DispatchError::NoHandler(e) => assert_eq!(*e, Nums(3, 2, 1)),
        DispatchError::HandlerError(_) => panic!("the handler declined instead of failing"),
    }
}
