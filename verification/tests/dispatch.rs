use builders::dispatch::{
    command_handler, component_handler, decide_event, modal_handler, modal_reply,
    DispatchError, EventAction, GatewayEvent, Handler, InteractionTarget, PLACEHOLDER_ID,
};

#[test]
fn placeholder_ids_route_to_their_handlers() {
    assert_eq!(PLACEHOLDER_ID, "placeholder");
    assert_eq!(command_handler("placeholder").unwrap(), Handler::PlaceholderCommand);
    assert_eq!(component_handler("placeholder").unwrap(), Handler::PlaceholderComponent);
    assert_eq!(modal_handler("placeholder").unwrap(), Handler::PlaceholderModal);
}

#[test]
fn unknown_ids_are_refused_by_name() {
    match command_handler("ping") {
        Err(DispatchError::UnknownCommand(name)) => assert_eq!(name, "ping"),
        other => panic!("unexpected {:?}", other),
    }
    match component_handler("Placeholder") {
        Err(DispatchError::UnknownComponent(id)) => assert_eq!(id, "Placeholder"),
        other => panic!("unexpected {:?}", other),
    }
    match modal_handler("") {
        Err(DispatchError::UnknownModal(id)) => assert_eq!(id, ""),
        other => panic!("unexpected {:?}", other),
    }
}

#[test]
fn events_decide_actions() {
    assert_eq!(decide_event(GatewayEvent::Ready).unwrap(), EventAction::PublishCommands);
    assert_eq!(decide_event(GatewayEvent::Other).unwrap(), EventAction::Ignore);
    assert_eq!(
        decide_event(GatewayEvent::InteractionCreate(InteractionTarget::Command(
            "placeholder".to_string()
        )))
        .unwrap(),
        EventAction::Run(Handler::PlaceholderCommand)
    );
    assert_eq!(
        decide_event(GatewayEvent::InteractionCreate(InteractionTarget::Component(
            "placeholder".to_string()
        )))
        .unwrap(),
        EventAction::Run(Handler::PlaceholderComponent)
    );
    assert_eq!(
        decide_event(GatewayEvent::InteractionCreate(InteractionTarget::Modal(
            "placeholder".to_string()
        )))
        .unwrap(),
        EventAction::Run(Handler::PlaceholderModal)
    );
}

#[test]
fn unsupported_or_unknown_interactions_are_refused() {
    assert!(matches!(
        decide_event(GatewayEvent::InteractionCreate(InteractionTarget::Unsupported)),
        Err(DispatchError::UnsupportedInteraction)
    ));
    assert!(matches!(
        decide_event(GatewayEvent::InteractionCreate(InteractionTarget::Modal("x".to_string()))),
        Err(DispatchError::UnknownModal(id)) if id == "x"
    ));
}

#[test]
fn modal_reply_quotes_input() {
    assert_eq!(modal_reply("hello"), "> hello");
    assert_eq!(modal_reply(""), "> ");
    assert_eq!(modal_reply("two\nlines"), "> two\nlines");
}
