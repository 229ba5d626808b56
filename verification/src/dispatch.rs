//! The bot's decisions: which handler serves an interaction, what to do on a
//! gateway event, and what a submitted modal is answered with.

use vstd::prelude::*;

verus! {

/// Custom id of the placeholder command, button and modal.
pub const PLACEHOLDER_ID: &'static str = "placeholder";

/// A handler that the bot can run.
#[derive(Clone, Copy, Debug, PartialEq, Eq, Structural)]
pub enum Handler {
    /// Answers the placeholder command with a message and a button.
    PlaceholderCommand,
    /// Answers a click on the placeholder button with the placeholder modal.
    PlaceholderComponent,
    /// Answers a submitted placeholder modal by quoting its input.
    PlaceholderModal,
}

/// What an interaction asks for, by the kind of its data.
#[derive(Debug)]
pub enum InteractionTarget {
    /// An application command, by name.
    Command(String),
    /// A message component, by custom id.
    Component(String),
    /// A modal submission, by custom id.
    Modal(String),
    /// Data of any other kind, or none.
    Unsupported,
}

/// A gateway event, as far as the bot tells events apart.
#[derive(Debug)]
pub enum GatewayEvent {
    /// The session is ready.
    Ready,
    /// An interaction was created.
    InteractionCreate(InteractionTarget),
    /// Any other event.
    Other,
}

/// What the bot does about an event.
#[derive(Clone, Copy, Debug, PartialEq, Eq, Structural)]
pub enum EventAction {
    /// Publish the global application commands.
    PublishCommands,
    /// Run a handler on the interaction.
    Run(Handler),
    /// Nothing.
    Ignore,
}

/// Why an interaction could not be served.
#[derive(Debug)]
pub enum DispatchError {
    /// No command has this name.
    UnknownCommand(String),
    /// No component has this custom id.
    UnknownComponent(String),
    /// No modal has this custom id.
    UnknownModal(String),
    /// The interaction's data is of a kind the bot does not serve.
    UnsupportedInteraction,
}

/// Whether `id` is the placeholder id.
fn is_placeholder(id: &str) -> (b: bool)
    ensures
        b == (id@ == PLACEHOLDER_ID@),
{
    let id = id.to_owned();
    let placeholder = PLACEHOLDER_ID.to_owned();
    id == placeholder
}

/// The handler of the command named `name`.
pub fn command_handler(name: &str) -> (r: Result<Handler, DispatchError>)
    ensures
        name@ == PLACEHOLDER_ID@ ==> r matches Ok(Handler::PlaceholderCommand),
        name@ != PLACEHOLDER_ID@ ==> (r matches Err(DispatchError::UnknownCommand(n)) && n@ == name@),
{
    if is_placeholder(name) {
        Ok(Handler::PlaceholderCommand)
    } else {
        Err(DispatchError::UnknownCommand(name.to_owned()))
    }
}

/// The handler of the component with custom id `custom_id`.
pub fn component_handler(custom_id: &str) -> (r: Result<Handler, DispatchError>)
    ensures
        custom_id@ == PLACEHOLDER_ID@ ==> r matches Ok(Handler::PlaceholderComponent),
        custom_id@ != PLACEHOLDER_ID@ ==> (r matches Err(DispatchError::UnknownComponent(n)) && n@ == custom_id@),
{
    if is_placeholder(custom_id) {
        Ok(Handler::PlaceholderComponent)
    } else {
        Err(DispatchError::UnknownComponent(custom_id.to_owned()))
    }
}

/// The handler of the modal with custom id `custom_id`.
pub fn modal_handler(custom_id: &str) -> (r: Result<Handler, DispatchError>)
    ensures
        custom_id@ == PLACEHOLDER_ID@ ==> r matches Ok(Handler::PlaceholderModal),
        custom_id@ != PLACEHOLDER_ID@ ==> (r matches Err(DispatchError::UnknownModal(n)) && n@ == custom_id@),
{
    if is_placeholder(custom_id) {
        Ok(Handler::PlaceholderModal)
    } else {
        Err(DispatchError::UnknownModal(custom_id.to_owned()))
    }
}

/// The handler that serves an interaction, by the kind of its data.
pub open spec fn routes_to(target: InteractionTarget, handler: Handler) -> bool {
    match target {
        InteractionTarget::Command(n) => n@ == PLACEHOLDER_ID@ && handler is PlaceholderCommand,
        InteractionTarget::Component(n) => n@ == PLACEHOLDER_ID@ && handler is PlaceholderComponent,
        InteractionTarget::Modal(n) => n@ == PLACEHOLDER_ID@ && handler is PlaceholderModal,
        InteractionTarget::Unsupported => false,
    }
}

/// The error with which an interaction is refused.
pub open spec fn refused_with(target: InteractionTarget, e: DispatchError) -> bool {
    match target {
        InteractionTarget::Command(n) => n@ != PLACEHOLDER_ID@ && (e matches DispatchError::UnknownCommand(m) && m@ == n@),
        InteractionTarget::Component(n) => n@ != PLACEHOLDER_ID@ && (e matches DispatchError::UnknownComponent(m) && m@ == n@),
        InteractionTarget::Modal(n) => n@ != PLACEHOLDER_ID@ && (e matches DispatchError::UnknownModal(m) && m@ == n@),
        InteractionTarget::Unsupported => e is UnsupportedInteraction,
    }
}

/// Every interaction is either served by one handler or refused with an
/// error that names what it asked for, never both.
pub proof fn law_served_or_refused(target: InteractionTarget)
    ensures
        forall|h: Handler, e: DispatchError| !(routes_to(target, h) && refused_with(target, e)),
        forall|h1: Handler, h2: Handler| routes_to(target, h1) && routes_to(target, h2) ==> h1 == h2,
        (exists|h: Handler| routes_to(target, h)) || (exists|e: DispatchError| refused_with(target, e)),
{
    match target {
        InteractionTarget::Command(n) => {
            if n@ == PLACEHOLDER_ID@ {
                assert(routes_to(target, Handler::PlaceholderCommand));
            } else {
                assert(refused_with(target, DispatchError::UnknownCommand(n)));
            }
        },
        InteractionTarget::Component(n) => {
            if n@ == PLACEHOLDER_ID@ {
                assert(routes_to(target, Handler::PlaceholderComponent));
            } else {
                assert(refused_with(target, DispatchError::UnknownComponent(n)));
            }
        },
        InteractionTarget::Modal(n) => {
            if n@ == PLACEHOLDER_ID@ {
                assert(routes_to(target, Handler::PlaceholderModal));
            } else {
                assert(refused_with(target, DispatchError::UnknownModal(n)));
            }
        },
        InteractionTarget::Unsupported => {
            assert(refused_with(target, DispatchError::UnsupportedInteraction));
        },
    }
}

/// The id that an interaction asks for, if its data is of a kind the bot serves.
pub open spec fn requested_id(target: InteractionTarget) -> Option<Seq<char>> {
    match target {
        InteractionTarget::Command(n) => Some(n@),
        InteractionTarget::Component(n) => Some(n@),
        InteractionTarget::Modal(n) => Some(n@),
        InteractionTarget::Unsupported => None,
    }
}

/// Only the placeholder id is served: an interaction is routed to a handler
/// only if it asks for the placeholder id, and one that asks for any other
/// id is refused with an error that carries that id.
pub proof fn law_only_placeholder_is_served(target: InteractionTarget, h: Handler)
    ensures
        routes_to(target, h) ==> requested_id(target) == Some(PLACEHOLDER_ID@),
        match target {
            InteractionTarget::Command(n) => n@ != PLACEHOLDER_ID@ ==> refused_with(
                target,
                DispatchError::UnknownCommand(n),
            ),
            InteractionTarget::Component(n) => n@ != PLACEHOLDER_ID@ ==> refused_with(
                target,
                DispatchError::UnknownComponent(n),
            ),
            InteractionTarget::Modal(n) => n@ != PLACEHOLDER_ID@ ==> refused_with(
                target,
                DispatchError::UnknownModal(n),
            ),
            InteractionTarget::Unsupported => refused_with(
                target,
                DispatchError::UnsupportedInteraction,
            ),
        },
{
}

/// Decides what to do about a gateway event: publish the commands when the
/// session is ready, run the handler an interaction asks for, or nothing.
pub fn decide_event(event: GatewayEvent) -> (r: Result<EventAction, DispatchError>)
    ensures
        event is Ready ==> r == Ok::<EventAction, DispatchError>(EventAction::PublishCommands),
        event is Other ==> r == Ok::<EventAction, DispatchError>(EventAction::Ignore),
        event matches GatewayEvent::InteractionCreate(t) ==> match r {
            Ok(EventAction::Run(h)) => routes_to(t, h),
            Ok(_) => false,
            Err(e) => refused_with(t, e),
        },
        event matches GatewayEvent::InteractionCreate(InteractionTarget::Command(n)) ==> (
        n@ == PLACEHOLDER_ID@ ==> r == Ok::<EventAction, DispatchError>(
            EventAction::Run(Handler::PlaceholderCommand),
        )) && (n@ != PLACEHOLDER_ID@ ==> (r matches Err(DispatchError::UnknownCommand(m)) && m@
            == n@)),
        event matches GatewayEvent::InteractionCreate(InteractionTarget::Component(n)) ==> (
        n@ == PLACEHOLDER_ID@ ==> r == Ok::<EventAction, DispatchError>(
            EventAction::Run(Handler::PlaceholderComponent),
        )) && (n@ != PLACEHOLDER_ID@ ==> (r matches Err(DispatchError::UnknownComponent(m)) && m@
            == n@)),
        event matches GatewayEvent::InteractionCreate(InteractionTarget::Modal(n)) ==> (n@
            == PLACEHOLDER_ID@ ==> r == Ok::<EventAction, DispatchError>(
            EventAction::Run(Handler::PlaceholderModal),
        )) && (n@ != PLACEHOLDER_ID@ ==> (r matches Err(DispatchError::UnknownModal(m)) && m@
            == n@)),
        event matches GatewayEvent::InteractionCreate(InteractionTarget::Unsupported) ==> (r matches Err(DispatchError::UnsupportedInteraction)),
{
    match event {
        GatewayEvent::Ready => Ok(EventAction::PublishCommands),
        GatewayEvent::Other => Ok(EventAction::Ignore),
        GatewayEvent::InteractionCreate(target) => {
            let handler = match target {
                InteractionTarget::Command(name) => command_handler(name.as_str()),
                InteractionTarget::Component(id) => component_handler(id.as_str()),
                InteractionTarget::Modal(id) => modal_handler(id.as_str()),
                InteractionTarget::Unsupported => Err(DispatchError::UnsupportedInteraction),
            };
            match handler {
                Ok(h) => Ok(EventAction::Run(h)),
                Err(e) => Err(e),
            }
        },
    }
}

/// The message that answers a submitted modal: its input, quoted.
pub fn modal_reply(input: &str) -> (reply: String)
    ensures
        reply@ == seq!['>', ' '] + input@,
{
    let mut reply = String::from_str("> ");
    reply.append(input);
    proof {
        reveal_strlit("> ");
    }
    reply
}

} // verus!
