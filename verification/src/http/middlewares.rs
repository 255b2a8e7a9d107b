//! The order in which a middleware and the handler that it wraps take
//! their turns.
use vstd::prelude::*;

verus! {

/// When a middleware runs.
#[derive(Debug, Clone, Copy, PartialEq, Eq, Structural)]
pub enum MiddlewareKind {
    /// Before the handler, on the request.
    Before,
    /// After the handler, on the response.
    After,
}

/// What has just happened while a request is being served.
#[derive(Debug, Clone, Copy, PartialEq, Eq, Structural)]
pub enum Event {
    /// The request has arrived.
    Arrived,
    /// The middleware has passed on what it was given.
    MiddlewarePassed,
    /// The middleware has failed.
    MiddlewareFailed,
    /// The handler has produced a response.
    HandlerAnswered,
    /// The handler has failed.
    HandlerFailed,
}

/// What to do next.
#[derive(Debug, Clone, Copy, PartialEq, Eq, Structural)]
pub enum Action {
    /// Run the middleware.
    RunMiddleware,
    /// Call the handler.
    CallHandler,
    /// Return the response.
    Respond,
    /// Fail with the middleware's error, as an error response.
    FailWithMiddlewareError,
    /// Fail with the handler's error, as it is.
    FailWithHandlerError,
}

/// The next action. A middleware that runs before the handler goes first
/// and the handler is called only if it passes; one that runs after goes
/// second and only on a response. Whoever goes second has the last word,
/// and a failure ends the request at once.
pub open spec fn next_action(kind: MiddlewareKind, event: Event) -> Action {
    match (kind, event) {
        (MiddlewareKind::Before, Event::Arrived) => Action::RunMiddleware,
        (MiddlewareKind::Before, Event::MiddlewarePassed) => Action::CallHandler,
        (MiddlewareKind::Before, Event::HandlerAnswered) => Action::Respond,
        (MiddlewareKind::After, Event::Arrived) => Action::CallHandler,
        (MiddlewareKind::After, Event::HandlerAnswered) => Action::RunMiddleware,
        (MiddlewareKind::After, Event::MiddlewarePassed) => Action::Respond,
        (_, Event::MiddlewareFailed) => Action::FailWithMiddlewareError,
        (_, Event::HandlerFailed) => Action::FailWithHandlerError,
    }
}

/// Decides what to do after `event`.
pub fn decide(kind: MiddlewareKind, event: Event) -> (r: Action)
    ensures
        r == next_action(kind, event),
{
    match event {
        Event::MiddlewareFailed => Action::FailWithMiddlewareError,
        Event::HandlerFailed => Action::FailWithHandlerError,
        Event::Arrived => match kind {
            MiddlewareKind::Before => Action::RunMiddleware,
            MiddlewareKind::After => Action::CallHandler,
        },
        Event::MiddlewarePassed => match kind {
            MiddlewareKind::Before => Action::CallHandler,
            MiddlewareKind::After => Action::Respond,
        },
        Event::HandlerAnswered => match kind {
            MiddlewareKind::Before => Action::Respond,
            MiddlewareKind::After => Action::RunMiddleware,
        },
    }
}

} // verus!
