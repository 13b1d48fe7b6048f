//! Handling one update: what the handler is given, and what follows from what it
//! returned.

use std::ops::ControlFlow;
use std::sync::Arc;

use dptree::di::DependencyMap;
use vstd::prelude::*;

use crate::dependencies::{
    copy_dependencies, dependency_contents, get_dependency, handler_dependencies,
    insert_dependency, remove_dependency, DependencyKind,
};
use crate::types::Update;
use crate::worker::{DefaultHandler, ErrorHandler};

verus! {

/// What a worker has to do after the handler returned.
pub enum Reaction<D, E, Error> {
    /// The update is handled: nothing.
    Handled,
    /// The handler failed: log the error.
    LogError(Error),
    /// The handler failed: hand the error to the error handler.
    HandleError(Arc<E>, Error),
    /// The handler did not take the update: log a warning.
    LogUnhandled(Arc<Update>),
    /// The handler did not take the update: hand it to the default handler.
    HandleUnhandled(Arc<D>, Arc<Update>),
}

/// What a worker with these handlers has to do with an error of the handler.
pub open spec fn error_reaction<D, E, Error>(
    error: Error,
    error_handler: ErrorHandler<E>,
) -> Reaction<D, E, Error> {
    match error_handler {
        ErrorHandler::Logging => Reaction::LogError(error),
        ErrorHandler::Custom(handler) => Reaction::HandleError(handler, error),
    }
}

/// What a worker with these handlers has to do with an update that the handler did
/// not take.
pub open spec fn unhandled_reaction<D, E, Error>(
    update: Update,
    default_handler: DefaultHandler<D>,
) -> Reaction<D, E, Error> {
    match default_handler {
        DefaultHandler::LogWarning => Reaction::LogUnhandled(Arc::new(update)),
        DefaultHandler::Custom(handler) => Reaction::HandleUnhandled(handler, Arc::new(update)),
    }
}

/// What a worker with these handlers has to do after the handler returned `flow`.
pub open spec fn reaction<D, E, Error>(
    flow: ControlFlow<Result<(), Error>, DependencyMap>,
    default_handler: DefaultHandler<D>,
    error_handler: ErrorHandler<E>,
) -> Reaction<D, E, Error> {
    match flow {
        ControlFlow::Break(Ok(_)) => Reaction::Handled,
        ControlFlow::Break(Err(error)) => error_reaction(error, error_handler),
        ControlFlow::Continue(deps) => unhandled_reaction(
            dependency_contents(deps)[DependencyKind::Update]->Update_0,
            default_handler,
        ),
    }
}

/// If the handler passed its dependencies on, then they still hold an update.
pub open spec fn keeps_update<Error>(
    flow: ControlFlow<Result<(), Error>, DependencyMap>,
) -> bool {
    flow matches ControlFlow::Continue(deps) ==> dependency_contents(deps).contains_key(
        DependencyKind::Update,
    )
}

/// Prepares the handling of `update` by a worker with the dependencies `deps`:
/// returns what its handler is to be given.
pub fn handle_update(update: Update, deps: &DependencyMap) -> (given: DependencyMap)
    ensures
        dependency_contents(given) == handler_dependencies(dependency_contents(*deps), update),
{
    let mut given = copy_dependencies(deps);
    insert_dependency(&mut given, update);
    given
}

/// Finishes the handling of an update, by what the handler returned: it broke off,
/// with success or with an error, or it passed its dependencies on because it did
/// not take the update.
pub fn after_dispatch<D, E, Error>(
    flow: ControlFlow<Result<(), Error>, DependencyMap>,
    default_handler: &DefaultHandler<D>,
    error_handler: &ErrorHandler<E>,
) -> (r: Reaction<D, E, Error>)
    requires
        keeps_update(flow),
    ensures
        r == reaction(flow, *default_handler, *error_handler),
{
    match flow {
        ControlFlow::Break(Ok(())) => Reaction::Handled,
        ControlFlow::Break(Err(error)) => match error_handler {
            ErrorHandler::Logging => Reaction::LogError(error),
            ErrorHandler::Custom(handler) => Reaction::HandleError(Arc::clone(handler), error),
        },
        ControlFlow::Continue(deps) => {
            let update = get_dependency::<Update>(&deps);
            match default_handler {
                DefaultHandler::LogWarning => Reaction::LogUnhandled(update),
                DefaultHandler::Custom(handler) => {
                    Reaction::HandleUnhandled(Arc::clone(handler), update)
                },
            }
        },
    }
}

/// Finishes the handling of an update as [`after_dispatch`] does, unless the
/// handler passed on dependencies that do not hold an update any more.
pub fn try_after_dispatch<D, E, Error>(
    flow: ControlFlow<Result<(), Error>, DependencyMap>,
    default_handler: &DefaultHandler<D>,
    error_handler: &ErrorHandler<E>,
) -> (r: Option<Reaction<D, E, Error>>)
    ensures
        r == (if keeps_update(flow) {
            Some(reaction(flow, *default_handler, *error_handler))
        } else {
            None
        }),
{
    match flow {
        ControlFlow::Continue(deps) => {
            let mut rest = copy_dependencies(&deps);
            match remove_dependency::<Update>(&mut rest) {
                Some(_) => Some(
                    after_dispatch(ControlFlow::Continue(deps), default_handler, error_handler),
                ),
                None => None,
            }
        },
        flow => Some(after_dispatch(flow, default_handler, error_handler)),
    }
}

} // verus!
