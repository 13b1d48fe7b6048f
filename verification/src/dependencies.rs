//! The dependencies that a handler can ask for, held in a [`DependencyMap`].

use std::sync::Arc;

use dptree::di::{DependencyMap, DependencySupplier};
use vstd::prelude::*;

use crate::types::{Bot, Me, Update};

verus! {

/// The dependency container of `dptree`: at most one value of each type.
#[verifier::external_type_specification]
#[verifier::external_body]
pub struct ExDependencyMap(DependencyMap);

/// The type of a dependency. The types that the dispatcher itself supplies have
/// names; all others are numbered, in some way that gives each its own number.
pub enum DependencyKind {
    Bot,
    Me,
    Update,
    Other(int),
}

/// A value in a dependency container. The values of other types than the
/// dispatcher's are numbered, in some way that gives each its own number.
pub enum Dependency {
    Bot(Bot),
    Me(Me),
    Update(Update),
    Other(int),
}

/// What a dependency container holds: the value of each type in it.
pub uninterp spec fn dependency_contents(deps: DependencyMap) -> Map<DependencyKind, Dependency>;

/// The dependencies of a round of dispatching: those that were passed to the
/// dispatcher, with `me` and the bot.
pub open spec fn session_dependencies(
    passed: Map<DependencyKind, Dependency>,
    me: Me,
    bot: Bot,
) -> Map<DependencyKind, Dependency> {
    passed.insert(DependencyKind::Me, Dependency::Me(me)).insert(
        DependencyKind::Bot,
        Dependency::Bot(bot),
    )
}

/// What a handler is given: the dependencies of the round of dispatching, with the
/// update.
pub open spec fn handler_dependencies(
    session: Map<DependencyKind, Dependency>,
    update: Update,
) -> Map<DependencyKind, Dependency> {
    session.insert(DependencyKind::Update, Dependency::Update(update))
}

/// A type of values that the dispatcher itself puts into a container. Each type that
/// implements it has a kind of its own, which no other type has: a container holds a
/// value of each type apart, and the contracts below are true only then.
pub(crate) trait Supplied: Sized + Send + Sync + 'static {
    /// The name of the type.
    spec fn kind() -> DependencyKind;

    /// The value as a container holds it.
    spec fn supplied(self) -> Dependency;
}

impl Supplied for Bot {
    open spec fn kind() -> DependencyKind {
        DependencyKind::Bot
    }

    open spec fn supplied(self) -> Dependency {
        Dependency::Bot(self)
    }
}

impl Supplied for Me {
    open spec fn kind() -> DependencyKind {
        DependencyKind::Me
    }

    open spec fn supplied(self) -> Dependency {
        Dependency::Me(self)
    }
}

impl Supplied for Update {
    open spec fn kind() -> DependencyKind {
        DependencyKind::Update
    }

    open spec fn supplied(self) -> Dependency {
        Dependency::Update(self)
    }
}

/// Calls [`DependencyMap::new`]: the new container is empty.
#[verifier::external_body]
pub(crate) fn no_dependencies() -> (deps: DependencyMap)
    ensures
        dependency_contents(deps) == (Map::<DependencyKind, Dependency>::empty()),
{
    DependencyMap::new()
}

/// Calls `clone` of [`DependencyMap`]: the copy holds the same values.
#[verifier::external_body]
pub(crate) fn copy_dependencies(deps: &DependencyMap) -> (copy: DependencyMap)
    ensures
        dependency_contents(copy) == dependency_contents(*deps),
{
    deps.clone()
}

/// Calls [`DependencyMap::insert`]: afterwards the container holds `item` as its
/// value of that type, in place of an earlier one; the values of all other types
/// stay as they were.
#[verifier::external_body]
pub(crate) fn insert_dependency<T: Supplied>(deps: &mut DependencyMap, item: T)
    ensures
        dependency_contents(*final(deps)) == dependency_contents(*old(deps)).insert(
            T::kind(),
            item.supplied(),
        ),
{
    deps.insert(item);
}

/// Calls `get` of [`DependencySupplier`] on the container: it returns the value
/// that the container holds of that type. Without one the call panics, so there
/// has to be one.
#[verifier::external_body]
pub(crate) fn get_dependency<T: Supplied>(deps: &DependencyMap) -> (item: Arc<T>)
    requires
        dependency_contents(*deps).contains_key(T::kind()),
    ensures
        (*item).supplied() == dependency_contents(*deps)[T::kind()],
{
    deps.get()
}

/// Calls [`DependencyMap::remove`]: it takes the value of that type out of the
/// container and returns it, where there is one; the values of all other types
/// stay as they were.
#[verifier::external_body]
pub(crate) fn remove_dependency<T: Supplied>(deps: &mut DependencyMap) -> (item: Option<Arc<T>>)
    ensures
        dependency_contents(*final(deps)) == dependency_contents(*old(deps)).remove(T::kind()),
        item is Some <==> dependency_contents(*old(deps)).contains_key(T::kind()),
        item is Some ==> (*item->0).supplied() == dependency_contents(*old(deps))[T::kind()],
{
    deps.remove::<T>()
}

} // verus!
