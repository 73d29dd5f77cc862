use vstd::prelude::*;

verus! {

/// Pseudo-type of a mutable reference to an entity.
/// ```text
/// let mut item: Entity;
/// ```
pub struct MutEntity;

pub struct IntrinsicEntity {
    /// Fetches an entity from a nested macro invocation.
    /// ```text
    /// let mut item: Entity;
    /// sprite!(commands {
    ///     child: sprite! {
    ///         entity: item
    ///     }
    /// })
    /// ```
    pub entity: MutEntity,
}

pub struct ImplBundle;

pub struct IntrinsicExtra {
    /// Adds a bundle to an entity.
    pub extra: ImplBundle,
}

pub struct EntityOrIterator;

pub struct IntrinsicChild {
    /// Adds an entity, `Option<Entity>`,
    /// `IntoIterator<Item = Entity>` or `IntoIterator<Item = &Entity>`
    /// as children.
    pub child: EntityOrIterator,
}

pub struct RoleSignal;

pub struct IntrinsicSignal {
    /// A role signal, either sender or receiver.
    ///
    /// Created by the `sender` and `receiver` functions.
    pub signal: RoleSignal,
}

pub struct AsyncSystem;

pub struct IntrinsicSystem {
    /// An asynchronous system function.
    pub system: AsyncSystem,
}

} // verus!
