//! A place that holds at most one value for a thread, and guards that put the previous one back.
//!
//! The host bridge of an invocation and the entry signal of a spinning program are installed in
//! such slots.
use vstd::prelude::*;

verus! {

/// What is installed on this thread, if anything is.
pub struct Slot<T> {
    current: Option<T>,
}

impl<T> View for Slot<T> {
    type V = Option<T>;

    closed spec fn view(&self) -> Option<T> {
        self.current
    }
}

/// Holds what was installed before.
pub struct SlotGuard<T> {
    previous: Option<T>,
}

impl<T> View for SlotGuard<T> {
    type V = Option<T>;

    closed spec fn view(&self) -> Option<T> {
        self.previous
    }
}

impl<T> Slot<T> {
    /// A slot in which nothing is installed.
    pub fn new() -> (slot: Self)
        ensures
            slot@ is None,
    {
        Slot { current: None }
    }

    /// Installs a value and remembers the previous one.
    pub fn install(&mut self, value: T) -> (guard: SlotGuard<T>)
        ensures
            final(self)@ == Some(value),
            guard@ == old(self)@,
    {
        let previous = self.current.take();
        self.current = Some(value);
        SlotGuard { previous }
    }

    /// Puts back what was installed before the guard.
    pub fn restore(&mut self, guard: SlotGuard<T>)
        ensures
            final(self)@ == guard@,
    {
        self.current = guard.previous;
    }

    /// What is installed.
    pub fn current(&self) -> (current: Option<&T>)
        ensures
            current is Some <==> self@ is Some,
            current matches Some(current) ==> *current == self@->0,
    {
        match &self.current {
            Some(current) => Some(current),
            None => None,
        }
    }

    /// Whether anything is installed.
    pub fn is_installed(&self) -> (installed: bool)
        ensures
            installed == (self@ is Some),
    {
        self.current.is_some()
    }
}

/// The slot holds `current` after values have been installed one inside the other on a slot that
/// held `before`. Each is paired with what its guard holds; the first was installed first.
pub open spec fn nested<T>(
    before: Option<T>,
    installed: Seq<(T, Option<T>)>,
    current: Option<T>,
) -> bool
    decreases installed.len(),
{
    if installed.len() == 0 {
        current == before
    } else {
        current == Some(installed.last().0) && nested(
            before,
            installed.drop_last(),
            installed.last().1,
        )
    }
}

/// Installing a value nests it inside those that are installed.
pub proof fn law_installing_nests<T>(
    before: Option<T>,
    installed: Seq<(T, Option<T>)>,
    current: Option<T>,
    value: T,
)
    requires
        nested(before, installed, current),
    ensures
        nested(before, installed.push((value, current)), Some(value)),
{
    assert(installed.push((value, current)).drop_last() == installed);
}

/// Restoring the guard that was taken last brings back the value around it, and the guard that
/// was taken first what the slot held before all of them.
pub proof fn law_restoring_unnests<T>(
    before: Option<T>,
    installed: Seq<(T, Option<T>)>,
    current: Option<T>,
)
    requires
        installed.len() > 0,
        nested(before, installed, current),
    ensures
        nested(before, installed.drop_last(), installed.last().1),
        installed.len() == 1 ==> installed.last().1 == before,
        installed.len() > 1 ==> installed.last().1 == Some(installed[installed.len() - 2].0),
{
    reveal_with_fuel(nested, 3);
}

} // verus!
