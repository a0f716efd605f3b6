//! What a collision destroys: of two entities that start to touch, each one
//! that is marked destructible is taken away, and nothing else ever is.

use vstd::prelude::*;

verus! {

/// What the physics reports of two entities, each named by a number.
#[derive(Clone, Copy, Debug, PartialEq, Eq, Structural)]
pub enum Contact {
    /// The two have started to touch.
    Started(u64, u64),
    /// The two have stopped touching.
    Stopped(u64, u64),
}

impl Contact {
    /// This is the start of a contact, and `entity` is one of the two.
    pub open spec fn starts_on(self, entity: u64) -> bool {
        self matches Contact::Started(first, second) && (first == entity || second == entity)
    }

    /// The entities that this contact takes away, in the order in which it
    /// names them, where `destructible` are the entities marked destructible.
    pub open spec fn removals(self, destructible: Set<u64>) -> Seq<u64> {
        match self {
            Contact::Started(first, second) => {
                let of_first = if destructible.contains(first) {
                    seq![first]
                } else {
                    Seq::empty()
                };
                let of_second = if destructible.contains(second) {
                    seq![second]
                } else {
                    Seq::empty()
                };
                of_first + of_second
            },
            Contact::Stopped(_, _) => Seq::empty(),
        }
    }
}

/// The entities that `contacts` take away, contact by contact. An entity
/// that several contacts take away is named once for each.
pub open spec fn removals(contacts: Seq<Contact>, destructible: Set<u64>) -> Seq<u64>
    decreases contacts.len(),
{
    if contacts.len() == 0 {
        Seq::empty()
    } else {
        removals(contacts.drop_last(), destructible) + contacts.last().removals(destructible)
    }
}

/// Says which entities the contacts of one frame take away, where
/// `destructible` lists the entities marked destructible.
pub fn laser_destroy(contacts: &Vec<Contact>, destructible: &Vec<u64>) -> (removed: Vec<u64>)
    ensures
        removed@ == removals(contacts@, destructible@.to_set()),
        forall|entity: u64|
            removed@.contains(entity) <==> destructible@.contains(entity) && exists|i: int|
                0 <= i < contacts@.len() && (#[trigger] contacts@[i]).starts_on(entity),
{
    let mut removed: Vec<u64> = Vec::new();
    let mut done: usize = 0;
    while done < contacts.len()
        invariant
            done <= contacts.len(),
            removed@ == removals(contacts@.take(done as int), destructible@.to_set()),
        decreases contacts.len() - done,
    {
        proof {
            assert(contacts@.take(done + 1).drop_last() =~= contacts@.take(done as int));
        }
        match contacts[done] {
            Contact::Started(first, second) => {
                if is_destructible(destructible, first) {
                    removed.push(first);
                }
                if is_destructible(destructible, second) {
                    removed.push(second);
                }
            },
            Contact::Stopped(_, _) => {},
        }
        proof {
            let so_far = removals(contacts@.take(done as int), destructible@.to_set());
            let these = contacts@[done as int].removals(destructible@.to_set());
            assert(removed@ =~= so_far + these);
        }
        done += 1;
    }
    proof {
        assert(contacts@.take(done as int) =~= contacts@);
        assert forall|entity: u64|
            removed@.contains(entity) <==> destructible@.contains(entity) && exists|i: int|
                0 <= i < contacts@.len() && (#[trigger] contacts@[i]).starts_on(entity) by {
            lemma_removed_exactly_when_hit(contacts@, destructible@.to_set(), entity);
        }
    }
    removed
}

/// Whether `entity` is among `destructible`.
fn is_destructible(destructible: &Vec<u64>, entity: u64) -> (found: bool)
    ensures
        found == destructible@.to_set().contains(entity),
{
    let mut seen: usize = 0;
    while seen < destructible.len()
        invariant
            seen <= destructible.len(),
            forall|i: int| 0 <= i < seen ==> destructible@[i] != entity,
        decreases destructible.len() - seen,
    {
        if destructible[seen] == entity {
            return true;
        }
        seen += 1;
    }
    false
}

/// An entity is taken away exactly when it is marked destructible and one of
/// the contacts is the start of a contact that it is part of.
pub proof fn lemma_removed_exactly_when_hit(
    contacts: Seq<Contact>,
    destructible: Set<u64>,
    entity: u64,
)
    ensures
        removals(contacts, destructible).contains(entity) <==> destructible.contains(entity) && exists|
            i: int,
        |
            0 <= i < contacts.len() && (#[trigger] contacts[i]).starts_on(entity),
    decreases contacts.len(),
{
    if contacts.len() > 0 {
        let earlier = contacts.drop_last();
        let before = removals(earlier, destructible);
        let these = contacts.last().removals(destructible);
        lemma_removed_exactly_when_hit(earlier, destructible, entity);
        if before.contains(entity) {
            let at = choose|at: int| 0 <= at < before.len() && before[at] == entity;
            assert((before + these)[at] == entity);
            let i = choose|i: int| 0 <= i < earlier.len() && (#[trigger] earlier[i]).starts_on(entity);
            assert(contacts[i].starts_on(entity));
        }
        if these.contains(entity) {
            let at = choose|at: int| 0 <= at < these.len() && these[at] == entity;
            assert((before + these)[before.len() + at] == entity);
            assert(contacts[contacts.len() - 1].starts_on(entity));
        }
        if destructible.contains(entity) && contacts.last().starts_on(entity) {
            assert(these[0] == entity || these[these.len() - 1] == entity);
        }
        if (before + these).contains(entity) {
            let at = choose|at: int| 0 <= at < (before + these).len() && (before + these)[at] == entity;
            assert(at < before.len() ==> before[at] == entity);
            assert(at >= before.len() ==> these[at - before.len()] == entity);
        }
        if exists|i: int| 0 <= i < contacts.len() && (#[trigger] contacts[i]).starts_on(entity) {
            let i = choose|i: int| 0 <= i < contacts.len() && (#[trigger] contacts[i]).starts_on(entity);
            assert(i < earlier.len() ==> earlier[i].starts_on(entity));
        }
    }
}

} // verus!
