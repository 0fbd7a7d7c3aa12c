//! What bots and the player have in common: health and weapons.

use vstd::prelude::*;
use crate::handle::Handle;
use crate::math::count_down;
use crate::math::spec_count_down;
use crate::message::Message;

verus! {

pub struct Character {
    /// Health, in thousandths of a point. At zero or below the character
    /// is dead.
    pub health: i64,
    /// The weapons owned, in the order they were acquired.
    pub weapons: Vec<Handle>,
    /// Which of `weapons` is in hand.
    pub current_weapon: u32,
}

/// One message per weapon, in order: the weapon at `current` is shown,
/// every other is hidden.
pub open spec fn visibility_messages(weapons: Seq<Handle>, current: int) -> Seq<Message> {
    Seq::new(
        weapons.len(),
        |i: int| (Message::ShowWeapon { weapon: weapons[i], state: i == current }),
    )
}

/// `health + amount`, stopping at the greatest representable value.
pub open spec fn spec_healed(health: i64, amount: u32) -> i64 {
    if health + amount <= i64::MAX {
        (health + amount) as i64
    } else {
        i64::MAX
    }
}

impl Character {
    pub fn new(health: i64) -> (r: Character)
        ensures
            r.health == health,
            r.weapons@ == Seq::<Handle>::empty(),
            r.current_weapon == 0,
    {
        Character { health, weapons: Vec::new(), current_weapon: 0 }
    }

    pub open spec fn spec_is_dead(&self) -> bool {
        self.health <= 0
    }

    pub fn is_dead(&self) -> (r: bool)
        ensures
            r == self.spec_is_dead(),
    {
        self.health <= 0
    }

    /// Takes `amount` of health away. Health may fall below zero.
    pub fn damage(&mut self, amount: u32)
        ensures
            final(self).health == spec_count_down(old(self).health, amount),
            final(self).health <= old(self).health,
            final(self).weapons == old(self).weapons,
            final(self).current_weapon == old(self).current_weapon,
    {
        self.health = count_down(self.health, amount);
    }

    /// Gives `amount` of health back.
    pub fn heal(&mut self, amount: u32)
        ensures
            final(self).health == spec_healed(old(self).health, amount),
            final(self).weapons == old(self).weapons,
            final(self).current_weapon == old(self).current_weapon,
    {
        if self.health <= i64::MAX - amount as i64 {
            self.health = self.health + amount as i64;
        } else {
            self.health = i64::MAX;
        }
    }

    /// The weapon in hand; the handle that names nothing while the
    /// character owns no weapon.
    pub open spec fn spec_current_weapon(&self) -> Handle {
        if self.current_weapon < self.weapons@.len() {
            self.weapons@[self.current_weapon as int]
        } else {
            Handle::spec_none()
        }
    }

    pub fn current_weapon(&self) -> (r: Handle)
        ensures
            r == self.spec_current_weapon(),
    {
        if (self.current_weapon as usize) < self.weapons.len() {
            self.weapons[self.current_weapon as usize]
        } else {
            Handle::none()
        }
    }

    fn request_actual_weapon_visible(&self, outbox: &mut Vec<Message>)
        ensures
            final(outbox)@ == old(outbox)@ + visibility_messages(
                self.weapons@,
                self.current_weapon as int,
            ),
    {
        let mut i: usize = 0;
        while i < self.weapons.len()
            invariant
                i <= self.weapons@.len(),
                outbox@ == old(outbox)@ + visibility_messages(
                    self.weapons@,
                    self.current_weapon as int,
                ).take(i as int),
            decreases self.weapons@.len() - i,
        {
            outbox.push(
                Message::ShowWeapon {
                    weapon: self.weapons[i],
                    state: i == self.current_weapon as usize,
                },
            );
            i += 1;
            assert(outbox@ =~= old(outbox)@ + visibility_messages(
                self.weapons@,
                self.current_weapon as int,
            ).take(i as int));
        }
        assert(outbox@ =~= old(outbox)@ + visibility_messages(
            self.weapons@,
            self.current_weapon as int,
        ));
    }

    /// Whether `index` names a weapon that can be taken in hand.
    pub open spec fn can_hold(&self, index: usize) -> bool {
        index < self.weapons@.len() && index <= u32::MAX
    }

    /// Takes the weapon at `index` in hand and asks the level to show it
    /// and hide the others. An index past the last weapon changes nothing.
    pub fn set_current_weapon(&mut self, index: usize, outbox: &mut Vec<Message>)
        ensures
            final(self).health == old(self).health,
            final(self).weapons == old(self).weapons,
            old(self).can_hold(index) ==> final(self).current_weapon == index && final(outbox)@
                == old(outbox)@ + visibility_messages(old(self).weapons@, index as int),
            !old(self).can_hold(index) ==> final(self).current_weapon == old(self).current_weapon
                && final(outbox)@ == old(outbox)@,
    {
        if index < self.weapons.len() && index <= u32::MAX as usize {
            self.current_weapon = index as u32;
            self.request_actual_weapon_visible(outbox);
        }
    }

    /// Whether there is a weapon after the one in hand.
    pub open spec fn has_next_weapon(&self) -> bool {
        self.current_weapon < self.weapons@.len() - 1 && self.current_weapon < u32::MAX
    }

    /// Whether there is a weapon before the one in hand.
    pub open spec fn has_prev_weapon(&self) -> bool {
        self.current_weapon > 0
    }

    /// Takes the next weapon in hand, if there is one.
    pub fn next_weapon(&mut self, outbox: &mut Vec<Message>)
        ensures
            final(self).health == old(self).health,
            final(self).weapons == old(self).weapons,
            old(self).has_next_weapon() ==> final(self).current_weapon == old(self).current_weapon
                + 1 && final(outbox)@ == old(outbox)@ + visibility_messages(
                old(self).weapons@,
                old(self).current_weapon + 1,
            ),
            !old(self).has_next_weapon() ==> final(self).current_weapon == old(
                self,
            ).current_weapon && final(outbox)@ == old(outbox)@,
    {
        if self.weapons.len() > 0 && (self.current_weapon as usize) < self.weapons.len() - 1
            && self.current_weapon < u32::MAX {
            self.current_weapon = self.current_weapon + 1;
            self.request_actual_weapon_visible(outbox);
        }
    }

    /// Takes the previous weapon in hand, if there is one.
    pub fn prev_weapon(&mut self, outbox: &mut Vec<Message>)
        ensures
            final(self).health == old(self).health,
            final(self).weapons == old(self).weapons,
            old(self).has_prev_weapon() ==> final(self).current_weapon == old(self).current_weapon
                - 1 && final(outbox)@ == old(outbox)@ + visibility_messages(
                old(self).weapons@,
                old(self).current_weapon - 1,
            ),
            !old(self).has_prev_weapon() ==> final(self).current_weapon == old(
                self,
            ).current_weapon && final(outbox)@ == old(outbox)@,
    {
        if self.current_weapon > 0 {
            self.current_weapon = self.current_weapon - 1;
            self.request_actual_weapon_visible(outbox);
        }
    }

    /// Adds a weapon after those already owned and takes it in hand.
    pub fn add_weapon(&mut self, weapon: Handle, outbox: &mut Vec<Message>)
        requires
            old(self).weapons@.len() < u32::MAX,
        ensures
            final(self).health == old(self).health,
            final(self).weapons@ == old(self).weapons@.push(weapon),
            final(self).current_weapon == old(self).weapons@.len(),
            final(outbox)@ == old(outbox)@ + visibility_messages(
                old(self).weapons@.push(weapon),
                old(self).weapons@.len() as int,
            ),
    {
        self.current_weapon = self.weapons.len() as u32;
        self.weapons.push(weapon);
        self.request_actual_weapon_visible(outbox);
    }
}

} // verus!
