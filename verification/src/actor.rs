//! Actors: bots and the player.

use vstd::prelude::*;
use crate::bot::targeting::Target;
use crate::bot::Bot;
use crate::character::{spec_healed, visibility_messages, Character};
use crate::container::Container;
use crate::handle::Handle;
use crate::math::{spec_count_down, Vector3};
use crate::message::Message;
use crate::player::Player;

verus! {

/// Anything that lives in a level.
pub enum Actor {
    Bot(Bot),
    Player(Player),
}

impl Actor {
    pub open spec fn wf(&self) -> bool {
        match self {
            Actor::Bot(bot) => bot.wf(),
            Actor::Player(player) => player.wf(),
        }
    }

    pub fn is_wf(&self) -> (r: bool)
        ensures
            r == self.wf(),
    {
        match self {
            Actor::Bot(bot) => bot.is_wf(),
            Actor::Player(player) => player.is_wf(),
        }
    }

    pub open spec fn spec_character(&self) -> Character {
        match self {
            Actor::Bot(bot) => bot.character,
            Actor::Player(player) => player.character,
        }
    }

    /// What bots and the player have in common.
    pub fn character(&self) -> (r: &Character)
        ensures
            *r == self.spec_character(),
    {
        match self {
            Actor::Bot(bot) => &bot.character,
            Actor::Player(player) => &player.character,
        }
    }

    pub fn is_dead(&self) -> (r: bool)
        ensures
            r == (self.spec_character().health <= 0),
    {
        self.character().is_dead()
    }

    /// The actor with another character.
    pub open spec fn with_character(self, character: Character) -> Actor {
        match self {
            Actor::Bot(bot) => Actor::Bot(Bot { character, ..bot }),
            Actor::Player(player) => Actor::Player(Player { character, ..player }),
        }
    }

    /// The actor with another health.
    pub open spec fn with_health(self, health: i64) -> Actor {
        self.with_character(Character { health, ..self.spec_character() })
    }

    /// Takes `amount` of health away.
    pub fn damage(&mut self, amount: u32)
        ensures
            *final(self) == old(self).with_health(
                spec_count_down(old(self).spec_character().health, amount),
            ),
    {
        match self {
            Actor::Bot(bot) => {
                bot.character.damage(amount);
            },
            Actor::Player(player) => {
                player.character.damage(amount);
            },
        }
    }

    /// Gives `amount` of health back.
    pub fn heal(&mut self, amount: u32)
        ensures
            *final(self) == old(self).with_health(
                spec_healed(old(self).spec_character().health, amount),
            ),
    {
        match self {
            Actor::Bot(bot) => {
                bot.character.heal(amount);
            },
            Actor::Player(player) => {
                player.character.heal(amount);
            },
        }
    }

    /// Gives the actor a weapon, which it takes in hand, and asks the
    /// level to show that weapon and hide the others.
    pub fn add_weapon(&mut self, weapon: Handle, outbox: &mut Vec<Message>)
        requires
            old(self).spec_character().weapons@.len() < u32::MAX,
            old(self).wf(),
        ensures
            final(self).wf(),
            final(self).spec_character().health == old(self).spec_character().health,
            final(self).spec_character().weapons@ == old(self).spec_character().weapons@.push(
                weapon,
            ),
            final(self).spec_character().current_weapon == old(self).spec_character().weapons@.len(),
            *final(self) == old(self).with_character(final(self).spec_character()),
            final(outbox)@ == old(outbox)@ + visibility_messages(
                old(self).spec_character().weapons@.push(weapon),
                old(self).spec_character().weapons@.len() as int,
            ),
    {
        match self {
            Actor::Bot(bot) => {
                bot.character.add_weapon(weapon, outbox);
            },
            Actor::Player(player) => {
                player.character.add_weapon(weapon, outbox);
            },
        }
    }

    /// The actor after it has learnt where harm came from: a bot goes
    /// there, the player does as it pleases.
    pub open spec fn alerted(self, own_handle: Handle, position: Vector3) -> Actor {
        match self {
            Actor::Bot(bot) => Actor::Bot(
                Bot { target: Some(Target { position, handle: own_handle }), ..bot },
            ),
            Actor::Player(player) => self,
        }
    }

    /// Tells the actor where harm came from.
    pub fn alert(&mut self, own_handle: Handle, position: Vector3)
        ensures
            *final(self) == old(self).alerted(own_handle, position),
    {
        match self {
            Actor::Bot(bot) => {
                bot.set_target(own_handle, position);
            },
            Actor::Player(_) => {},
        }
    }

    /// The actor after another has left the level: a bot that was after
    /// the other forgets it.
    pub open spec fn without_target(self, removed: Handle) -> Actor {
        match self {
            Actor::Bot(bot) => Actor::Bot(
                Bot {
                    target: match bot.target {
                        Some(t) if t.handle == removed => None,
                        other => other,
                    },
                    ..bot
                },
            ),
            Actor::Player(player) => self,
        }
    }

    /// Tells the actor that another has left the level.
    pub fn on_actor_removed(&mut self, removed: Handle)
        ensures
            *final(self) == old(self).without_target(removed),
    {
        match self {
            Actor::Bot(bot) => {
                bot.on_actor_removed(removed);
            },
            Actor::Player(_) => {},
        }
    }
}

/// The actors of a level.
pub type ActorContainer = Container<Actor>;

} // verus!
