//! The player at this machine and the record of the games played.

use vstd::prelude::*;

verus! {

/// Whether an animation asks for the screen to be drawn again.
pub struct AnimationResponse {
    pub repaint: bool,
}

impl AnimationResponse {
    /// Nothing to draw again.
    pub fn new() -> (response: AnimationResponse)
        ensures
            !response.repaint,
    {
        Self { repaint: false }
    }
}

/// Which of the two cursors are on a square.
pub struct CursorContext {
    pub black: bool,
    pub white: bool,
}

/// What is known of a player who gave a name.
pub struct PrivateUser {
    name: String,
}

/// Games won, lost and played. Won and lost games together never exceed the
/// games played; the rest were ties.
pub struct Achievement {
    winning_games: usize,
    losing_games: usize,
    total_games: usize,
}

/// The player at this machine.
pub struct User {
    private: Option<PrivateUser>,
    achievement: Achievement,
}

impl PrivateUser {
    /// The name the player gave.
    pub closed spec fn text(self) -> Seq<char> {
        self.name@
    }

    /// A player called `name`.
    pub fn new(name: String) -> (user: PrivateUser)
        ensures
            user.text() == name@,
    {
        PrivateUser { name }
    }
}

impl User {
    /// The name the player gave, if any.
    pub closed spec fn given_name(self) -> Option<Seq<char>> {
        match self.private {
            Some(p) => Some(p.text()),
            None => None,
        }
    }

    /// The record of the player's games.
    pub closed spec fn record(self) -> Achievement {
        self.achievement
    }

    /// The name to show: the one the player gave, or a word for a player
    /// without a name.
    pub fn name(&self) -> (name: &str)
        ensures
            name@ == match self.given_name() {
                Some(given) => given,
                None => "匿名用户"@,
            },
    {
        match self.private {
            Some(ref p) => p.name.as_str(),
            None => "匿名用户",
        }
    }

    /// A player who gave a name and has played no game.
    pub fn create_with_name(private: PrivateUser) -> (user: User)
        ensures
            user.given_name() == Some(private.text()),
            user.record().played() == 0,
            user.record().won() == 0,
            user.record().lost() == 0,
    {
        User { private: Some(private), achievement: Achievement::default() }
    }

    /// A player without a name who has played no game.
    pub fn create_with_null() -> (user: User)
        ensures
            user.given_name() is None,
            user.record().played() == 0,
            user.record().won() == 0,
            user.record().lost() == 0,
    {
        User { private: None, achievement: Achievement::default() }
    }

    /// The record of the player's games.
    pub fn achievement(&self) -> (record: &Achievement)
        ensures
            *record == self.record(),
    {
        &self.achievement
    }

    /// The record of the player's games, to count a game in.
    pub fn achievement_mut(&mut self) -> (record: &mut Achievement)
        ensures
            *record == old(self).record(),
            final(self).record() == *final(record),
            final(self).given_name() == old(self).given_name(),
    {
        &mut self.achievement
    }
}

impl Default for Achievement {
    /// No game played.
    fn default() -> (record: Achievement)
        ensures
            record.played() == 0,
            record.won() == 0,
            record.lost() == 0,
    {
        Self { winning_games: 0, losing_games: 0, total_games: 0 }
    }
}

impl Achievement {
    /// Games played.
    pub closed spec fn played(self) -> nat {
        self.total_games as nat
    }

    /// Games won.
    pub closed spec fn won(self) -> nat {
        self.winning_games as nat
    }

    /// Games lost.
    pub closed spec fn lost(self) -> nat {
        self.losing_games as nat
    }

    /// Won and lost games are among the games played.
    #[verifier::type_invariant]
    pub open spec fn wf(self) -> bool {
        self.won() + self.lost() <= self.played()
    }

    /// Games played.
    pub fn total_games(&self) -> (n: usize)
        ensures
            n == self.played(),
    {
        self.total_games
    }

    /// Games won.
    pub fn winning_games(&self) -> (n: usize)
        ensures
            n == self.won(),
            n <= self.played(),
    {
        proof {
            use_type_invariant(self);
        }
        self.winning_games
    }

    /// Games lost.
    pub fn losing_games(&self) -> (n: usize)
        ensures
            n == self.lost(),
            n <= self.played(),
    {
        proof {
            use_type_invariant(self);
        }
        self.losing_games
    }

    /// Counts a game won.
    pub fn win(&mut self)
        requires
            old(self).played() < usize::MAX,
        ensures
            final(self).played() == old(self).played() + 1,
            final(self).won() == old(self).won() + 1,
            final(self).lost() == old(self).lost(),
    {
        proof {
            use_type_invariant(&*self);
        }
        self.total_games += 1;
        self.winning_games += 1;
    }

    /// Counts a game lost.
    pub fn loss(&mut self)
        requires
            old(self).played() < usize::MAX,
        ensures
            final(self).played() == old(self).played() + 1,
            final(self).won() == old(self).won(),
            final(self).lost() == old(self).lost() + 1,
    {
        proof {
            use_type_invariant(&*self);
        }
        self.total_games += 1;
        self.losing_games += 1;
    }

    /// Counts a game that nobody won.
    pub fn tie(&mut self)
        requires
            old(self).played() < usize::MAX,
        ensures
            final(self).played() == old(self).played() + 1,
            final(self).won() == old(self).won(),
            final(self).lost() == old(self).lost(),
    {
        proof {
            use_type_invariant(&*self);
        }
        self.total_games += 1;
    }
}

} // verus!
