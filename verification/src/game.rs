//! The game record as it is stored, and the operations on it: setting it up
//! for a player, and counting a click with or without a test of who clicks.

use vstd::prelude::*;
use crate::error::ClickerError;
use crate::identity::{Identity, IDENTITY_BYTES};
use crate::record::Record;

verus! {

/// The record of one player: who the player is, and the clicks counted so far.
///
/// The player is set when the record is initialized and no operation changes
/// it afterwards.
#[derive(Clone, Copy, Debug, PartialEq, Eq)]
pub struct Game {
    player: Identity,
    clicks: u32,
}

impl View for Game {
    type V = Record;

    closed spec fn view(&self) -> Record {
        Record { player: self.player@, clicks: self.clicks as nat }
    }
}

impl Game {
    /// The number of bytes that the fields of a record take when stored: the
    /// player's identity and the counter.
    pub const MAXIMUM_SIZE: usize = 32 + 4;

    /// The record that holds the given player and count.
    pub fn new(player: Identity, clicks: u32) -> (game: Game)
        ensures
            game@ == (Record { player: player@, clicks: clicks as nat }),
    {
        Game { player, clicks }
    }

    /// The player that the record belongs to.
    pub fn player(&self) -> (player: Identity)
        ensures
            player@ == self@.player,
    {
        self.player
    }

    /// The clicks counted so far.
    pub fn clicks(&self) -> (clicks: u32)
        ensures
            clicks == self@.clicks,
    {
        self.clicks
    }

    /// What a stored record holds is always well formed.
    pub proof fn lemma_view_wf(self)
        ensures
            self@.wf(),
    {
        self.player.lemma_length();
    }

    /// A stored record is determined by what it holds: two records with the
    /// same player and the same count are one record.
    pub proof fn lemma_determined_by_view(self, other: Game)
        ensures
            self@ == other@ <==> self == other,
    {
        self.player.lemma_determined_by_bytes(other.player);
    }
}

impl Default for Game {
    /// The record of a slot that nothing has been written to: the player's
    /// bytes are all zero and no clicks are counted.
    fn default() -> (game: Game)
        ensures
            game@ == (Record { player: Seq::new(IDENTITY_BYTES as nat, |i: int| 0u8), clicks: 0 }),
    {
        let game = Game { player: Identity::new([0u8; IDENTITY_BYTES]), clicks: 0 };
        assert(game@.player =~= Seq::new(IDENTITY_BYTES as nat, |i: int| 0u8));
        game
    }
}

/// What `initialize` works on: the slot of the record to set up, and the
/// caller who asks for it. The slot comes from the host, which makes it and
/// refuses to make one that already exists.
#[derive(Clone, Copy, Debug, PartialEq, Eq)]
pub struct Initialize {
    pub game: Game,
    pub player: Identity,
}

/// What a click works on: the record to count on, and the caller who clicks.
#[derive(Clone, Copy, Debug, PartialEq, Eq)]
pub struct Play {
    pub game: Game,
    pub player: Identity,
}

/// Sets up the record in `ctx` for the caller: the caller becomes its player
/// and its counter starts at zero. This never fails, whatever the slot held.
pub fn initialize(ctx: &mut Initialize) -> (res: Result<(), ClickerError>)
    ensures
        res is Ok,
        final(ctx).game@ == Record::created(old(ctx).player@),
        final(ctx).player == old(ctx).player,
{
    ctx.game.player = ctx.player;
    ctx.game.clicks = 0;
    Ok(())
}

/// Counts one click on the record in `ctx` without asking who the caller is:
/// it succeeds for every caller, the record's player or not. Where only the
/// player may click, use [`click_guarded`].
pub fn click(ctx: &mut Play) -> (res: Result<(), ClickerError>)
    ensures
        res is Ok,
        final(ctx).game@ == old(ctx).game@.clicked(),
        final(ctx).player == old(ctx).player,
{
    ctx.game.clicks = ctx.game.clicks.wrapping_add(1);
    Ok(())
}

/// Counts one click on the record in `ctx` if the caller is the record's
/// player. For any other caller it fails with
/// [`ClickerError::InvalidPlayer`] and leaves the record as it was.
pub fn click_guarded(ctx: &mut Play) -> (res: Result<(), ClickerError>)
    ensures
        res is Ok <==> old(ctx).game@.owned_by(old(ctx).player@),
        res is Ok ==> final(ctx).game@ == old(ctx).game@.clicked(),
        res is Err ==> res == Err::<(), ClickerError>(ClickerError::InvalidPlayer),
        res is Err ==> *final(ctx) == *old(ctx),
        final(ctx).player == old(ctx).player,
{
    if ctx.game.player != ctx.player {
        return Err(ClickerError::InvalidPlayer);
    }
    ctx.game.clicks = ctx.game.clicks.wrapping_add(1);
    Ok(())
}

} // verus!
