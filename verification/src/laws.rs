//! What holds of every record, whichever calls it has been through.
//!
//! The operations on a stored record state their effect on what the record
//! holds by `Record::created` and `Record::clicked`; the laws below are about
//! those two steps and follow a record through any number of them.

use vstd::prelude::*;
use crate::identity::Identity;
use crate::record::{counter_modulus, Record};

verus! {

/// A record that is set up for a caller and then clicked on once counts one
/// click and belongs to that caller. The caller also passes the ownership
/// test, so the first click goes through whether or not the test is made.
pub proof fn law_first_click(caller: Identity)
    ensures
        Record::created(caller@).owned_by(caller@),
        Record::created(caller@).clicked() == (Record { player: caller@, clicks: 1 }),
{
}

/// One click keeps a well-formed record well formed, keeps its player, and
/// moves its counter to the next value, which after the largest is zero.
pub proof fn law_click_steps(record: Record)
    requires
        record.wf(),
    ensures
        record.clicked().wf(),
        record.clicked().player == record.player,
        record.clicks + 1 < counter_modulus() ==> record.clicked().clicks == record.clicks + 1,
        record.clicks + 1 == counter_modulus() ==> record.clicked().clicks == 0,
{
}

/// After `n` clicks a record still has its player, and its counter is what it
/// was plus `n`, counted modulo `counter_modulus()`.
pub proof fn law_clicks_add_up(start: Record, n: nat)
    requires
        start.wf(),
    ensures
        start.clicked_times(n).wf(),
        start.clicked_times(n).player == start.player,
        start.clicked_times(n).clicks == (start.clicks + n) % counter_modulus(),
    decreases n,
{
    if n > 0 {
        let before = start.clicked_times((n - 1) as nat);
        law_clicks_add_up(start, (n - 1) as nat);
        law_click_steps(before);
        assert(start.clicked_times(n) == before.clicked());
    }
}

/// `n` clicks on a record that has just been set up for a caller leave it
/// with that caller as its player and with `n` clicks, counted modulo
/// `counter_modulus()`.
pub proof fn law_clicks_since_created(caller: Identity, n: nat)
    ensures
        Record::created(caller@).clicked_times(n).player == caller@,
        Record::created(caller@).clicked_times(n).clicks == n % counter_modulus(),
{
    caller.lemma_length();
    law_clicks_add_up(Record::created(caller@), n);
}

} // verus!
