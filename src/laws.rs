//! What holds of every run of the escrow, stated over the record's model.

use vstd::prelude::*;

use crate::address::Address;
use crate::race::{created, other_than, RaceStatus, RaceView, WagerError};

verus! {

/// Removing `who` from a duplicate-free list keeps it duplicate-free, keeps
/// every other element, and shortens it by one exactly when `who` was there.
pub proof fn lemma_remove_listed(s: Seq<Address>, who: Address)
    requires
        s.no_duplicates(),
    ensures
        s.filter(other_than(who)).no_duplicates(),
        s.filter(other_than(who)).len() == if s.contains(who) {
            s.len() - 1
        } else {
            s.len() as int
        },
        forall|p: Address| #[trigger]
            s.filter(other_than(who)).contains(p) <==> (s.contains(p) && p != who),
    decreases s.len(),
{
    reveal(Seq::filter);
    if s.len() > 0 {
        let d = s.drop_last();
        let l = s.last();
        assert(s == d.push(l));
        assert(d.no_duplicates()) by {
            assert forall|i: int, j: int| 0 <= i < d.len() && 0 <= j < d.len() && i != j implies d[i]
                != d[j] by {
                assert(d[i] == s[i] && d[j] == s[j]);
            }
        }
        assert(!d.contains(l)) by {
            if d.contains(l) {
                let k = choose|k: int| 0 <= k < d.len() && d[k] == l;
                assert(s[k] == s[s.len() - 1]);
            }
        }
        lemma_remove_listed(d, who);
        let fd = d.filter(other_than(who));
        assert forall|p: Address| s.contains(p) <==> (d.contains(p) || p == l) by {
            if s.contains(p) {
                let k = choose|k: int| 0 <= k < s.len() && s[k] == p;
                if k < d.len() {
                    assert(d[k] == p);
                }
            }
            if d.contains(p) {
                let k = choose|k: int| 0 <= k < d.len() && d[k] == p;
                assert(s[k] == p);
            }
        }
        if l != who {
            assert(s.filter(other_than(who)) == fd.push(l));
            assert forall|p: Address| fd.push(l).contains(p) <==> (fd.contains(p) || p == l) by {
                if fd.push(l).contains(p) {
                    let k = choose|k: int| 0 <= k < fd.len() + 1 && fd.push(l)[k] == p;
                    if k < fd.len() {
                        assert(fd[k] == p);
                    }
                }
                if fd.contains(p) {
                    let k = choose|k: int| 0 <= k < fd.len() && fd[k] == p;
                    assert(fd.push(l)[k] == p);
                }
                if p == l {
                    assert(fd.push(l)[fd.len() as int] == p);
                }
            }
            assert(fd.push(l).no_duplicates()) by {
                assert forall|i: int, j: int|
                    0 <= i < fd.len() + 1 && 0 <= j < fd.len() + 1 && i != j implies fd.push(l)[i]
                    != fd.push(l)[j] by {
                    if i < fd.len() && j < fd.len() {
                        assert(fd.push(l)[i] == fd[i] && fd.push(l)[j] == fd[j]);
                    } else if i < fd.len() {
                        assert(fd.contains(fd[i]));
                    } else if j < fd.len() {
                        assert(fd.contains(fd[j]));
                    }
                }
            }
        } else {
            assert(s.filter(other_than(who)) == fd);
        }
        assert forall|p: Address| #[trigger]
            s.filter(other_than(who)).contains(p) <==> (s.contains(p) && p != who) by {
            assert(fd.contains(p) <==> (d.contains(p) && p != who));
            assert(s.contains(p) <==> (d.contains(p) || p == l));
            if l != who {
                assert(fd.push(l).contains(p) <==> (fd.contains(p) || p == l));
            }
        }
    }
}

/// A race is created valid, and every transition that succeeds on a valid
/// race leaves it valid: participants stay unique and within the cap, and a
/// winner is recorded exactly when the race completes, from among the
/// participants of that moment, and never reassigned.
pub proof fn invariant_preserved(
    race: RaceView,
    caller: Address,
    winner: Address,
    lobby_code: Seq<u8>,
    wager_amount: u64,
    token_mint: Address,
    escrow_bump: u8,
    created_at: i64,
)
    requires
        race.wf(),
    ensures
        created(lobby_code, wager_amount, caller, token_mint, escrow_bump, created_at) matches Ok(
            v,
        ) ==> v.wf(),
        race.after_deposit(caller) matches Ok(post) ==> post.wf(),
        race.after_start(caller) matches Ok(post) ==> post.wf(),
        race.after_declare(caller, winner) matches Ok(post) ==> post.wf(),
        race.after_cancel(caller) matches Ok(post) ==> post.wf(),
        race.after_refund(caller) matches Ok(post) ==> post.wf() && post.winner == race.winner,
        race.winner is Some ==> race.after_declare(caller, winner) is Err,
{
    lemma_remove_listed(race.players, caller);
    if let Ok(post) = race.after_deposit(caller) {
        let s = race.players.push(caller);
        assert(post.players == s);
        assert forall|i: int, j: int| 0 <= i < s.len() && 0 <= j < s.len() && i != j implies s[i]
            != s[j] by {
            if i < race.players.len() && j < race.players.len() {
                assert(s[i] == race.players[i] && s[j] == race.players[j]);
            } else if i < race.players.len() {
                assert(race.players.contains(s[i]));
            } else {
                assert(race.players.contains(s[j]));
            }
        }
    }
}

/// Funds are conserved. A vault that holds `escrowed()` before a successful
/// transition holds `escrowed()` after it, once the amount the transition
/// returns has moved: a new race needs an empty vault, a deposit adds one
/// stake, starting and cancelling move nothing, the winner takes the whole
/// pot and leaves the vault empty, and a refund takes one stake, leaving the
/// vault empty once the last participant has been refunded.
pub proof fn fund_conservation(
    race: RaceView,
    caller: Address,
    winner: Address,
    lobby_code: Seq<u8>,
    wager_amount: u64,
    token_mint: Address,
    escrow_bump: u8,
    created_at: i64,
)
    requires
        race.wf(),
    ensures
        created(lobby_code, wager_amount, caller, token_mint, escrow_bump, created_at) matches Ok(
            v,
        ) ==> v.escrowed() == 0,
        race.after_deposit(caller) matches Ok(post) ==> post.escrowed() == race.escrowed()
            + race.wager_amount,
        race.after_start(caller) matches Ok(post) ==> post.escrowed() == race.escrowed(),
        race.after_cancel(caller) matches Ok(post) ==> post.escrowed() == race.escrowed(),
        race.after_declare(caller, winner) matches Ok(post) ==> post.escrowed() == race.escrowed()
            - race.pot() && post.escrowed() == 0,
        race.after_refund(caller) matches Ok(post) ==> post.escrowed() == race.escrowed()
            - race.wager_amount && (post.players.len() == 0 ==> post.escrowed() == 0),
{
    lemma_remove_listed(race.players, caller);
    if let Ok(post) = race.after_deposit(caller) {
        assert(post.players.len() == race.players.len() + 1);
        assert(race.wager_amount * (race.players.len() + 1) == race.wager_amount
            * race.players.len() + race.wager_amount) by (nonlinear_arith);
    }
    if let Ok(post) = race.after_refund(caller) {
        assert(post.players.len() == race.players.len() - 1);
        assert(race.wager_amount * (race.players.len() - 1) == race.wager_amount
            * race.players.len() - race.wager_amount) by (nonlinear_arith);
    }
}

/// Nobody joins twice: after `player` has deposited, their second deposit
/// fails with `AlreadyDeposited`, even when the first one filled the race.
pub proof fn no_double_join(race: RaceView, player: Address)
    requires
        race.after_deposit(player) is Ok,
    ensures
        race.after_deposit(player)->Ok_0.after_deposit(player) == Err::<RaceView, WagerError>(
            WagerError::AlreadyDeposited,
        ),
{
    let post = race.after_deposit(player)->Ok_0;
    assert(post.players[race.players.len() as int] == player);
}

/// Nobody is refunded twice: after `player` has claimed their stake back,
/// their second claim fails with `NotInRace`.
pub proof fn no_double_refund(race: RaceView, player: Address)
    requires
        race.after_refund(player) is Ok,
    ensures
        race.after_refund(player)->Ok_0.after_refund(player) == Err::<RaceView, WagerError>(
            WagerError::NotInRace,
        ),
{
    let post = race.after_refund(player)->Ok_0;
    if post.players.contains(player) {
        let k = choose|k: int| 0 <= k < post.players.len() && post.players[k] == player;
        assert(other_than(player)(post.players[k]));
    }
}

/// Only the host steers the race: a caller other than the host who starts
/// it, declares a winner or cancels it fails with `NotHost`, whatever the
/// race's status.
pub proof fn only_host_steers(race: RaceView, caller: Address, winner: Address)
    requires
        caller != race.host,
    ensures
        race.after_start(caller) == Err::<
            RaceView,
            WagerError,
        >(WagerError::NotHost),
        race.after_cancel(caller) == Err::<
            RaceView,
            WagerError,
        >(WagerError::NotHost),
        race.after_declare(caller, winner) == Err::<
            RaceView,
            WagerError,
        >(WagerError::NotHost),
{
}

/// The pot goes only to a participant: when the host of a running race
/// names a winner who never staked, the declaration fails with
/// `WinnerNotInRace`.
pub proof fn winner_is_participant(race: RaceView, caller: Address, winner: Address)
    requires
        race.status == RaceStatus::Racing,
        caller == race.host,
        !race.players.contains(winner),
    ensures
        race.after_declare(caller, winner) == Err::<RaceView, WagerError>(
            WagerError::WinnerNotInRace,
        ),
{
}

} // verus!
