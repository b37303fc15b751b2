//! What the proof-of-tangible-work pallet's operations keep and guarantee.

use vstd::prelude::*;
use crate::encoding::spec_payload_key;
use crate::origin::{AccountId, Balance};
use crate::potw::{
    new_board, reward_calls, spec_genesis, spec_insert_task, spec_register, spec_register_all,
    BoardInfo, Currency, CurrencyCall, Error, Event, PalletView, TaskView,
};

verus! {

/// The first registration of a member wins: registering it again is refused
/// with `DuplicateMember` and changes nothing, so its board keeps the first
/// balance.
pub proof fn law_first_registration_wins(s: PalletView, member: AccountId, first: Balance, second: Balance)
    requires
        !s.scoreboard.contains_key(member),
    ensures
        ({
            let (once, r1) = spec_register(s, member, first);
            let (twice, r2) = spec_register(once, member, second);
            &&& r1 is Ok
            &&& r2 == Err::<(), Error>(Error::DuplicateMember)
            &&& twice == once
            &&& twice.scoreboard[member] == new_board(member, first)
        }),
{
}

/// Registering a member leaves every other member's board as it was, and
/// the tasks and the reports too.
pub proof fn law_registration_touches_one_board(s: PalletView, member: AccountId, balance: Balance, other: AccountId)
    requires
        other != member,
    ensures
        spec_register(s, member, balance).0.scoreboard.contains_key(other)
            == s.scoreboard.contains_key(other),
        spec_register(s, member, balance).0.scoreboard[other] == s.scoreboard[other],
        spec_register(s, member, balance).0.tasks == s.tasks,
        spec_register(s, member, balance).0.events == s.events,
{
}

/// Creating the same task twice stores what creating it once stores: the
/// identifier depends on the owner and the description alone. Only the
/// report is repeated.
pub proof fn law_task_creation_is_idempotent(s: PalletView, owner: AccountId, description: Seq<u8>)
    ensures
        ({
            let id = spec_payload_key(owner, description);
            let once = spec_insert_task(s, owner, description, id);
            let twice = spec_insert_task(once, owner, description, id);
            &&& twice.tasks == once.tasks
            &&& twice.scoreboard == s.scoreboard
            &&& twice.events == once.events.push(Event::NewTaskCreated { owner, credit: None })
        }),
{
    let id = spec_payload_key(owner, description);
    let once = spec_insert_task(s, owner, description, id);
    let twice = spec_insert_task(once, owner, description, id);
    assert(twice.tasks =~= once.tasks);
}

/// After registering a list of members, a member is on the scoreboard
/// exactly when it was before or is listed.
pub proof fn law_registered_members(s: PalletView, members: Seq<(AccountId, Balance)>, m: AccountId)
    ensures
        spec_register_all(s, members).scoreboard.contains_key(m) <==> (s.scoreboard.contains_key(m)
            || exists|j: int| 0 <= j < members.len() && members[j].0 == m),
    decreases members.len(),
{
    if members.len() > 0 {
        let rest = members.drop_last();
        law_registered_members(s, rest, m);
        if exists|j: int| 0 <= j < members.len() && members[j].0 == m {
            let j = choose|j: int| 0 <= j < members.len() && members[j].0 == m;
            if j < members.len() - 1 {
                assert(rest[j].0 == m);
            }
        }
        if exists|j: int| 0 <= j < rest.len() && rest[j].0 == m {
            let j = choose|j: int| 0 <= j < rest.len() && rest[j].0 == m;
            assert(members[j].0 == m);
        }
    }
}

/// Registering a list of members on a board without them gives each member
/// the balance of its first listing.
pub proof fn law_first_listing_wins(s: PalletView, members: Seq<(AccountId, Balance)>, i: int)
    requires
        0 <= i < members.len(),
        !s.scoreboard.contains_key(members[i].0),
        forall|j: int| 0 <= j < i ==> members[j].0 != members[i].0,
    ensures
        spec_register_all(s, members).scoreboard.contains_key(members[i].0),
        spec_register_all(s, members).scoreboard[members[i].0] == new_board(members[i].0, members[i].1),
    decreases members.len(),
{
    let rest = members.drop_last();
    if i < members.len() - 1 {
        assert(rest[i] == members[i]);
        law_first_listing_wins(s, rest, i);
    } else {
        law_registered_members(s, rest, members[i].0);
        assert(!exists|j: int| 0 <= j < rest.len() && rest[j].0 == members[i].0) by {
            if exists|j: int| 0 <= j < rest.len() && rest[j].0 == members[i].0 {
                let j = choose|j: int| 0 <= j < rest.len() && rest[j].0 == members[i].0;
                assert(members[j].0 == members[i].0);
            }
        }
    }
}

/// At genesis, every initial member is on the scoreboard, with the balance of
/// its first listing, no score and no task credit.
pub proof fn law_genesis_registers_members(members: Seq<(AccountId, Balance)>, i: int)
    requires
        0 <= i < members.len(),
        forall|j: int| 0 <= j < i ==> members[j].0 != members[i].0,
    ensures
        spec_register_all(spec_genesis(), members).scoreboard.contains_key(members[i].0),
        spec_register_all(spec_genesis(), members).scoreboard[members[i].0] == new_board(
            members[i].0,
            members[i].1,
        ),
{
    law_first_listing_wins(spec_genesis(), members, i);
}

/// Creating a task stores a new open task, with no credit, of its owner and
/// description under its identifier, and reports it with no credit; every
/// task stored under another identifier, and the scoreboard, stay as they
/// were.
pub proof fn law_task_creation_keeps_other_tasks(
    s: PalletView,
    owner: AccountId,
    description: Seq<u8>,
    id: [u8; 16],
    other: [u8; 16],
)
    ensures
        ({
            let t = spec_insert_task(s, owner, description, id);
            &&& t.tasks.contains_key(id)
            &&& t.tasks[id] == (TaskView { id, credit: None, state: 1, owner, description })
            &&& other != id ==> (t.tasks.contains_key(other) <==> s.tasks.contains_key(other))
            &&& other != id && s.tasks.contains_key(other) ==> t.tasks[other] == s.tasks[other]
            &&& t.tasks.dom() == s.tasks.dom().insert(id)
            &&& t.scoreboard == s.scoreboard
            &&& t.something == s.something
            &&& t.events.len() == s.events.len() + 1
            &&& t.events.last() == (Event::NewTaskCreated { owner, credit: None })
            &&& t.events.take(s.events.len() as int) == s.events
        }),
{
    let t = spec_insert_task(s, owner, description, id);
    assert(t.tasks.dom() =~= s.tasks.dom().insert(id));
    assert(t.events.take(s.events.len() as int) =~= s.events);
}

/// A member registering for the first time gets a board holding exactly
/// the balance it registered with, no score and no task credit; the boards
/// of other members stay as they were.
pub proof fn law_new_member_board(s: PalletView, member: AccountId, balance: Balance, other: AccountId)
    requires
        !s.scoreboard.contains_key(member),
    ensures
        ({
            let (t, r) = spec_register(s, member, balance);
            &&& r is Ok
            &&& t.scoreboard.contains_key(member)
            &&& t.scoreboard[member] == (BoardInfo { member, token: balance, score: 0, taskcredit: 0 })
            &&& t.scoreboard[member].token == balance
            &&& other != member ==> (t.scoreboard.contains_key(other) <==> s.scoreboard.contains_key(other))
            &&& other != member && s.scoreboard.contains_key(other) ==> t.scoreboard[other] == s.scoreboard[other]
            &&& t.tasks == s.tasks
            &&& t.events == s.events
        }),
{
}

/// Rewarding a winner makes two currency calls: first it burns exactly the
/// given task credit, then it deposits exactly 100 score to the winner.
pub proof fn law_reward_burns_given_credit_then_pays_winner(amt: u32, winner: AccountId)
    ensures
        reward_calls(amt, winner).len() == 2,
        reward_calls(amt, winner)[0] matches CurrencyCall::Burn { currency, amount }
            && currency == Currency::TaskCredit && amount == amt,
        reward_calls(amt, winner)[1] matches CurrencyCall::DepositCreating { currency, who, amount }
            && currency == Currency::Score && who == winner && amount == 100,
{
}

} // verus!
