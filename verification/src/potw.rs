//! The proof-of-tangible-work pallet: members register on a scoreboard with a
//! token balance, create tasks identified by the hash of their owner and
//! description, and are rewarded in score.

use std::collections::HashMap;
use vstd::prelude::*;
use crate::encoding::{copy_bytes, payload_id, spec_payload_key};
use crate::id_map::IdMap;
use crate::origin::{ensure_signed, AccountId, Balance, DispatchError, Origin};

verus! {

broadcast use vstd::std_specs::hash::group_hash_axioms;

/// The longest description a task may carry.
pub const MAX_DESCRIPTION_LEN: usize = 100;

/// The score that a task's winner is rewarded with.
pub const WINNER_REWARD: u32 = 100;

/// The amount of tokens converted by a conversion of score to tokens.
pub const SCORE_CONVERSION_AMOUNT: u32 = 100;

/// The state a new task is created in.
pub const TASK_STATE_OPEN: u8 = 1;

/// A task, stored under the hash of its owner and description.
#[derive(Clone, Debug, PartialEq, Eq)]
pub struct Task {
    pub id: [u8; 16],
    pub credit: Option<Balance>,
    pub state: u8,
    pub owner: AccountId,
    pub description: Vec<u8>,
}

/// A task seen as mathematical values.
pub struct TaskView {
    pub id: [u8; 16],
    pub credit: Option<Balance>,
    pub state: u8,
    pub owner: AccountId,
    pub description: Seq<u8>,
}

impl View for Task {
    type V = TaskView;

    open spec fn view(&self) -> TaskView {
        TaskView {
            id: self.id,
            credit: self.credit,
            state: self.state,
            owner: self.owner,
            description: self.description@,
        }
    }
}

/// A member's entry on the scoreboard.
#[derive(Clone, Copy, Debug, PartialEq, Eq)]
pub struct BoardInfo {
    pub member: AccountId,
    pub token: Balance,
    pub score: Balance,
    pub taskcredit: Balance,
}

/// What the pallet reports of its changes.
#[derive(Clone, Copy, Debug, PartialEq, Eq)]
pub enum Event {
    /// A value was stored by its signer.
    SomethingStored { something: u32, who: AccountId },
    NewTaskCreated { owner: AccountId, credit: Option<Balance> },
    DepositCredit { owner: AccountId, amt: Option<Balance> },
    TaskWinnerReward { task_id: u32, winner: AccountId },
    WithdrawScoreToToken { owner: AccountId, amt: Option<Balance> },
}

/// The errors of the pallet.
#[derive(Clone, Copy, Debug, PartialEq, Eq)]
pub enum Error {
    NoneValue,
    StorageOverflow,
    /// The account is on the scoreboard already.
    DuplicateMember,
}

/// The currencies that the runtime provides to the pallet.
#[derive(Clone, Copy, Debug, PartialEq, Eq)]
pub enum Currency {
    Token,
    Score,
    TaskCredit,
}

/// A call on one of the runtime's currencies, for the runtime to make.
#[derive(Clone, Copy, Debug, PartialEq, Eq)]
pub enum CurrencyCall {
    /// `Currency::burn(amount)`, whose imbalance is then dropped.
    Burn { currency: Currency, amount: Balance },
    /// `Currency::deposit_creating(who, amount)`, whose imbalance is then
    /// dropped.
    DepositCreating { currency: Currency, who: AccountId, amount: Balance },
}

/// Withdrawing and depositing tokens, for a runtime to provide.
pub trait TokenManagement {
    fn withdraw(owner: AccountId, amount: Balance) -> Result<(), DispatchError<Error>>;

    fn deposit(owner: AccountId, amount: u32) -> Result<(), DispatchError<Error>>;
}

/// Depositing task credit, for a runtime to provide.
pub trait TaskCreditDeposit {
    fn deposit(owner: AccountId, amount: u32) -> Result<(), DispatchError<Error>>;
}

/// The pallet's storage, seen as mathematical values.
pub struct PalletView {
    pub something: Option<u32>,
    pub tasks: Map<[u8; 16], TaskView>,
    pub scoreboard: Map<AccountId, BoardInfo>,
    pub events: Seq<Event>,
}

/// The pallet and its storage.
pub struct Pallet {
    something: Option<u32>,
    tasks: IdMap<Task>,
    scoreboard: HashMap<AccountId, BoardInfo>,
    events: Vec<Event>,
}

impl View for Pallet {
    type V = PalletView;

    closed spec fn view(&self) -> PalletView {
        PalletView {
            something: self.something,
            tasks: self.tasks@.map_values(|t: Task| t@),
            scoreboard: self.scoreboard@,
            events: self.events@,
        }
    }
}

/// The storage at genesis.
pub open spec fn spec_genesis() -> PalletView {
    PalletView { something: None, tasks: Map::empty(), scoreboard: Map::empty(), events: Seq::empty() }
}

/// The board of a newly registered member.
pub open spec fn new_board(member: AccountId, balance: Balance) -> BoardInfo {
    BoardInfo { member, token: balance, score: 0, taskcredit: 0 }
}

/// Registering `member` with `balance`: refused when the member is on the
/// scoreboard already, else its board is stored.
pub open spec fn spec_register(s: PalletView, member: AccountId, balance: Balance) -> (PalletView, Result<(), Error>) {
    if s.scoreboard.contains_key(member) {
        (s, Err(Error::DuplicateMember))
    } else {
        (PalletView { scoreboard: s.scoreboard.insert(member, new_board(member, balance)), ..s }, Ok(()))
    }
}

/// Registering each member in turn, ignoring refusals.
pub open spec fn spec_register_all(s: PalletView, members: Seq<(AccountId, Balance)>) -> PalletView
    decreases members.len(),
{
    if members.len() == 0 {
        s
    } else {
        let before = spec_register_all(s, members.drop_last());
        spec_register(before, members.last().0, members.last().1).0
    }
}

/// Storing a new open task of `owner` with `description` under `id`, and
/// reporting it.
pub open spec fn spec_insert_task(s: PalletView, owner: AccountId, description: Seq<u8>, id: [u8; 16]) -> PalletView {
    PalletView {
        tasks: s.tasks.insert(
            id,
            TaskView { id, credit: None, state: TASK_STATE_OPEN, owner, description },
        ),
        events: s.events.push(Event::NewTaskCreated { owner, credit: None }),
        ..s
    }
}

/// Reporting `event`, with no other change.
pub open spec fn spec_report(s: PalletView, event: Event) -> PalletView {
    PalletView { events: s.events.push(event), ..s }
}

/// The currency calls that rewarding `winner` makes, after burning `amt`
/// task credit.
pub open spec fn reward_calls(amt: u32, winner: AccountId) -> Seq<CurrencyCall> {
    seq![
        CurrencyCall::Burn { currency: Currency::TaskCredit, amount: amt as Balance },
        CurrencyCall::DepositCreating {
            currency: Currency::Score,
            who: winner,
            amount: WINNER_REWARD as Balance,
        },
    ]
}

impl Pallet {
    /// The storage is consistent.
    pub closed spec fn wf(&self) -> bool {
        self.tasks.wf()
    }

    /// The pallet at genesis.
    pub fn new() -> (p: Self)
        ensures
            p.wf(),
            p@ == spec_genesis(),
    {
        let p = Pallet { something: None, tasks: IdMap::new(), scoreboard: HashMap::new(), events: Vec::new() };
        proof {
            assert(p@.tasks =~= Map::<[u8; 16], TaskView>::empty());
        }
        p
    }

    /// Puts `member` on the scoreboard with `balance` tokens, no score and no
    /// task credit, unless it is there already.
    pub fn do_register_for_scoreboard(&mut self, member: AccountId, balance: Balance) -> (res: Result<(), Error>)
        requires
            old(self).wf(),
        ensures
            final(self).wf(),
            (final(self)@, res) == spec_register(old(self)@, member, balance),
    {
        let new_sb = BoardInfo { member, token: balance, score: 0, taskcredit: 0 };
        if self.scoreboard.contains_key(&member) {
            return Err(Error::DuplicateMember);
        }
        self.scoreboard.insert(member, new_sb);
        Ok(())
    }

    /// Stores a new open task of `owner` under `id`, and reports it.
    pub fn insert_task_with_id(&mut self, owner: AccountId, task_description: Vec<u8>, id: [u8; 16])
        requires
            old(self).wf(),
        ensures
            final(self).wf(),
            final(self)@ == spec_insert_task(old(self)@, owner, task_description@, id),
    {
        let ghost description = task_description@;
        let new_task = Task {
            id,
            credit: None,
            state: TASK_STATE_OPEN,
            owner,
            description: task_description,
        };
        self.tasks.insert(id, new_task);
        self.events.push(Event::NewTaskCreated { owner, credit: None });
        proof {
            assert(self@.tasks =~= old(self)@.tasks.insert(
                id,
                TaskView { id, credit: None, state: TASK_STATE_OPEN, owner, description },
            ));
        }
    }

    /// Stores a new open task of `owner` under the hash of the owner and the
    /// description, replacing a task stored there before, and reports it.
    pub fn do_create_task(&mut self, owner: AccountId, task_description: Vec<u8>) -> (res: Result<(), Error>)
        requires
            old(self).wf(),
            task_description@.len() <= MAX_DESCRIPTION_LEN,
        ensures
            final(self).wf(),
            res is Ok,
            final(self)@ == spec_insert_task(
                old(self)@,
                owner,
                task_description@,
                spec_payload_key(owner, task_description@),
            ),
    {
        let id = payload_id(owner, task_description.as_slice());
        self.insert_task_with_id(owner, task_description, id);
        Ok(())
    }

    /// Rewards `winner` with `amount` score: the call that the runtime's
    /// score currency is to make.
    pub fn do_reward_winner(winner: AccountId, amount: u32) -> (calls: Vec<CurrencyCall>)
        ensures
            calls@ == seq![CurrencyCall::DepositCreating {
                currency: Currency::Score,
                who: winner,
                amount: amount as Balance,
            }],
    {
        let mut calls: Vec<CurrencyCall> = Vec::new();
        calls.push(CurrencyCall::DepositCreating { currency: Currency::Score, who: winner, amount: amount as Balance });
        calls
    }

    /// Reports a deposit of task credit to `account`; the amount is not
    /// converted.
    pub fn do_convert_tokens_to_credits(&mut self, account: AccountId, amount: Balance) -> (res: Result<(), Error>)
        requires
            old(self).wf(),
        ensures
            final(self).wf(),
            res is Ok,
            final(self)@ == spec_report(old(self)@, Event::DepositCredit { owner: account, amt: None }),
    {
        self.events.push(Event::DepositCredit { owner: account, amt: None });
        Ok(())
    }

    /// Reports a withdrawal of score into tokens for `account`; the amount is
    /// not converted.
    pub fn do_convert_score_to_token(&mut self, account: AccountId, amount: u32) -> (res: Result<(), Error>)
        requires
            old(self).wf(),
        ensures
            final(self).wf(),
            res is Ok,
            final(self)@ == spec_report(old(self)@, Event::WithdrawScoreToToken { owner: account, amt: None }),
    {
        self.events.push(Event::WithdrawScoreToToken { owner: account, amt: None });
        Ok(())
    }

    /// Dispatchable: the signer stores `something`, and the value is
    /// reported with its signer.
    pub fn do_something(&mut self, origin: Origin, something: u32) -> (res: Result<(), DispatchError<Error>>)
        requires
            old(self).wf(),
        ensures
            final(self).wf(),
            match origin {
                Origin::Signed(who) => res is Ok && final(self)@ == (PalletView {
                    something: Some(something),
                    events: old(self)@.events.push(Event::SomethingStored { something, who }),
                    ..old(self)@
                }),
                _ => res == Err::<(), DispatchError<Error>>(DispatchError::BadOrigin) && final(self)@ == old(self)@,
            },
    {
        let who = match ensure_signed(origin) {
            Ok(who) => who,
            Err(_) => return Err(DispatchError::BadOrigin),
        };
        self.something = Some(something);
        self.events.push(Event::SomethingStored { something, who });
        Ok(())
    }

    /// Dispatchable: the signer registers on the scoreboard with `amt`
    /// tokens; a member on the scoreboard already is refused with
    /// `DuplicateMember`, and its board is left as it is.
    pub fn register_for_scoreboard(&mut self, origin: Origin, amt: Balance) -> (res: Result<(), DispatchError<Error>>)
        requires
            old(self).wf(),
        ensures
            final(self).wf(),
            match origin {
                Origin::Signed(who) => {
                    let (next, r) = spec_register(old(self)@, who, amt);
                    &&& final(self)@ == next
                    &&& match r {
                        Ok(()) => res is Ok,
                        Err(e) => res == Err::<(), DispatchError<Error>>(DispatchError::Module(e)),
                    }
                },
                _ => res == Err::<(), DispatchError<Error>>(DispatchError::BadOrigin) && final(self)@ == old(self)@,
            },
    {
        let sender = match ensure_signed(origin) {
            Ok(who) => who,
            Err(_) => return Err(DispatchError::BadOrigin),
        };
        match self.do_register_for_scoreboard(sender, amt) {
            Ok(()) => Ok(()),
            Err(e) => Err(DispatchError::Module(e)),
        }
    }

    /// Dispatchable: the signer creates a task with a description of at most
    /// `MAX_DESCRIPTION_LEN` bytes.
    pub fn create_task(&mut self, origin: Origin, task_description: Vec<u8>) -> (res: Result<(), DispatchError<Error>>)
        requires
            old(self).wf(),
            task_description@.len() <= MAX_DESCRIPTION_LEN,
        ensures
            final(self).wf(),
            match origin {
                Origin::Signed(who) => res is Ok && final(self)@ == spec_insert_task(
                    old(self)@,
                    who,
                    task_description@,
                    spec_payload_key(who, task_description@),
                ),
                _ => res == Err::<(), DispatchError<Error>>(DispatchError::BadOrigin) && final(self)@ == old(self)@,
            },
    {
        let sender = match ensure_signed(origin) {
            Ok(who) => who,
            Err(_) => return Err(DispatchError::BadOrigin),
        };
        match self.do_create_task(sender, task_description) {
            Ok(()) => Ok(()),
            Err(e) => Err(DispatchError::Module(e)),
        }
    }

    /// Dispatchable: the signer converts `amt` tokens into task credit; the
    /// deposit is reported.
    pub fn convert_token_to_taskcredit(&mut self, origin: Origin, amt: Balance) -> (res: Result<(), DispatchError<Error>>)
        requires
            old(self).wf(),
        ensures
            final(self).wf(),
            match origin {
                Origin::Signed(who) => res is Ok && final(self)@ == spec_report(
                    old(self)@,
                    Event::DepositCredit { owner: who, amt: None },
                ),
                _ => res == Err::<(), DispatchError<Error>>(DispatchError::BadOrigin) && final(self)@ == old(self)@,
            },
    {
        let sender = match ensure_signed(origin) {
            Ok(who) => who,
            Err(_) => return Err(DispatchError::BadOrigin),
        };
        match self.do_convert_tokens_to_credits(sender, amt) {
            Ok(()) => Ok(()),
            Err(e) => Err(DispatchError::Module(e)),
        }
    }

    /// Dispatchable: the signer converts score into tokens; the withdrawal is
    /// reported.
    pub fn convert_score_to_token(&mut self, origin: Origin, amt: Balance) -> (res: Result<(), DispatchError<Error>>)
        requires
            old(self).wf(),
        ensures
            final(self).wf(),
            match origin {
                Origin::Signed(who) => res is Ok && final(self)@ == spec_report(
                    old(self)@,
                    Event::WithdrawScoreToToken { owner: who, amt: None },
                ),
                _ => res == Err::<(), DispatchError<Error>>(DispatchError::BadOrigin) && final(self)@ == old(self)@,
            },
    {
        let sender = match ensure_signed(origin) {
            Ok(who) => who,
            Err(_) => return Err(DispatchError::BadOrigin),
        };
        match self.do_convert_score_to_token(sender, SCORE_CONVERSION_AMOUNT) {
            Ok(()) => Ok(()),
            Err(e) => Err(DispatchError::Module(e)),
        }
    }

    /// Dispatchable: a signed call burns `amt` task credit and rewards
    /// `winner` with `WINNER_REWARD` score. The storage is left as it is;
    /// the result lists the currency calls, in the order the runtime is to
    /// make them.
    pub fn reward_winner(&mut self, origin: Origin, amt: u32, winner: AccountId) -> (res: Result<Vec<CurrencyCall>, DispatchError<Error>>)
        requires
            old(self).wf(),
        ensures
            final(self).wf(),
            final(self)@ == old(self)@,
            match origin {
                Origin::Signed(_) => res is Ok && res.unwrap()@ == reward_calls(amt, winner),
                _ => res == Err::<Vec<CurrencyCall>, DispatchError<Error>>(DispatchError::BadOrigin),
            },
    {
        match ensure_signed(origin) {
            Ok(_) => {},
            Err(_) => return Err(DispatchError::BadOrigin),
        }
        let mut calls: Vec<CurrencyCall> = Vec::new();
        calls.push(CurrencyCall::Burn { currency: Currency::TaskCredit, amount: amt as Balance });
        let mut rewarded = Self::do_reward_winner(winner, WINNER_REWARD);
        calls.append(&mut rewarded);
        proof {
            assert(calls@ =~= reward_calls(amt, winner));
        }
        Ok(calls)
    }

    /// Dispatchable: a signed call that reads no balance.
    pub fn get_score_balance(&mut self, origin: Origin) -> (res: Result<(), DispatchError<Error>>)
        requires
            old(self).wf(),
        ensures
            final(self).wf(),
            final(self)@ == old(self)@,
            res is Ok <==> origin is Signed,
            res is Err ==> res == Err::<(), DispatchError<Error>>(DispatchError::BadOrigin),
    {
        match ensure_signed(origin) {
            Ok(_) => Ok(()),
            Err(_) => Err(DispatchError::BadOrigin),
        }
    }

    /// The task stored under `id`.
    pub fn gettasks(&self, id: [u8; 16]) -> (res: Option<Task>)
        requires
            self.wf(),
        ensures
            match res {
                Some(t) => self@.tasks.contains_key(id) && self@.tasks[id] == t@,
                None => !self@.tasks.contains_key(id),
            },
    {
        match self.tasks.get(&id) {
            Some(t) => Some(Task {
                id: t.id,
                credit: t.credit,
                state: t.state,
                owner: t.owner,
                description: copy_bytes(&t.description),
            }),
            None => None,
        }
    }

    /// The scoreboard entry of `member`.
    pub fn getscoreboard(&self, member: AccountId) -> (res: Option<BoardInfo>)
        ensures
            match res {
                Some(b) => self@.scoreboard.contains_key(member) && self@.scoreboard[member] == b,
                None => !self@.scoreboard.contains_key(member),
            },
    {
        match self.scoreboard.get(&member) {
            Some(b) => Some(*b),
            None => None,
        }
    }

    /// The value stored by the last `do_something`.
    pub fn something(&self) -> (res: Option<u32>)
        ensures
            res == self@.something,
    {
        self.something
    }

    /// The events reported so far, oldest first.
    pub fn events(&self) -> (res: &Vec<Event>)
        ensures
            res@ == self@.events,
    {
        &self.events
    }
}

/// The pallet's state at genesis.
pub struct GenesisConfig {
    pub initial_tasks: Vec<(AccountId, [u8; 16], u8)>,
    pub initial_members: Vec<(AccountId, Balance)>,
}

impl GenesisConfig {
    /// No tasks and no members.
    pub fn default() -> (g: Self)
        ensures
            g.initial_tasks@.len() == 0,
            g.initial_members@.len() == 0,
    {
        GenesisConfig { initial_tasks: Vec::new(), initial_members: Vec::new() }
    }

    /// Builds the genesis storage: each initial member is registered in
    /// turn, a member listed twice keeping its first balance. The initial
    /// tasks are not stored.
    pub fn build(&self, pallet: &mut Pallet)
        requires
            old(pallet).wf(),
        ensures
            final(pallet).wf(),
            final(pallet)@ == spec_register_all(old(pallet)@, self.initial_members@),
    {
        let mut j: usize = 0;
        while j < self.initial_members.len()
            invariant
                pallet.wf(),
                j <= self.initial_members@.len(),
                pallet@ == spec_register_all(old(pallet)@, self.initial_members@.take(j as int)),
            decreases self.initial_members@.len() - j,
        {
            let (account, balance) = self.initial_members[j];
            let _ = pallet.do_register_for_scoreboard(account, balance);
            proof {
                assert(self.initial_members@.take(j + 1).drop_last() =~= self.initial_members@.take(j as int));
            }
            j = j + 1;
        }
        proof {
            assert(self.initial_members@.take(self.initial_members@.len() as int) =~= self.initial_members@);
        }
    }
}

} // verus!
