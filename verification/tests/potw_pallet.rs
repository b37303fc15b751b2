use potw_pallets::encoding::payload_id;
use potw_pallets::origin::{DispatchError, Origin};
use potw_pallets::potw::{
    BoardInfo, Currency, CurrencyCall, Error, Event, GenesisConfig, Pallet, Task,
};

fn board(member: u64, token: u128) -> BoardInfo {
    BoardInfo { member, token, score: 0, taskcredit: 0 }
}

#[test]
fn register_puts_member_on_board() {
    let mut p = Pallet::new();
    assert_eq!(p.register_for_scoreboard(Origin::Signed(1), 500), Ok(()));
    assert_eq!(p.getscoreboard(1), Some(board(1, 500)));
    assert_eq!(p.getscoreboard(2), None);
    assert!(p.events().is_empty());
}

#[test]
fn register_twice_keeps_first_balance() {
    let mut p = Pallet::new();
    assert_eq!(p.register_for_scoreboard(Origin::Signed(1), 500), Ok(()));
    assert_eq!(
        p.register_for_scoreboard(Origin::Signed(1), 9),
        Err(DispatchError::Module(Error::DuplicateMember))
    );
    assert_eq!(p.getscoreboard(1), Some(board(1, 500)));
}

#[test]
fn do_register_refuses_duplicate_member() {
    let mut p = Pallet::new();
    assert_eq!(p.do_register_for_scoreboard(3, 10), Ok(()));
    assert_eq!(p.do_register_for_scoreboard(3, 20), Err(Error::DuplicateMember));
    assert_eq!(p.getscoreboard(3), Some(board(3, 10)));
}

#[test]
fn register_needs_signed_origin() {
    let mut p = Pallet::new();
    assert_eq!(p.register_for_scoreboard(Origin::Root, 5), Err(DispatchError::BadOrigin));
    assert_eq!(p.register_for_scoreboard(Origin::Unsigned, 5), Err(DispatchError::BadOrigin));
    assert_eq!(p.getscoreboard(0), None);
}

#[test]
fn registering_one_member_leaves_others() {
    let mut p = Pallet::new();
    p.register_for_scoreboard(Origin::Signed(1), 1).unwrap();
    p.register_for_scoreboard(Origin::Signed(2), 2).unwrap();
    assert_eq!(p.getscoreboard(1), Some(board(1, 1)));
    assert_eq!(p.getscoreboard(2), Some(board(2, 2)));
}

#[test]
fn create_task_stores_task_under_hash() {
    let mut p = Pallet::new();
    let description = b"write tests".to_vec();
    assert_eq!(p.create_task(Origin::Signed(5), description.clone()), Ok(()));
    let id = [27, 166, 87, 214, 228, 189, 253, 139, 251, 113, 208, 226, 12, 249, 4, 246];
    assert_eq!(payload_id(5, &description), id);
    assert_eq!(
        p.gettasks(id),
        Some(Task { id, credit: None, state: 1, owner: 5, description })
    );
    assert_eq!(p.events(), &vec![Event::NewTaskCreated { owner: 5, credit: None }]);
}

#[test]
fn create_same_task_twice_stores_it_once() {
    let mut p = Pallet::new();
    p.create_task(Origin::Signed(5), b"t".to_vec()).unwrap();
    p.create_task(Origin::Signed(5), b"t".to_vec()).unwrap();
    let id = payload_id(5, b"t");
    assert_eq!(p.gettasks(id).unwrap().owner, 5);
    assert_eq!(p.events().len(), 2);
}

#[test]
fn create_task_needs_signed_origin() {
    let mut p = Pallet::new();
    assert_eq!(p.create_task(Origin::Unsigned, b"t".to_vec()), Err(DispatchError::BadOrigin));
    assert_eq!(p.gettasks(payload_id(0, b"t")), None);
    assert!(p.events().is_empty());
}

#[test]
fn create_task_with_longest_description() {
    let mut p = Pallet::new();
    let description = vec![7u8; 100];
    p.create_task(Origin::Signed(8), description.clone()).unwrap();
    let id = payload_id(8, &description);
    assert_eq!(p.gettasks(id).unwrap().description, description);
}

#[test]
fn reward_winner_burns_credit_then_deposits_score() {
    let mut p = Pallet::new();
    assert_eq!(
        p.reward_winner(Origin::Signed(1), 30, 9),
        Ok(vec![
            CurrencyCall::Burn { currency: Currency::TaskCredit, amount: 30 },
            CurrencyCall::DepositCreating { currency: Currency::Score, who: 9, amount: 100 },
        ])
    );
    assert!(p.events().is_empty());
    assert_eq!(p.reward_winner(Origin::Root, 30, 9), Err(DispatchError::BadOrigin));
}

#[test]
fn do_reward_winner_deposits_score() {
    assert_eq!(
        Pallet::do_reward_winner(4, 12),
        vec![CurrencyCall::DepositCreating { currency: Currency::Score, who: 4, amount: 12 }]
    );
}

#[test]
fn conversions_report_events() {
    let mut p = Pallet::new();
    assert_eq!(p.convert_token_to_taskcredit(Origin::Signed(2), 40), Ok(()));
    assert_eq!(p.convert_score_to_token(Origin::Signed(3), 50), Ok(()));
    assert_eq!(
        p.events(),
        &vec![
            Event::DepositCredit { owner: 2, amt: None },
            Event::WithdrawScoreToToken { owner: 3, amt: None },
        ]
    );
    assert_eq!(p.convert_score_to_token(Origin::Unsigned, 50), Err(DispatchError::BadOrigin));
    assert_eq!(p.convert_token_to_taskcredit(Origin::Root, 50), Err(DispatchError::BadOrigin));
    assert_eq!(p.events().len(), 2);
}

#[test]
fn do_conversions_report_events() {
    let mut p = Pallet::new();
    assert_eq!(p.do_convert_tokens_to_credits(1, 5), Ok(()));
    assert_eq!(p.do_convert_score_to_token(1, 5), Ok(()));
    assert_eq!(p.events().len(), 2);
}

#[test]
fn do_something_stores_and_reports_the_value() {
    let mut p = Pallet::new();
    assert_eq!(p.something(), None);
    assert_eq!(p.do_something(Origin::Signed(1), 3), Ok(()));
    assert_eq!(p.something(), Some(3));
    assert_eq!(p.events(), &vec![Event::SomethingStored { something: 3, who: 1 }]);
    assert_eq!(p.do_something(Origin::Unsigned, 4), Err(DispatchError::BadOrigin));
    assert_eq!(p.something(), Some(3));
    assert_eq!(p.events().len(), 1);
}

#[test]
fn get_score_balance_needs_signed_origin() {
    let mut p = Pallet::new();
    assert_eq!(p.get_score_balance(Origin::Signed(1)), Ok(()));
    assert_eq!(p.get_score_balance(Origin::Root), Err(DispatchError::BadOrigin));
    assert!(p.events().is_empty());
}

#[test]
fn genesis_registers_members_first_listing_wins() {
    let mut g = GenesisConfig::default();
    assert!(g.initial_members.is_empty() && g.initial_tasks.is_empty());
    g.initial_members = vec![(1, 10), (2, 20), (1, 30)];
    g.initial_tasks = vec![(1, [0u8; 16], 1)];
    let mut p = Pallet::new();
    g.build(&mut p);
    assert_eq!(p.getscoreboard(1), Some(board(1, 10)));
    assert_eq!(p.getscoreboard(2), Some(board(2, 20)));
    assert_eq!(p.gettasks([0u8; 16]), None);
}
