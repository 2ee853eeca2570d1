use stacks_core::arrival::{ArrivalPhase, BitcoinBlockArrival};
use stacks_core::calls::{Progress, Reply, Request, Winner};
use stacks_core::chain::{
    BlockTip, ConsensusHash, CurrentAndLastSortition, Hash160, NakamotoBlock, PeerInfo,
    ProposalEvalConfig, SortitionState, StacksBlockId,
};
use stacks_core::errors::{ClientError, CodecError, InvalidResponse, SignerChainstateError};
use stacks_core::messages::{
    StateMachineUpdateContent, StateMachineUpdateMessage, StateMachineUpdateMinerState,
};
use stacks_core::miner::{choose_last_block, MinerState};
use stacks_core::signer_state::{
    Call, LocalStateMachine, Outcome, SignerStateMachine, StateMachineUpdate, Step,
    SUPPORTED_SIGNER_PROTOCOL_VERSION,
};
use stacks_core::update::{UpdateError, UpdateStep};

const SECOND: i128 = 1_000_000_000;

fn ch(byte: u8) -> ConsensusHash {
    ConsensusHash([byte; 20])
}

fn id(byte: u8) -> StacksBlockId {
    StacksBlockId([byte; 32])
}

fn config() -> ProposalEvalConfig {
    ProposalEvalConfig {
        block_proposal_timeout: 60_000_000_000,
        tenure_last_block_proposal_timeout: 30_000_000_000,
        first_proposal_burn_block_timing: 5_000_000_000,
    }
}

fn current() -> SortitionState {
    SortitionState {
        miner_pkh: Hash160([0xc0; 20]),
        parent_tenure_id: ch(0x0c),
        consensus_hash: ch(0xcc),
    }
}

fn last() -> SortitionState {
    SortitionState {
        miner_pkh: Hash160([0x1a; 20]),
        parent_tenure_id: ch(0x01),
        consensus_hash: ch(0x11),
    }
}

fn peer(height: u64) -> PeerInfo {
    PeerInfo { burn_block_height: height, pox_consensus: ch(height as u8) }
}

fn both() -> Reply<&'static str> {
    Reply::CurrentAndLastSortition(Ok(CurrentAndLastSortition {
        current_sortition: Ok(current()),
        last_sortition: Some(Ok(last())),
    }))
}

fn earlier() -> Reply<&'static str> {
    Reply::LastSortition(Ok(Some(Ok(last()))))
}

fn miner_of(sortition: SortitionState, tip: BlockTip) -> MinerState {
    MinerState::ActiveMiner {
        current_miner_pkh: sortition.miner_pkh,
        tenure_id: sortition.consensus_hash,
        parent_tenure_id: sortition.parent_tenure_id,
        parent_tenure_last_block: tip.block_id,
        parent_tenure_last_block_height: tip.height,
    }
}

fn view(height: u64, current_miner: MinerState) -> SignerStateMachine {
    SignerStateMachine {
        burn_block: ch(height as u8),
        burn_block_height: height,
        current_miner,
        active_signer_protocol_version: 0,
    }
}

fn tip(height: u64, byte: u8) -> BlockTip {
    BlockTip { height, block_id: id(byte) }
}

/// The replies that let a tenure pass as valid.
fn valid_tenure() -> Vec<Reply<&'static str>> {
    vec![Reply::ParentTenureChoice(Ok(true)), Reply::SignedBlockInTenure(Ok(true))]
}

/// The replies that make a tenure invalid by its choice of a parent.
fn invalid_tenure() -> Vec<Reply<&'static str>> {
    vec![Reply::ParentTenureChoice(Ok(false))]
}

/// The replies by which the tenure of a timeout check has timed out.
fn timed_out() -> Vec<Reply<&'static str>> {
    vec![
        Reply::SignedBlockInTenure(Ok(false)),
        Reply::BurnBlockReceiveTime(Ok(Some(1000))),
        Reply::LastActivityTime(Ok(None)),
        Reply::CurrentTime(1061 * SECOND),
    ]
}

fn parent_blocks() -> Vec<Reply<&'static str>> {
    vec![
        Reply::TenureTip(Ok(tip(10, 0xa0))),
        Reply::TenureLastBlock(Ok(Some(tip(9, 0xb0)))),
    ]
}

/// Goes on with each reply in turn; all replies must be needed, and they must suffice.
fn drive(
    machine: &mut LocalStateMachine,
    start: Step<&'static str>,
    replies: Vec<Reply<&'static str>>,
) -> Outcome<&'static str> {
    let mut step = start;
    for reply in replies {
        step = match step {
            Progress::Ask(call) => machine.resume(call, reply),
            Progress::Done(_) => panic!("a reply too many: {:?}", reply),
        };
    }
    match step {
        Progress::Done(outcome) => outcome,
        Progress::Ask(call) => panic!("a reply is missing to {:?}", call.request()),
    }
}

fn arrive(
    machine: &mut LocalStateMachine,
    expected: Option<u64>,
    replies: Vec<Reply<&'static str>>,
) -> Outcome<&'static str> {
    let call = machine.bitcoin_block_arrival(&config(), expected);
    assert_eq!(*machine, LocalStateMachine::Uninitialized);
    drive(machine, Progress::Ask(call), replies)
}

fn script(parts: Vec<Vec<Reply<&'static str>>>) -> Vec<Reply<&'static str>> {
    parts.into_iter().flatten().collect()
}

fn valid_arrival(height: u64) -> Vec<Reply<&'static str>> {
    script(vec![
        vec![Reply::PeerInfo(Ok(peer(height))), both()],
        valid_tenure(),
        parent_blocks(),
    ])
}

fn message_of(machine: &LocalStateMachine) -> StateMachineUpdateMessage {
    machine.send_signer_update_message().unwrap()
}

fn service(error: &'static str) -> Result<(), SignerChainstateError<&'static str>> {
    Err(SignerChainstateError::Service(error))
}

fn not_processed() -> Result<(), SignerChainstateError<&'static str>> {
    Err(SignerChainstateError::ClientError(ClientError::InvalidResponse(
        InvalidResponse::BurnBlockNotProcessed,
    )))
}

fn missing_sortition() -> Result<(), SignerChainstateError<&'static str>> {
    Err(SignerChainstateError::ClientError(ClientError::InvalidResponse(
        InvalidResponse::MissingSortition,
    )))
}

#[test]
fn new_machine_initializes_from_the_node() {
    let (mut machine, call) = LocalStateMachine::new(&config());
    assert_eq!(machine, LocalStateMachine::Uninitialized);
    let outcome = drive(&mut machine, Progress::Ask(call), valid_arrival(7));
    let expected = view(7, miner_of(current(), tip(10, 0xa0)));
    assert_eq!(machine, LocalStateMachine::Initialized(expected));
    assert_eq!(expected.active_signer_protocol_version, SUPPORTED_SIGNER_PROTOCOL_VERSION);
    assert_eq!(outcome.result, Ok(()));
    assert_eq!(outcome.update, Some(message_of(&machine)));
}

#[test]
fn requests_come_in_order_and_carry_their_arguments() {
    let (mut machine, call) = LocalStateMachine::new(&config());
    let mut step: Step<&'static str> = Progress::Ask(call);
    let mut asked: Vec<Request> = vec![];
    let replies = script(vec![
        vec![Reply::PeerInfo(Ok(peer(7))), both()],
        vec![
            Reply::ParentTenureChoice(Ok(true)),
            Reply::SignedBlockInTenure(Ok(false)),
            Reply::BurnBlockReceiveTime(Ok(Some(1000))),
            Reply::LastActivityTime(Ok(Some(2000))),
            Reply::CurrentTime(2061 * SECOND),
        ],
        valid_tenure(),
        parent_blocks(),
    ]);
    for reply in replies {
        step = match step {
            Progress::Ask(call) => {
                asked.push(call.request());
                machine.resume(call, reply)
            }
            Progress::Done(_) => panic!("done too early"),
        };
    }
    assert!(matches!(step, Progress::Done(_)));
    let cc = ch(0xcc);
    let expected = vec![
        Request::PeerInfo,
        Request::CurrentAndLastSortition,
        Request::ParentTenureChoice {
            winner: Winner::Current,
            sortition: current(),
            standin_block: NakamotoBlock::standin(cc),
            first_proposal_burn_block_timing: 5_000_000_000,
        },
        Request::SignedBlockInTenure { tenure: cc },
        Request::BurnBlockReceiveTime { tenure: cc },
        Request::LastActivityTime { tenure: cc },
        Request::CurrentTime,
        Request::ParentTenureChoice {
            winner: Winner::Last,
            sortition: last(),
            standin_block: NakamotoBlock::standin(ch(0x11)),
            first_proposal_burn_block_timing: 5_000_000_000,
        },
        Request::SignedBlockInTenure { tenure: ch(0x11) },
        Request::TenureTip { tenure: ch(0x01) },
        Request::TenureLastBlock {
            tenure: ch(0x01),
            tenure_last_block_proposal_timeout: 30_000_000_000,
        },
    ];
    assert_eq!(asked, expected);
    assert_eq!(
        machine,
        LocalStateMachine::Initialized(view(7, miner_of(last(), tip(10, 0xa0))))
    );
}

#[test]
fn longest_arrival_takes_fourteen_replies() {
    let live = vec![
        Reply::ParentTenureChoice(Ok(true)),
        Reply::SignedBlockInTenure(Ok(false)),
        Reply::BurnBlockReceiveTime(Ok(Some(1000))),
        Reply::LastActivityTime(Ok(None)),
        Reply::CurrentTime(1060 * SECOND),
    ];
    let replies = script(vec![
        vec![Reply::PeerInfo(Ok(peer(7))), both(), Reply::ParentTenureChoice(Ok(true))],
        timed_out(),
        live,
        parent_blocks(),
    ]);
    assert_eq!(replies.len(), 14);
    let mut machine = LocalStateMachine::Uninitialized;
    let outcome = arrive(&mut machine, None, replies);
    assert_eq!(outcome.result, Ok(()));
}

#[test]
fn replies_may_be_handed_over_all_at_once() {
    let mut one_by_one = LocalStateMachine::Uninitialized;
    let outcome = arrive(&mut one_by_one, None, valid_arrival(7));

    let (mut machine, call) = LocalStateMachine::new(&config());
    let step = machine.resume_all(call, valid_arrival(7));
    assert_eq!(step, Progress::Done(outcome));
    assert_eq!(machine, one_by_one);
}

#[test]
fn replies_that_do_not_suffice_hand_the_call_back() {
    let (mut machine, call) = LocalStateMachine::new(&config());
    let step = machine.resume_all(call, vec![both(), Reply::PeerInfo(Ok(peer(7))), earlier()]);
    assert_eq!(machine, LocalStateMachine::Uninitialized);
    let call = match step {
        Progress::Ask(call) => call,
        Progress::Done(_) => panic!("done too early"),
    };
    assert_eq!(call.request(), Request::CurrentAndLastSortition);
    let none: Step<&'static str> = machine.resume_all(call, vec![]);
    assert_eq!(none, Progress::Ask(call));
}

#[test]
fn replies_that_are_left_over_are_not_used() {
    let (mut machine, call) = LocalStateMachine::new(&config());
    let step = machine.resume_all(call, vec![Reply::PeerInfo(Err("peer")), both(), both()]);
    assert_eq!(step, Progress::Done(Outcome { result: service("peer"), update: None }));
    assert_eq!(machine, LocalStateMachine::Uninitialized);
}

#[test]
fn inactivity_check_asks_for_the_last_sortition_only() {
    let mut machine = active_machine();
    let call = match machine.check_miner_inactivity::<&'static str>(&config()) {
        Progress::Ask(call) => call,
        Progress::Done(_) => panic!("done too early"),
    };
    let call = match machine.resume_all(call, timed_out()) {
        Progress::Ask(call) => call,
        Progress::Done(_) => panic!("done too early"),
    };
    assert_eq!(call.request(), Request::LastSortition);
}

#[test]
fn standin_block_is_empty_but_for_its_tenure() {
    let block = NakamotoBlock::standin(ch(3));
    assert_eq!(block.header.consensus_hash, ch(3));
    assert_eq!(block.header.version, 0);
    assert_eq!(block.header.chain_length, 0);
    assert_eq!(block.header.burn_spent, 0);
    assert_eq!(block.header.parent_block_id, None);
    assert_eq!(block.header.tx_merkle_root, [0u8; 32]);
    assert_eq!(block.header.state_index_root, [0u8; 32]);
    assert_eq!(block.header.timestamp, 0);
    assert_eq!(block.header.miner_signature, None);
    assert!(block.header.signer_signature.is_empty());
    assert_eq!(block.header.pox_treatment, vec![true]);
    assert!(block.txs.is_empty());
}

#[test]
fn reply_to_another_request_changes_nothing() {
    let (mut machine, call) = LocalStateMachine::new(&config());
    let step = machine.resume(call, both());
    assert_eq!(step, Progress::Ask(call));
    assert_eq!(machine, LocalStateMachine::Uninitialized);
}

#[test]
fn node_that_is_behind_leaves_the_machine_pending() {
    let prior = view(5, miner_of(current(), tip(10, 0xa0)));
    let mut machine = LocalStateMachine::Initialized(prior);
    let outcome = arrive(&mut machine, Some(6), vec![Reply::PeerInfo(Ok(peer(5)))]);
    assert_eq!(outcome.result, not_processed());
    assert_eq!(outcome.update, None);
    assert_eq!(
        machine,
        LocalStateMachine::Pending { update: StateMachineUpdate::BurnBlock(6), prior }
    );
}

#[test]
fn pending_machine_waits_for_the_higher_of_two_heights() {
    let prior = view(5, MinerState::NoValidMiner);
    let pending = LocalStateMachine::Pending { update: StateMachineUpdate::BurnBlock(9), prior };

    let mut machine = pending;
    let outcome = arrive(&mut machine, Some(6), vec![Reply::PeerInfo(Ok(peer(8)))]);
    assert_eq!(outcome.result, not_processed());
    assert_eq!(machine, pending);

    let mut machine = pending;
    let outcome = arrive(&mut machine, None, vec![Reply::PeerInfo(Ok(peer(8)))]);
    assert_eq!(outcome.result, not_processed());
    assert_eq!(machine, pending);

    let mut machine = pending;
    let outcome = arrive(&mut machine, Some(12), vec![Reply::PeerInfo(Ok(peer(11)))]);
    assert_eq!(outcome.result, not_processed());
    assert_eq!(
        machine,
        LocalStateMachine::Pending { update: StateMachineUpdate::BurnBlock(12), prior }
    );
}

#[test]
fn pending_machine_settles_once_the_node_has_caught_up() {
    let mut prior = view(5, MinerState::NoValidMiner);
    prior.active_signer_protocol_version = 3;
    let mut machine =
        LocalStateMachine::Pending { update: StateMachineUpdate::BurnBlock(9), prior };
    let step: Step<&'static str> = machine.handle_pending_update(&config());
    assert_eq!(machine, LocalStateMachine::Uninitialized);
    let outcome = drive(&mut machine, step, valid_arrival(9));
    assert_eq!(outcome.result, Ok(()));
    let mut expected = view(9, miner_of(current(), tip(10, 0xa0)));
    expected.active_signer_protocol_version = 3;
    assert_eq!(machine, LocalStateMachine::Initialized(expected));
    assert_eq!(outcome.update, Some(message_of(&machine)));
}

#[test]
fn pending_at_height_zero_is_not_waited_for() {
    let prior = view(5, MinerState::NoValidMiner);
    let mut machine =
        LocalStateMachine::Pending { update: StateMachineUpdate::BurnBlock(0), prior };
    let call = machine.bitcoin_block_arrival(&config(), None);
    match call {
        Call::BitcoinBlockArrival(BitcoinBlockArrival { expected_burn_height, phase, .. }) => {
            assert_eq!(expected_burn_height, None);
            assert_eq!(phase, ArrivalPhase::PeerInfo);
        }
        Call::InactivityCheck(_) => panic!("not an arrival"),
    }
}

#[test]
fn failed_arrival_leaves_the_machine_uninitialized() {
    let start = LocalStateMachine::Initialized(view(5, MinerState::NoValidMiner));
    let ok = Reply::PeerInfo(Ok(peer(6)));
    let cases: Vec<(Vec<Reply<&'static str>>, Result<(), SignerChainstateError<&'static str>>)> = vec![
        (vec![Reply::PeerInfo(Err("peer"))], service("peer")),
        (
            vec![Reply::PeerInfo(Ok(peer(6))), Reply::CurrentAndLastSortition(Err("sort"))],
            service("sort"),
        ),
        (
            vec![
                Reply::PeerInfo(Ok(peer(6))),
                Reply::CurrentAndLastSortition(Ok(CurrentAndLastSortition {
                    current_sortition: Err("current"),
                    last_sortition: None,
                })),
            ],
            service("current"),
        ),
        (
            vec![
                Reply::PeerInfo(Ok(peer(6))),
                Reply::CurrentAndLastSortition(Ok(CurrentAndLastSortition {
                    current_sortition: Ok(current()),
                    last_sortition: None,
                })),
            ],
            missing_sortition(),
        ),
        (
            vec![
                Reply::PeerInfo(Ok(peer(6))),
                Reply::CurrentAndLastSortition(Ok(CurrentAndLastSortition {
                    current_sortition: Ok(current()),
                    last_sortition: Some(Err("last")),
                })),
            ],
            missing_sortition(),
        ),
        (
            vec![
                Reply::PeerInfo(Ok(peer(6))),
                both(),
                Reply::ParentTenureChoice(Err("choice")),
            ],
            service("choice"),
        ),
        (
            vec![
                Reply::PeerInfo(Ok(peer(6))),
                both(),
                Reply::ParentTenureChoice(Ok(false)),
                Reply::ParentTenureChoice(Ok(true)),
                Reply::SignedBlockInTenure(Err("signed")),
            ],
            service("signed"),
        ),
        (
            vec![
                ok,
                both(),
                Reply::ParentTenureChoice(Ok(true)),
                Reply::SignedBlockInTenure(Ok(true)),
                Reply::TenureTip(Err("tip")),
                Reply::TenureLastBlock(Ok(None)),
            ],
            Err(SignerChainstateError::NoParentTenureInfo(ch(0x0c))),
        ),
    ];
    for (replies, expected) in cases {
        let mut machine = start;
        let outcome = arrive(&mut machine, None, replies);
        assert_eq!(outcome.result, expected);
        assert_eq!(outcome.update, None);
        assert_eq!(machine, LocalStateMachine::Uninitialized);
    }
}

#[test]
fn arrival_without_a_valid_tenure_has_no_miner() {
    let mut machine = LocalStateMachine::Uninitialized;
    let outcome = arrive(
        &mut machine,
        Some(6),
        script(vec![
            vec![Reply::PeerInfo(Ok(peer(6))), both()],
            invalid_tenure(),
            invalid_tenure(),
        ]),
    );
    assert_eq!(outcome.result, Ok(()));
    assert_eq!(machine, LocalStateMachine::Initialized(view(6, MinerState::NoValidMiner)));
}

#[test]
fn repeated_arrival_is_not_announced() {
    let mut machine = LocalStateMachine::Uninitialized;
    let first = arrive(&mut machine, None, valid_arrival(7));
    assert!(first.update.is_some());
    let settled = machine;
    let second = arrive(&mut machine, None, valid_arrival(7));
    assert_eq!(second, Outcome { result: Ok(()), update: None });
    assert_eq!(machine, settled);
}

#[test]
fn settled_machine_stays_so_for_any_height_the_node_has_reached() {
    for expected in [None, Some(0), Some(6), Some(7)] {
        let mut machine = LocalStateMachine::Uninitialized;
        arrive(&mut machine, Some(7), valid_arrival(7));
        let settled = machine;
        let again = arrive(&mut machine, expected, valid_arrival(7));
        assert_eq!(again, Outcome { result: Ok(()), update: None });
        assert_eq!(machine, settled);
    }
}

#[test]
fn timed_out_tenure_does_not_replace_itself() {
    let same = SortitionState { consensus_hash: current().consensus_hash, ..last() };
    for later in [0, 1, 500 * SECOND] {
        let replies = script(vec![
            timed_out(),
            vec![
                Reply::LastSortition(Ok(Some(Ok(same)))),
                Reply::ParentTenureChoice(Ok(true)),
                Reply::SignedBlockInTenure(Ok(false)),
                Reply::BurnBlockReceiveTime(Ok(Some(1000))),
                Reply::LastActivityTime(Ok(None)),
                Reply::CurrentTime(1061 * SECOND + later),
            ],
        ]);
        let mut machine = active_machine();
        let step = machine.check_miner_inactivity(&config());
        let outcome = drive(&mut machine, step, replies);
        assert_eq!(outcome, Outcome { result: Ok(()), update: None });
        assert_eq!(machine, active_machine());
    }
}

#[test]
fn first_of_two_stacks_blocks_of_one_height_is_taken_over() {
    let mut one = active_machine();
    let _: Outcome<&'static str> = one.stacks_block_arrival(&ch(0x0c), 11, &id(1));
    let _: Outcome<&'static str> = one.stacks_block_arrival(&ch(0x0c), 11, &id(2));
    assert_eq!(
        one,
        LocalStateMachine::Initialized(view(5, miner_of(current(), tip(11, 1))))
    );
}

#[test]
fn pending_machine_announces_even_an_unchanged_view() {
    let prior = view(7, miner_of(current(), tip(10, 0xa0)));
    let mut machine =
        LocalStateMachine::Pending { update: StateMachineUpdate::BurnBlock(7), prior };
    let outcome = arrive(&mut machine, None, valid_arrival(7));
    assert_eq!(machine, LocalStateMachine::Initialized(prior));
    assert_eq!(outcome.update, Some(message_of(&machine)));
}

fn timeout_of(replies: Vec<Reply<&'static str>>) -> Result<bool, &'static str> {
    let mut check = LocalStateMachine::is_timed_out(&ch(1), &config());
    for reply in replies {
        match check.resume(reply) {
            Progress::Ask(next) => check = next,
            Progress::Done(result) => return result,
        }
    }
    panic!("a reply is missing to {:?}", check.request())
}

#[test]
fn timeout_counts_from_the_last_activity() {
    let at = |activity: Option<u64>, now: i128| {
        timeout_of(vec![
            Reply::SignedBlockInTenure(Ok(false)),
            Reply::BurnBlockReceiveTime(Ok(Some(1000))),
            Reply::LastActivityTime(Ok(activity)),
            Reply::CurrentTime(now),
        ])
    };
    assert_eq!(at(None, 1060 * SECOND), Ok(false));
    assert_eq!(at(None, 1060 * SECOND + 1), Ok(true));
    assert_eq!(at(None, 2000 * SECOND), Ok(true));
    assert_eq!(at(Some(1500), 1060 * SECOND + 1), Ok(false));
    assert_eq!(at(Some(1500), 1560 * SECOND), Ok(false));
    assert_eq!(at(Some(1500), 1560 * SECOND + 1), Ok(true));
    assert_eq!(at(Some(500), 600 * SECOND), Ok(true));
    assert_eq!(at(Some(1500), 1500 * SECOND - 1), Ok(false));
    assert_eq!(at(Some(0), -1), Ok(false));
    assert_eq!(at(Some(u64::MAX), i128::MIN), Ok(false));
    assert_eq!(at(Some(0), i128::MAX), Ok(true));
}

#[test]
fn timeout_needs_no_signed_block_and_a_known_burn_block() {
    assert_eq!(timeout_of(vec![Reply::SignedBlockInTenure(Ok(true))]), Ok(false));
    assert_eq!(timeout_of(vec![Reply::SignedBlockInTenure(Err("db"))]), Err("db"));
    assert_eq!(
        timeout_of(vec![
            Reply::SignedBlockInTenure(Ok(false)),
            Reply::BurnBlockReceiveTime(Ok(None)),
        ]),
        Ok(false)
    );
    assert_eq!(
        timeout_of(vec![
            Reply::SignedBlockInTenure(Ok(false)),
            Reply::BurnBlockReceiveTime(Err("received")),
        ]),
        Err("received")
    );
    assert_eq!(
        timeout_of(vec![
            Reply::SignedBlockInTenure(Ok(false)),
            Reply::BurnBlockReceiveTime(Ok(Some(1))),
            Reply::LastActivityTime(Err("activity")),
        ]),
        Err("activity")
    );
}

fn tenure_of(replies: Vec<Reply<&'static str>>) -> Result<bool, &'static str> {
    let mut check = LocalStateMachine::is_tenure_valid(Winner::Last, &last(), &config());
    for reply in replies {
        match check.resume(reply) {
            Progress::Ask(next) => check = next,
            Progress::Done(result) => return result,
        }
    }
    panic!("a reply is missing to {:?}", check.request())
}

#[test]
fn tenure_is_valid_with_a_good_parent_and_no_timeout() {
    assert_eq!(tenure_of(valid_tenure()), Ok(true));
    assert_eq!(tenure_of(invalid_tenure()), Ok(false));
    assert_eq!(
        tenure_of(script(vec![vec![Reply::ParentTenureChoice(Ok(true))], timed_out()])),
        Ok(false)
    );
    assert_eq!(tenure_of(vec![Reply::ParentTenureChoice(Err("node"))]), Err("node"));
}

fn miner_with(
    node: Result<BlockTip, &'static str>,
    db: Result<Option<BlockTip>, &'static str>,
) -> Result<MinerState, SignerChainstateError<&'static str>> {
    let call = LocalStateMachine::make_miner_state(current(), &config());
    let call = match call.resume(Reply::TenureTip(node)) {
        Progress::Ask(next) => next,
        Progress::Done(_) => panic!("done too early"),
    };
    match call.resume(Reply::TenureLastBlock(db)) {
        Progress::Done(result) => result,
        Progress::Ask(_) => panic!("not done"),
    }
}

#[test]
fn miner_builds_on_the_higher_block() {
    let low = tip(9, 0xb0);
    let high = tip(10, 0xa0);
    let same = tip(10, 0xb1);
    assert_eq!(miner_with(Ok(high), Ok(Some(low))), Ok(miner_of(current(), high)));
    assert_eq!(miner_with(Ok(low), Ok(Some(high))), Ok(miner_of(current(), high)));
    assert_eq!(miner_with(Ok(high), Ok(Some(same))), Ok(miner_of(current(), same)));
    assert_eq!(miner_with(Err("node"), Ok(Some(low))), Ok(miner_of(current(), low)));
    assert_eq!(miner_with(Ok(low), Ok(None)), Ok(miner_of(current(), low)));
    assert_eq!(
        miner_with(Err("node"), Ok(None)),
        Err(SignerChainstateError::NoParentTenureInfo(ch(0x0c)))
    );
    assert_eq!(miner_with(Ok(high), Err("db")), Err(SignerChainstateError::Service("db")));
    assert_eq!(choose_last_block(None, None), None);
}

fn active_machine() -> LocalStateMachine {
    LocalStateMachine::Initialized(view(5, miner_of(current(), tip(10, 0xa0))))
}

#[test]
fn active_miner_is_left_alone() {
    let mut machine = active_machine();
    let step = machine.handle_pending_update(&config());
    assert_eq!(machine, active_machine());
    let outcome = drive(&mut machine, step, vec![Reply::SignedBlockInTenure(Ok(true))]);
    assert_eq!(outcome, Outcome { result: Ok(()), update: None });
    assert_eq!(machine, active_machine());
}

#[test]
fn inactive_miner_gives_way_to_the_prior_winner() {
    let mut machine = active_machine();
    let step = machine.handle_pending_update(&config());
    let outcome = drive(
        &mut machine,
        step,
        script(vec![timed_out(), vec![earlier()], valid_tenure(), parent_blocks()]),
    );
    assert_eq!(outcome.result, Ok(()));
    assert_eq!(
        machine,
        LocalStateMachine::Initialized(view(5, miner_of(last(), tip(10, 0xa0))))
    );
    assert_eq!(outcome.update, Some(message_of(&machine)));
}

#[test]
fn longest_inactivity_check_takes_twelve_replies() {
    let live = vec![
        Reply::ParentTenureChoice(Ok(true)),
        Reply::SignedBlockInTenure(Ok(false)),
        Reply::BurnBlockReceiveTime(Ok(Some(1000))),
        Reply::LastActivityTime(Ok(None)),
        Reply::CurrentTime(1000 * SECOND),
    ];
    let replies = script(vec![timed_out(), vec![earlier()], live, parent_blocks()]);
    assert_eq!(replies.len(), 12);
    let mut machine = active_machine();
    let step = machine.check_miner_inactivity(&config());
    assert_eq!(drive(&mut machine, step, replies).result, Ok(()));
}

#[test]
fn inactive_miner_stays_without_a_valid_prior_winner() {
    let none = Reply::LastSortition(Ok(None));
    let unreadable = Reply::LastSortition(Ok(Some(Err("last"))));
    let scripts = vec![
        script(vec![timed_out(), vec![none]]),
        script(vec![timed_out(), vec![unreadable]]),
        script(vec![timed_out(), vec![earlier()], invalid_tenure()]),
    ];
    for replies in scripts {
        let mut machine = active_machine();
        let step = machine.check_miner_inactivity(&config());
        let outcome = drive(&mut machine, step, replies);
        assert_eq!(outcome, Outcome { result: Ok(()), update: None });
        assert_eq!(machine, active_machine());
    }
}

#[test]
fn failed_inactivity_check_changes_nothing() {
    let cases = vec![
        (vec![Reply::SignedBlockInTenure(Err("db"))], service("db")),
        (
            script(vec![timed_out(), vec![Reply::LastSortition(Err("node"))]]),
            service("node"),
        ),
        (
            script(vec![timed_out(), vec![earlier(), Reply::ParentTenureChoice(Err("choice"))]]),
            service("choice"),
        ),
        (
            script(vec![
                timed_out(),
                vec![earlier()],
                valid_tenure(),
                vec![Reply::TenureTip(Err("tip")), Reply::TenureLastBlock(Ok(None))],
            ]),
            Err(SignerChainstateError::NoParentTenureInfo(ch(0x01))),
        ),
    ];
    for (replies, expected) in cases {
        let mut machine = active_machine();
        let step = machine.check_miner_inactivity(&config());
        let outcome = drive(&mut machine, step, replies);
        assert_eq!(outcome.result, expected);
        assert_eq!(outcome.update, None);
        assert_eq!(machine, active_machine());
    }
}

#[test]
fn nothing_to_check_without_an_active_miner() {
    let idle: Step<&'static str> = Progress::Done(Outcome { result: Ok(()), update: None });
    let mut machine = LocalStateMachine::Uninitialized;
    assert_eq!(machine.handle_pending_update(&config()), idle);
    let mut machine = LocalStateMachine::Initialized(view(5, MinerState::NoValidMiner));
    assert_eq!(machine.handle_pending_update(&config()), idle);
    let machine = LocalStateMachine::Pending {
        update: StateMachineUpdate::BurnBlock(6),
        prior: view(5, miner_of(current(), tip(10, 0xa0))),
    };
    assert_eq!(machine.check_miner_inactivity(&config()), idle);
}

#[test]
fn higher_block_of_the_parent_tenure_is_taken_over() {
    let mut machine = active_machine();
    let outcome: Outcome<&'static str> = machine.stacks_block_arrival(&ch(0x0c), 11, &id(0xee));
    assert_eq!(
        machine,
        LocalStateMachine::Initialized(view(5, miner_of(current(), tip(11, 0xee))))
    );
    assert_eq!(outcome, Outcome { result: Ok(()), update: Some(message_of(&machine)) });

    let again: Outcome<&'static str> = machine.stacks_block_arrival(&ch(0x0c), 11, &id(0xee));
    assert_eq!(again, Outcome { result: Ok(()), update: None });
    assert_eq!(
        machine,
        LocalStateMachine::Initialized(view(5, miner_of(current(), tip(11, 0xee))))
    );
}

#[test]
fn other_stacks_blocks_change_nothing() {
    let quiet: Outcome<&'static str> = Outcome { result: Ok(()), update: None };
    let pending = LocalStateMachine::Pending {
        update: StateMachineUpdate::BurnBlock(6),
        prior: view(5, miner_of(current(), tip(10, 0xa0))),
    };
    let idle = LocalStateMachine::Initialized(view(5, MinerState::NoValidMiner));
    let cases = vec![
        (LocalStateMachine::Uninitialized, ch(0x0c), 11),
        (pending, ch(0x0c), 11),
        (idle, ch(0x0c), 11),
        (active_machine(), ch(0xcc), 11),
        (active_machine(), ch(0x0c), 10),
        (active_machine(), ch(0x0c), 9),
    ];
    for (start, tenure, height) in cases {
        let mut machine = start;
        let outcome = machine.stacks_block_arrival(&tenure, height, &id(0xee));
        assert_eq!(outcome, quiet);
        assert_eq!(machine, start);
    }
}

#[test]
fn stacks_blocks_may_arrive_in_either_order() {
    let mut one = active_machine();
    let mut other = active_machine();
    let _: Outcome<&'static str> = one.stacks_block_arrival(&ch(0x0c), 11, &id(1));
    let _: Outcome<&'static str> = one.stacks_block_arrival(&ch(0x0c), 12, &id(2));
    let _: Outcome<&'static str> = other.stacks_block_arrival(&ch(0x0c), 12, &id(2));
    let _: Outcome<&'static str> = other.stacks_block_arrival(&ch(0x0c), 11, &id(1));
    assert_eq!(one, other);
    assert_eq!(
        one,
        LocalStateMachine::Initialized(view(5, miner_of(current(), tip(12, 2))))
    );
}

#[test]
fn message_tells_the_whole_view() {
    let mut state = view(5, miner_of(current(), tip(10, 0xa0)));
    state.active_signer_protocol_version = 4;
    let machine = LocalStateMachine::Initialized(state);
    let expected = StateMachineUpdateMessage {
        active_signer_protocol_version: 4,
        local_supported_signer_protocol_version: 0,
        content: StateMachineUpdateContent::V0 {
            burn_block: ch(5),
            burn_block_height: 5,
            current_miner: StateMachineUpdateMinerState::ActiveMiner {
                current_miner_pkh: Hash160([0xc0; 20]),
                tenure_id: ch(0xcc),
                parent_tenure_id: ch(0x0c),
                parent_tenure_last_block: id(0xa0),
                parent_tenure_last_block_height: 10,
            },
        },
    };
    assert_eq!(StateMachineUpdateMessage::try_from(&machine), Ok(expected));
    assert_eq!(machine.send_signer_update_message(), Some(expected));

    let idle = LocalStateMachine::Initialized(view(5, MinerState::NoValidMiner));
    let StateMachineUpdateContent::V0 { current_miner, .. } = message_of(&idle).content;
    assert_eq!(current_miner, StateMachineUpdateMinerState::NoValidMiner);
    assert!(message_of(&idle) != expected);
}

#[test]
fn unsettled_machine_has_no_message() {
    let pending = LocalStateMachine::Pending {
        update: StateMachineUpdate::BurnBlock(6),
        prior: view(5, MinerState::NoValidMiner),
    };
    for machine in [LocalStateMachine::Uninitialized, pending] {
        let message: Result<StateMachineUpdateMessage, CodecError> = (&machine).try_into();
        assert_eq!(message, Err(CodecError::SerializeError));
        assert_eq!(machine.send_signer_update_message(), None);
    }
}

#[test]
fn update_is_sent_once_it_is_constructed() {
    let machine = active_machine();
    let step: UpdateStep<u8, &'static str, &'static str> = UpdateStep::begin(&machine);
    assert_eq!(step, UpdateStep::Construct(message_of(&machine)));
    let step: UpdateStep<u8, &'static str, &'static str> = UpdateStep::constructed(Ok(42));
    assert_eq!(step, UpdateStep::Send(42));
    let step: UpdateStep<u8, &'static str, &'static str> = UpdateStep::sent(Ok(()));
    assert_eq!(step, UpdateStep::Done(Ok(())));
}

#[test]
fn update_ends_with_the_first_error() {
    let step: UpdateStep<u8, &'static str, &'static str> =
        UpdateStep::begin(&LocalStateMachine::Uninitialized);
    let not_ready = UpdateError::NotReady(CodecError::SerializeError);
    assert_eq!(step, UpdateStep::Done(Err(not_ready)));
    let step: UpdateStep<u8, &'static str, &'static str> = UpdateStep::constructed(Err("version"));
    assert_eq!(step, UpdateStep::Done(Err(UpdateError::Refused("version"))));
    let step: UpdateStep<u8, &'static str, &'static str> = UpdateStep::sent(Err("board"));
    assert_eq!(step, UpdateStep::Done(Err(UpdateError::NotSent("board"))));
}

#[test]
fn errors_describe_themselves() {
    assert_eq!(
        InvalidResponse::BurnBlockNotProcessed.message(),
        "Node has not processed the next burn block yet"
    );
    assert_eq!(
        InvalidResponse::MissingSortition.message(),
        "Fetching latest and last sortitions failed to return both sortitions"
    );
    assert_eq!(
        CodecError::SerializeError.message(),
        "Local state machine is not ready to be serialized into an update message"
    );
}

#[test]
fn empty_consensus_hash_is_all_zero() {
    assert_eq!(ConsensusHash::empty(), ConsensusHash([0u8; 20]));
    let mut other = ConsensusHash::empty();
    other.0[19] = 1;
    assert!(other != ConsensusHash::empty());
}
