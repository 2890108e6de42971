//! The two-pass processing pipeline.
//!
//! The first pass ([`preprocess`]) validates every record, builds the
//! arrival-order history of transaction ids and aggregates each event onto
//! the transaction it references. The second pass ([`process_transactions`])
//! replays the history against the account engine, applying each
//! transaction's base operation and then its attached events in arrival
//! order. [`postprocess`] flattens the final accounts into output records,
//! and [`run`] chains the three stages.
//!
//! Each stage's contract states its exact outcome as a fold over the input,
//! through the spec functions defined here.

use vstd::prelude::*;
use vstd::std_specs::iter::IteratorSpec;

use std::collections::HashMap;

use crate::account::Account;
use crate::errors::{EngineError, FormatError};
use crate::records::{spec_account_to_raw, RawAccount, RawTransaction};
use crate::transaction::{
    CheckedTransaction, CheckedView, EventType, TransactionStatus, TransactionType,
    TransactionView, Transaction,
};
use crate::validation::spec_check;

verus! {

broadcast use vstd::std_specs::hash::group_hash_axioms;

/// The transaction table as a mathematical map of transaction views.
pub open spec fn spec_table_view(m: Map<u32, Transaction>) -> Map<u32, TransactionView> {
    Map::new(|id: u32| m.contains_key(id), |id: u32| m[id]@)
}

/// `t` with one more event attached.
pub open spec fn spec_push_event(t: TransactionView, event_type: EventType) -> TransactionView {
    TransactionView { events: t.events.push(event_type), ..t }
}

/// `t` with its status advanced.
pub open spec fn spec_with_status(t: TransactionView, status: TransactionStatus) -> TransactionView {
    TransactionView { status, ..t }
}

/// The exact outcome of the first pass, folded over the remaining records:
/// a transaction is appended to the history and inserted into the table
/// unless its id is already taken; an event is attached to the transaction
/// it references when that transaction exists and belongs to the same
/// client, and is dropped silently otherwise.
pub open spec fn spec_preprocess(
    raws: Seq<RawTransaction>,
    history: Seq<u32>,
    table: Map<u32, TransactionView>,
) -> Result<(Seq<u32>, Map<u32, TransactionView>), FormatError>
    decreases raws.len(),
{
    if raws.len() == 0 {
        Ok((history, table))
    } else {
        match spec_check(raws[0]) {
            Err(e) => Err(e),
            Ok(CheckedView::Transaction(t)) => {
                if table.contains_key(t.transaction_id) {
                    Err(FormatError::UniqueTransactionId(t.transaction_id))
                } else {
                    spec_preprocess(
                        raws.drop_first(),
                        history.push(t.transaction_id),
                        table.insert(t.transaction_id, t),
                    )
                }
            },
            Ok(CheckedView::TransactionEvent(ev)) => {
                if table.contains_key(ev.transaction_id) && table[ev.transaction_id].client_id
                    == ev.client_id {
                    spec_preprocess(
                        raws.drop_first(),
                        history,
                        table.insert(
                            ev.transaction_id,
                            spec_push_event(table[ev.transaction_id], ev.event_type),
                        ),
                    )
                } else {
                    spec_preprocess(raws.drop_first(), history, table)
                }
            },
        }
    }
}

/// The exact outcome of replaying one attached event: a dispute moves the
/// amount on hold and marks the transaction disputed; a resolve or
/// chargeback acts only on a transaction currently disputed and is a silent
/// no-op otherwise.
pub open spec fn spec_apply_event(
    account: Account,
    tx: TransactionView,
    event_type: EventType,
) -> Result<(Account, TransactionView), EngineError> {
    match event_type {
        EventType::Dispute => match account.spec_dispute(tx, event_type) {
            Ok(a) => Ok((a, spec_with_status(tx, TransactionStatus::Disputed))),
            Err(e) => Err(EngineError::Dispute(e)),
        },
        EventType::Resolve => {
            if tx.status == TransactionStatus::Disputed {
                match account.spec_resolve(tx, event_type) {
                    Ok(a) => Ok((a, spec_with_status(tx, TransactionStatus::Resolved))),
                    Err(e) => Err(EngineError::Resolve(e)),
                }
            } else {
                Ok((account, tx))
            }
        },
        EventType::Chargeback => {
            if tx.status == TransactionStatus::Disputed {
                match account.spec_chargeback(tx, event_type) {
                    Ok(a) => Ok((a, spec_with_status(tx, TransactionStatus::Reversed))),
                    Err(e) => Err(EngineError::Chargeback(e)),
                }
            } else {
                Ok((account, tx))
            }
        },
    }
}

/// The exact outcome of replaying the events attached to `tx` from index `i`
/// on, in arrival order.
pub open spec fn spec_replay_events(account: Account, tx: TransactionView, i: int) -> Result<
    (Account, TransactionView),
    EngineError,
>
    decreases tx.events.len() - i,
{
    if i < 0 || i >= tx.events.len() {
        Ok((account, tx))
    } else {
        match spec_apply_event(account, tx, tx.events[i]) {
            Ok((a, t)) => spec_replay_events(a, t, i + 1),
            Err(e) => Err(e),
        }
    }
}

/// The account the replay uses for `client`: the one in the map, or a fresh
/// one created lazily on first reference.
pub open spec fn spec_account_of(accounts: Map<u16, Account>, client: u16) -> Account {
    if accounts.contains_key(client) {
        accounts[client]
    } else {
        Account {
            client_id: client,
            available_amount: 0,
            held_amount: 0,
            total_amount: 0,
            is_locked: false,
        }
    }
}

/// The exact outcome of replaying one transaction: its base operation
/// against the (possibly fresh) account of its client, then its attached
/// events in arrival order. Any failure aborts the whole run.
pub open spec fn spec_process_transaction(
    accounts: Map<u16, Account>,
    tx: TransactionView,
) -> Result<(Map<u16, Account>, TransactionView), EngineError> {
    let account = spec_account_of(accounts, tx.client_id);
    let base = match tx.transaction_type {
        TransactionType::Deposit => match account.spec_deposit(tx) {
            Ok(a) => Ok(a),
            Err(e) => Err(EngineError::Deposit(e)),
        },
        TransactionType::Withdrawal => match account.spec_withdraw(tx) {
            Ok(a) => Ok(a),
            Err(e) => Err(EngineError::Withdrawal(e)),
        },
    };
    match base {
        Err(e) => Err(e),
        Ok(a) => match spec_replay_events(
            a,
            spec_with_status(tx, TransactionStatus::Processed),
            0,
        ) {
            Ok((a2, t2)) => Ok((accounts.insert(tx.client_id, a2), t2)),
            Err(e) => Err(e),
        },
    }
}

/// The exact outcome of the second pass, folded over the remaining history:
/// each id is replayed in arrival order; an id absent from the table is an
/// internal invariant violation, reported as the duplicate-id error.
pub open spec fn spec_process_history(
    accounts: Map<u16, Account>,
    table: Map<u32, TransactionView>,
    history: Seq<u32>,
) -> Result<(Map<u16, Account>, Map<u32, TransactionView>), EngineError>
    decreases history.len(),
{
    if history.len() == 0 {
        Ok((accounts, table))
    } else {
        let id = history[0];
        if !table.contains_key(id) {
            Err(EngineError::Format(FormatError::UniqueTransactionId(id)))
        } else {
            match spec_process_transaction(accounts, table[id]) {
                Ok((accounts2, t2)) => spec_process_history(
                    accounts2,
                    table.insert(id, t2),
                    history.drop_first(),
                ),
                Err(e) => Err(e),
            }
        }
    }
}

/// Builds the chronological history and the transaction table from the raw
/// records, validating every record on the way.
pub fn preprocess(raw_transactions: Vec<RawTransaction>) -> (r: Result<
    (Vec<u32>, HashMap<u32, Transaction>),
    FormatError,
>)
    ensures
        (match spec_preprocess(raw_transactions@, Seq::empty(), Map::empty()) {
            Ok(pair) => r matches Ok(p) && p.0@ == pair.0 && spec_table_view(p.1@) == pair.1,
            Err(e) => r matches Err(e2) && e2 == e,
        }),
{
    let mut transaction_history: Vec<u32> = Vec::new();
    let mut transactions: HashMap<u32, Transaction> = HashMap::new();
    proof {
        assert(spec_table_view(transactions@) =~= Map::<u32, TransactionView>::empty());
        assert(transaction_history@ =~= Seq::<u32>::empty());
        assert(raw_transactions@.skip(0) =~= raw_transactions@);
    }

    let n = raw_transactions.len();
    let mut i: usize = 0;
    while i < n
        invariant
            i <= n == raw_transactions.len(),
            spec_preprocess(raw_transactions@, Seq::empty(), Map::empty()) == spec_preprocess(
                raw_transactions@.skip(i as int),
                transaction_history@,
                spec_table_view(transactions@),
            ),
        decreases n - i,
    {
        let ghost prev_rem = raw_transactions@.skip(i as int);
        let ghost prev_hist = transaction_history@;
        let ghost prev_table = spec_table_view(transactions@);
        proof {
            assert(prev_rem[0] == raw_transactions@[i as int]);
            assert(prev_rem.drop_first() =~= raw_transactions@.skip(i as int + 1));
        }
        let raw = &raw_transactions[i];
        match CheckedTransaction::try_from_raw(raw) {
            Err(e) => {
                return Err(e);
            },
            Ok(CheckedTransaction::Transaction(tx)) => {
                if transactions.contains_key(&tx.transaction_id) {
                    return Err(FormatError::UniqueTransactionId(tx.transaction_id));
                }
                transaction_history.push(tx.transaction_id);
                let ghost txv = tx@;
                transactions.insert(tx.transaction_id, tx);
                proof {
                    assert(spec_table_view(transactions@) =~= prev_table.insert(
                        txv.transaction_id,
                        txv,
                    ));
                }
            },
            Ok(CheckedTransaction::TransactionEvent(event)) => {
                match transactions.remove(&event.transaction_id) {
                    Some(mut t) => {
                        let ghost tv = t@;
                        if t.client_id == event.client_id {
                            t.events.push(event.event_type);
                            let ghost tv2 = t@;
                            transactions.insert(event.transaction_id, t);
                            proof {
                                assert(tv2 == spec_push_event(tv, event.event_type));
                                assert(spec_table_view(transactions@) =~= prev_table.insert(
                                    event.transaction_id,
                                    spec_push_event(prev_table[event.transaction_id], event.event_type),
                                ));
                            }
                        } else {
                            transactions.insert(event.transaction_id, t);
                            proof {
                                assert(spec_table_view(transactions@) =~= prev_table);
                            }
                        }
                    },
                    None => {
                        proof {
                            assert(spec_table_view(transactions@) =~= prev_table);
                        }
                    },
                }
            },
        }
        i = i + 1;
    }
    proof {
        assert(raw_transactions@.skip(n as int) =~= Seq::<RawTransaction>::empty());
    }
    Ok((transaction_history, transactions))
}

/// Replays the events attached to `tx` in arrival order, advancing the
/// transaction's status and moving the account's balances.
pub fn process_events(tx: &mut Transaction, account: &mut Account) -> (r: Result<(), EngineError>)
    ensures
        (match spec_replay_events(*old(account), old(tx)@, 0) {
            Ok((a, t)) => r matches Ok(u) && *final(account) == a && final(tx)@ == t,
            Err(e) => r matches Err(e2) && e2 == e,
        }),
{
    let ghost account0 = *account;
    let ghost tx0 = tx@;
    let n = tx.events.len();
    let mut i: usize = 0;
    while i < n
        invariant
            i <= n == tx.events.len(),
            tx.events@ == tx0.events,
            account0 == *old(account),
            tx0 == old(tx)@,
            spec_replay_events(account0, tx0, 0) == spec_replay_events(*account, tx@, i as int),
        decreases n - i,
    {
        let ghost pre_account = *account;
        let ghost pre_tx = tx@;
        let event = tx.events[i];
        proof {
            assert(pre_tx.events[i as int] == event);
        }
        match event {
            EventType::Dispute => {
                match account.dispute(tx, &event) {
                    Ok(u) => {
                        tx.status = TransactionStatus::Disputed;
                        proof {
                            assert(tx@ == spec_with_status(pre_tx, TransactionStatus::Disputed));
                            assert(spec_apply_event(pre_account, pre_tx, event) == Ok::<
                                (Account, TransactionView),
                                EngineError,
                            >((*account, tx@)));
                            assert(spec_replay_events(pre_account, pre_tx, i as int)
                                == spec_replay_events(*account, tx@, i as int + 1));
                        }
                    },
                    Err(e) => {
                        proof {
                            assert(spec_replay_events(pre_account, pre_tx, i as int)
                                == Err::<(Account, TransactionView), EngineError>(
                                EngineError::Dispute(e),
                            ));
                        }
                        return Err(EngineError::Dispute(e));
                    },
                }
            },
            EventType::Resolve => {
                if tx.status == TransactionStatus::Disputed {
                    match account.resolve(tx, &event) {
                        Ok(u) => {
                            tx.status = TransactionStatus::Resolved;
                            proof {
                                assert(tx@ == spec_with_status(
                                    pre_tx,
                                    TransactionStatus::Resolved,
                                ));
                                assert(spec_apply_event(pre_account, pre_tx, event) == Ok::<
                                    (Account, TransactionView),
                                    EngineError,
                                >((*account, tx@)));
                                assert(spec_replay_events(pre_account, pre_tx, i as int)
                                    == spec_replay_events(*account, tx@, i as int + 1));
                            }
                        },
                        Err(e) => {
                            proof {
                                assert(spec_replay_events(pre_account, pre_tx, i as int)
                                    == Err::<(Account, TransactionView), EngineError>(
                                    EngineError::Resolve(e),
                                ));
                            }
                            return Err(EngineError::Resolve(e));
                        },
                    }
                } else {
                    proof {
                        assert(spec_apply_event(pre_account, pre_tx, event) == Ok::<
                            (Account, TransactionView),
                            EngineError,
                        >((pre_account, pre_tx)));
                        assert(spec_replay_events(pre_account, pre_tx, i as int)
                            == spec_replay_events(*account, tx@, i as int + 1));
                    }
                }
            },
            EventType::Chargeback => {
                if tx.status == TransactionStatus::Disputed {
                    match account.chargeback(tx, &event) {
                        Ok(u) => {
                            tx.status = TransactionStatus::Reversed;
                            proof {
                                assert(tx@ == spec_with_status(
                                    pre_tx,
                                    TransactionStatus::Reversed,
                                ));
                                assert(spec_apply_event(pre_account, pre_tx, event) == Ok::<
                                    (Account, TransactionView),
                                    EngineError,
                                >((*account, tx@)));
                                assert(spec_replay_events(pre_account, pre_tx, i as int)
                                    == spec_replay_events(*account, tx@, i as int + 1));
                            }
                        },
                        Err(e) => {
                            proof {
                                assert(spec_replay_events(pre_account, pre_tx, i as int)
                                    == Err::<(Account, TransactionView), EngineError>(
                                    EngineError::Chargeback(e),
                                ));
                            }
                            return Err(EngineError::Chargeback(e));
                        },
                    }
                } else {
                    proof {
                        assert(spec_apply_event(pre_account, pre_tx, event) == Ok::<
                            (Account, TransactionView),
                            EngineError,
                        >((pre_account, pre_tx)));
                        assert(spec_replay_events(pre_account, pre_tx, i as int)
                            == spec_replay_events(*account, tx@, i as int + 1));
                    }
                }
            },
        }
        i = i + 1;
    }
    Ok(())
}

/// Replays the chronological history against the account engine, creating
/// accounts lazily and advancing each transaction's status in the table.
pub fn process_transactions(
    transaction_history: &Vec<u32>,
    transactions: &mut HashMap<u32, Transaction>,
) -> (r: Result<HashMap<u16, Account>, EngineError>)
    ensures
        (match spec_process_history(
            Map::empty(),
            spec_table_view(old(transactions)@),
            transaction_history@,
        ) {
            Ok(pair) => r matches Ok(accounts) && accounts@ == pair.0 && spec_table_view(
                final(transactions)@,
            ) == pair.1,
            Err(e) => r matches Err(e2) && e2 == e,
        }),
{
    let mut accounts: HashMap<u16, Account> = HashMap::new();
    let ghost table0 = spec_table_view(old(transactions)@);
    proof {
        assert(accounts@ =~= Map::<u16, Account>::empty());
        assert(transaction_history@.skip(0) =~= transaction_history@);
    }

    let n = transaction_history.len();
    let mut idx: usize = 0;
    while idx < n
        invariant
            idx <= n == transaction_history@.len(),
            table0 == spec_table_view(old(transactions)@),
            spec_process_history(Map::empty(), table0, transaction_history@)
                == spec_process_history(
                accounts@,
                spec_table_view(transactions@),
                transaction_history@.skip(idx as int),
            ),
        decreases n - idx,
    {
        let ghost pre_accounts = accounts@;
        let ghost pre_table = spec_table_view(transactions@);
        let ghost pre_hist = transaction_history@.skip(idx as int);
        proof {
            assert(pre_hist[0] == transaction_history@[idx as int]);
            assert(pre_hist.drop_first() =~= transaction_history@.skip(idx as int + 1));
        }
        let id = transaction_history[idx];
        match transactions.remove(&id) {
            None => {
                return Err(EngineError::Format(FormatError::UniqueTransactionId(id)));
            },
            Some(tx) => {
                let mut tx = tx;
                proof {
                    assert(pre_table.contains_key(id));
                    assert(pre_table[id] == tx@);
                }
                let client = tx.client_id;
                let mut account = match accounts.remove(&client) {
                    Some(a) => a,
                    None => Account::new(client),
                };
                proof {
                    assert(account == spec_account_of(pre_accounts, client));
                }
                let base: Result<(), EngineError> = match tx.transaction_type {
                    TransactionType::Deposit => match account.deposit(&tx) {
                        Ok(u) => Ok(()),
                        Err(e) => Err(EngineError::Deposit(e)),
                    },
                    TransactionType::Withdrawal => match account.withdraw(&tx) {
                        Ok(u) => Ok(()),
                        Err(e) => Err(EngineError::Withdrawal(e)),
                    },
                };
                match base {
                    Err(e) => {
                        proof {
                            assert(spec_process_transaction(pre_accounts, pre_table[id])
                                == Err::<(Map<u16, Account>, TransactionView), EngineError>(e));
                        }
                        return Err(e);
                    },
                    Ok(u) => {},
                }
                tx.status = TransactionStatus::Processed;
                let ghost replay_tx = tx@;
                let ghost replay_account = account;
                proof {
                    assert(replay_tx == spec_with_status(pre_table[id], TransactionStatus::Processed));
                }
                match process_events(&mut tx, &mut account) {
                    Err(e) => {
                        proof {
                            assert(spec_replay_events(replay_account, replay_tx, 0)
                                == Err::<(Account, TransactionView), EngineError>(e));
                            assert(spec_process_transaction(pre_accounts, pre_table[id])
                                == Err::<(Map<u16, Account>, TransactionView), EngineError>(e));
                        }
                        return Err(e);
                    },
                    Ok(u) => {},
                }
                proof {
                    assert(spec_process_transaction(pre_accounts, pre_table[id]) == Ok::<
                        (Map<u16, Account>, TransactionView),
                        EngineError,
                    >((pre_accounts.insert(client, account), tx@)));
                }
                let ghost txv = tx@;
                transactions.insert(id, tx);
                accounts.insert(client, account);
                proof {
                    assert(spec_table_view(transactions@) =~= pre_table.insert(id, txv));
                    assert(accounts@ =~= pre_accounts.insert(client, account));
                }
            },
        }
        idx = idx + 1;
    }
    proof {
        assert(transaction_history@.skip(n as int) =~= Seq::<u32>::empty());
    }
    Ok(accounts)
}

/// Whether record `i` of `v` is the image of some account of the map.
pub open spec fn record_of_some_account(
    v: Seq<RawAccount>,
    accounts: Map<u16, Account>,
    i: int,
) -> bool {
    exists|k: u16|
        #[trigger] accounts.contains_key(k) && v[i] == spec_account_to_raw(accounts[k])
}

/// How a sequence of output records corresponds to a map of final accounts:
/// one record per account, each record the image of an account of the map,
/// in an order the engine does not promise.
pub open spec fn raw_accounts_match(v: Seq<RawAccount>, accounts: Map<u16, Account>) -> bool {
    &&& v.len() == accounts.dom().len()
    &&& (forall|k: u16|
        #[trigger] accounts.contains_key(k) ==> exists|i: int|
            0 <= i < v.len() && #[trigger] v[i] == spec_account_to_raw(accounts[k]))
    &&& (forall|i: int|
        0 <= i < v.len() ==> #[trigger] record_of_some_account(v, accounts, i))
}

/// Flattens the final account map into one output record per account.
/// Balances are kept in display units throughout the run, so the rounding
/// owed at this boundary is the identity. The order of the records is not
/// specified.
pub fn postprocess(accounts: HashMap<u16, Account>) -> (r: Result<Vec<RawAccount>, EngineError>)
    ensures
        r matches Ok(v) && raw_accounts_match(v@, accounts@),
{
    let ghost s = vstd::std_specs::hash::spec_hash_map_iter(&accounts).remaining();
    let mut raw_accounts: Vec<RawAccount> = Vec::new();
    for kv in it: accounts.iter()
        invariant
            it.seq() == s,
            raw_accounts@.len() == it.index(),
            forall|j: int|
                #![trigger raw_accounts@[j]]
                0 <= j < it.index() ==> raw_accounts@[j] == spec_account_to_raw(*s[j].1),
    {
        let (client, account) = kv;
        proof {
            assert(kv == s[it.index()]);
        }
        let raw_account: RawAccount = RawAccount::from(*account);
        raw_accounts.push(raw_account);
    }
    proof {
        assert(raw_accounts@.len() == accounts@.dom().len());
        assert forall|k: u16| #[trigger] accounts@.contains_key(k) implies exists|i: int|
            0 <= i < raw_accounts@.len() && #[trigger] raw_accounts@[i] == spec_account_to_raw(
            accounts@[k],
        ) by {
            assert(s.contains((&k, &accounts@[k])));
            let j = choose|j: int| 0 <= j < s.len() && s[j] == (&k, &accounts@[k]);
            assert(raw_accounts@[j] == spec_account_to_raw(accounts@[k]));
        }
        assert forall|i: int| 0 <= i < raw_accounts@.len() implies #[trigger] record_of_some_account(
            raw_accounts@,
            accounts@,
            i,
        ) by {
            assert(accounts@.contains_key(*s[i].0) && accounts@[*s[i].0] == *s[i].1);
            assert(raw_accounts@[i] == spec_account_to_raw(accounts@[*s[i].0]));
        }
        assert(raw_accounts_match(raw_accounts@, accounts@));
    }
    Ok(raw_accounts)
}

/// The exact final account map of a whole run, or the error that aborts it.
pub open spec fn spec_run(raws: Seq<RawTransaction>) -> Result<Map<u16, Account>, EngineError> {
    match spec_preprocess(raws, Seq::empty(), Map::empty()) {
        Err(e) => Err(EngineError::Format(e)),
        Ok((history, table)) => match spec_process_history(Map::empty(), table, history) {
            Err(e) => Err(e),
            Ok((accounts, _)) => Ok(accounts),
        },
    }
}

/// Runs the whole pipeline on an ordered log of raw records: validation and
/// aggregation, replay, and flattening. On any error the run aborts with
/// that error and produces no records.
pub fn run(raw_transactions: Vec<RawTransaction>) -> (r: Result<Vec<RawAccount>, EngineError>)
    ensures
        (match spec_run(raw_transactions@) {
            Ok(accounts) => r matches Ok(v) && raw_accounts_match(v@, accounts),
            Err(e) => r matches Err(e2) && e2 == e,
        }),
{
    let (transaction_history, mut transactions) = match preprocess(raw_transactions) {
        Ok(p) => p,
        Err(e) => {
            return Err(EngineError::Format(e));
        },
    };
    let accounts = match process_transactions(&transaction_history, &mut transactions) {
        Ok(a) => a,
        Err(e) => {
            return Err(e);
        },
    };
    postprocess(accounts)
}

/// Conservation of funds over a whole map: every account satisfies
/// `total == available + held`.
pub open spec fn all_accounts_balanced(accounts: Map<u16, Account>) -> bool {
    forall|k: u16| #[trigger] accounts.contains_key(k) ==> accounts[k].balanced()
}

/// Replaying events preserves conservation of funds.
proof fn lemma_replay_events_balanced(account: Account, tx: TransactionView, i: int)
    requires
        account.balanced(),
    ensures
        spec_replay_events(account, tx, i) matches Ok((a, _)) ==> a.balanced(),
    decreases tx.events.len() - i,
{
    if 0 <= i < tx.events.len() {
        match spec_apply_event(account, tx, tx.events[i]) {
            Ok((a, t)) => {
                lemma_replay_events_balanced(a, t, i + 1);
            },
            Err(e) => {},
        }
    }
}

/// Replaying one transaction preserves conservation of funds on the whole
/// account map.
proof fn lemma_process_transaction_balanced(accounts: Map<u16, Account>, tx: TransactionView)
    requires
        all_accounts_balanced(accounts),
    ensures
        spec_process_transaction(accounts, tx) matches Ok((accounts2, _))
            ==> all_accounts_balanced(accounts2),
{
    let account = spec_account_of(accounts, tx.client_id);
    assert(account.balanced());
    match tx.transaction_type {
        TransactionType::Deposit => {
            match account.spec_deposit(tx) {
                Ok(a) => {
                    lemma_replay_events_balanced(
                        a,
                        spec_with_status(tx, TransactionStatus::Processed),
                        0,
                    );
                },
                Err(e) => {},
            }
        },
        TransactionType::Withdrawal => {
            match account.spec_withdraw(tx) {
                Ok(a) => {
                    lemma_replay_events_balanced(
                        a,
                        spec_with_status(tx, TransactionStatus::Processed),
                        0,
                    );
                },
                Err(e) => {},
            }
        },
    }
}

/// Replaying a whole history preserves conservation of funds.
proof fn lemma_process_history_balanced(
    accounts: Map<u16, Account>,
    table: Map<u32, TransactionView>,
    history: Seq<u32>,
)
    requires
        all_accounts_balanced(accounts),
    ensures
        spec_process_history(accounts, table, history) matches Ok((accounts2, _))
            ==> all_accounts_balanced(accounts2),
    decreases history.len(),
{
    if history.len() > 0 {
        let id = history[0];
        if table.contains_key(id) {
            match spec_process_transaction(accounts, table[id]) {
                Ok((accounts2, t2)) => {
                    lemma_process_transaction_balanced(accounts, table[id]);
                    lemma_process_history_balanced(
                        accounts2,
                        table.insert(id, t2),
                        history.drop_first(),
                    );
                },
                Err(e) => {},
            }
        }
    }
}

/// Law: conservation of funds. Every account a run produces satisfies
/// `total == available + held`; the account engine's operations preserve the
/// equation at every step, so it holds at every observation point.
pub proof fn lemma_run_accounts_balanced(raws: Seq<RawTransaction>)
    ensures
        spec_run(raws) matches Ok(accounts) ==> all_accounts_balanced(accounts),
{
    match spec_preprocess(raws, Seq::empty(), Map::empty()) {
        Ok((history, table)) => {
            lemma_process_history_balanced(Map::empty(), table, history);
        },
        Err(e) => {},
    }
}

/// Whether every account of the map carries the client id it is keyed by.
pub open spec fn all_accounts_keyed(accounts: Map<u16, Account>) -> bool {
    forall|k: u16| #[trigger] accounts.contains_key(k) ==> accounts[k].client_id == k
}

/// Replaying events never changes which client an account belongs to.
proof fn lemma_replay_events_client(account: Account, tx: TransactionView, i: int)
    ensures
        spec_replay_events(account, tx, i) matches Ok((a, _)) ==> a.client_id
            == account.client_id,
    decreases tx.events.len() - i,
{
    if 0 <= i < tx.events.len() {
        match spec_apply_event(account, tx, tx.events[i]) {
            Ok((a, t)) => {
                lemma_replay_events_client(a, t, i + 1);
            },
            Err(e) => {},
        }
    }
}

/// Replaying one transaction keeps the account map keyed by client id.
proof fn lemma_process_transaction_keyed(accounts: Map<u16, Account>, tx: TransactionView)
    requires
        all_accounts_keyed(accounts),
    ensures
        spec_process_transaction(accounts, tx) matches Ok((accounts2, _))
            ==> all_accounts_keyed(accounts2),
{
    let account = spec_account_of(accounts, tx.client_id);
    assert(account.client_id == tx.client_id);
    match tx.transaction_type {
        TransactionType::Deposit => {
            match account.spec_deposit(tx) {
                Ok(a) => {
                    lemma_replay_events_client(
                        a,
                        spec_with_status(tx, TransactionStatus::Processed),
                        0,
                    );
                },
                Err(e) => {},
            }
        },
        TransactionType::Withdrawal => {
            match account.spec_withdraw(tx) {
                Ok(a) => {
                    lemma_replay_events_client(
                        a,
                        spec_with_status(tx, TransactionStatus::Processed),
                        0,
                    );
                },
                Err(e) => {},
            }
        },
    }
}

/// Replaying a whole history keeps the account map keyed by client id.
proof fn lemma_process_history_keyed(
    accounts: Map<u16, Account>,
    table: Map<u32, TransactionView>,
    history: Seq<u32>,
)
    requires
        all_accounts_keyed(accounts),
    ensures
        spec_process_history(accounts, table, history) matches Ok((accounts2, _))
            ==> all_accounts_keyed(accounts2),
    decreases history.len(),
{
    if history.len() > 0 {
        let id = history[0];
        if table.contains_key(id) {
            match spec_process_transaction(accounts, table[id]) {
                Ok((accounts2, t2)) => {
                    lemma_process_transaction_keyed(accounts, table[id]);
                    lemma_process_history_keyed(
                        accounts2,
                        table.insert(id, t2),
                        history.drop_first(),
                    );
                },
                Err(e) => {},
            }
        }
    }
}

/// Law: every account a run produces carries the client id it is keyed by,
/// so each output record's `client` field names the account it came from.
pub proof fn lemma_run_accounts_keyed(raws: Seq<RawTransaction>)
    ensures
        spec_run(raws) matches Ok(accounts) ==> all_accounts_keyed(accounts),
{
    match spec_preprocess(raws, Seq::empty(), Map::empty()) {
        Ok((history, table)) => {
            lemma_process_history_keyed(Map::empty(), table, history);
        },
        Err(e) => {},
    }
}

/// Law: a withdrawal that succeeds never leaves the available amount
/// negative.
pub proof fn lemma_withdrawal_keeps_available_nonnegative(account: Account, tx: TransactionView)
    ensures
        account.spec_withdraw(tx) matches Ok(a) ==> a.available_amount >= 0,
{
}

/// Law: a resolve or chargeback event replayed against a transaction not
/// currently disputed changes neither the account nor the transaction.
pub proof fn lemma_resolve_chargeback_ignored_without_dispute(
    account: Account,
    tx: TransactionView,
)
    requires
        tx.status != TransactionStatus::Disputed,
    ensures
        spec_apply_event(account, tx, EventType::Resolve) == Ok::<
            (Account, TransactionView),
            EngineError,
        >((account, tx)),
        spec_apply_event(account, tx, EventType::Chargeback) == Ok::<
            (Account, TransactionView),
            EngineError,
        >((account, tx)),
{
}

/// Whether validation turns `raw` into a base transaction (a deposit or a
/// withdrawal record).
pub open spec fn is_transaction_record(raw: RawTransaction) -> bool {
    spec_check(raw) matches Ok(CheckedView::Transaction(_))
}

/// The transaction id of a valid deposit or withdrawal record.
pub open spec fn transaction_record_id(raw: RawTransaction) -> u32
    recommends
        is_transaction_record(raw),
{
    match spec_check(raw) {
        Ok(CheckedView::Transaction(t)) => t.transaction_id,
        _ => arbitrary(),
    }
}

/// When every record up to `j` validates and record `j` is a deposit or
/// withdrawal whose id the table already holds, preprocessing fails with the
/// duplicate-id error.
proof fn lemma_preprocess_known_id_fails(
    raws: Seq<RawTransaction>,
    history: Seq<u32>,
    table: Map<u32, TransactionView>,
    j: int,
)
    requires
        0 <= j < raws.len(),
        forall|k: int| 0 <= k <= j ==> (#[trigger] spec_check(raws[k])) is Ok,
        is_transaction_record(raws[j]),
        table.contains_key(transaction_record_id(raws[j])),
    ensures
        spec_preprocess(raws, history, table) matches Err(FormatError::UniqueTransactionId(_)),
    decreases j,
{
    let rest = raws.drop_first();
    if j == 0 {
        // The first record reuses a known id: the fold fails on it at once.
    } else {
        assert(forall|k: int|
            0 <= k <= j - 1 ==> (#[trigger] spec_check(rest[k])) == spec_check(raws[k + 1]));
        assert(rest[j - 1] == raws[j]);
        match spec_check(raws[0]) {
            Ok(CheckedView::Transaction(t)) => {
                if !table.contains_key(t.transaction_id) {
                    lemma_preprocess_known_id_fails(
                        rest,
                        history.push(t.transaction_id),
                        table.insert(t.transaction_id, t),
                        j - 1,
                    );
                }
            },
            Ok(CheckedView::TransactionEvent(ev)) => {
                if table.contains_key(ev.transaction_id) && table[ev.transaction_id].client_id
                    == ev.client_id {
                    lemma_preprocess_known_id_fails(
                        rest,
                        history,
                        table.insert(
                            ev.transaction_id,
                            spec_push_event(table[ev.transaction_id], ev.event_type),
                        ),
                        j - 1,
                    );
                } else {
                    lemma_preprocess_known_id_fails(rest, history, table, j - 1);
                }
            },
            Err(e) => {
                assert(false);
            },
        }
    }
}

/// When every record up to `j` validates and records `i` and `j` are both
/// deposits or withdrawals carrying the same transaction id, preprocessing
/// fails with the duplicate-id error.
proof fn lemma_preprocess_duplicate_fails(
    raws: Seq<RawTransaction>,
    history: Seq<u32>,
    table: Map<u32, TransactionView>,
    i: int,
    j: int,
)
    requires
        0 <= i < j < raws.len(),
        forall|k: int| 0 <= k <= j ==> (#[trigger] spec_check(raws[k])) is Ok,
        is_transaction_record(raws[i]),
        is_transaction_record(raws[j]),
        transaction_record_id(raws[i]) == transaction_record_id(raws[j]),
    ensures
        spec_preprocess(raws, history, table) matches Err(FormatError::UniqueTransactionId(_)),
    decreases i,
{
    let rest = raws.drop_first();
    assert(forall|k: int|
        0 <= k <= j - 1 ==> (#[trigger] spec_check(rest[k])) == spec_check(raws[k + 1]));
    assert(rest[j - 1] == raws[j]);
    match spec_check(raws[0]) {
        Ok(CheckedView::Transaction(t)) => {
            if table.contains_key(t.transaction_id) {
                // The fold fails on the very first record.
            } else if i == 0 {
                lemma_preprocess_known_id_fails(
                    rest,
                    history.push(t.transaction_id),
                    table.insert(t.transaction_id, t),
                    j - 1,
                );
            } else {
                assert(rest[i - 1] == raws[i]);
                lemma_preprocess_duplicate_fails(
                    rest,
                    history.push(t.transaction_id),
                    table.insert(t.transaction_id, t),
                    i - 1,
                    j - 1,
                );
            }
        },
        Ok(CheckedView::TransactionEvent(ev)) => {
            assert(i > 0);
            assert(rest[i - 1] == raws[i]);
            if table.contains_key(ev.transaction_id) && table[ev.transaction_id].client_id
                == ev.client_id {
                lemma_preprocess_duplicate_fails(
                    rest,
                    history,
                    table.insert(
                        ev.transaction_id,
                        spec_push_event(table[ev.transaction_id], ev.event_type),
                    ),
                    i - 1,
                    j - 1,
                );
            } else {
                lemma_preprocess_duplicate_fails(rest, history, table, i - 1, j - 1);
            }
        },
        Err(e) => {
            assert(false);
        },
    }
}

/// Law: in an input whose records all validate, two deposit/withdrawal
/// records carrying the same transaction id make the run fail with the
/// duplicate-transaction-id error, so no output records are produced.
pub proof fn lemma_duplicate_transaction_id_fails(raws: Seq<RawTransaction>, i: int, j: int)
    requires
        0 <= i < j < raws.len(),
        forall|k: int| 0 <= k <= j ==> (#[trigger] spec_check(raws[k])) is Ok,
        is_transaction_record(raws[i]),
        is_transaction_record(raws[j]),
        transaction_record_id(raws[i]) == transaction_record_id(raws[j]),
    ensures
        spec_preprocess(raws, Seq::empty(), Map::empty()) matches Err(
            FormatError::UniqueTransactionId(_),
        ),
        spec_run(raws) matches Err(
            EngineError::Format(FormatError::UniqueTransactionId(_)),
        ),
{
    lemma_preprocess_duplicate_fails(raws, Seq::empty(), Map::empty(), i, j);
}

} // verus!
