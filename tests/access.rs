use std::sync::mpsc::channel;

use mesh_history::access::{history_message, lookup_request, record_request, db_request_step, run_prev_ip_query, settle, AccessErr, PrevIpAccessor, PrevIpQueries, Query};
use mesh_history::autocomplete::PrevIpAutocomplete;
use mesh_history::schema::{check_db, Store, StoreError};

fn migrated() -> Store {
    let mut db = Store::new();
    check_db(&mut db).unwrap();
    db
}

#[test]
fn settle_keeps_error_classes_apart() {
    assert!(matches!(settle::<u8>(false, Some(Ok(1))), Err(AccessErr::FailedToSend)));
    assert!(matches!(settle::<u8>(true, None), Err(AccessErr::FailedToRecv)));
    assert!(matches!(settle::<u8>(true, Some(Err(StoreError::MissingHistoryTable))),
        Err(AccessErr::InnerError(StoreError::MissingHistoryTable))));
    assert!(matches!(settle::<u8>(true, Some(Ok(7))), Ok(7)));
}

#[test]
fn accessor_after_shutdown_fails_to_send() {
    let (sender, receiver) = channel::<Query>();
    let acc = PrevIpAccessor::new(&sender);
    let other = acc.clone();
    drop(receiver);
    assert!(matches!(acc.get_prev_ips("1".to_string()), Err(AccessErr::FailedToSend)));
    assert!(matches!(other.add_address("1.2.3.4:4403".to_string()), Err(AccessErr::FailedToSend)));
    let auto = PrevIpAutocomplete::new(acc);
    assert!(matches!(auto.get_suggestions("1"), Err(AccessErr::FailedToSend)));
    assert!(matches!(auto.get_completion("1.2.3.4:4403", None), Err(AccessErr::FailedToSend)));
}

#[test]
fn highlighted_suggestion_is_the_completion() {
    let (sender, receiver) = channel::<Query>();
    drop(receiver);
    let auto = PrevIpAutocomplete::new(PrevIpAccessor::new(&sender));
    assert!(matches!(auto.get_completion("10.", Some("10.0.0.1:4403".to_string())),
        Ok(Some(ref s)) if s == "10.0.0.1:4403"));
}

#[test]
fn queries_answer_on_their_reply_channel() {
    let mut db = migrated();
    let (tx, rx) = channel();
    run_prev_ip_query(PrevIpQueries::AddIp("10.0.0.1:4403".to_string(), tx), &mut db);
    assert_eq!(rx.recv().unwrap(), Ok("10.0.0.1:4403".to_string()));
    let (tx, rx) = channel();
    run_prev_ip_query(PrevIpQueries::GetIps("0.0".to_string(), tx), &mut db);
    assert_eq!(rx.recv().unwrap(), Ok(vec!["10.0.0.1:4403".to_string()]));
}

#[test]
fn abandoned_reply_channel_is_not_an_error() {
    let mut db = migrated();
    let (tx, rx) = channel();
    drop(rx);
    run_prev_ip_query(PrevIpQueries::AddIp("gone:1".to_string(), tx), &mut db);
    assert_eq!(db.get_prev_ips(&"".to_string()), Ok(vec!["gone:1".to_string()]));
}

#[test]
fn store_error_reaches_the_caller() {
    let mut db = Store::new();
    let (tx, rx) = channel();
    assert!(db_request_step(Query::PrevIp(PrevIpQueries::AddIp("x:1".to_string(), tx)), &mut db).is_some());
    assert_eq!(rx.recv().unwrap(), Err(StoreError::MissingHistoryTable));
}

#[test]
fn actor_serves_in_order_and_stops_at_end() {
    let mut db = migrated();
    let (queue, requests) = channel::<Query>();
    let mut replies = Vec::new();
    for i in 0..9 {
        let (tx, rx) = channel();
        queue.send(Query::PrevIp(PrevIpQueries::AddIp(format!("node{}:4403", i), tx))).unwrap();
        replies.push(rx);
    }
    queue.send(Query::End).unwrap();
    let (tx, late) = channel();
    queue.send(Query::PrevIp(PrevIpQueries::AddIp("late:1".to_string(), tx))).unwrap();
    let mut served = 0;
    while let Ok(q) = requests.recv() {
        if db_request_step(q, &mut db).is_none() {
            break;
        }
        served += 1;
    }
    assert_eq!(served, 9);
    for (i, rx) in replies.iter().enumerate() {
        assert_eq!(rx.recv().unwrap(), Ok(format!("node{}:4403", i)));
    }
    drop(requests);
    assert!(late.recv().is_err());
    let all = db.get_prev_ips(&"".to_string()).unwrap();
    assert_eq!(all, vec!["node8:4403", "node7:4403", "node6:4403", "node5:4403", "node4:4403", "node3:4403"]);
}

#[test]
fn requests_carry_their_address() {
    let (tx, rx) = channel();
    match history_message(lookup_request("10.0".to_string(), tx)) {
        Query::PrevIp(PrevIpQueries::GetIps(ip, reply)) => {
            assert_eq!(ip, "10.0");
            reply.send(Ok(vec![])).unwrap();
            assert_eq!(rx.recv().unwrap(), Ok(vec![]));
        }
        _ => panic!("wrong request"),
    }
    let (tx, _rx) = channel();
    assert!(matches!(record_request("a:1".to_string(), tx), PrevIpQueries::AddIp(ref ip, _) if ip == "a:1"));
}
