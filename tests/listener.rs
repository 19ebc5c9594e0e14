use hyprrust::connection::HyprlandConnection;
use hyprrust::stream::EVENT_CHANNEL_CAPACITY;
use tokio::sync::broadcast;

fn runtime() -> tokio::runtime::Runtime {
    tokio::runtime::Builder::new_current_thread().enable_all().build().unwrap()
}

#[test]
fn second_listener_replaces_the_first() {
    runtime().block_on(async {
        let mut conn = HyprlandConnection::new("test".to_string());
        assert!(!conn.is_listening_to_events());
        let first = tokio::spawn(std::future::pending::<()>());
        assert!(conn.attach_listener(first.abort_handle()).is_none());
        assert!(conn.is_listening_to_events());
        let second = tokio::spawn(std::future::pending::<()>());
        let previous = conn.attach_listener(second.abort_handle()).unwrap();
        assert!(first.await.unwrap_err().is_cancelled());
        assert!(previous.is_finished());
        assert!(conn.is_listening_to_events());
        conn.stop_listening();
        assert!(second.await.unwrap_err().is_cancelled());
        assert!(!conn.is_listening_to_events());
        conn.stop_listening();
        assert_eq!(conn.instance(), "test");
    });
}

#[test]
fn a_consumer_that_never_reads_does_not_hold_up_the_producer() {
    let (tx, mut slow) = broadcast::channel::<u32>(EVENT_CHANNEL_CAPACITY);
    let mut fast = tx.subscribe();
    for i in 0..(EVENT_CHANNEL_CAPACITY as u32 + 10) {
        assert!(tx.send(i).is_ok());
        assert_eq!(fast.try_recv().unwrap(), i);
    }
    match slow.try_recv() {
        Err(broadcast::error::TryRecvError::Lagged(n)) => assert_eq!(n, 10),
        other => panic!("unexpected {:?}", other),
    }
    assert_eq!(slow.try_recv().unwrap(), 10);
}
