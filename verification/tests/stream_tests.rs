use async_stream::handshake::Sender;
use async_stream::handshake::SenderFuture;
use async_stream::stream::run;
use async_stream::stream::Action;
use async_stream::stream::AsyncStream;
use async_stream::stream::Pulled;
use async_stream::stream::ScriptedProducer;
use async_stream::stream::StepResult;

#[test]
fn handshake_first_poll_pending_second_ready() {
    let mut fut = SenderFuture::new();
    assert!(!fut.poll());
    assert!(fut.poll());
}

#[test]
fn send_stores_item_and_take_clears() {
    let mut tx: Sender<u32, u8> = Sender::new(None);
    let _fut = tx.send(5);
    assert_eq!(tx.take(), Some(5));
    assert_eq!(tx.take(), None);
}

#[test]
fn double_send_silently_drops_first_value() {
    let mut tx: Sender<u32, u8> = Sender::new(None);
    let _first = tx.send(1);
    let _second = tx.send(2);
    assert_eq!(tx.take(), Some(2));
    assert_eq!(tx.take(), None);
}

#[test]
fn resolve_completion_ends_stream() {
    let mut strm: AsyncStream<u32, u8> = AsyncStream::new();
    assert!(!strm.is_done());
    let r = strm.resolve(StepResult::Complete, None);
    assert!(matches!(r, Pulled::End));
    assert!(strm.is_done());
}

#[test]
fn resolve_failure_emits_error_then_ends() {
    let mut strm: AsyncStream<u32, u8> = AsyncStream::new();
    let r = strm.resolve(StepResult::Failed(3), None);
    assert!(matches!(r, Pulled::Failure(3)));
    assert!(strm.is_done());
}

#[test]
fn resolve_suspension_surfaces_slot_item() {
    let mut strm: AsyncStream<u32, u8> = AsyncStream::new();
    let r = strm.resolve(StepResult::Suspended, Some(4));
    assert!(matches!(r, Pulled::Item(4)));
    assert!(!strm.is_done());
    let r2 = strm.resolve(StepResult::Suspended, None);
    assert!(matches!(r2, Pulled::NotReady));
    assert!(!strm.is_done());
}

#[test]
fn ten_ascending_items_then_success() {
    let actions: Vec<Action<u32>> = (0..10).map(Action::Emit).collect();
    let (items, err) = run::<u32, u8>(actions, None);
    assert_eq!(items, vec![0, 1, 2, 3, 4, 5, 6, 7, 8, 9]);
    assert_eq!(items.len(), 10);
    assert_eq!(err, None);
}

#[test]
fn items_then_failure_surface_in_order() {
    let actions = vec![Action::Emit(1), Action::Emit(2), Action::Emit(3)];
    let (items, err) = run::<u32, u8>(actions, Some(9));
    assert_eq!(items, vec![1, 2, 3]);
    assert_eq!(err, Some(9));
}

#[test]
fn empty_success_is_immediately_exhausted() {
    let (items, err) = run::<u32, u8>(Vec::new(), None);
    assert!(items.is_empty());
    assert_eq!(err, None);
}

#[test]
fn waits_between_items_change_nothing() {
    let actions = vec![
        Action::Wait,
        Action::Emit(10),
        Action::Wait,
        Action::Wait,
        Action::Emit(20),
        Action::Wait,
    ];
    let (items, err) = run::<u32, u8>(actions, None);
    assert_eq!(items, vec![10, 20]);
    assert_eq!(err, None);
}

#[test]
fn wait_reports_not_ready_then_next_item() {
    let mut strm: AsyncStream<u32, u8> = AsyncStream::new();
    let mut prod = ScriptedProducer::new(vec![Action::Wait, Action::Emit(7)], None);
    let r1 = strm.pull_from(&mut prod);
    assert!(matches!(r1, Pulled::NotReady));
    assert!(!strm.is_done());
    let r2 = strm.pull_from(&mut prod);
    assert!(matches!(r2, Pulled::Item(7)));
    assert!(!strm.is_done());
    let r3 = strm.pull_from(&mut prod);
    assert!(matches!(r3, Pulled::End));
    assert!(strm.is_done());
}

#[test]
fn pull_after_exhaustion_reports_end() {
    let mut strm: AsyncStream<u32, u8> = AsyncStream::new();
    let mut prod = ScriptedProducer::new(vec![Action::Emit(1)], None);
    assert!(matches!(strm.pull_from(&mut prod), Pulled::Item(1)));
    assert!(matches!(strm.pull_from(&mut prod), Pulled::End));
    assert!(strm.is_done());
    assert!(matches!(strm.pull_from(&mut prod), Pulled::End));
    assert!(matches!(strm.pull_from(&mut prod), Pulled::End));
}

#[test]
fn failure_is_terminal() {
    let mut strm: AsyncStream<u32, u8> = AsyncStream::new();
    let mut prod = ScriptedProducer::new(Vec::new(), Some(5u8));
    assert!(matches!(strm.pull_from(&mut prod), Pulled::Failure(5)));
    assert!(strm.is_done());
    assert!(matches!(strm.pull_from(&mut prod), Pulled::End));
}
