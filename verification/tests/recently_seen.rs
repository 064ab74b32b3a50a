use deltachat_core::contact::ContactId;
use deltachat_core::recently_seen::{UnseenQueue, WaitPlan};

#[test]
fn unseen_queue_orders_by_time() {
    let mut q = UnseenQueue::new();
    assert_eq!(q.wait_plan(1000), WaitPlan::Wait { seconds: 86400, contact: None });
    q.push(ContactId::new(20), 1000);
    q.push(ContactId::new(21), 900);
    q.push(ContactId::new(22), 900);
    assert_eq!(q.len(), 3);
    assert_eq!(q.peek(), Some((1500, ContactId::new(22))));
    assert_eq!(
        q.wait_plan(1000),
        WaitPlan::Wait { seconds: 501, contact: Some(ContactId::new(22)) }
    );
    assert_eq!(q.wait_plan(2000), WaitPlan::Due { contact: ContactId::new(22) });
    assert_eq!(q.pop(), Some(ContactId::new(22)));
    assert_eq!(q.pop(), Some(ContactId::new(21)));
    assert_eq!(q.pop(), Some(ContactId::new(20)));
    assert_eq!(q.pop(), None);
}

#[test]
fn unseen_queue_interrupts() {
    let mut q = UnseenQueue::new();
    q.on_interrupt(ContactId::UNDEFINED(), 100);
    assert_eq!(q.len(), 0);
    q.on_interrupt(ContactId::new(30), 100);
    assert_eq!(q.peek(), Some((700, ContactId::new(30))));
}
