use qobine::models::Notification;
use qobine::notifications::NotificationList;

#[test]
fn pushed_notifications_are_read_back_in_order() {
    let mut list = NotificationList::new();
    assert!(list.notifications().is_empty());
    list.push(Notification::Info("a".to_string()));
    list.push(Notification::Warning("b".to_string()));
    assert_eq!(
        list.notifications(),
        [&Notification::Info("a".to_string()), &Notification::Warning("b".to_string())]
    );
}

#[test]
fn fresh_notifications_survive_a_tick() {
    let mut list = NotificationList::new();
    list.push(Notification::Success("ok".to_string()));
    assert!(!list.tick());
    assert_eq!(list.notifications().len(), 1);
    let mut empty = NotificationList::new();
    assert!(!empty.tick());
}

#[test]
fn notifications_of_five_seconds_or_more_expire() {
    let mut list = NotificationList::new();
    list.push(Notification::Info("old".to_string()));
    list.push(Notification::Info("new".to_string()));
    list.push(Notification::Error("edge".to_string()));
    list.push(Notification::Info("young".to_string()));
    assert_eq!(list.ages_ms().len(), 4);
    assert!(list.retain_younger(&vec![7000, 10, 5000, 4999]));
    assert_eq!(
        list.notifications(),
        [&Notification::Info("new".to_string()), &Notification::Info("young".to_string())]
    );
    assert!(!list.retain_younger(&vec![0, 4999]));
    assert_eq!(list.notifications().len(), 2);
}
