use vstd::prelude::*;

use crate::models::enums::NotificationType;
use crate::timestamp::Timestamp;

verus! {

/// Notifications of one kind, grouped, as the notification service publishes them on Kafka.
/// `notification_type` is the field the wire format calls `type`.
#[derive(Debug)]
pub struct GroupedNotificationKafka {
    pub notification_type: NotificationType,
    pub kind: String,
    pub group_parameters: String,
    pub last_message: String,
    pub first_time: Timestamp,
    pub last_time: Timestamp,
    pub count: i32,
}

/// Notifications of one kind, grouped, as the UI shows them.
#[derive(Debug)]
pub struct GroupedNotification {
    pub notification_type: NotificationType,
    pub kind: String,
    pub group_parameters: String,
    pub last_message: String,
    pub first_time: Timestamp,
    pub last_time: Timestamp,
    pub count: i32,
}

/// The UI's spelling of a grouped notification: every field carries over.
pub open spec fn notification_of(value: GroupedNotificationKafka) -> GroupedNotification {
    GroupedNotification {
        notification_type: value.notification_type,
        kind: value.kind,
        group_parameters: value.group_parameters,
        last_message: value.last_message,
        first_time: value.first_time,
        last_time: value.last_time,
        count: value.count,
    }
}

impl GroupedNotification {
    pub fn from(value: GroupedNotificationKafka) -> (r: Self)
        ensures
            r == notification_of(value),
    {
        GroupedNotification {
            notification_type: value.notification_type,
            kind: value.kind,
            group_parameters: value.group_parameters,
            last_message: value.last_message,
            first_time: value.first_time,
            last_time: value.last_time,
            count: value.count,
        }
    }
}

/// The UI's spelling of each notification of a Kafka message, in order.
pub fn notifications_of(message: Vec<GroupedNotificationKafka>) -> (r: Vec<GroupedNotification>)
    ensures
        r@ == message@.map_values(|x: GroupedNotificationKafka| notification_of(x)),
{
    let ghost all = message@;
    let mut rest = message;
    let mut r: Vec<GroupedNotification> = Vec::new();
    let mut taken: usize = 0;
    let total = rest.len();
    while rest.len() > 0
        invariant
            taken + rest@.len() == all.len(),
            total == all.len(),
            rest@ == all.skip(taken as int),
            r@ == all.take(taken as int).map_values(|x: GroupedNotificationKafka| notification_of(x)),
        decreases rest.len(),
    {
        let x = rest.remove(0);
        proof {
            assert(x == all[taken as int]);
        }
        r.push(GroupedNotification::from(x));
        taken = taken + 1;
        proof {
            assert(rest@ =~= all.skip(taken as int));
            assert(r@ =~= all.take(taken as int).map_values(|x: GroupedNotificationKafka| notification_of(x)));
        }
    }
    assert(all.take(taken as int) =~= all);
    r
}

} // verus!
