use std::sync::Arc;

use rdbs_interface::manage::subscription::{disable_sub, enable_sub, rename_sub};
use rdbs_interface::task::{Job, Outcome, Request, Task};
use rdbs_interface::traits::{GetDb, Viewable};

type Db = Arc<u32>;

fn s(x: &str) -> String {
    x.to_string()
}

fn enabled_subs(failure: &'static str) -> Request<disable_sub::Message> {
    Request {
        job: Job::ListEnabledSubscriptions,
        on_success: disable_sub::Message::Subs(vec![]),
        on_failure: disable_sub::Message::Error(failure),
    }
}

#[test]
fn disable_sub_opens_by_listing_enabled_subscriptions() {
    let (v, task) = disable_sub::View::<Db>::new(Arc::new(5));
    assert!(task == Task::Perform(enabled_subs("Error occurred while getting publications")));
    assert!(v.sub_list.is_empty() && v.sub_curr.is_none() && v.errmsg.is_none());
    assert!(!v.can_disable());
    assert_eq!(*v.get_db(), 5);
}

#[test]
fn choosing_a_subscription_refreshes_the_list() {
    let (mut v, _) = disable_sub::View::<Db>::new(Arc::new(5));
    let task = v.update(disable_sub::Message::SubSelected(s("sub_1")));
    assert_eq!(v.sub_curr.as_deref(), Some("sub_1"));
    assert!(v.can_disable());
    assert!(task == Task::Perform(enabled_subs("Couldn't update tables")));
}

#[test]
fn disable_needs_a_subscription() {
    let (mut v, _) = disable_sub::View::<Db>::new(Arc::new(5));
    assert!(
        v.update(disable_sub::Message::DisableSub)
            == Task::Done(disable_sub::Message::Error("No publication provided"))
    );
}

#[test]
fn disable_disables_then_refreshes() {
    let (mut v, _) = disable_sub::View::<Db>::new(Arc::new(5));
    let _ = v.update(disable_sub::Message::SubSelected(s("sub_1")));
    let task = v.update(disable_sub::Message::DisableSub);
    let disable = Request {
        job: Job::DisableSubscription { subscription: s("sub_1") },
        on_success: disable_sub::Message::Clear,
        on_failure: disable_sub::Message::Error("Couldn't add table"),
    };
    assert!(task == Task::Chain(disable, enabled_subs("Couldn't update tables")));
}

#[test]
fn disable_sub_lists_errors_and_clear() {
    let (mut v, _) = disable_sub::View::<Db>::new(Arc::new(5));
    assert!(v.update(disable_sub::Message::Subs(vec![s("a")])) == Task::Nothing);
    assert_eq!(v.sub_list, vec![s("a")]);
    let _ = v.update(disable_sub::Message::SubSelected(s("a")));
    let _ = v.update(disable_sub::Message::Error("x"));
    assert_eq!(v.errmsg, Some("x"));
    assert!(v.update(disable_sub::Message::Clear) == Task::Nothing);
    assert!(v.sub_curr.is_none() && v.errmsg.is_none());
    assert_eq!(v.sub_list, vec![s("a")]);
    assert!(
        v.update(disable_sub::Message::Back)
            == Task::Done(disable_sub::Message::Error("This should have been propagated higher"))
    );
}

#[test]
fn disable_sub_reply_carries_rows() {
    let reply = enabled_subs("Couldn't update tables");
    assert_eq!(
        reply.resolve(Outcome::Rows(vec![s("s1")])),
        disable_sub::Message::Subs(vec![s("s1")])
    );
}

#[test]
fn rename_sub_flow() {
    let (mut v, task) = rename_sub::View::<Db>::new(Arc::new(6));
    let listing = |failure: &'static str| Request {
        job: Job::ListSubscriptions,
        on_success: rename_sub::Message::Subs(vec![]),
        on_failure: rename_sub::Message::Error(failure),
    };
    assert!(task == Task::Perform(listing("Error occurred while getting subscriptions")));
    assert!(
        v.update(rename_sub::Message::RenameSub)
            == Task::Done(rename_sub::Message::Error("No subscription provided"))
    );
    assert!(v.update(rename_sub::Message::SubSelected(s("sub_1"))) == Task::Nothing);
    assert!(!v.can_rename());
    assert!(v.update(rename_sub::Message::NewName(s("sub_2"))) == Task::Nothing);
    assert!(v.can_rename());
    assert!(
        v.update(rename_sub::Message::RenameSub)
            == Task::Perform(Request {
                job: Job::RenameSubscription { subscription: s("sub_1"), new_name: s("sub_2") },
                on_success: rename_sub::Message::Clear,
                on_failure: rename_sub::Message::Error("Couldn't rename subscription"),
            })
    );
    assert!(
        v.update(rename_sub::Message::Clear) == Task::Perform(listing("Couldn't update subscriptions"))
    );
    assert!(v.sub_curr.is_none() && v.new_name.is_empty() && v.errmsg.is_none());
}

#[test]
fn enable_sub_placeholder() {
    let (mut v, task) = enable_sub::View::<Db>::new(Arc::new(8));
    assert!(task == Task::Nothing);
    assert_eq!(v.back(), enable_sub::Message::Back);
    assert!(v.update(enable_sub::Message::Back) == Task::Nothing);
    assert_eq!(*v.get_db(), 8);
}
