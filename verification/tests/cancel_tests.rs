use helloui_core::cancel::{
    create, token_over, generate_cancel, generate_video_cancel, models_cancel_download, sdcpp_cancel_download,
    CancelOutcome, JobSlot,
};

#[test]
fn a_fresh_token_is_not_fired() {
    let (signaler, observer) = create();
    assert!(!signaler.is_fired());
    assert!(!observer.is_fired());
}

#[test]
fn firing_reaches_the_observer_and_is_idempotent() {
    let (mut signaler, observer) = create();
    signaler.fire();
    assert!(signaler.is_fired());
    assert!(observer.is_fired());
    signaler.fire();
    assert!(signaler.is_fired());
    assert!(observer.is_fired());
}

#[test]
fn cancel_without_a_job_does_nothing() {
    let mut slot = JobSlot::new();
    assert!(!slot.active());
    assert_eq!(slot.cancel().outcome, CancelOutcome::NothingToCancel);
    assert!(!slot.active());
    assert_eq!(slot.cancel().outcome, CancelOutcome::NothingToCancel);
}

#[test]
fn cancel_fires_the_registered_token_and_empties_the_slot() {
    let mut slot = JobSlot::new();
    let (observer, _) = slot.register();
    assert!(slot.active());
    assert!(!observer.is_fired());
    assert_eq!(slot.cancel().outcome, CancelOutcome::Fired);
    assert!(observer.is_fired());
    assert!(!slot.active());
    assert_eq!(slot.cancel().outcome, CancelOutcome::NothingToCancel);
}

#[test]
fn registering_again_fires_the_outgoing_token() {
    let mut slot = JobSlot::new();
    let (first, none) = slot.register();
    assert!(none.is_none());
    let (second, outgoing) = slot.register();
    assert!(outgoing.expect("the first token").is_fired());
    assert!(first.is_fired());
    assert!(!second.is_fired());
    assert_eq!(slot.cancel().outcome, CancelOutcome::Fired);
    assert!(second.is_fired());
}

#[test]
fn take_and_replace_hands_back_the_previous_signaler() {
    let mut slot = JobSlot::new();
    let (a, a_seen) = create();
    assert!(slot.take_and_replace(a).is_none());
    let (b, b_seen) = create();
    let mut previous = slot.take_and_replace(b).expect("the first signaler");
    assert!(!previous.is_fired());
    previous.fire();
    assert!(a_seen.is_fired());
    assert!(!b_seen.is_fired());
    assert!(slot.active());
}

#[test]
fn clear_empties_the_slot_without_firing() {
    let mut slot = JobSlot::new();
    let (observer, _) = slot.register();
    slot.clear();
    assert!(!slot.active());
    assert!(!observer.is_fired());
}

#[test]
fn cancel_hands_back_the_fired_token() {
    let mut slot = JobSlot::new();
    let nothing = slot.cancel();
    assert_eq!(nothing.outcome, CancelOutcome::NothingToCancel);
    assert!(nothing.fired.is_none());
    let (observer, _) = slot.register();
    let done = slot.cancel();
    assert_eq!(done.outcome, CancelOutcome::Fired);
    assert!(done.fired.expect("the token of the job").is_fired());
    assert!(observer.is_fired());
}

#[test]
fn generate_cancel_says_what_it_found() {
    let mut slot = JobSlot::new();
    let (reply, done) = generate_cancel(&mut slot);
    assert!(!reply.success);
    assert_eq!(reply.error.as_deref(), Some("No generation in progress"));
    assert!(reply.message.is_none());
    assert_eq!(done.outcome, CancelOutcome::NothingToCancel);
    assert!(done.fired.is_none());
    assert!(!slot.active());
    let (observer, _) = slot.register();
    let (reply, done) = generate_cancel(&mut slot);
    assert!(reply.success);
    assert_eq!(reply.message.as_deref(), Some("Generation cancelled"));
    assert!(reply.error.is_none());
    assert_eq!(done.outcome, CancelOutcome::Fired);
    assert!(done.fired.expect("the token of the job").is_fired());
    assert!(observer.is_fired());
    assert!(!slot.active());
}

#[test]
fn every_kind_reports_that_there_was_nothing_to_cancel() {
    let mut slot = JobSlot::new();
    assert_eq!(generate_video_cancel(&mut slot).outcome, CancelOutcome::NothingToCancel);
    assert_eq!(models_cancel_download(&mut slot).outcome, CancelOutcome::NothingToCancel);
    assert_eq!(sdcpp_cancel_download(&mut slot).outcome, CancelOutcome::NothingToCancel);
    assert!(generate_video_cancel(&mut slot).fired.is_none());
    assert!(!slot.active());
}

#[test]
fn every_kind_fires_the_token_of_its_job() {
    let mut slot = JobSlot::new();
    let (observer, _) = slot.register();
    let done = generate_video_cancel(&mut slot);
    assert_eq!(done.outcome, CancelOutcome::Fired);
    assert!(done.fired.expect("the token").is_fired());
    assert!(observer.is_fired());
    let (observer, _) = slot.register();
    let done = models_cancel_download(&mut slot);
    assert_eq!(done.outcome, CancelOutcome::Fired);
    assert!(done.fired.expect("the token").is_fired());
    assert!(observer.is_fired());
    let (observer, _) = slot.register();
    let done = sdcpp_cancel_download(&mut slot);
    assert_eq!(done.outcome, CancelOutcome::Fired);
    assert!(done.fired.expect("the token").is_fired());
    assert!(observer.is_fired());
    assert!(!slot.active());
    // a second cancel finds nothing
    assert_eq!(sdcpp_cancel_download(&mut slot).outcome, CancelOutcome::NothingToCancel);
}

#[test]
fn a_token_is_carried_by_the_channel_it_is_given() {
    let (tx, rx) = tokio::sync::watch::channel(false);
    let other = tx.subscribe();
    let (mut signaler, observer) = token_over(tx, rx);
    assert!(!signaler.is_fired());
    assert!(!observer.is_fired());
    assert!(!*other.borrow());
    signaler.fire();
    assert!(observer.is_fired());
    assert!(*other.borrow());
}

#[test]
fn tokens_do_not_hear_each_other() {
    let (mut a, a_seen) = create();
    let (b, b_seen) = create();
    a.fire();
    assert!(a_seen.is_fired());
    assert!(!b_seen.is_fired());
    assert!(!b.is_fired());
}
