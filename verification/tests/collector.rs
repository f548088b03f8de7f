use discord_rs::collector::judge;
use discord_rs::collector::Received;
use discord_rs::collector::Verdict;

#[test]
fn collector_waits_for_an_event_that_passes() {
    assert!(matches!(judge(Received::Event(7), true), Verdict::Done(Some(7))));
    assert!(matches!(judge(Received::Event(7), false), Verdict::Again));
    assert!(matches!(judge(Received::<u8>::Lagged, true), Verdict::Again));
    assert!(matches!(judge(Received::<u8>::Lagged, false), Verdict::Again));
    assert!(matches!(judge(Received::<u8>::Closed, true), Verdict::Done(None)));
    assert!(matches!(judge(Received::<u8>::Closed, false), Verdict::Done(None)));
}
