use midihid::retry::MAX_WRITE_RETRIES;
use midihid::retry::WriteDecision;
use midihid::retry::WriteFault;
use midihid::retry::decide_write_retry;

#[test]
fn transient_faults_are_retried_up_to_the_bound() {
    for spent in 0..MAX_WRITE_RETRIES {
        assert_eq!(decide_write_retry(WriteFault::Transient, spent), WriteDecision::Retry);
    }
    assert_eq!(
        decide_write_retry(WriteFault::Transient, MAX_WRITE_RETRIES),
        WriteDecision::Escalate
    );
    assert_eq!(decide_write_retry(WriteFault::Transient, 255), WriteDecision::Escalate);
}

#[test]
fn permanent_faults_escalate_at_once() {
    assert_eq!(decide_write_retry(WriteFault::Permanent, 0), WriteDecision::Escalate);
    assert_eq!(decide_write_retry(WriteFault::Permanent, 2), WriteDecision::Escalate);
}
