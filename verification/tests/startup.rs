use privacy_mesh::startup::{after_probe, ProbeStep, MAX_PROBES, PROBE_PAUSE_SECS};

#[test]
fn healthy_answer_ends_the_wait() {
    assert_eq!(after_probe(1, true), ProbeStep::Ready);
    assert_eq!(after_probe(10, true), ProbeStep::Ready);
    assert_eq!(after_probe(11, true), ProbeStep::Ready);
}

#[test]
fn unhealthy_answer_is_retried_nine_times() {
    for attempt in 1..10 {
        assert_eq!(after_probe(attempt, false), ProbeStep::Retry);
    }
    assert_eq!(after_probe(0, false), ProbeStep::Retry);
}

#[test]
fn tenth_unhealthy_answer_is_the_last() {
    assert_eq!(after_probe(10, false), ProbeStep::GiveUp);
    assert_eq!(after_probe(11, false), ProbeStep::GiveUp);
    assert_eq!(after_probe(u32::MAX, false), ProbeStep::GiveUp);
}

#[test]
fn wait_makes_ten_probes_one_second_apart() {
    assert_eq!(MAX_PROBES, 10);
    assert_eq!(PROBE_PAUSE_SECS, 1);
    let mut attempt = 1;
    let mut probes = 0;
    loop {
        probes += 1;
        match after_probe(attempt, false) {
            ProbeStep::Retry => attempt += 1,
            ProbeStep::GiveUp => break,
            ProbeStep::Ready => unreachable!(),
        }
    }
    assert_eq!(probes, 10);
}
