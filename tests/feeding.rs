use gst_learn::{
    frames_in_chunk, mul_div_floor, samples_to_nanos, teardown, Chunk, Drain, DrainStatus, Feeder,
    Generated, Lifecycle, LifecycleState, StepOutcome, TeardownStep,
};

fn chunk(g: Generated) -> Chunk {
    match g {
        Generated::Data(c) => c,
        other => panic!("no chunk: {:?}", other),
    }
}

#[test]
fn ten_chunks_of_cd_audio() {
    let samples = frames_in_chunk(1024, 2).unwrap();
    assert_eq!(samples, 512);
    let mut f = Feeder::new(44_100, samples).unwrap();
    let task = f.on_need_data().unwrap();
    let mut chunks = Vec::new();
    for _ in 0..10 {
        chunks.push(chunk(f.generate(task)));
        assert!(f.on_pushed(task, true));
    }
    assert_eq!(f.num_samples(), 5120);
    let total: u64 = chunks.iter().map(|c| c.duration).sum();
    let exact = 5120u64 * 1_000_000_000 / 44_100;
    assert_eq!(exact, 116_099_773);
    assert_eq!(total, exact);
    let pts: Vec<u64> = chunks.iter().take(5).map(|c| c.pts).collect();
    assert_eq!(pts, vec![0, 11_609_977, 23_219_954, 34_829_931, 46_439_909]);
    assert_eq!(chunks[0].duration, 11_609_977);
    assert_eq!(chunks[3].duration, 11_609_978);
    let last = chunks[9];
    assert_eq!(last.pts + last.duration, exact);
    for k in 0..9 {
        assert!(chunks[k + 1].pts >= chunks[k].pts);
        assert_eq!(chunks[k + 1].pts - chunks[k].pts, chunks[k].duration);
        assert_eq!(chunks[k].first_sample, 512 * k as u64);
        assert_eq!(chunks[k].pts, mul_div_floor(512 * k as u64, 1_000_000_000, 44_100).unwrap());
    }
}

#[test]
fn exact_spacing_when_duration_is_whole() {
    let mut f = Feeder::new(48_000, 480).unwrap();
    let task = f.on_need_data().unwrap();
    let mut prev: Option<Chunk> = None;
    for _ in 0..20 {
        let c = chunk(f.generate(task));
        assert_eq!(c.duration, 10_000_000);
        if let Some(p) = prev {
            assert_eq!(c.pts - p.pts, p.duration);
        }
        prev = Some(c);
    }
}

#[test]
fn need_data_schedules_one_task() {
    let mut f = Feeder::new(44_100, 512).unwrap();
    assert!(!f.is_feeding());
    assert_eq!(f.on_need_data(), Some(0));
    assert_eq!(f.on_need_data(), None);
    assert_eq!(f.scheduled_task(), Some(0));
    assert_eq!(f.on_enough_data(), Some(0));
    assert_eq!(f.on_enough_data(), None);
    assert_eq!(f.generate(0), Generated::Idle);
    assert!(!f.on_pushed(0, true));
    assert_eq!(f.num_samples(), 0);
    assert_eq!(f.on_need_data(), Some(1));
    assert_eq!(f.generate(0), Generated::Idle);
    assert!(matches!(f.generate(1), Generated::Data(_)));
}

#[test]
fn failed_push_stops_feeding() {
    let mut f = Feeder::new(8_000, 160).unwrap();
    let t = f.on_need_data().unwrap();
    chunk(f.generate(t));
    assert!(!f.on_pushed(t, false));
    assert!(!f.is_feeding());
    assert_eq!(f.generate(t), Generated::Idle);
}

#[test]
fn exhausted_timestamps_stop_feeding() {
    let mut f = Feeder::new(1, u64::MAX / 2).unwrap();
    let t = f.on_need_data().unwrap();
    assert_eq!(f.generate(t), Generated::Exhausted);
    assert!(!f.is_feeding());
}

#[test]
fn arithmetic_helpers() {
    assert!(Feeder::new(0, 512).is_none());
    assert_eq!(mul_div_floor(512, 1_000_000_000, 44_100), Some(11_609_977));
    assert_eq!(mul_div_floor(u64::MAX, 2, 1), None);
    assert_eq!(mul_div_floor(u64::MAX, 2, 2), Some(u64::MAX));
    assert_eq!(samples_to_nanos(44_100, 44_100), Some(1_000_000_000));
    assert_eq!(frames_in_chunk(1024, 0), None);
    assert_eq!(frames_in_chunk(1023, 2), Some(511));
}

#[test]
fn drain_consumes_each_sample() {
    let mut d = Drain::new();
    assert_eq!(d.on_new_sample(true), DrainStatus::Consumed);
    assert_eq!(d.on_new_sample(false), DrainStatus::Consumed);
    assert_eq!(d.on_new_sample(true), DrainStatus::Consumed);
    assert_eq!(d.received(), 2);
}

#[test]
fn teardown_order() {
    let mut life = Lifecycle::new();
    let mut step = life.request(LifecycleState::Active);
    while step.is_some() {
        step = life.on_outcome(StepOutcome::Success);
    }
    let mut f = Feeder::new(44_100, 512).unwrap();
    let t = f.on_need_data().unwrap();
    let steps = teardown(&mut life, &mut f, true);
    assert_eq!(
        steps,
        vec![
            TeardownStep::RemoveWatch,
            TeardownStep::CancelTask(t),
            TeardownStep::AwaitSamples,
            TeardownStep::Release
        ]
    );
    assert!(!f.is_feeding());
    assert_eq!(life.current(), LifecycleState::Unset);
    let steps = teardown(&mut life, &mut f, false);
    assert_eq!(steps, vec![TeardownStep::AwaitSamples, TeardownStep::Release]);
}
