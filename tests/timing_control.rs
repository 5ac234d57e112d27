use gst_learn::{
    align_right, check_discovery, command_for_key, indent_width, join_values, nanos_to_seconds,
    plan_step, rate_seek, same_text, seconds_to_nanos, seek_to, spaces_string, starts_with,
    BufferingPolicy, Command, ControlAction, DiscoveryFailure, DiscoveryOutcome, LifecycleState,
    Rate, SeekBound, SeekFlags, SpeedControl, StepRequest, StreamEntry, TimingError,
    topology_order,
};

#[test]
fn seek_flag_words() {
    let f = SeekFlags { flush: true, key_unit: true, accurate: false };
    assert_eq!(f.bits(), 5);
    assert_eq!(SeekFlags::from_bits(5), f);
    let g = SeekFlags { flush: true, key_unit: false, accurate: true };
    assert_eq!(g.bits(), 3);
    assert_eq!(SeekFlags::from_bits(0xff), SeekFlags { flush: true, key_unit: true, accurate: true });
    let r = seek_to(20_000_000_000, f);
    assert_eq!(r.start, SeekBound::At(20_000_000_000));
    assert_eq!(r.stop, SeekBound::Keep);
    assert_eq!(r.rate, Rate::normal());
}

#[test]
fn rate_seeks_by_direction() {
    let fwd = Rate { reverse: false, exponent: 1 };
    let r = rate_seek(fwd, 7_000);
    assert_eq!(r.start, SeekBound::At(7_000));
    assert_eq!(r.stop, SeekBound::FromEnd(0));
    assert_eq!(r.flags, SeekFlags { flush: true, key_unit: false, accurate: true });
    let back = fwd.reversed();
    let r = rate_seek(back, 7_000);
    assert_eq!(r.start, SeekBound::At(0));
    assert_eq!(r.stop, SeekBound::At(7_000));
    assert_eq!(Rate::normal().doubled(), Some(Rate { reverse: false, exponent: 1 }));
    assert_eq!(Rate::normal().halved(), Some(Rate { reverse: false, exponent: -1 }));
    assert_eq!(
        Rate { reverse: false, exponent: 16 }.doubled(),
        Some(Rate { reverse: false, exponent: 17 })
    );
    let top = Rate { reverse: false, exponent: i8::MAX };
    assert_eq!(top.doubled(), None);
    assert_eq!(Rate { reverse: true, exponent: i8::MIN }.halved(), None);
}

#[test]
fn steps_need_a_started_graph() {
    let r = Rate::normal();
    assert_eq!(plan_step(LifecycleState::Ready, 1, r), Err(TimingError::NotStarted));
    assert_eq!(plan_step(LifecycleState::Paused, 0, r), Err(TimingError::NoFrames));
    assert_eq!(
        plan_step(LifecycleState::Paused, 1, r),
        Ok(StepRequest { frames: 1, exponent: 0, flush: true })
    );
    assert!(plan_step(LifecycleState::Active, 3, r).is_ok());
}

#[test]
fn buffering_policy_edges() {
    let mut p = BufferingPolicy::new(30, false);
    assert_eq!(p.on_level(29), Some(LifecycleState::Paused));
    assert!(p.is_holding());
    assert_eq!(p.on_level(10), None);
    assert_eq!(p.on_level(30), Some(LifecycleState::Active));
    assert_eq!(p.on_level(100), None);
    let mut live = BufferingPolicy::new(30, true);
    assert_eq!(live.on_level(0), None);
}

#[test]
fn seconds_conversions() {
    assert_eq!(seconds_to_nanos(20), Some(20_000_000_000));
    assert_eq!(seconds_to_nanos(u64::MAX), None);
    assert_eq!(nanos_to_seconds(2_999_999_999), 2);
}

#[test]
fn keys_to_commands() {
    assert_eq!(command_for_key('p', false), Some(Command::PlayPause));
    assert_eq!(command_for_key('S', false), Some(Command::RateUp));
    assert_eq!(command_for_key('s', false), Some(Command::RateDown));
    assert_eq!(command_for_key('D', false), Some(Command::Reverse));
    assert_eq!(command_for_key('n', false), Some(Command::NextFrame));
    assert_eq!(command_for_key('Q', false), Some(Command::Quit));
    assert_eq!(command_for_key('c', true), Some(Command::Quit));
    assert_eq!(command_for_key('p', true), None);
    assert_eq!(command_for_key('x', false), None);
}

#[test]
fn speed_control_flow() {
    let mut c = SpeedControl::new();
    assert_eq!(c.on_command(Command::PlayPause, None), ControlAction::SetState(LifecycleState::Paused));
    assert!(!c.is_playing());
    assert_eq!(
        c.on_command(Command::NextFrame, None),
        ControlAction::Step(StepRequest { frames: 1, exponent: 0, flush: true })
    );
    assert_eq!(c.on_command(Command::RateUp, None), ControlAction::Nothing);
    match c.on_command(Command::RateUp, Some(5_000)) {
        ControlAction::Seek(s) => {
            assert_eq!(s.rate, Rate { reverse: false, exponent: 1 });
            assert_eq!(s.start, SeekBound::At(5_000));
        }
        other => panic!("expected a seek, got {:?}", other),
    }
    assert_eq!(c.rate(), Rate::normal());
    c.on_seek_result(true);
    assert_eq!(c.rate(), Rate { reverse: false, exponent: 1 });
    c.on_command(Command::Reverse, Some(9_000));
    c.on_seek_result(false);
    assert_eq!(c.rate(), Rate { reverse: false, exponent: 1 });
    assert_eq!(c.on_command(Command::Quit, None), ControlAction::Quit);
}

#[test]
fn discovery_outcomes() {
    assert_eq!(check_discovery(DiscoveryOutcome::Found), Ok(()));
    assert_eq!(check_discovery(DiscoveryOutcome::InvalidUri), Err(DiscoveryFailure::InvalidUri));
    assert_eq!(check_discovery(DiscoveryOutcome::Error), Err(DiscoveryFailure::Error));
    assert_eq!(check_discovery(DiscoveryOutcome::Timeout), Err(DiscoveryFailure::Timeout));
    assert_eq!(check_discovery(DiscoveryOutcome::Busy), Err(DiscoveryFailure::Busy));
    assert_eq!(
        check_discovery(DiscoveryOutcome::MissingPlugins),
        Err(DiscoveryFailure::MissingPlugins)
    );
}

#[test]
fn text_layout() {
    assert_eq!(spaces_string(3), "   ");
    assert_eq!(align_right("video", 9), "    video");
    assert_eq!(align_right("container", 4), "container");
    assert_eq!(indent_width(2, 5), Some(9));
    assert_eq!(indent_width(usize::MAX, 1), None);
    let v = vec!["en".to_string(), "fr".to_string(), "de".to_string()];
    assert_eq!(join_values(&v), "en, fr, de");
    assert_eq!(join_values(&vec![]), "");
    assert!(starts_with("audio/x-raw, rate=8000", "audio/x-raw"));
    assert!(!starts_with("video/x-raw", "audio/x-raw"));
    assert!(!starts_with("audio", "audio/x-raw"));
    assert!(same_text("tags-changed", "tags-changed"));
    assert!(!same_text("tags", "tags-changed"));
}

#[test]
fn topology_walk_order() {
    // 0: container holding 1 and 3; 1 wraps 2; 3 is a leaf.
    let t = vec![
        StreamEntry { next: None, streams: vec![1, 3] },
        StreamEntry { next: Some(2), streams: vec![] },
        StreamEntry { next: None, streams: vec![] },
        StreamEntry { next: None, streams: vec![] },
    ];
    assert_eq!(topology_order(&t, 0), vec![(0, 1), (1, 2), (2, 3), (3, 2)]);
    assert_eq!(topology_order(&t, 1), vec![(1, 1), (2, 2)]);
    assert_eq!(topology_order(&t, 9), vec![]);
    // A link backwards is not followed.
    let loops = vec![StreamEntry { next: Some(0), streams: vec![] }];
    assert_eq!(topology_order(&loops, 0), vec![(0, 1)]);
}
