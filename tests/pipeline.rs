use uav_detector::classify::{classify_uav, greater_score};
use uav_detector::ingest::parse_samples;
use uav_detector::library::{LibraryError, ReferenceLibrary};
use uav_detector::processing::{DetectionInfo, ProcessingActor, TickAction, MIN_SAMPLES};
use uav_detector::spectrum::{align_bins, lookup_power};
use uav_detector::subscribers::SubscriberSet;
use uav_detector::window::{SignalWindow, WINDOW_SIZE};

fn bits(values: &[f32]) -> Vec<u32> {
    values.iter().map(|v| v.to_bits()).collect()
}

fn packet(values: &[f32]) -> Vec<u8> {
    let mut out = Vec::new();
    for v in values {
        out.extend_from_slice(&v.to_le_bytes());
    }
    out
}

fn names(list: &[&str]) -> Vec<String> {
    list.iter().map(|s| s.to_string()).collect()
}

#[test]
fn window_keeps_last_w_in_order() {
    let mut w = SignalWindow::new(3);
    w.add_samples(&[1, 2]);
    assert_eq!(w.drain(), vec![1, 2]);
    w.add_samples(&[3, 4, 5, 6]);
    assert_eq!(w.len(), 3);
    assert_eq!(w.drain(), vec![4, 5, 6]);
    w.add_sample(7);
    assert_eq!(w.drain(), vec![5, 6, 7]);
}

#[test]
fn window_never_exceeds_capacity() {
    let mut w = SignalWindow::new(WINDOW_SIZE);
    let batch: Vec<u32> = (0..2500).collect();
    w.add_samples(&batch);
    assert_eq!(w.len(), WINDOW_SIZE);
    let expected: Vec<u32> = (1500..2500).collect();
    assert_eq!(w.drain(), expected);
    assert_eq!(w.max_size(), WINDOW_SIZE);
}

#[test]
fn window_of_zero_capacity_keeps_nothing() {
    let mut w = SignalWindow::new(0);
    w.add_samples(&[1, 2, 3]);
    assert_eq!(w.len(), 0);
}

#[test]
fn drain_leaves_window_unchanged() {
    let mut w = SignalWindow::new(4);
    w.add_samples(&[9, 8]);
    assert_eq!(w.drain(), vec![9, 8]);
    assert_eq!(w.drain(), vec![9, 8]);
}

#[test]
fn clear_then_drain_is_empty() {
    let mut w = SignalWindow::new(4);
    w.add_samples(&[1, 2, 3]);
    w.clear();
    assert!(w.drain().is_empty());
    let mut p = ProcessingActor::new();
    p.add_samples(&bits(&[0.25, 0.5]));
    p.clear_samples();
    assert!(p.get_samples().is_empty());
}

#[test]
fn parse_discards_trailing_bytes() {
    let mut data = packet(&[2.5, -3.0]);
    data.extend_from_slice(&[0xAA, 0xBB, 0xCC]);
    assert_eq!(parse_samples(&data), bits(&[2.5, -3.0]));
    assert!(parse_samples(&[1, 2, 3]).is_empty());
    assert_eq!(parse_samples(&[0x01, 0x02, 0x03, 0x04]), vec![0x0403_0201]);
}

#[test]
fn scenario_packet_reaches_window() {
    let data = packet(&[1.0, -1.0, 0.5]);
    let samples = parse_samples(&data);
    let mut p = ProcessingActor::new();
    p.add_samples(&samples);
    let got: Vec<f32> = p.get_samples().iter().map(|b| f32::from_bits(*b)).collect();
    assert_eq!(got, vec![1.0, -1.0, 0.5]);
}

#[test]
fn scenario_window_of_two_keeps_last_two() {
    let mut p = ProcessingActor::with_window_size(2);
    p.add_samples(&bits(&[1.0, 2.0, 3.0]));
    assert_eq!(p.get_samples(), bits(&[2.0, 3.0]));
}

#[test]
fn scenario_empty_tick_skips_then_next_tick_broadcasts() {
    let mut p = ProcessingActor::new();
    p.subscribe(7);
    assert!(p.tick_input().is_none());
    match p.complete_tick(None) {
        TickAction::Skip => {}
        TickAction::Broadcast { .. } => panic!("an empty window must not broadcast"),
    }
    assert!(p.get_samples().is_empty());

    p.add_samples(&bits(&[0.1, 0.2, 0.3, 0.4]));
    let input = p.tick_input().expect("enough samples to analyse");
    assert_eq!(input, bits(&[0.1, 0.2, 0.3, 0.4]));
    let record = DetectionInfo::calculate(&names(&["quad"]), &bits(&[0.75]), 1234);
    match p.complete_tick(Some(record)) {
        TickAction::Broadcast { record, recipients } => {
            assert_eq!(recipients, vec![7]);
            assert_eq!(record.uav_type(), "quad");
            assert_eq!(record.score(), 0.75f32.to_bits());
            assert_eq!(record.timestamp(), 1234);
        }
        TickAction::Skip => panic!("a record must be broadcast"),
    }
    assert!(p.get_samples().is_empty());
}

#[test]
fn too_few_samples_skip_the_tick() {
    let mut p = ProcessingActor::new();
    p.add_samples(&bits(&[1.0]));
    assert_eq!(MIN_SAMPLES, 2);
    assert!(p.tick_input().is_none());
    match p.complete_tick(None) {
        TickAction::Skip => {}
        TickAction::Broadcast { .. } => panic!("nothing to broadcast"),
    }
    assert_eq!(p.get_samples(), bits(&[1.0]));
}

#[test]
fn scenario_unsubscribed_handle_misses_the_tick() {
    let mut p = ProcessingActor::new();
    p.subscribe(1);
    p.subscribe(2);
    p.unsubscribe(1);
    p.add_samples(&bits(&[0.5, 0.5]));
    match p.complete_tick(Some(DetectionInfo::new())) {
        TickAction::Broadcast { recipients, .. } => assert_eq!(recipients, vec![2]),
        TickAction::Skip => panic!("a record must be broadcast"),
    }
}

#[test]
fn subscribe_twice_keeps_size() {
    let mut s = SubscriberSet::new();
    s.subscribe(5);
    s.subscribe(5);
    assert_eq!(s.len(), 1);
    assert!(s.contains(5));
    s.unsubscribe(6);
    assert_eq!(s.len(), 1);
    assert_eq!(s.snapshot(), vec![5]);
    s.unsubscribe(5);
    assert_eq!(s.len(), 0);
    assert!(!s.contains(5));
}

#[test]
fn processor_subscriptions_are_idempotent() {
    let mut p = ProcessingActor::new();
    p.subscribe(3);
    p.subscribe(3);
    assert_eq!(p.subscriber_count(), 1);
    p.unsubscribe(4);
    assert_eq!(p.subscriber_count(), 1);
}

#[test]
fn classify_against_nothing_is_unknown() {
    let (label, score) = classify_uav(&Vec::new(), &Vec::new());
    assert_eq!(label, "Unknown");
    assert_eq!(f32::from_bits(score), 0.0);
}

#[test]
fn classify_picks_strictly_greatest() {
    let (label, score) =
        classify_uav(&names(&["a", "b", "c"]), &bits(&[0.2, 0.9, 0.4]));
    assert_eq!(label, "b");
    assert_eq!(f32::from_bits(score), 0.9);
}

#[test]
fn classify_keeps_first_of_equal_scores() {
    let (label, _) = classify_uav(&names(&["a", "b"]), &bits(&[0.5, 0.5]));
    assert_eq!(label, "a");
}

#[test]
fn classify_ignores_non_positive_and_nan() {
    let (label, score) =
        classify_uav(&names(&["neg", "zero", "nan"]), &bits(&[-0.5, 0.0, f32::NAN]));
    assert_eq!(label, "Unknown");
    assert_eq!(score, 0);
    let (label, _) = classify_uav(&names(&["nan", "pos"]), &bits(&[f32::NAN, 0.1]));
    assert_eq!(label, "pos");
}

#[test]
fn greater_score_follows_float_order() {
    let cases: [(f32, f32); 8] = [
        (1.0, 0.5),
        (0.5, 1.0),
        (0.0, -0.0),
        (-0.0, 0.0),
        (-1.0, -2.0),
        (f32::INFINITY, 1.0e30),
        (f32::NAN, 0.0),
        (0.0, f32::NEG_INFINITY),
    ];
    for (a, b) in cases {
        assert_eq!(greater_score(a.to_bits(), b.to_bits()), a > b, "{} > {}", a, b);
    }
}

#[test]
fn lookup_takes_last_pair_of_a_frequency() {
    let s = vec![(10, 1), (20, 2), (10, 3)];
    assert_eq!(lookup_power(&s, 10), Some(3));
    assert_eq!(lookup_power(&s, 20), Some(2));
    assert_eq!(lookup_power(&s, 30), None);
}

#[test]
fn bins_align_on_union_with_zero_for_absent() {
    let a = vec![(100, 5), (200, 6)];
    let b = vec![(200, 7), (300, 8)];
    let mut ab = align_bins(&a, &b);
    ab.sort();
    assert_eq!(ab, vec![(100, 5, 0), (200, 6, 7), (300, 0, 8)]);
}

#[test]
fn bins_are_symmetric() {
    let a = vec![(1, 10), (2, 20), (3, 30)];
    let b = vec![(3, 33), (4, 44)];
    let mut ab = align_bins(&a, &b);
    let mut ba: Vec<(u32, u32, u32)> =
        align_bins(&b, &a).into_iter().map(|(f, x, y)| (f, y, x)).collect();
    ab.sort();
    ba.sort();
    assert_eq!(ab, ba);
}

#[test]
fn mismatched_grids_share_no_bin() {
    let a = bits(&[0.0, 1.0, 100.0, 2.0]);
    let b = bits(&[50.0, 1.0, 150.0, 2.0]);
    let live = vec![(a[0], a[1]), (a[2], a[3])];
    let reference = vec![(b[0], b[1]), (b[2], b[3])];
    let aligned = align_bins(&live, &reference);
    assert_eq!(aligned.len(), 4);
    assert!(aligned.iter().all(|(_, x, y)| *x == 0 || *y == 0));
}

#[test]
fn scenario_missing_recording_is_fatal() {
    let entries = vec![
        ("alpha".to_string(), Some(vec![(1, 2)])),
        ("beta".to_string(), None),
        ("gamma".to_string(), None),
    ];
    match ReferenceLibrary::build(entries) {
        Err(e) => assert_eq!(e, LibraryError::RecordingError { index: 1 }),
        Ok(_) => panic!("a missing recording must fail the load"),
    }
}

#[test]
fn duplicate_names_fail_the_load() {
    let entries = vec![
        ("alpha".to_string(), Some(vec![(1, 2)])),
        ("alpha".to_string(), None),
    ];
    match ReferenceLibrary::build(entries) {
        Err(e) => assert_eq!(e, LibraryError::LoadError),
        Ok(_) => panic!("duplicate names must fail the load"),
    }
}

#[test]
fn library_keeps_entries_in_order() {
    let entries = vec![
        ("alpha".to_string(), Some(vec![(1, 2)])),
        ("beta".to_string(), Some(vec![(3, 4), (5, 6)])),
    ];
    let lib = ReferenceLibrary::build(entries).expect("a complete descriptor loads");
    assert_eq!(lib.len(), 2);
    assert_eq!(lib.names(), names(&["alpha", "beta"]));
    assert_eq!(lib.name(1), "beta");
    assert_eq!(lib.spectrum(1), &vec![(3, 4), (5, 6)]);
    assert_eq!(ReferenceLibrary::empty().len(), 0);
}

#[test]
fn new_record_is_unknown_at_zero() {
    let r = DetectionInfo::new();
    assert_eq!(r.uav_type(), "Unknown");
    assert_eq!(r.score(), 0);
    assert_eq!(r.timestamp(), 0);
    let r = DetectionInfo::from_parts(0.5f32.to_bits(), 9, "x".to_string());
    assert_eq!(r.uav_type(), "x");
    assert_eq!(r.timestamp(), 9);
}
